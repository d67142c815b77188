use vstd::prelude::*;

verus! {

/// A credential pair: the bearer token sent with each authenticated request and
/// the token that is exchanged for a new pair once the first one expires.
#[derive(Clone, Debug)]
pub struct Auth {
    pub access_token: String,
    pub refresh_token: String,
}

/// The tokens of a credential pair, as character sequences.
pub type Tokens = (Seq<char>, Seq<char>);

impl View for Auth {
    type V = Tokens;

    open spec fn view(&self) -> Tokens {
        (self.access_token@, self.refresh_token@)
    }
}

/// The tokens of an optional credential pair.
pub open spec fn tokens_of(auth: Option<Auth>) -> Option<Tokens> {
    match auth {
        Some(a) => Some(a@),
        None => None,
    }
}

impl Auth {
    pub fn new(token: &str, refresh_token: &str) -> (r: Auth)
        ensures
            r@ == (token@, refresh_token@),
    {
        Auth { access_token: token.to_owned(), refresh_token: refresh_token.to_owned() }
    }

    /// A copy of the pair that holds the same tokens.
    pub fn duplicate(&self) -> (r: Auth)
        ensures
            r@ == self@,
    {
        Auth::new(self.access_token.as_str(), self.refresh_token.as_str())
    }
}

} // verus!
