use vstd::prelude::*;

verus! {

/// `s` without the slashes at its end.
pub open spec fn trim_end_slashes(s: Seq<char>) -> Seq<char>
    decreases s.len(),
{
    if s.len() > 0 && s.last() == '/' {
        trim_end_slashes(s.drop_last())
    } else {
        s
    }
}

/// `s` without the slashes at its start.
pub open spec fn trim_start_slashes(s: Seq<char>) -> Seq<char>
    decreases s.len(),
{
    if s.len() > 0 && s[0] == '/' {
        trim_start_slashes(s.subrange(1, s.len() as int))
    } else {
        s
    }
}

/// The absolute URL of `endpoint` under the service root `base`: the two
/// are joined by exactly one slash, whatever slashes they carried.
pub open spec fn joined_url(base: Seq<char>, endpoint: Seq<char>) -> Seq<char> {
    trim_end_slashes(base) + seq!['/'] + trim_start_slashes(endpoint)
}

proof fn lemma_trim_end_prefix(s: Seq<char>, end: int)
    requires
        0 <= end < s.len(),
        s[end] == '/',
    ensures
        trim_end_slashes(s.subrange(0, end + 1)) == trim_end_slashes(s.subrange(0, end)),
{
    assert(s.subrange(0, end + 1).drop_last() =~= s.subrange(0, end));
}

proof fn lemma_trim_start_suffix(s: Seq<char>, start: int)
    requires
        0 <= start < s.len(),
        s[start] == '/',
    ensures
        trim_start_slashes(s.subrange(start, s.len() as int)) == trim_start_slashes(
            s.subrange(start + 1, s.len() as int),
        ),
{
    let t = s.subrange(start, s.len() as int);
    assert(t.subrange(1, t.len() as int) =~= s.subrange(start + 1, s.len() as int));
}

/// Joins a service root and an endpoint path into one URL with a single slash
/// between them.
pub fn build_url(base: &str, endpoint: &str) -> (r: String)
    ensures
        r@ == joined_url(base@, endpoint@),
{
    let base_len = base.unicode_len();
    let mut end: usize = base_len;
    assert(base@.subrange(0, base_len as int) =~= base@);
    while end > 0 && base.get_char(end - 1) == '/'
        invariant
            end <= base_len,
            base_len == base@.len(),
            trim_end_slashes(base@) == trim_end_slashes(base@.subrange(0, end as int)),
        decreases end,
    {
        proof {
            lemma_trim_end_prefix(base@, end - 1);
        }
        end = end - 1;
    }
    let head = base.substring_char(0, end);
    assert(trim_end_slashes(head@) == head@);

    let endpoint_len = endpoint.unicode_len();
    let mut start: usize = 0;
    assert(endpoint@.subrange(0, endpoint_len as int) =~= endpoint@);
    while start < endpoint_len && endpoint.get_char(start) == '/'
        invariant
            start <= endpoint_len,
            endpoint_len == endpoint@.len(),
            trim_start_slashes(endpoint@) == trim_start_slashes(
                endpoint@.subrange(start as int, endpoint_len as int),
            ),
        decreases endpoint_len - start,
    {
        proof {
            lemma_trim_start_suffix(endpoint@, start as int);
        }
        start = start + 1;
    }
    let tail = endpoint.substring_char(start, endpoint_len);
    assert(trim_start_slashes(tail@) == tail@);

    let mut url = String::from_str(head);
    let slash = "/";
    proof {
        reveal_strlit("/");
    }
    url.append(slash);
    url.append(tail);
    assert(url@ =~= joined_url(base@, endpoint@));
    url
}

/// The character of the decimal digit `d`.
pub open spec fn digit_char(d: nat) -> char {
    seq!['0', '1', '2', '3', '4', '5', '6', '7', '8', '9'][d as int]
}

/// The decimal representation of `n`, without leading zeros.
pub open spec fn decimal(n: nat) -> Seq<char>
    decreases n,
{
    if n < 10 {
        seq![digit_char(n)]
    } else {
        decimal(n / 10).push(digit_char(n % 10))
    }
}

fn digit_text(d: u32) -> (r: &'static str)
    requires
        d < 10,
    ensures
        r@ == seq![digit_char(d as nat)],
{
    proof {
        reveal_strlit("0");
        reveal_strlit("1");
        reveal_strlit("2");
        reveal_strlit("3");
        reveal_strlit("4");
        reveal_strlit("5");
        reveal_strlit("6");
        reveal_strlit("7");
        reveal_strlit("8");
        reveal_strlit("9");
    }
    match d {
        0 => "0",
        1 => "1",
        2 => "2",
        3 => "3",
        4 => "4",
        5 => "5",
        6 => "6",
        7 => "7",
        8 => "8",
        _ => "9",
    }
}

/// The decimal text of a number, as it appears in paths and messages.
pub fn decimal_text(n: u32) -> (r: String)
    ensures
        r@ == decimal(n as nat),
    decreases n,
{
    if n < 10 {
        String::from_str(digit_text(n))
    } else {
        let mut s = decimal_text(n / 10);
        s.append(digit_text(n % 10));
        s
    }
}

/// What `url::Url::parse_with_params` gives for a URL and query pairs: the
/// serialized URL, or the text of the parse error.
pub uninterp spec fn url_with_query(
    uri: Seq<char>,
    params: Seq<(Seq<char>, Seq<char>)>,
) -> Result<Seq<char>, Seq<char>>;

/// Query pairs as character sequences.
pub open spec fn pairs_view(params: Seq<(String, String)>) -> Seq<(Seq<char>, Seq<char>)> {
    params.map_values(|p: (String, String)| (p.0@, p.1@))
}

/// A textual result as character sequences.
pub open spec fn text_result(r: Result<String, String>) -> Result<Seq<char>, Seq<char>> {
    match r {
        Ok(s) => Ok(s@),
        Err(e) => Err(e@),
    }
}

/// Relies on `url::Url::parse_with_params`: parses `uri` as an absolute URL
/// and appends the pairs, form-urlencoded, as its query. The outcome, and the
/// text of a parse error, depend on the arguments alone.
#[verifier::external_body]
fn parse_with_params(uri: &str, params: &Vec<(String, String)>) -> (r: Result<String, String>)
    ensures
        text_result(r) == url_with_query(uri@, pairs_view(params@)),
{
    url::Url::parse_with_params(uri, params.iter()).map(String::from).map_err(|e| e.to_string())
}

/// The URL of a request: `uri` with the query pairs appended, or the reason
/// why `uri` is no URL.
pub fn request_url(uri: &str, params: &Vec<(String, String)>) -> (r: Result<String, String>)
    ensures
        text_result(r) == url_with_query(uri@, pairs_view(params@)),
{
    parse_with_params(uri, params)
}

} // verus!
