use vstd::laws_cmp::obeys_cmp;
use vstd::std_specs::cmp::OrdSpec;
use vstd::prelude::*;

verus! {

/// Where a list view stands: its scroll offset and the selected row.
#[derive(Clone, Debug, Default)]
pub struct ListState {
    offset: usize,
    selected: Option<usize>,
}

impl ListState {
    pub closed spec fn selection(&self) -> Option<usize> {
        self.selected
    }

    pub closed spec fn scroll(&self) -> usize {
        self.offset
    }

    /// A state at the top of the list, with nothing selected.
    pub fn new() -> (r: ListState)
        ensures
            r.selection() is None,
            r.scroll() == 0,
    {
        ListState { offset: 0, selected: None }
    }

    pub fn select(&mut self, selected: Option<usize>)
        ensures
            final(self).selection() == selected,
            final(self).scroll() == old(self).scroll(),
    {
        self.selected = selected;
    }

    pub fn selected(&self) -> (r: Option<usize>)
        ensures
            r == self.selection(),
    {
        self.selected
    }
}

/// Items that carry an identifier of their own.
pub trait InternalID {
    fn internal_id(&self) -> String;
}

/// Identifiers as character sequences.
pub open spec fn ids_view(ids: Seq<String>) -> Seq<Seq<char>> {
    ids.map_values(|s: String| s@)
}

/// The last position at which `id` occurs in `ids`, or -1.
pub open spec fn last_index(ids: Seq<Seq<char>>, id: Seq<char>) -> int
    decreases ids.len(),
{
    if ids.len() == 0 {
        -1
    } else if ids.last() == id {
        ids.len() - 1
    } else {
        last_index(ids.drop_last(), id)
    }
}

proof fn lemma_last_index(ids: Seq<Seq<char>>, id: Seq<char>)
    ensures
        -1 <= last_index(ids, id) < ids.len(),
        last_index(ids, id) >= 0 <==> ids.contains(id),
        last_index(ids, id) >= 0 ==> ids[last_index(ids, id)] == id,
        forall|j: int| last_index(ids, id) < j < ids.len() ==> ids[j] != id,
    decreases ids.len(),
{
    if ids.len() > 0 {
        lemma_last_index(ids.drop_last(), id);
        if ids.last() != id {
            if ids.drop_last().contains(id) {
                let k = choose|k: int| 0 <= k < ids.drop_last().len() && ids.drop_last()[k] == id;
                assert(ids[k] == id);
            }
            if ids.contains(id) {
                let k = choose|k: int| 0 <= k < ids.len() && ids[k] == id;
                assert(ids.drop_last()[k] == id);
            }
            assert forall|j: int| last_index(ids, id) < j < ids.len() implies ids[j] != id by {
                if j < ids.len() - 1 {
                    assert(ids.drop_last()[j] == ids[j]);
                }
            }
        }
    }
}

/// The row after `selected` in a list of `len` rows, wrapping to the first.
pub open spec fn next_row(selected: Option<usize>, len: nat) -> int {
    match selected {
        Some(i) => if i >= len - 1 {
            0
        } else {
            i + 1
        },
        None => 0,
    }
}

/// The row before `selected` in a list of `len` rows, wrapping to the last.
pub open spec fn previous_row(selected: Option<usize>, len: nat) -> int {
    match selected {
        Some(i) => if i == 0 {
            len - 1
        } else {
            i - 1
        },
        None => 0,
    }
}

/// Compares two items so that the greater comes first.
fn descending<T: Ord>(a: &T, b: &T) -> (r: core::cmp::Ordering)
    ensures
        T::obeys_cmp_spec() ==> r == b.cmp_spec(a),
{
    b.cmp(a)
}

/// No item comes before a greater one.
pub open spec fn in_descending_order<T: Ord>(s: Seq<T>) -> bool {
    forall|i: int, j: int|
        0 <= i < j < s.len() ==> #[trigger] s[j].cmp_spec(&s[i]) != core::cmp::Ordering::Greater
}

/// Relies on `slice::sort_by`, which sorts in place by the given comparison:
/// the items come out permuted, each one not greater than those before it.
/// It may panic unless the comparison is a total order.
#[verifier::external_body]
fn sort_descending<T: Ord>(items: &mut Vec<T>)
    requires
        obeys_cmp::<T>(),
    ensures
        final(items)@.to_multiset() == old(items)@.to_multiset(),
        in_descending_order(final(items)@),
{
    items.sort_by(|a, b| descending(a, b));
}

/// A list kept in descending order whose selection follows an item's
/// identifier.
#[derive(Clone, Debug)]
pub struct StatefulOrderedList<T> where T: InternalID + Ord + Clone {
    pub state: ListState,
    pub items: Vec<T>,
    pub selected_item_id: Option<String>,
    /// The identifier that each item reported, position by position.
    item_ids: Vec<String>,
}

impl<T> StatefulOrderedList<T> where T: InternalID + Ord + Clone {
    pub closed spec fn items_view(&self) -> Seq<T> {
        self.items@
    }

    pub closed spec fn selected_id(&self) -> Option<String> {
        self.selected_item_id
    }

    pub closed spec fn list_state(&self) -> ListState {
        self.state
    }

    /// The identifiers that the items reported, in list order.
    pub closed spec fn ids(&self) -> Seq<Seq<char>> {
        ids_view(self.item_ids@)
    }

    /// There is one identifier per item, the selected identifier belongs to
    /// an item, and the selected row is the row of that item.
    pub closed spec fn wf(&self) -> bool {
        &&& self.ids().len() == self.items@.len()
        &&& self.selected_item_id matches Some(id) ==> self.ids().contains(id@)
        &&& self.selected_item_id matches Some(id) ==> self.state.selection() == Some(
            last_index(self.ids(), id@) as usize,
        )
        &&& self.selected_item_id is None ==> self.state.selection() is None
    }

    pub fn new() -> (r: Self)
        ensures
            r.items_view().len() == 0,
            r.selected_id() is None,
            r.list_state().selection() is None,
            r.wf(),
    {
        StatefulOrderedList {
            state: ListState::new(),
            items: Vec::new(),
            selected_item_id: None,
            item_ids: Vec::new(),
        }
    }

    fn position(&self, item_id: &String) -> (r: Option<usize>)
        ensures
            match r {
                Some(i) => i == last_index(self.ids(), item_id@),
                None => !self.ids().contains(item_id@),
            },
    {
        proof {
            lemma_last_index(self.ids(), item_id@);
        }
        let mut i: usize = self.item_ids.len();
        while i > 0
            invariant
                i <= self.ids().len(),
                self.ids().len() == self.item_ids@.len(),
                forall|j: int| i <= j < self.ids().len() ==> self.ids()[j] != item_id@,
                -1 <= last_index(self.ids(), item_id@) < i,
            decreases i,
        {
            proof {
                lemma_last_index(self.ids(), item_id@);
            }
            if self.item_ids[i - 1] == *item_id {
                assert(self.ids()[i - 1] == item_id@);
                return Some(i - 1);
            }
            assert(self.ids()[i - 1] != item_id@);
            i = i - 1;
        }
        None
    }

    pub fn get(&self, item_id: &String) -> (r: &T)
        requires
            self.wf(),
            self.ids().contains(item_id@),
        ensures
            *r == self.items_view()[last_index(self.ids(), item_id@)],
    {
        proof {
            lemma_last_index(self.ids(), item_id@);
        }
        let i = self.position(item_id).unwrap();
        &self.items[i]
    }

    pub fn get_mut(&mut self, item_id: &String) -> (r: &mut T)
        requires
            old(self).wf(),
            old(self).ids().contains(item_id@),
        ensures
            *r == old(self).items_view()[last_index(old(self).ids(), item_id@)],
            final(self).items_view() == old(self).items_view().update(
                last_index(old(self).ids(), item_id@),
                *final(r),
            ),
            final(self).ids() == old(self).ids(),
            final(self).list_state() == old(self).list_state(),
            final(self).selected_id() == old(self).selected_id(),
    {
        proof {
            lemma_last_index(self.ids(), item_id@);
        }
        let i = self.position(item_id).unwrap();
        &mut self.items[i]
    }

    pub fn contains(&self, item_id: &String) -> (r: bool)
        ensures
            r == self.ids().contains(item_id@),
    {
        proof {
            lemma_last_index(self.ids(), item_id@);
        }
        self.position(item_id).is_some()
    }

    pub fn extend(&mut self, items: Vec<T>)
        requires
            obeys_cmp::<T>(),
        ensures
            final(self).items_view().to_multiset() == old(self).items_view().to_multiset().add(
                items@.to_multiset(),
            ),
            in_descending_order(final(self).items_view()),
            final(self).selected_id() is Some ==> final(self).selected_id() == old(self).selected_id(),
            final(self).wf(),
    {
        let mut items = items;
        let ghost before = self.items@;
        let ghost added = items@;
        self.items.append(&mut items);
        proof {
            vstd::seq_lib::lemma_multiset_commutative(before, added);
        }
        self.update_order();
    }

    pub fn push(&mut self, item: T)
        requires
            obeys_cmp::<T>(),
        ensures
            final(self).items_view().to_multiset() == old(self).items_view().to_multiset().insert(item),
            in_descending_order(final(self).items_view()),
            final(self).selected_id() is Some ==> final(self).selected_id() == old(self).selected_id(),
            final(self).wf(),
    {
        let ghost before = self.items@;
        self.items.push(item);
        proof {
            before.to_multiset_ensures();
            assert(self.items@ =~= before.push(item));
        }
        self.update_order();
    }

    pub fn select(&mut self, item_id: &String)
        requires
            old(self).wf(),
            old(self).ids().contains(item_id@),
        ensures
            final(self).selected_id() matches Some(id) && id@ == item_id@,
            final(self).list_state().selection() == Some(
                last_index(old(self).ids(), item_id@) as usize,
            ),
            final(self).items_view() == old(self).items_view(),
            final(self).ids() == old(self).ids(),
            final(self).wf(),
    {
        self.selected_item_id = Some(item_id.clone());
        self.update_state();
    }

    pub fn unselect(&mut self)
        requires
            old(self).wf(),
        ensures
            final(self).selected_id() is None,
            final(self).list_state().selection() is None,
            final(self).items_view() == old(self).items_view(),
            final(self).ids() == old(self).ids(),
            final(self).wf(),
    {
        self.selected_item_id = None;
        self.state.select(None);
    }

    /// Moves the selection one row down, from the last row to the first.
    pub fn next(&mut self)
        requires
            old(self).wf(),
        ensures
            final(self).items_view() == old(self).items_view(),
            old(self).items_view().len() == 0 ==> *final(self) == *old(self),
            old(self).items_view().len() > 0 ==> {
                let i = next_row(old(self).list_state().selection(), old(self).items_view().len());
                &&& final(self).list_state().selection() == Some(i as usize)
                &&& final(self).selected_id() matches Some(id) && id@ == old(self).ids()[i]
            },
    {
        if self.is_empty() {
            return;
        }
        let i = match self.state.selected() {
            Some(i) => {
                if i >= self.items.len() - 1 {
                    0
                } else {
                    i + 1
                }
            },
            None => 0,
        };
        self.state.select(Some(i));
        self.selected_item_id = Some(self.item_ids[i].clone());
    }

    /// Moves the selection one row up, from the first row to the last.
    pub fn previous(&mut self)
        requires
            old(self).wf(),
        ensures
            final(self).items_view() == old(self).items_view(),
            old(self).items_view().len() == 0 ==> *final(self) == *old(self),
            old(self).items_view().len() > 0 ==> {
                let i = previous_row(old(self).list_state().selection(), old(self).items_view().len());
                &&& final(self).list_state().selection() == Some(i as usize)
                &&& final(self).selected_id() matches Some(id) && id@ == old(self).ids()[i]
            },
    {
        if self.is_empty() {
            return;
        }
        proof {
            if self.selected_item_id is Some {
                lemma_last_index(self.ids(), self.selected_item_id->0@);
            }
        }
        let i = match self.state.selected() {
            Some(i) => {
                if i == 0 {
                    self.items.len() - 1
                } else {
                    i - 1
                }
            },
            None => 0,
        };
        self.state.select(Some(i));
        self.selected_item_id = Some(self.item_ids[i].clone());
    }

    pub fn is_empty(&self) -> (r: bool)
        ensures
            r == (self.items_view().len() == 0),
    {
        self.items.len() == 0
    }

    /// Sorts the items from the greatest to the least, asks each for its
    /// identifier again, and puts the selected row back on the selected
    /// item; a selection whose item no longer reports that identifier is
    /// dropped.
    pub fn update_order(&mut self)
        requires
            obeys_cmp::<T>(),
        ensures
            final(self).items_view().to_multiset() == old(self).items_view().to_multiset(),
            in_descending_order(final(self).items_view()),
            final(self).selected_id() is Some ==> final(self).selected_id() == old(self).selected_id(),
            final(self).wf(),
    {
        sort_descending(&mut self.items);
        let mut ids: Vec<String> = Vec::new();
        let mut i: usize = 0;
        while i < self.items.len()
            invariant
                i <= self.items@.len(),
                ids@.len() == i,
            decreases self.items@.len() - i,
        {
            ids.push(self.items[i].internal_id());
            i = i + 1;
        }
        self.item_ids = ids;
        self.update_state();
    }

    fn update_state(&mut self)
        requires
            old(self).ids().len() == old(self).items_view().len(),
        ensures
            final(self).items_view() == old(self).items_view(),
            final(self).ids() == old(self).ids(),
            final(self).selected_id() is Some ==> final(self).selected_id() == old(self).selected_id(),
            old(self).selected_id() matches Some(id) && old(self).ids().contains(id@) ==> final(self).selected_id() == old(self).selected_id(),
            final(self).wf(),
    {
        let found = match &self.selected_item_id {
            None => None,
            Some(id) => self.position(id),
        };
        match found {
            Some(i) => {
                proof {
                    lemma_last_index(self.ids(), self.selected_item_id->0@);
                }
                self.state.select(Some(i));
            },
            None => {
                self.selected_item_id = None;
                self.state.select(None);
            },
        }
    }
}

impl<T> Default for StatefulOrderedList<T> where T: InternalID + Ord + Clone {
    fn default() -> (r: Self)
        ensures
            r.items_view().len() == 0,
            r.selected_id() is None,
            r.list_state().selection() is None,
    {
        StatefulOrderedList::new()
    }
}

} // verus!
