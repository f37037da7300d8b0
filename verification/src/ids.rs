//! An ordered list of ids, as an owner's cows or the open auctions are kept.

use vstd::prelude::*;
use crate::types::views;

verus! {

/// How often `id` occurs in `ids`.
pub open spec fn occurrences(ids: Seq<Seq<char>>, id: Seq<char>) -> nat
    decreases ids.len(),
{
    if ids.len() == 0 {
        0
    } else {
        occurrences(ids.drop_last(), id) + if ids.last() == id {
            1nat
        } else {
            0nat
        }
    }
}

/// Whether `i` is the first place at which `id` stands in `ids`.
pub open spec fn is_first_place(ids: Seq<Seq<char>>, id: Seq<char>, i: int) -> bool {
    &&& 0 <= i < ids.len()
    &&& ids[i] == id
    &&& forall|j: int| 0 <= j < i ==> ids[j] != id
}

/// The list without the first occurrence of `id`; the list itself where
/// `id` does not occur.
pub open spec fn without_first(ids: Seq<Seq<char>>, id: Seq<char>) -> Seq<Seq<char>> {
    if exists|i: int| is_first_place(ids, id, i) {
        ids.remove(choose|i: int| is_first_place(ids, id, i))
    } else {
        ids
    }
}

/// An id occurs as often as it is counted: not at all exactly when the list
/// does not contain it.
pub proof fn occurrences_and_contains(ids: Seq<Seq<char>>, id: Seq<char>)
    ensures
        occurrences(ids, id) == 0 <==> !ids.contains(id),
    decreases ids.len(),
{
    if ids.len() > 0 {
        occurrences_and_contains(ids.drop_last(), id);
        if ids.contains(id) {
            let i = choose|i: int| 0 <= i < ids.len() && ids[i] == id;
            if i < ids.len() - 1 {
                assert(ids.drop_last()[i] == id);
            }
        }
        if ids.drop_last().contains(id) {
            let i = choose|i: int| 0 <= i < ids.drop_last().len() && ids.drop_last()[i] == id;
            assert(ids[i] == id);
        }
        if ids.last() == id {
            assert(ids[ids.len() - 1] == id);
        }
    }
}

/// Appending an id adds one occurrence of it and none of any other.
pub proof fn occurrences_after_push(ids: Seq<Seq<char>>, new_id: Seq<char>, id: Seq<char>)
    ensures
        occurrences(ids.push(new_id), id) == occurrences(ids, id) + if new_id == id {
            1nat
        } else {
            0nat
        },
{
    assert(ids.push(new_id).drop_last() =~= ids);
    assert(ids.push(new_id).last() == new_id);
}

/// Taking out the element at place `i` takes away one occurrence of it and
/// none of any other.
pub proof fn occurrences_after_remove(ids: Seq<Seq<char>>, i: int, id: Seq<char>)
    requires
        0 <= i < ids.len(),
    ensures
        occurrences(ids.remove(i), id) + (if ids[i] == id {
            1nat
        } else {
            0nat
        }) == occurrences(ids, id),
    decreases ids.len(),
{
    if i == ids.len() - 1 {
        assert(ids.remove(i) =~= ids.drop_last());
    } else {
        occurrences_after_remove(ids.drop_last(), i, id);
        assert(ids.remove(i).drop_last() =~= ids.drop_last().remove(i));
        assert(ids.remove(i).last() == ids.last());
    }
}

/// Taking out the first occurrence of `id` takes away one occurrence of it,
/// if there is any, and none of any other id.
pub proof fn occurrences_without_first(ids: Seq<Seq<char>>, id: Seq<char>, other: Seq<char>)
    ensures
        other != id ==> occurrences(without_first(ids, id), other) == occurrences(ids, other),
        occurrences(ids, id) == 0 ==> without_first(ids, id) == ids,
        occurrences(ids, id) > 0 ==> occurrences(without_first(ids, id), id) == occurrences(
            ids,
            id,
        ) - 1,
{
    occurrences_and_contains(ids, id);
    if exists|i: int| is_first_place(ids, id, i) {
        let i = choose|i: int| is_first_place(ids, id, i);
        assert(ids.contains(id));
        occurrences_after_remove(ids, i, id);
        occurrences_after_remove(ids, i, other);
    } else {
        if ids.contains(id) {
            first_place_exists(ids, id);
        }
    }
}

/// An id that the list contains has a first place in it.
pub proof fn first_place_exists(ids: Seq<Seq<char>>, id: Seq<char>)
    requires
        ids.contains(id),
    ensures
        exists|i: int| is_first_place(ids, id, i),
    decreases ids.len(),
{
    let k = choose|k: int| 0 <= k < ids.len() && ids[k] == id;
    if ids.drop_last().contains(id) {
        first_place_exists(ids.drop_last(), id);
        let i = choose|i: int| is_first_place(ids.drop_last(), id, i);
        assert(ids[i] == ids.drop_last()[i]);
        assert forall|j: int| 0 <= j < i implies ids[j] != id by {
            assert(ids[j] == ids.drop_last()[j]);
        }
        assert(is_first_place(ids, id, i));
    } else {
        assert(k == ids.len() - 1) by {
            if k < ids.len() - 1 {
                assert(ids.drop_last()[k] == id);
            }
        }
        assert forall|j: int| 0 <= j < k implies ids[j] != id by {
            if ids[j] == id {
                assert(ids.drop_last()[j] == id);
            }
        }
        assert(is_first_place(ids, id, k));
    }
}

/// A list of ids in the order in which they were added.
#[derive(Debug, PartialEq, Eq)]
pub struct IdList {
    pub ids: Vec<String>,
}

impl View for IdList {
    type V = Seq<Seq<char>>;

    open spec fn view(&self) -> Seq<Seq<char>> {
        views(self.ids@)
    }
}

impl Clone for IdList {
    fn clone(&self) -> (copy: IdList)
        ensures
            copy@ == self@,
    {
        let mut ids: Vec<String> = Vec::new();
        let mut i: usize = 0;
        while i < self.ids.len()
            invariant
                i <= self.ids.len(),
                ids.len() == i,
                forall|j: int| 0 <= j < i ==> ids[j]@ == self.ids[j]@,
            decreases self.ids.len() - i,
        {
            ids.push(self.ids[i].clone());
            i = i + 1;
        }
        let copy = IdList { ids };
        proof {
            assert(copy@ =~= self@);
        }
        copy
    }
}

impl IdList {
    /// The empty list.
    pub fn new() -> (list: IdList)
        ensures
            list@ == Seq::<Seq<char>>::empty(),
    {
        let list = IdList { ids: Vec::new() };
        proof {
            assert(list@ =~= Seq::empty());
        }
        list
    }

    /// The number of ids in the list.
    pub fn len(&self) -> (n: usize)
        ensures
            n == self@.len(),
    {
        self.ids.len()
    }

    /// The id at place `i`.
    pub fn get(&self, i: usize) -> (id: &String)
        requires
            i < self@.len(),
        ensures
            id@ == self@[i as int],
    {
        &self.ids[i]
    }

    /// Appends `id`.
    pub fn push_back(&mut self, id: String)
        ensures
            final(self)@ == old(self)@.push(id@),
    {
        self.ids.push(id);
        proof {
            assert(self@ =~= old(self)@.push(id@));
        }
    }

    /// The first place at which `id` stands, if it occurs.
    pub fn first_index_of(&self, id: &String) -> (found: Option<usize>)
        ensures
            match found {
                Some(i) => is_first_place(self@, id@, i as int),
                None => !self@.contains(id@),
            },
    {
        let mut i: usize = 0;
        while i < self.ids.len()
            invariant
                i <= self.ids.len(),
                self@.len() == self.ids.len(),
                forall|j: int| 0 <= j < i ==> self@[j] != id@,
            decreases self.ids.len() - i,
        {
            if self.ids[i] == *id {
                return Some(i);
            }
            i = i + 1;
        }
        None
    }

    /// Takes out the first occurrence of `id` and says where it stood; a list
    /// in which `id` does not occur stays as it is.
    pub fn remove_first(&mut self, id: &String) -> (found: Option<usize>)
        ensures
            final(self)@ == without_first(old(self)@, id@),
            match found {
                Some(i) => is_first_place(old(self)@, id@, i as int),
                None => !old(self)@.contains(id@),
            },
    {
        let found = self.first_index_of(id);
        match found {
            Some(i) => {
                let _ = self.ids.remove(i);
                proof {
                    let chosen = choose|k: int| is_first_place(old(self)@, id@, k);
                    assert(chosen == i);
                    assert(self@ =~= old(self)@.remove(i as int));
                }
            },
            None => {
                proof {
                    if exists|k: int| is_first_place(old(self)@, id@, k) {
                        let k = choose|k: int| is_first_place(old(self)@, id@, k);
                        assert(old(self)@[k] == id@);
                    }
                }
            },
        }
        found
    }
}

} // verus!
