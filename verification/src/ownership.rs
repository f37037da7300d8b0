//! The ownership index: for each owner the ids of its cows, in the order in
//! which they came.

use vstd::prelude::*;
use crate::constants::LEDGER_AMOUNT_IN_1_WEEK;
use crate::ids::{without_first, IdList};
use crate::store::{is_live, written, Record, Store};
use crate::types::Address;

verus! {

/// The list under `key`, or the empty list where no live record is.
pub open spec fn list_of(
    records: Map<Seq<char>, Record<Seq<Seq<char>>>>,
    key: Seq<char>,
    now: u32,
) -> Seq<Seq<char>> {
    if is_live(records, key, now) {
        records[key].value
    } else {
        Seq::empty()
    }
}

/// The records after `id` was appended to the list under `owner` (a new
/// list where none is alive) and the list renewed for a week.
pub open spec fn ownership_added(
    owners: Map<Seq<char>, Record<Seq<Seq<char>>>>,
    owner: Seq<char>,
    id: Seq<char>,
    now: u32,
) -> Map<Seq<char>, Record<Seq<Seq<char>>>> {
    written(owners, owner, list_of(owners, owner, now).push(id), now, 120960)
}

/// The records after the first occurrence of `id` was taken out of the list
/// under `owner` and the list renewed for a week. Where no list is alive,
/// nothing changes.
pub open spec fn ownership_removed(
    owners: Map<Seq<char>, Record<Seq<Seq<char>>>>,
    owner: Seq<char>,
    id: Seq<char>,
    now: u32,
) -> Map<Seq<char>, Record<Seq<Seq<char>>>> {
    if is_live(owners, owner, now) {
        written(owners, owner, without_first(owners[owner].value, id), now, 120960)
    } else {
        owners
    }
}

/// Appends `id` to the list of `owner`, which is created where none is
/// alive, renews the list for a week, and hands back the list as it is now.
pub fn ownership_add(owners: &mut Store<IdList>, owner: &Address, id: &String, now: u32) -> (list:
    IdList)
    requires
        old(owners).well_formed(),
        now + 120960 <= u32::MAX,
    ensures
        final(owners).well_formed(),
        final(owners)@ == ownership_added(old(owners)@, owner@, id@, now),
        list@ == list_of(old(owners)@, owner@, now).push(id@),
{
    let mut list: IdList = match owners.get(&owner.key, now) {
        Some(list) => list.clone(),
        None => IdList::new(),
    };
    list.push_back(id.clone());
    let copy: IdList = list.clone();
    owners.set(&owner.key, list, now);
    owners.renew(&owner.key, now, LEDGER_AMOUNT_IN_1_WEEK);
    copy
}

/// Takes the first occurrence of `id` out of the list of `owner`, renews
/// the list for a week, and hands back the list as it is now. An id that
/// the list does not hold is no error: the list is only renewed. Where the
/// owner has no live list, nothing changes and nothing is handed back.
pub fn ownership_remove(owners: &mut Store<IdList>, owner: &Address, id: &String, now: u32) -> (list:
    Option<IdList>)
    requires
        old(owners).well_formed(),
        now + 120960 <= u32::MAX,
    ensures
        final(owners).well_formed(),
        final(owners)@ == ownership_removed(old(owners)@, owner@, id@, now),
        list is Some <==> is_live(old(owners)@, owner@, now),
        list is Some ==> list->Some_0@ == without_first(old(owners)@[owner@].value, id@),
{
    let mut list: IdList = match owners.get(&owner.key, now) {
        Some(list) => list.clone(),
        None => {
            return None;
        },
    };
    let _ = list.remove_first(id);
    let copy: IdList = list.clone();
    owners.set(&owner.key, list, now);
    owners.renew(&owner.key, now, LEDGER_AMOUNT_IN_1_WEEK);
    Some(copy)
}

} // verus!
