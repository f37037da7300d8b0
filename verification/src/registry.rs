//! The registry of cows: each cow under its id, and each name under which a
//! live cow goes, so that no two live cows bear one name.

use vstd::prelude::*;
use crate::constants::LEDGER_AMOUNT_IN_24_HOURS;
use crate::enums::Status;
use crate::store::{is_live, written, Record, Store};
use crate::types::{CowData, CowDataView};

verus! {

/// The cows after `cow` was entered under its id, to live for a day.
pub open spec fn cows_with(
    cows: Map<Seq<char>, Record<CowDataView>>,
    cow: CowDataView,
    now: u32,
) -> Map<Seq<char>, Record<CowDataView>> {
    written(cows, cow.id, cow, now, 17280)
}

/// The names after the name of `cow` was entered, to live for a day.
pub open spec fn names_with(
    names: Map<Seq<char>, Record<Seq<char>>>,
    cow: CowDataView,
    now: u32,
) -> Map<Seq<char>, Record<Seq<char>>> {
    written(names, cow.name, cow.id, now, 17280)
}

/// The names after the cow under `id` was removed: the name of a cow that
/// was alive goes with it.
pub open spec fn names_without(
    names: Map<Seq<char>, Record<Seq<char>>>,
    cows: Map<Seq<char>, Record<CowDataView>>,
    id: Seq<char>,
    now: u32,
) -> Map<Seq<char>, Record<Seq<char>>> {
    if is_live(cows, id, now) {
        names.remove(cows[id].value.name)
    } else {
        names
    }
}

/// Enters `cow` under its id and its name, each to live for a day.
/// `Duplicate`, and nothing changes, where a live cow bears the name.
pub fn create(cows: &mut Store<CowData>, names: &mut Store<String>, cow: CowData, now: u32) -> (status:
    Status)
    requires
        old(cows).well_formed(),
        old(names).well_formed(),
        now + 17280 <= u32::MAX,
    ensures
        final(cows).well_formed(),
        final(names).well_formed(),
        status == if is_live(old(names)@, cow@.name, now) {
            Status::Duplicate
        } else {
            Status::Success
        },
        final(cows)@ == if status == Status::Success {
            cows_with(old(cows)@, cow@, now)
        } else {
            old(cows)@
        },
        final(names)@ == if status == Status::Success {
            names_with(old(names)@, cow@, now)
        } else {
            old(names)@
        },
{
    if names.has(&cow.name, now) {
        return Status::Duplicate;
    }
    let id: String = cow.id.clone();
    let name: String = cow.name.clone();
    cows.set(&id, cow, now);
    cows.renew(&id, now, LEDGER_AMOUNT_IN_24_HOURS);
    names.set(&name, id.clone(), now);
    names.renew(&name, now, LEDGER_AMOUNT_IN_24_HOURS);
    Status::Success
}

/// The cow under `id`, or `NotFound` where none is alive: whether it was
/// never there, was removed or has lapsed makes no difference here.
pub fn get<'a>(cows: &'a Store<CowData>, id: &String, now: u32) -> (found: Result<
    &'a CowData,
    Status,
>)
    requires
        cows.well_formed(),
    ensures
        found is Ok <==> is_live(cows@, id@, now),
        found is Ok ==> found->Ok_0@ == cows@[id@].value,
        found is Err ==> found->Err_0 == Status::NotFound,
{
    match cows.get(id, now) {
        Some(cow) => Ok(cow),
        None => Err(Status::NotFound),
    }
}

/// Deletes the cow under `id`, and with a cow that is alive its name.
pub fn remove(cows: &mut Store<CowData>, names: &mut Store<String>, id: &String, now: u32)
    requires
        old(cows).well_formed(),
        old(names).well_formed(),
    ensures
        final(cows).well_formed(),
        final(names).well_formed(),
        final(cows)@ == old(cows)@.remove(id@),
        final(names)@ == names_without(old(names)@, old(cows)@, id@, now),
{
    let name: Option<String> = match cows.get(id, now) {
        Some(cow) => Some(cow.name.clone()),
        None => None,
    };
    match name {
        Some(name) => {
            names.remove(&name);
        },
        None => {},
    }
    cows.remove(id);
}

} // verus!
