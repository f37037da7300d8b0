use cowchain_farm::ids::IdList;
use cowchain_farm::ownership::{ownership_add, ownership_remove};
use cowchain_farm::store::Store;
use cowchain_farm::types::Address;

fn ids(texts: &[&str]) -> IdList {
    let mut list = IdList::new();
    for text in texts {
        list.push_back(String::from(*text));
    }
    list
}

#[test]
fn a_list_keeps_the_order_of_arrival() {
    let list = ids(&["b", "a", "c"]);
    assert_eq!(list.len(), 3);
    assert_eq!(list.get(0), &String::from("b"));
    assert_eq!(list.get(2), &String::from("c"));
    assert_eq!(list.first_index_of(&String::from("a")), Some(1));
    assert_eq!(list.first_index_of(&String::from("z")), None);
}

#[test]
fn the_first_occurrence_is_found_and_removed() {
    let mut list = ids(&["a", "b", "a", "c"]);
    assert_eq!(list.first_index_of(&String::from("a")), Some(0));
    assert_eq!(list.remove_first(&String::from("a")), Some(0));
    assert_eq!(list, ids(&["b", "a", "c"]));
    assert_eq!(list.remove_first(&String::from("a")), Some(1));
    assert_eq!(list, ids(&["b", "c"]));
}

#[test]
fn removing_an_id_that_is_not_there_changes_nothing() {
    let mut list = ids(&["a", "b"]);
    assert_eq!(list.remove_first(&String::from("z")), None);
    assert_eq!(list, ids(&["a", "b"]));
    let mut empty = IdList::new();
    assert_eq!(empty.remove_first(&String::from("z")), None);
    assert_eq!(empty.len(), 0);
}

#[test]
fn adding_creates_the_list_of_a_new_owner() {
    let mut owners: Store<IdList> = Store::new();
    let alice = Address::new(String::from("alice"));
    let list = ownership_add(&mut owners, &alice, &String::from("cow-1"), 5);
    assert_eq!(list, ids(&["cow-1"]));
    assert_eq!(owners.get(&alice.key, 5 + 120960), Some(&ids(&["cow-1"])));
    assert_eq!(owners.get(&alice.key, 5 + 120961), None);
}

#[test]
fn adding_appends_to_a_live_list() {
    let mut owners: Store<IdList> = Store::new();
    let alice = Address::new(String::from("alice"));
    ownership_add(&mut owners, &alice, &String::from("cow-1"), 0);
    let list = ownership_add(&mut owners, &alice, &String::from("cow-2"), 10);
    assert_eq!(list, ids(&["cow-1", "cow-2"]));
    assert_eq!(owners.len(), 1);
    assert_eq!(owners.live_until_at(0), 120970);
}

#[test]
fn adding_starts_anew_after_the_list_has_lapsed() {
    let mut owners: Store<IdList> = Store::new();
    let alice = Address::new(String::from("alice"));
    ownership_add(&mut owners, &alice, &String::from("cow-1"), 0);
    let list = ownership_add(&mut owners, &alice, &String::from("cow-2"), 120961);
    assert_eq!(list, ids(&["cow-2"]));
}

#[test]
fn removing_takes_the_id_out_and_renews() {
    let mut owners: Store<IdList> = Store::new();
    let alice = Address::new(String::from("alice"));
    ownership_add(&mut owners, &alice, &String::from("cow-1"), 0);
    ownership_add(&mut owners, &alice, &String::from("cow-2"), 0);
    let list = ownership_remove(&mut owners, &alice, &String::from("cow-1"), 1000);
    assert_eq!(list, Some(ids(&["cow-2"])));
    assert_eq!(owners.get(&alice.key, 121960), Some(&ids(&["cow-2"])));
}

#[test]
fn removing_an_id_that_is_not_owned_is_no_error() {
    let mut owners: Store<IdList> = Store::new();
    let alice = Address::new(String::from("alice"));
    ownership_add(&mut owners, &alice, &String::from("cow-1"), 0);
    let list = ownership_remove(&mut owners, &alice, &String::from("cow-9"), 1000);
    assert_eq!(list, Some(ids(&["cow-1"])));
    assert_eq!(owners.live_until_at(0), 121960);
}

#[test]
fn removing_from_an_owner_without_a_list_does_nothing() {
    let mut owners: Store<IdList> = Store::new();
    let bob = Address::new(String::from("bob"));
    assert_eq!(ownership_remove(&mut owners, &bob, &String::from("cow-1"), 0), None);
    assert_eq!(owners.len(), 0);
}
