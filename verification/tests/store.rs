use cowchain_farm::store::{Kept, Slot, Store};

#[test]
fn an_empty_store_holds_nothing() {
    let store: Store<String> = Store::new();
    assert_eq!(store.len(), 0);
    assert_eq!(store.probe(&String::from("a"), 0), Slot::Absent);
    assert!(!store.has(&String::from("a"), 0));
    assert_eq!(store.get(&String::from("a"), 0), None);
}

#[test]
fn a_new_record_lives_through_the_current_ledger() {
    let mut store: Store<String> = Store::new();
    let key = String::from("a");
    store.set(&key, String::from("one"), 10);
    assert_eq!(store.probe(&key, 10), Slot::Live);
    assert_eq!(store.get(&key, 10), Some(&String::from("one")));
    assert_eq!(store.probe(&key, 11), Slot::Expired);
    assert_eq!(store.get(&key, 11), None);
    assert_eq!(store.live_until_at(0), 10);
}

#[test]
fn a_renewed_record_lives_for_the_window() {
    let mut store: Store<String> = Store::new();
    let key = String::from("a");
    store.set(&key, String::from("one"), 10);
    store.renew(&key, 10, 17280);
    assert!(store.has(&key, 17290));
    assert!(!store.has(&key, 17291));
    assert_eq!(store.probe(&key, 17291), Slot::Expired);
    assert_eq!(store.probe(&String::from("b"), 17291), Slot::Absent);
}

#[test]
fn renewing_never_shortens_a_life() {
    let mut store: Store<String> = Store::new();
    let key = String::from("a");
    store.set(&key, String::from("one"), 0);
    store.renew(&key, 0, 120960);
    store.renew(&key, 100, 17280);
    assert_eq!(store.live_until_at(0), 120960);
    store.renew(&key, 110000, 17280);
    assert_eq!(store.live_until_at(0), 127280);
}

#[test]
fn a_lapsed_record_is_not_renewed() {
    let mut store: Store<String> = Store::new();
    let key = String::from("a");
    store.set(&key, String::from("one"), 0);
    store.renew(&key, 0, 100);
    store.renew(&key, 101, 100);
    assert_eq!(store.probe(&key, 101), Slot::Expired);
    assert_eq!(store.live_until_at(0), 100);
    store.renew(&String::from("b"), 0, 100);
    assert_eq!(store.len(), 1);
}

#[test]
fn writing_over_a_live_record_keeps_its_life() {
    let mut store: Store<String> = Store::new();
    let key = String::from("a");
    store.set(&key, String::from("one"), 0);
    store.renew(&key, 0, 100);
    store.set(&key, String::from("two"), 50);
    assert_eq!(store.len(), 1);
    assert_eq!(store.get(&key, 100), Some(&String::from("two")));
    assert_eq!(store.get(&key, 101), None);
}

#[test]
fn writing_over_a_lapsed_record_starts_anew() {
    let mut store: Store<String> = Store::new();
    let key = String::from("a");
    store.set(&key, String::from("one"), 0);
    store.set(&key, String::from("two"), 50);
    assert_eq!(store.len(), 1);
    assert_eq!(store.get(&key, 50), Some(&String::from("two")));
    assert_eq!(store.get(&key, 51), None);
}

#[test]
fn removing_deletes_one_record() {
    let mut store: Store<String> = Store::new();
    store.set(&String::from("a"), String::from("one"), 0);
    store.set(&String::from("b"), String::from("two"), 0);
    store.set(&String::from("c"), String::from("three"), 0);
    store.remove(&String::from("b"));
    store.remove(&String::from("z"));
    assert_eq!(store.len(), 2);
    assert_eq!(store.probe(&String::from("b"), 0), Slot::Absent);
    assert_eq!(store.get(&String::from("a"), 0), Some(&String::from("one")));
    assert_eq!(store.get(&String::from("c"), 0), Some(&String::from("three")));
}

#[test]
fn restoring_sets_value_and_life() {
    let mut store: Store<String> = Store::new();
    store.restore(&String::from("a"), String::from("one"), 500);
    store.restore(&String::from("a"), String::from("two"), 300);
    assert_eq!(store.len(), 1);
    assert_eq!(store.key_at(0), &String::from("a"));
    assert_eq!(store.value_at(0), &String::from("two"));
    assert_eq!(store.live_until_at(0), 300);
}

#[test]
fn a_single_record_expires_like_the_others() {
    let mut kept: Kept<String> = Kept::new();
    assert!(!kept.has(0));
    assert_eq!(kept.get(0), None);
    kept.renew(0, 100);
    assert!(!kept.has(0));
    kept.set(String::from("one"), 7);
    assert!(kept.has(7));
    assert!(!kept.has(8));
    kept.renew(7, 483840);
    assert_eq!(kept.get(483847), Some(&String::from("one")));
    assert_eq!(kept.get(483848), None);
    kept.set(String::from("two"), 100);
    assert_eq!(kept.live_until(), Some(483847));
    kept.set(String::from("three"), 483848);
    assert_eq!(kept.live_until(), Some(483848));
    let restored: Kept<String> = Kept::restore(String::from("four"), 9);
    assert_eq!(restored.get(9), Some(&String::from("four")));
}

#[test]
fn evicting_drops_the_lapsed_and_keeps_the_rest() {
    let mut store: Store<String> = Store::new();
    store.restore(&String::from("a"), String::from("one"), 10);
    store.restore(&String::from("b"), String::from("two"), 20);
    store.restore(&String::from("c"), String::from("three"), 5);
    store.restore(&String::from("d"), String::from("four"), 11);
    store.evict(11);
    assert_eq!(store.len(), 2);
    assert_eq!(store.probe(&String::from("a"), 11), Slot::Absent);
    assert_eq!(store.probe(&String::from("c"), 11), Slot::Absent);
    assert_eq!(store.get(&String::from("b"), 11), Some(&String::from("two")));
    assert_eq!(store.get(&String::from("d"), 11), Some(&String::from("four")));
    assert_eq!(store.get(&String::from("b"), 20), Some(&String::from("two")));
    store.evict(21);
    assert_eq!(store.len(), 0);
    let mut kept: Kept<String> = Kept::restore(String::from("one"), 10);
    kept.evict(10);
    assert_eq!(kept.get(10), Some(&String::from("one")));
    kept.evict(11);
    assert!(kept.content.is_none());
    assert_eq!(kept.live_until(), None);
}
