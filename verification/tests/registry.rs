use ynwm::handle::Handle;
use ynwm::registry::Registry;

#[test]
fn new_registry_is_empty() {
    let r = Registry::new();
    assert!(r.iter().is_empty());
    assert_eq!(r.generation(), 0);
    assert_eq!(r.get(Handle::new(0, 0)), None);
    assert!(!r.contains(Handle::new(0, 0)));
}

#[test]
fn insert_then_get_returns_the_value() {
    let mut r = Registry::new();
    let a = r.insert(41);
    let b = r.insert(42);
    assert_ne!(a, b);
    assert_ne!(a.slot, b.slot);
    assert_eq!(r.get(a), Some(41));
    assert_eq!(r.get(b), Some(42));
    assert!(r.contains(a));
    assert_eq!(a.generation, 0);
    assert_eq!(b.generation, 0);
}

#[test]
fn removed_handle_is_stale() {
    let mut r = Registry::new();
    let h = r.insert(7);
    assert_eq!(r.remove(h), Some(7));
    assert_eq!(r.get(h), None);
    assert!(!r.contains(h));
    assert_eq!(r.remove(h), None);
    assert_eq!(r.generation(), 1);
}

#[test]
fn reused_slot_gets_a_later_generation() {
    let mut r = Registry::new();
    let old = r.insert(7);
    assert_eq!(r.remove(old), Some(7));
    let new = r.insert(8);
    assert_eq!(new.slot, old.slot);
    assert_eq!(new.generation, 1);
    assert!(new.generation > old.generation);
    assert_ne!(new, old);
    assert_eq!(r.get(old), None);
    assert_eq!(r.get(new), Some(8));
    assert_eq!(r.remove(old), None);
    assert_eq!(r.get(new), Some(8));
}

#[test]
fn stale_handle_stays_stale_through_many_operations() {
    let mut r = Registry::new();
    let gone = r.insert(1);
    r.remove(gone);
    let mut issued = Vec::new();
    for round in 0..20u64 {
        let h = r.insert(round);
        assert_ne!(h, gone);
        assert!(h.generation > gone.generation);
        assert_eq!(r.get(gone), None);
        issued.push(h);
        if round % 3 == 0 {
            let victim = issued.remove(0);
            assert!(r.remove(victim).is_some());
            assert_eq!(r.get(gone), None);
        }
    }
}

#[test]
fn remove_of_an_unknown_handle_changes_nothing() {
    let mut r = Registry::new();
    let h = r.insert(3);
    assert_eq!(r.remove(Handle::new(h.slot, h.generation + 5)), None);
    assert_eq!(r.remove(Handle::new(1000, 0)), None);
    assert_eq!(r.get(h), Some(3));
    assert_eq!(r.generation(), 0);
    assert_eq!(r.iter(), vec![(h, 3)]);
}

#[test]
fn iter_lists_exactly_the_live_entries() {
    let mut r = Registry::new();
    let a = r.insert(10);
    let b = r.insert(20);
    let c = r.insert(30);
    r.remove(b);
    let d = r.insert(40);
    let e = r.insert(50);
    r.remove(a);
    let listing = r.iter();
    let mut handles: Vec<Handle> = listing.iter().map(|entry| entry.0).collect();
    assert_eq!(handles.len(), 3);
    for live in [c, d, e] {
        assert_eq!(handles.iter().filter(|h| **h == live).count(), 1);
    }
    for dead in [a, b] {
        assert!(!handles.contains(&dead));
    }
    for (h, value) in &listing {
        assert_eq!(r.get(*h), Some(*value));
    }
    handles.dedup();
    assert_eq!(handles.len(), 3);
}

#[test]
fn iter_goes_by_ascending_slot() {
    let mut r = Registry::new();
    for value in 0..10u64 {
        r.insert(value);
    }
    let listing = r.iter();
    assert_eq!(listing.len(), 10);
    for pair in listing.windows(2) {
        assert!(pair[0].0.slot < pair[1].0.slot);
    }
}

#[test]
fn iter_can_be_repeated() {
    let mut r = Registry::new();
    r.insert(1);
    r.insert(2);
    assert_eq!(r.iter(), r.iter());
}

#[test]
fn get_mut_writes_one_value() {
    let mut r = Registry::new();
    let a = r.insert(1);
    let b = r.insert(2);
    match r.get_mut(a) {
        Some(value) => {
            assert_eq!(*value, 1);
            *value = 11;
        }
        None => panic!("a live handle was not found"),
    }
    assert_eq!(r.get(a), Some(11));
    assert_eq!(r.get(b), Some(2));
    r.remove(a);
    assert!(r.get_mut(a).is_none());
}

#[test]
fn find_gives_the_entry_of_the_lowest_slot() {
    let mut r = Registry::new();
    let a = r.insert(5);
    let b = r.insert(6);
    let c = r.insert(5);
    assert_eq!(r.find(6), Some(b));
    assert_eq!(r.find(7), None);
    let first = r.find(5).unwrap();
    assert!(first == a || first == c);
    assert_eq!(first.slot, a.slot.min(c.slot));
    r.remove(first);
    let second = r.find(5).unwrap();
    assert_ne!(second, first);
    r.remove(second);
    assert_eq!(r.find(5), None);
}

#[test]
fn generation_counts_removals_only() {
    let mut r = Registry::new();
    let a = r.insert(1);
    let b = r.insert(2);
    assert_eq!(r.generation(), 0);
    r.remove(a);
    assert_eq!(r.generation(), 1);
    r.remove(a);
    assert_eq!(r.generation(), 1);
    r.remove(b);
    assert_eq!(r.generation(), 2);
    let c = r.insert(3);
    assert_eq!(c.generation, 2);
}

#[test]
fn registry_grows_past_its_first_slots() {
    let mut r = Registry::new();
    let mut handles = Vec::new();
    for value in 0..100u64 {
        handles.push(r.insert(value));
    }
    for (value, h) in handles.iter().enumerate() {
        assert_eq!(r.get(*h), Some(value as u64));
    }
    assert_eq!(r.iter().len(), 100);
}

#[test]
fn checked_remove_removes_like_remove() {
    let mut r = Registry::new();
    let h = r.insert(9);
    assert_eq!(r.checked_remove(Handle::new(h.slot + 1, 0)), Some(None));
    assert_eq!(r.get(h), Some(9));
    assert_eq!(r.checked_remove(h), Some(Some(9)));
    assert_eq!(r.get(h), None);
    assert_eq!(r.checked_remove(h), Some(None));
    assert_eq!(r.generation(), 1);
}
