use scene_engine::children::Children;
use scene_engine::coerce;

#[test]
fn push_keeps_insertion_order() {
    let mut ch: Children<u32> = Children::new();
    ch.push(10);
    ch.push(20);
    ch.push(30);
    let seen: Vec<u32> = ch.iter().copied().collect();
    assert_eq!(seen, vec![10, 20, 30]);
}

#[test]
fn indexed_access_matches_order() {
    let mut ch: Children<&'static str> = Children::default();
    ch.push("a");
    ch.push("b");
    ch.push("c");
    assert_eq!(ch.len(), 3);
    assert_eq!(*ch.get(0), "a");
    assert_eq!(*ch.get(1), "b");
    assert_eq!(*ch.get(2), "c");
    assert_eq!(ch.get_all().len(), 3);
}

#[test]
fn get_mut_updates_in_place() {
    let mut ch: Children<u32> = Children::new();
    ch.push(1);
    ch.push(2);
    *ch.get_mut(1) = 99;
    assert_eq!(*ch.get(0), 1);
    assert_eq!(*ch.get(1), 99);
}

#[test]
fn single_holds_one_element() {
    let ch = Children::single(7u32);
    assert_eq!(ch.len(), 1);
    assert_eq!(*ch.get(0), 7);
}

#[test]
fn coerce_borrows_box_contents() {
    let b = Box::new(42u32);
    assert_eq!(*coerce(&b), 42);
}
