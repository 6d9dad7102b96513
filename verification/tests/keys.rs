use game::util::{Event, KeyCode, KeySet};

const A: KeyCode = KeyCode { code: 1 };
const B: KeyCode = KeyCode { code: 2 };
const ESCAPE: KeyCode = KeyCode { code: 59 };

#[test]
fn a_new_keyset_has_every_key_up() {
    let keys = KeySet::new();
    for code in [0, 1, 2, 59, 226, u32::MAX] {
        assert!(keys.is_up(KeyCode { code }));
        assert!(!keys.is_down(KeyCode { code }));
    }
}

#[test]
fn mark_down_holds_the_key_and_no_other() {
    let mut keys = KeySet::new();
    keys.mark_down(A);
    assert!(keys.is_down(A));
    assert!(!keys.is_up(A));
    assert!(keys.is_up(B));
    assert!(!keys.is_down(B));
}

#[test]
fn mark_down_twice_is_the_same_as_once() {
    let mut keys = KeySet::new();
    keys.mark_down(A);
    keys.mark_down(A);
    assert!(keys.is_down(A));
    keys.mark_up(A);
    assert!(keys.is_up(A));
}

#[test]
fn mark_up_releases_only_that_key() {
    let mut keys = KeySet::new();
    keys.mark_down(A);
    keys.mark_down(B);
    keys.mark_up(A);
    assert!(keys.is_up(A));
    assert!(keys.is_down(B));
}

#[test]
fn mark_up_of_a_key_that_is_up_changes_nothing() {
    let mut keys = KeySet::new();
    keys.mark_down(B);
    keys.mark_up(A);
    assert!(keys.is_up(A));
    assert!(keys.is_down(B));
}

#[test]
fn is_up_is_the_opposite_of_is_down() {
    let mut keys = KeySet::new();
    keys.mark_down(ESCAPE);
    for code in 0..300 {
        let key = KeyCode { code };
        assert_eq!(keys.is_up(key), !keys.is_down(key));
    }
}

#[test]
fn a_key_down_event_marks_the_key_down() {
    let mut keys = KeySet::new();
    let change = keys.handle_key_event(Event::KeyDown { keycode: A });
    assert_eq!(change, Some((A, true)));
    assert!(keys.is_down(A));
    assert!(keys.is_up(B));
}

#[test]
fn a_key_up_event_marks_the_key_up() {
    let mut keys = KeySet::new();
    keys.mark_down(A);
    keys.mark_down(B);
    let change = keys.handle_key_event(Event::KeyUp { keycode: A });
    assert_eq!(change, Some((A, false)));
    assert!(keys.is_up(A));
    assert!(keys.is_down(B));
}

#[test]
fn other_events_are_ignored() {
    let mut keys = KeySet::new();
    keys.mark_down(A);
    assert_eq!(keys.handle_key_event(Event::Other), None);
    assert!(keys.is_down(A));
    assert!(keys.is_up(B));
}

#[test]
fn a_clone_holds_the_same_keys_and_is_independent() {
    let mut keys = KeySet::new();
    keys.mark_down(A);
    let mut copy = keys.clone();
    assert!(copy.is_down(A));
    assert!(copy.is_up(B));
    keys.mark_up(A);
    keys.mark_down(B);
    assert!(copy.is_down(A));
    assert!(copy.is_up(B));
    copy.mark_down(ESCAPE);
    assert!(keys.is_up(ESCAPE));
}
