use catalyst::hashing::{hash_bytes, hash_str, merkle_root};
use catalyst::state::{compute_state_root, state_root, StateMap};

#[test]
fn merkle_test_state_root_deterministic() {
    let mut state = StateMap::new();
    state.insert("alice".to_string(), 100);
    state.insert("bob".to_string(), 200);

    let r1 = state_root(&state);
    let r2 = state_root(&state);
    assert_eq!(r1, r2);
}

#[test]
fn merkle_test_state_root_order_independent() {
    let mut state1 = StateMap::new();
    state1.insert("alice".to_string(), 100);
    state1.insert("bob".to_string(), 200);

    let mut state2 = StateMap::new();
    state2.insert("bob".to_string(), 200);
    state2.insert("alice".to_string(), 100);

    assert_eq!(state_root(&state1), state_root(&state2));
}

#[test]
fn lib_test_state_root_deterministic() {
    let mut state = StateMap::new();
    state.insert("alice".into(), 100);
    state.insert("bob".into(), 200);

    let r1 = compute_state_root(&state);
    let r2 = compute_state_root(&state);
    assert_eq!(r1, r2);
}

#[test]
fn lib_test_state_root_order_independent() {
    let mut state1 = StateMap::new();
    state1.insert("alice".into(), 100);
    state1.insert("bob".into(), 200);

    let mut state2 = StateMap::new();
    state2.insert("bob".into(), 200);
    state2.insert("alice".into(), 100);

    assert_eq!(compute_state_root(&state1), compute_state_root(&state2));
}

#[test]
fn state_root_values() {
    let empty = StateMap::new();
    assert_eq!(state_root(&empty), hash_bytes(b"empty_state"));
    assert_eq!(compute_state_root(&empty), hash_str("empty_state"));

    let mut state = StateMap::new();
    state.insert("bob".into(), 200);
    state.insert("alice".into(), 100);
    state.insert("Zed".into(), 7);
    let leaves = vec![hash_str("Zed:7"), hash_str("alice:100"), hash_str("bob:200")];
    assert_eq!(state_root(&state), merkle_root(&leaves));
    assert_eq!(compute_state_root(&state), merkle_root(&leaves));
}

#[test]
fn state_map_operations() {
    let mut s = StateMap::new();
    assert!(s.is_empty());
    s.insert("k".into(), 1);
    s.insert("k".into(), 2);
    assert_eq!(s.get("k"), Some(2));
    assert_eq!(s.get("x"), None);
    assert_eq!(s.get_or_zero("x"), 0);
    s.insert_if_absent("k".into(), 9);
    s.insert_if_absent("x".into(), 9);
    assert_eq!(s.get("k"), Some(2));
    assert_eq!(s.get("x"), Some(9));
    assert_eq!(s.len(), 2);
    let d = s.duplicate();
    assert_eq!(state_root(&d), state_root(&s));
    // names order by UTF-8 bytes: "é" sorts after every ASCII name
    let mut u = StateMap::new();
    u.insert("é".into(), 1);
    u.insert("z".into(), 2);
    let leaves = vec![hash_str("z:2"), hash_str("é:1")];
    assert_eq!(state_root(&u), merkle_root(&leaves));
}
