use catalyst::hashing::{hash_bytes, hash_str, hash_trace_entry, merkle_root};

#[test]
fn test_hash_determinism() {
    let data = b"test data for hashing";
    let h1 = hash_bytes(data);
    let h2 = hash_bytes(data);
    assert_eq!(h1, h2);
    assert_eq!(h1.len(), 64);
}

#[test]
fn test_merkle_root_determinism() {
    let leaves = vec![hash_str("a"), hash_str("b"), hash_str("c")];
    let r1 = merkle_root(&leaves);
    let r2 = merkle_root(&leaves);
    assert_eq!(r1, r2);
}

#[test]
fn lib_test_merkle_root_empty() {
    let leaves: Vec<String> = vec![];
    let root = merkle_root(&leaves);
    assert!(!root.is_empty());
}

#[test]
fn lib_test_merkle_root_single() {
    let leaf = hash_str("single");
    let root = merkle_root(&[leaf.clone()]);
    assert_eq!(root, leaf);
}

#[test]
fn test_hash_bytes_deterministic() {
    let h1 = hash_bytes(b"hello");
    let h2 = hash_bytes(b"hello");
    assert_eq!(h1, h2);
    assert_eq!(h1.len(), 64);
}

#[test]
fn test_hash_str() {
    let h = hash_str("hello");
    assert_eq!(h.len(), 64);
}

#[test]
fn merkle_test_merkle_root_empty() {
    let root = merkle_root(&[]);
    assert!(!root.is_empty());
    assert_eq!(root, hash_bytes(b"empty"));
}

#[test]
fn merkle_test_merkle_root_single() {
    let leaf = hash_str("leaf");
    let root = merkle_root(&[leaf.clone()]);
    assert_eq!(root, leaf);
}

#[test]
fn test_merkle_root_two() {
    let a = hash_str("a");
    let b = hash_str("b");
    let root = merkle_root(&[a.clone(), b.clone()]);
    let expected = hash_str(&format!("{}{}", a, b));
    assert_eq!(root, expected);
}

#[test]
fn test_merkle_root_odd() {
    let a = hash_str("a");
    let b = hash_str("b");
    let c = hash_str("c");
    let root = merkle_root(&[a.clone(), b.clone(), c.clone()]);
    let ab = hash_str(&format!("{}{}", a, b));
    let cc = hash_str(&format!("{}{}", c, c));
    let expected = hash_str(&format!("{}{}", ab, cc));
    assert_eq!(root, expected);
}

#[test]
fn test_hash_trace_entry() {
    let h1 = hash_trace_entry("tx1", true, 1000, &vec!["a".into()], &vec!["b".into()]);
    let h2 = hash_trace_entry("tx1", true, 1000, &vec!["a".into()], &vec!["b".into()]);
    assert_eq!(h1, h2);

    let h3 = hash_trace_entry("tx1", false, 1000, &vec!["a".into()], &vec!["b".into()]);
    assert_ne!(h1, h3);
}

#[test]
fn sha256_known_digests() {
    assert_eq!(
        hash_bytes(b""),
        "e3b0c44298fc1c149afbf4c8996fb92427ae41e4649b934ca495991b7852b855"
    );
    assert_eq!(
        hash_str("abc"),
        "ba7816bf8f01cfea414140de5dae2223b00361a396177a9cb410ff61f20015ad"
    );
}

#[test]
fn trace_entry_hash_covers_the_formatted_text() {
    let h = hash_trace_entry(
        "tx1",
        true,
        1000,
        &vec!["a".into(), "b".into()],
        &vec!["c".into()],
    );
    assert_eq!(h, hash_str("tx:tx1:success:true:cu:1000:reads:a,b:writes:c"));
    let empty = hash_trace_entry("t", false, 0, &vec![], &vec![]);
    assert_eq!(empty, hash_str("tx:t:success:false:cu:0:reads::writes:"));
}

#[test]
fn merkle_root_of_five_pairs_the_last_with_itself() {
    let l: Vec<String> = ["1", "2", "3", "4", "5"].iter().map(|s| hash_str(s)).collect();
    let p = |a: &String, b: &String| hash_str(&format!("{}{}", a, b));
    let l1 = vec![p(&l[0], &l[1]), p(&l[2], &l[3]), p(&l[4], &l[4])];
    let l2 = vec![p(&l1[0], &l1[1]), p(&l1[2], &l1[2])];
    let expected = p(&l2[0], &l2[1]);
    assert_eq!(merkle_root(&l), expected);
}
