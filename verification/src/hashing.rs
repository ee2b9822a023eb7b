//! SHA-256 commitments: digests rendered as lowercase hex, binary Merkle
//! roots over hex leaves, and the hash of one execution-trace entry.
use vstd::prelude::*;
use vstd::string::*;
use vstd::utf8::*;
use sha2::{Digest, Sha256};
use crate::text::{bool_string, bool_word, decimal, decimal_string, digit_char, join, join_strings, views};

verus! {

/// The SHA-256 digest of a byte sequence.
pub uninterp spec fn sha256(data: Seq<u8>) -> Seq<u8>;

/// The lowercase hexadecimal character of a value below 16.
pub open spec fn hex_digit(d: nat) -> char {
    if d < 10 {
        digit_char(d)
    } else if d == 10 { 'a' }
    else if d == 11 { 'b' }
    else if d == 12 { 'c' }
    else if d == 13 { 'd' }
    else if d == 14 { 'e' }
    else { 'f' }
}

/// Lowercase hexadecimal rendering: two characters per byte, high nibble first.
pub open spec fn hex_lower(bytes: Seq<u8>) -> Seq<char>
    decreases bytes.len(),
{
    if bytes.len() == 0 {
        Seq::empty()
    } else {
        seq![hex_digit((bytes[0] / 16) as nat), hex_digit((bytes[0] % 16) as nat)]
            + hex_lower(bytes.drop_first())
    }
}

/// The hex-encoded SHA-256 digest of `data`.
pub open spec fn spec_hash_bytes(data: Seq<u8>) -> Seq<char> {
    hex_lower(sha256(data))
}

/// The hex-encoded SHA-256 digest of the UTF-8 encoding of `s`.
pub open spec fn spec_hash_str(s: Seq<char>) -> Seq<char> {
    spec_hash_bytes(encode_utf8(s))
}

/// A parent node: the hash of the two child hashes written one after the other.
pub open spec fn merkle_parent(left: Seq<char>, right: Seq<char>) -> Seq<char> {
    spec_hash_str(left + right)
}

/// One level up the tree: pairs are hashed together and a lone last node is
/// paired with itself.
pub open spec fn next_level(level: Seq<Seq<char>>) -> Seq<Seq<char>> {
    Seq::new(
        ((level.len() + 1) / 2) as nat,
        |i: int|
            if 2 * i + 1 < level.len() {
                merkle_parent(level[2 * i], level[2 * i + 1])
            } else {
                merkle_parent(level[2 * i], level[2 * i])
            },
    )
}

/// Repeats `next_level` until a single node remains.
pub open spec fn fold_levels(level: Seq<Seq<char>>) -> Seq<char>
    decreases level.len(),
{
    if level.len() <= 1 {
        level[0]
    } else {
        fold_levels(next_level(level))
    }
}

/// The word `empty`, whose hash is the root of an empty tree.
pub open spec fn empty_word() -> Seq<char> {
    seq!['e', 'm', 'p', 't', 'y']
}

/// The Merkle root of a list of leaves.
pub open spec fn spec_merkle_root(leaves: Seq<Seq<char>>) -> Seq<char> {
    if leaves.len() == 0 {
        spec_hash_str(empty_word())
    } else {
        fold_levels(leaves)
    }
}

/// One step of the Merkle fold: for two or more leaves the root is the root
/// of the next level, whose nodes hash neighbouring pairs (a lone last node
/// with itself).
pub proof fn law_merkle_step(leaves: Seq<Seq<char>>)
    requires
        leaves.len() >= 2,
    ensures
        spec_merkle_root(leaves) == spec_merkle_root(next_level(leaves)),
        next_level(leaves).len() == (leaves.len() + 1) / 2,
        forall|i: int|
            0 <= i < next_level(leaves).len() ==> #[trigger] next_level(leaves)[i] == merkle_parent(
                leaves[2 * i],
                leaves[if 2 * i + 1 < leaves.len() { 2 * i + 1 } else { leaves.len() - 1 }],
            ),
{
}

/// A tree of one leaf has that leaf as its root.
pub proof fn law_merkle_single(leaf: Seq<char>)
    ensures
        spec_merkle_root(seq![leaf]) == leaf,
{
}

/// A tree of two leaves has as its root the hash of the two leaves written
/// one after the other.
pub proof fn law_merkle_pair(a: Seq<char>, b: Seq<char>)
    ensures
        spec_merkle_root(seq![a, b]) == merkle_parent(a, b),
{
    let level = next_level(seq![a, b]);
    assert(level =~= seq![merkle_parent(a, b)]);
    assert(fold_levels(level) == merkle_parent(a, b));
}

/// In a tree of three leaves the third is paired with itself.
pub proof fn law_merkle_odd_leaf(a: Seq<char>, b: Seq<char>, c: Seq<char>)
    ensures
        spec_merkle_root(seq![a, b, c]) == merkle_parent(merkle_parent(a, b), merkle_parent(c, c)),
{
    let level = next_level(seq![a, b, c]);
    assert(level =~= seq![merkle_parent(a, b), merkle_parent(c, c)]);
    law_merkle_pair(merkle_parent(a, b), merkle_parent(c, c));
}

/// The text that is hashed for one trace entry.
pub open spec fn trace_entry_text(
    tx_id: Seq<char>,
    success: bool,
    compute_used: u64,
    reads: Seq<Seq<char>>,
    writes: Seq<Seq<char>>,
) -> Seq<char> {
    seq!['t', 'x', ':'] + tx_id + seq![':', 's', 'u', 'c', 'c', 'e', 's', 's', ':'] + bool_word(
        success,
    ) + seq![':', 'c', 'u', ':'] + decimal(compute_used as nat) + seq![
        ':',
        'r',
        'e',
        'a',
        'd',
        's',
        ':',
    ] + join(reads, seq![',']) + seq![':', 'w', 'r', 'i', 't', 'e', 's', ':'] + join(
        writes,
        seq![','],
    )
}

/// Entries that differ only in whether they succeeded hash different texts.
pub proof fn law_entry_text_separates_success(
    tx_id: Seq<char>,
    compute_used: u64,
    reads: Seq<Seq<char>>,
    writes: Seq<Seq<char>>,
)
    ensures
        trace_entry_text(tx_id, true, compute_used, reads, writes) != trace_entry_text(
            tx_id,
            false,
            compute_used,
            reads,
            writes,
        ),
{
    let head = seq!['t', 'x', ':'] + tx_id + seq![':', 's', 'u', 'c', 'c', 'e', 's', 's', ':'];
    let t1 = trace_entry_text(tx_id, true, compute_used, reads, writes);
    let t2 = trace_entry_text(tx_id, false, compute_used, reads, writes);
    let p = head.len() as int;
    assert(t1[p] == 't');
    assert(t2[p] == 'f');
}

/// The hash of one trace entry.
pub open spec fn spec_hash_trace_entry(
    tx_id: Seq<char>,
    success: bool,
    compute_used: u64,
    reads: Seq<Seq<char>>,
    writes: Seq<Seq<char>>,
) -> Seq<char> {
    spec_hash_str(trace_entry_text(tx_id, success, compute_used, reads, writes))
}

pub proof fn lemma_hex_lower_len(bytes: Seq<u8>)
    ensures
        hex_lower(bytes).len() == 2 * bytes.len(),
    decreases bytes.len(),
{
    if bytes.len() > 0 {
        lemma_hex_lower_len(bytes.drop_first());
    }
}

/// `sha2::Sha256::digest` (through the `Digest` trait): computes the SHA-256
/// digest of `data`. The contract names the result `sha256(data@)` and states
/// the digest's fixed size of 32 bytes (`OutputSize = U32` in sha2's source).
#[verifier::external_body]
fn sha256_digest(data: &[u8]) -> (out: Vec<u8>)
    ensures
        out@ == sha256(data@),
        out@.len() == 32,
{
    Sha256::digest(data).to_vec()
}

/// `hex::encode`: renders bytes as lowercase hexadecimal, two characters per
/// byte, high nibble first (the table `0123456789abcdef` in hex's source).
#[verifier::external_body]
fn hex_encode(bytes: &[u8]) -> (s: String)
    ensures
        s@ == hex_lower(bytes@),
{
    hex::encode(bytes)
}

/// Computes the SHA-256 hash of `data` as a lowercase hex string.
pub fn hash_bytes(data: &[u8]) -> (r: String)
    ensures
        r@ == spec_hash_bytes(data@),
        r@.len() == 64,
{
    let digest = sha256_digest(data);
    let r = hex_encode(digest.as_slice());
    proof {
        lemma_hex_lower_len(digest@);
    }
    r
}

/// Computes the SHA-256 hash of the UTF-8 bytes of `s` as a lowercase hex string.
pub fn hash_str(s: &str) -> (r: String)
    ensures
        r@ == spec_hash_str(s@),
        r@.len() == 64,
{
    hash_bytes(s.as_bytes())
}

fn hash_pair(left: &String, right: &String) -> (r: String)
    ensures
        r@ == merkle_parent(left@, right@),
        r@.len() == 64,
{
    let mut combined = left.clone();
    combined.append(right.as_str());
    hash_str(combined.as_str())
}

fn merkle_next_level(level: &Vec<String>) -> (next: Vec<String>)
    requires
        level@.len() >= 2,
    ensures
        views(next@) == next_level(views(level@)),
        next@.len() == (level@.len() + 1) / 2,
        forall|j: int| 0 <= j < next@.len() ==> (#[trigger] next@[j])@.len() == 64,
{
    let ghost lv = views(level@);
    let n = level.len();
    let m = n / 2 + n % 2;
    let mut next: Vec<String> = Vec::new();
    let mut k: usize = 0;
    while k < m
        invariant
            n == level@.len(),
            m == (n + 1) / 2,
            lv == views(level@),
            k <= m,
            next@.len() == k,
            forall|j: int| 0 <= j < k ==> #[trigger] next@[j]@ == next_level(lv)[j],
            forall|j: int| 0 <= j < k ==> (#[trigger] next@[j])@.len() == 64,
        decreases m - k,
    {
        let i = 2 * k;
        let parent = if i + 1 < n {
            hash_pair(&level[i], &level[i + 1])
        } else {
            hash_pair(&level[i], &level[i])
        };
        next.push(parent);
        k = k + 1;
    }
    assert(views(next@) =~= next_level(lv));
    next
}

/// Computes the Merkle root of hex-encoded leaves: the hash of `empty` when
/// there are none, the leaf itself when there is one, and otherwise the
/// levels are folded pairwise (a lone last node is paired with itself).
pub fn merkle_root(leaves: &[String]) -> (r: String)
    ensures
        r@ == spec_merkle_root(views(leaves@)),
        leaves@.len() != 1 ==> r@.len() == 64,
{
    if leaves.len() == 0 {
        proof { reveal_strlit("empty"); }
        assert("empty"@ =~= empty_word());
        return hash_str("empty");
    }
    let mut current: Vec<String> = Vec::new();
    let mut i: usize = 0;
    while i < leaves.len()
        invariant
            i <= leaves@.len(),
            current@.len() == i,
            views(current@) == views(leaves@).take(i as int),
        decreases leaves@.len() - i,
    {
        let leaf = leaves[i].clone();
        let ghost before = current@;
        current.push(leaf);
        assert forall|k: int| 0 <= k < i + 1 implies views(current@)[k] == views(leaves@).take(i + 1)[k] by {
            if k < i {
                assert(current@[k] == before[k]);
                assert(views(before)[k] == views(leaves@).take(i as int)[k]);
            }
        }
        assert(views(current@) =~= views(leaves@).take(i + 1));
        i = i + 1;
    }
    assert(views(leaves@).take(leaves@.len() as int) =~= views(leaves@));
    let ghost mut hashed = false;
    while current.len() > 1
        invariant
            current@.len() >= 1,
            fold_levels(views(current@)) == fold_levels(views(leaves@)),
            hashed ==> forall|j: int| 0 <= j < current@.len() ==> (#[trigger] current@[j])@.len() == 64,
            !hashed ==> current@.len() == leaves@.len(),
        decreases current@.len(),
    {
        current = merkle_next_level(&current);
        proof {
            hashed = true;
        }
    }
    current[0].clone()
}

/// Hashes one trace entry for inclusion in the trace Merkle tree.
pub fn hash_trace_entry(
    tx_id: &str,
    success: bool,
    compute_used: u64,
    read_set: &Vec<String>,
    write_set: &Vec<String>,
) -> (r: String)
    ensures
        r@ == spec_hash_trace_entry(
            tx_id@,
            success,
            compute_used,
            views(read_set@),
            views(write_set@),
        ),
        r@.len() == 64,
{
    proof {
        reveal_strlit(",");
        reveal_strlit("tx:");
        reveal_strlit(":success:");
        reveal_strlit(":cu:");
        reveal_strlit(":reads:");
        reveal_strlit(":writes:");
    }
    assert(","@ =~= seq![',']);
    let reads = join_strings(read_set, ",");
    let writes = join_strings(write_set, ",");
    let ghost rs = views(read_set@);
    let ghost ws = views(write_set@);
    let mut data = String::new();
    data.append("tx:");
    assert(data@ =~= seq!['t', 'x', ':']);
    data.append(tx_id);
    let ghost p1 = seq!['t', 'x', ':'] + tx_id@;
    assert(data@ =~= p1);
    data.append(":success:");
    let ghost p2 = p1 + seq![':', 's', 'u', 'c', 'c', 'e', 's', 's', ':'];
    assert(data@ =~= p2);
    data.append(bool_string(success).as_str());
    let ghost p3 = p2 + bool_word(success);
    assert(data@ =~= p3);
    data.append(":cu:");
    let ghost p4 = p3 + seq![':', 'c', 'u', ':'];
    assert(data@ =~= p4);
    data.append(decimal_string(compute_used).as_str());
    let ghost p5 = p4 + decimal(compute_used as nat);
    assert(data@ =~= p5);
    data.append(":reads:");
    let ghost p6 = p5 + seq![':', 'r', 'e', 'a', 'd', 's', ':'];
    assert(data@ =~= p6);
    data.append(reads.as_str());
    let ghost p7 = p6 + join(rs, seq![',']);
    assert(data@ =~= p7);
    data.append(":writes:");
    let ghost p8 = p7 + seq![':', 'w', 'r', 'i', 't', 'e', 's', ':'];
    assert(data@ =~= p8);
    data.append(writes.as_str());
    assert(data@ =~= p8 + join(ws, seq![',']));
    assert(data@ == trace_entry_text(tx_id@, success, compute_used, rs, ws));
    hash_str(data.as_str())
}

} // verus!
