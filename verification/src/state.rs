//! The account state: a map from account names to `u64` balances, kept as a
//! list of entries sorted by the UTF-8 bytes of the name (the order in which
//! `String` keys compare), and its Merkle state root.
use vstd::prelude::*;
use vstd::string::*;
use vstd::utf8::*;
use crate::hashing::{hash_str, merkle_root, spec_hash_str, spec_merkle_root};
use crate::text::{decimal, decimal_string, views};

verus! {

/// Strict lexicographic order on byte sequences (a proper prefix comes first).
pub open spec fn bytes_lt(a: Seq<u8>, b: Seq<u8>) -> bool
    decreases a.len(),
{
    if a.len() == 0 {
        b.len() > 0
    } else if b.len() == 0 {
        false
    } else if a[0] < b[0] {
        true
    } else if a[0] > b[0] {
        false
    } else {
        bytes_lt(a.drop_first(), b.drop_first())
    }
}

/// Strict order on account names: the order of their UTF-8 bytes.
pub open spec fn key_lt(a: Seq<char>, b: Seq<char>) -> bool {
    bytes_lt(encode_utf8(a), encode_utf8(b))
}

/// Entries whose names strictly increase.
pub open spec fn sorted_by_key(s: Seq<(Seq<char>, u64)>) -> bool {
    forall|i: int, j: int| 0 <= i < j < s.len() ==> key_lt(#[trigger] s[i].0, #[trigger] s[j].0)
}

/// The map that a list of entries denotes (a later entry wins).
pub open spec fn to_map(s: Seq<(Seq<char>, u64)>) -> Map<Seq<char>, u64>
    decreases s.len(),
{
    if s.len() == 0 {
        Map::empty()
    } else {
        to_map(s.drop_last()).insert(s.last().0, s.last().1)
    }
}

/// The sorted entry list of a finite map: the unique sorted list denoting it.
pub open spec fn sorted_entries(m: Map<Seq<char>, u64>) -> Seq<(Seq<char>, u64)> {
    choose|s: Seq<(Seq<char>, u64)>| sorted_by_key(s) && to_map(s) == m
}

/// The text hashed for one state leaf: `name:value`.
pub open spec fn leaf_text(key: Seq<char>, value: u64) -> Seq<char> {
    key + seq![':'] + decimal(value as nat)
}

/// The leaf hashes of sorted entries.
pub open spec fn state_leaves(s: Seq<(Seq<char>, u64)>) -> Seq<Seq<char>> {
    s.map_values(|e: (Seq<char>, u64)| spec_hash_str(leaf_text(e.0, e.1)))
}

/// The word `empty_state`, whose hash is the root of an empty state.
pub open spec fn empty_state_word() -> Seq<char> {
    seq!['e', 'm', 'p', 't', 'y', '_', 's', 't', 'a', 't', 'e']
}

/// The state root of a map: the Merkle root of the `name:value` leaf hashes
/// in name order, or the hash of `empty_state` for an empty map.
pub open spec fn spec_state_root(m: Map<Seq<char>, u64>) -> Seq<char> {
    let s = sorted_entries(m);
    if s.len() == 0 {
        spec_hash_str(empty_state_word())
    } else {
        spec_merkle_root(state_leaves(s))
    }
}

/// The state root does not depend on the order in which two different
/// accounts were written.
pub proof fn law_state_root_write_order(
    m: Map<Seq<char>, u64>,
    k1: Seq<char>,
    v1: u64,
    k2: Seq<char>,
    v2: u64,
)
    requires
        k1 != k2,
    ensures
        spec_state_root(m.insert(k1, v1).insert(k2, v2)) == spec_state_root(m.insert(k2, v2).insert(k1, v1)),
{
    assert(m.insert(k1, v1).insert(k2, v2) =~= m.insert(k2, v2).insert(k1, v1));
}

/// The character views of stored entries.
pub open spec fn entry_views(s: Seq<(String, u64)>) -> Seq<(Seq<char>, u64)> {
    s.map_values(|e: (String, u64)| (e.0@, e.1))
}

pub proof fn lemma_bytes_lt_irreflexive(a: Seq<u8>)
    ensures
        !bytes_lt(a, a),
    decreases a.len(),
{
    if a.len() > 0 {
        lemma_bytes_lt_irreflexive(a.drop_first());
    }
}

pub proof fn lemma_bytes_lt_asymmetric(a: Seq<u8>, b: Seq<u8>)
    requires
        bytes_lt(a, b),
    ensures
        !bytes_lt(b, a),
    decreases a.len(),
{
    if a.len() > 0 && b.len() > 0 && a[0] == b[0] {
        lemma_bytes_lt_asymmetric(a.drop_first(), b.drop_first());
    }
}

pub proof fn lemma_bytes_lt_transitive(a: Seq<u8>, b: Seq<u8>, c: Seq<u8>)
    requires
        bytes_lt(a, b),
        bytes_lt(b, c),
    ensures
        bytes_lt(a, c),
    decreases a.len(),
{
    if a.len() > 0 && b.len() > 0 && c.len() > 0 && a[0] == b[0] && b[0] == c[0] {
        lemma_bytes_lt_transitive(a.drop_first(), b.drop_first(), c.drop_first());
    }
}

pub proof fn lemma_bytes_lt_total(a: Seq<u8>, b: Seq<u8>)
    ensures
        a == b || bytes_lt(a, b) || bytes_lt(b, a),
    decreases a.len(),
{
    if a.len() > 0 && b.len() > 0 && a[0] == b[0] {
        lemma_bytes_lt_total(a.drop_first(), b.drop_first());
        if a.drop_first() == b.drop_first() {
            assert(a =~= b) by {
                assert forall|i: int| 0 <= i < a.len() implies a[i] == b[i] by {
                    if i > 0 {
                        assert(a[i] == a.drop_first()[i - 1]);
                        assert(b[i] == b.drop_first()[i - 1]);
                    }
                }
            }
        }
    } else if a.len() == 0 && b.len() == 0 {
        assert(a =~= b);
    }
}

/// Comparing past a common prefix gives the same answer.
pub proof fn lemma_bytes_lt_skip(a: Seq<u8>, b: Seq<u8>, i: int)
    requires
        0 <= i <= a.len(),
        i <= b.len(),
        forall|j: int| 0 <= j < i ==> a[j] == b[j],
    ensures
        bytes_lt(a, b) == bytes_lt(a.skip(i), b.skip(i)),
    decreases i,
{
    if i > 0 {
        assert(a[0] == b[0]);
        assert(a.drop_first().skip(i - 1) =~= a.skip(i));
        assert(b.drop_first().skip(i - 1) =~= b.skip(i));
        lemma_bytes_lt_skip(a.drop_first(), b.drop_first(), i - 1);
    } else {
        assert(a.skip(0) =~= a);
        assert(b.skip(0) =~= b);
    }
}

pub proof fn lemma_key_order(a: Seq<char>, b: Seq<char>, c: Seq<char>)
    ensures
        !key_lt(a, a),
        key_lt(a, b) ==> !key_lt(b, a),
        key_lt(a, b) && key_lt(b, c) ==> key_lt(a, c),
        a == b || key_lt(a, b) || key_lt(b, a),
{
    lemma_bytes_lt_irreflexive(encode_utf8(a));
    if key_lt(a, b) {
        lemma_bytes_lt_asymmetric(encode_utf8(a), encode_utf8(b));
    }
    if key_lt(a, b) && key_lt(b, c) {
        lemma_bytes_lt_transitive(encode_utf8(a), encode_utf8(b), encode_utf8(c));
    }
    lemma_bytes_lt_total(encode_utf8(a), encode_utf8(b));
    if encode_utf8(a) == encode_utf8(b) {
        encode_utf8_decode_utf8(a);
        encode_utf8_decode_utf8(b);
    }
}

pub proof fn lemma_to_map_dom(s: Seq<(Seq<char>, u64)>, k: Seq<char>)
    ensures
        to_map(s).contains_key(k) <==> exists|i: int| 0 <= i < s.len() && #[trigger] s[i].0 == k,
    decreases s.len(),
{
    if s.len() > 0 {
        lemma_to_map_dom(s.drop_last(), k);
        if to_map(s.drop_last()).contains_key(k) {
            let i = choose|i: int| 0 <= i < s.drop_last().len() && #[trigger] s.drop_last()[i].0 == k;
            assert(s[i].0 == k);
        }
        if exists|i: int| 0 <= i < s.len() && #[trigger] s[i].0 == k {
            let i = choose|i: int| 0 <= i < s.len() && #[trigger] s[i].0 == k;
            if i < s.len() - 1 {
                assert(s.drop_last()[i].0 == k);
            }
        }
    }
}

pub proof fn lemma_to_map_value(s: Seq<(Seq<char>, u64)>, i: int)
    requires
        sorted_by_key(s),
        0 <= i < s.len(),
    ensures
        to_map(s).contains_key(s[i].0),
        to_map(s)[s[i].0] == s[i].1,
    decreases s.len(),
{
    if i < s.len() - 1 {
        let t = s.drop_last();
        assert(sorted_by_key(t)) by {
            assert forall|a: int, b: int| 0 <= a < b < t.len() implies key_lt(
                #[trigger] t[a].0,
                #[trigger] t[b].0,
            ) by {
                assert(t[a] == s[a] && t[b] == s[b]);
            }
        }
        assert(t[i] == s[i]);
        lemma_to_map_value(t, i);
        assert(key_lt(s[i].0, s.last().0));
        lemma_key_order(s[i].0, s.last().0, s.last().0);
    }
}

pub proof fn lemma_sorted_drop_last(s: Seq<(Seq<char>, u64)>)
    requires
        sorted_by_key(s),
        s.len() > 0,
    ensures
        sorted_by_key(s.drop_last()),
{
    let t = s.drop_last();
    assert forall|a: int, b: int| 0 <= a < b < t.len() implies key_lt(
        #[trigger] t[a].0,
        #[trigger] t[b].0,
    ) by {
        assert(t[a] == s[a] && t[b] == s[b]);
    }
}

/// Two sorted entry lists that denote the same map are the same list.
pub proof fn lemma_sorted_unique(s1: Seq<(Seq<char>, u64)>, s2: Seq<(Seq<char>, u64)>)
    requires
        sorted_by_key(s1),
        sorted_by_key(s2),
        to_map(s1) == to_map(s2),
    ensures
        s1 == s2,
    decreases s1.len() + s2.len(),
{
    if s1.len() == 0 && s2.len() == 0 {
        assert(s1 =~= s2);
    } else if s1.len() == 0 {
        lemma_to_map_value(s2, 0);
        lemma_to_map_dom(s1, s2[0].0);
    } else if s2.len() == 0 {
        lemma_to_map_value(s1, 0);
        lemma_to_map_dom(s2, s1[0].0);
    } else {
        let l1 = s1.last();
        let l2 = s2.last();
        let m = to_map(s1);
        lemma_to_map_value(s1, s1.len() - 1);
        lemma_to_map_value(s2, s2.len() - 1);
        // the last names agree: each is the largest name of the map
        lemma_to_map_dom(s1, l2.0);
        lemma_to_map_dom(s2, l1.0);
        let i1 = choose|i: int| 0 <= i < s1.len() && #[trigger] s1[i].0 == l2.0;
        let i2 = choose|i: int| 0 <= i < s2.len() && #[trigger] s2[i].0 == l1.0;
        lemma_key_order(l1.0, l2.0, l1.0);
        if key_lt(l1.0, l2.0) {
            if i1 < s1.len() - 1 {
                assert(key_lt(s1[i1].0, s1[s1.len() - 1].0));
            }
        }
        if key_lt(l2.0, l1.0) {
            if i2 < s2.len() - 1 {
                assert(key_lt(s2[i2].0, s2[s2.len() - 1].0));
            }
        }
        assert(l1.0 == l2.0);
        assert(l1 == l2);
        let t1 = s1.drop_last();
        let t2 = s2.drop_last();
        lemma_sorted_drop_last(s1);
        lemma_sorted_drop_last(s2);
        assert(to_map(t1) =~= to_map(t2)) by {
            assert forall|k: Seq<char>| #[trigger] to_map(t1).contains_key(k) implies to_map(t2).contains_key(k)
                && to_map(t1)[k] == to_map(t2)[k] by {
                lemma_to_map_dom(t1, k);
                let i = choose|i: int| 0 <= i < t1.len() && #[trigger] t1[i].0 == k;
                assert(t1[i] == s1[i]);
                assert(key_lt(s1[i].0, l1.0));
                lemma_key_order(k, l1.0, l1.0);
                lemma_to_map_value(t1, i);
                lemma_to_map_value(s1, i);
                assert(m.contains_key(k) && m[k] == t1[i].1);
                lemma_to_map_dom(s2, k);
                let j = choose|j: int| 0 <= j < s2.len() && #[trigger] s2[j].0 == k;
                assert(j < s2.len() - 1);
                assert(t2[j] == s2[j]);
                lemma_to_map_value(s2, j);
                lemma_to_map_value(t2, j);
            }
            assert forall|k: Seq<char>| #[trigger] to_map(t2).contains_key(k) implies to_map(t1).contains_key(k) by {
                lemma_to_map_dom(t2, k);
                let i = choose|i: int| 0 <= i < t2.len() && #[trigger] t2[i].0 == k;
                assert(t2[i] == s2[i]);
                assert(key_lt(s2[i].0, l2.0));
                lemma_key_order(k, l2.0, l2.0);
                lemma_to_map_value(s2, i);
                lemma_to_map_dom(s1, k);
                let j = choose|j: int| 0 <= j < s1.len() && #[trigger] s1[j].0 == k;
                assert(j < s1.len() - 1);
                assert(t1[j] == s1[j]);
                lemma_to_map_dom(t1, k);
            }
        }
        lemma_sorted_unique(t1, t2);
        assert(s1 =~= t1.push(l1));
        assert(s2 =~= t2.push(l2));
    }
}

/// A sorted list is the sorted entry list of the map it denotes.
pub proof fn lemma_sorted_entries_of(s: Seq<(Seq<char>, u64)>)
    requires
        sorted_by_key(s),
    ensures
        sorted_entries(to_map(s)) == s,
{
    let m = to_map(s);
    assert(sorted_by_key(s) && to_map(s) == m);
    let c = sorted_entries(m);
    lemma_sorted_unique(c, s);
}

/// The outcome of comparing two account names.
pub enum KeyOrder {
    Less,
    Equal,
    Greater,
}

/// Compares two account names by their UTF-8 bytes, as `String`'s order does.
pub fn compare_keys(a: &str, b: &str) -> (r: KeyOrder)
    ensures
        r is Less <==> key_lt(a@, b@),
        r is Equal <==> a@ == b@,
        r is Greater <==> key_lt(b@, a@),
{
    let x = a.as_bytes();
    let y = b.as_bytes();
    let ghost ea = encode_utf8(a@);
    let ghost eb = encode_utf8(b@);
    let mut i: usize = 0;
    while i < x.len() && i < y.len()
        invariant
            ea == encode_utf8(a@),
            eb == encode_utf8(b@),
            x@ == ea,
            y@ == eb,
            i <= x@.len(),
            i <= y@.len(),
            forall|j: int| 0 <= j < i ==> x@[j] == y@[j],
        decreases x@.len() - i,
    {
        if x[i] < y[i] {
            proof {
                lemma_key_order(a@, b@, a@);
                lemma_bytes_lt_skip(ea, eb, i as int);
                assert(ea.skip(i as int)[0] == x@[i as int]);
                assert(eb.skip(i as int)[0] == y@[i as int]);
                assert(ea[i as int] != eb[i as int]);
            }
            return KeyOrder::Less;
        } else if x[i] > y[i] {
            proof {
                lemma_key_order(a@, b@, a@);
                lemma_bytes_lt_skip(eb, ea, i as int);
                assert(ea.skip(i as int)[0] == x@[i as int]);
                assert(eb.skip(i as int)[0] == y@[i as int]);
                assert(ea[i as int] != eb[i as int]);
            }
            return KeyOrder::Greater;
        }
        i = i + 1;
    }
    proof {
        lemma_key_order(a@, b@, a@);
        lemma_bytes_lt_skip(ea, eb, i as int);
        lemma_bytes_lt_skip(eb, ea, i as int);
    }
    if x.len() == y.len() {
        proof {
            assert(ea =~= eb);
            encode_utf8_decode_utf8(a@);
            encode_utf8_decode_utf8(b@);
        }
        KeyOrder::Equal
    } else if x.len() < y.len() {
        KeyOrder::Less
    } else {
        KeyOrder::Greater
    }
}

/// Account state: balances by account name, iterated in name order.
pub struct StateMap {
    entries: Vec<(String, u64)>,
}

impl View for StateMap {
    type V = Map<Seq<char>, u64>;

    closed spec fn view(&self) -> Map<Seq<char>, u64> {
        to_map(entry_views(self.entries@))
    }
}

impl StateMap {
    #[verifier::type_invariant]
    spec fn names_increase(&self) -> bool {
        sorted_by_key(entry_views(self.entries@))
    }

    /// The entries in name order.
    pub closed spec fn entries(&self) -> Seq<(Seq<char>, u64)> {
        entry_views(self.entries@)
    }

    /// An empty state.
    pub fn new() -> (r: Self)
        ensures
            r@ == Map::<Seq<char>, u64>::empty(),
    {
        let r = StateMap { entries: Vec::new() };
        assert(entry_views(r.entries@) =~= Seq::empty());
        r
    }

    /// Whether no account is present.
    pub fn is_empty(&self) -> (r: bool)
        ensures
            r <==> self@ =~= Map::<Seq<char>, u64>::empty(),
    {
        proof {
            use_type_invariant(self);
        }
        let r = self.entries.len() == 0;
        proof {
            if r {
                assert(entry_views(self.entries@) =~= Seq::empty());
            } else {
                lemma_to_map_value(self.entries(), 0);
                assert(self@.contains_key(self.entries()[0].0));
            }
        }
        r
    }

    /// Position of the first entry whose name is not below `key`, and whether
    /// that entry's name is `key`.
    fn find(&self, key: &str) -> (r: (usize, bool))
        ensures
            r.0 <= self.entries().len(),
            forall|j: int| 0 <= j < r.0 ==> key_lt(#[trigger] self.entries()[j].0, key@),
            r.1 ==> r.0 < self.entries().len() && self.entries()[r.0 as int].0 == key@,
            !r.1 ==> r.0 < self.entries().len() ==> key_lt(key@, self.entries()[r.0 as int].0),
    {
        let mut i: usize = 0;
        while i < self.entries.len()
            invariant
                i <= self.entries@.len(),
                forall|j: int| 0 <= j < i ==> key_lt(#[trigger] self.entries()[j].0, key@),
            decreases self.entries@.len() - i,
        {
            match compare_keys(self.entries[i].0.as_str(), key) {
                KeyOrder::Less => {},
                KeyOrder::Equal => {
                    return (i, true);
                },
                KeyOrder::Greater => {
                    return (i, false);
                },
            }
            i = i + 1;
        }
        (i, false)
    }

    /// The balance of `key`, if present.
    pub fn get(&self, key: &str) -> (r: Option<u64>)
        ensures
            r == (if self@.contains_key(key@) { Some(self@[key@]) } else { None::<u64> }),
    {
        proof {
            use_type_invariant(self);
        }
        let (i, found) = self.find(key);
        proof {
            let s = self.entries();
            lemma_to_map_dom(s, key@);
            if found {
                lemma_to_map_value(s, i as int);
            } else {
                if exists|j: int| 0 <= j < s.len() && #[trigger] s[j].0 == key@ {
                    let j = choose|j: int| 0 <= j < s.len() && #[trigger] s[j].0 == key@;
                    lemma_key_order(key@, key@, key@);
                    if j >= i {
                        if j > i {
                            assert(key_lt(s[i as int].0, s[j].0));
                            lemma_key_order(key@, s[i as int].0, key@);
                        }
                    }
                }
            }
        }
        if found {
            Some(self.entries[i].1)
        } else {
            None
        }
    }

    /// The balance of `key`, or 0 when absent.
    pub fn get_or_zero(&self, key: &str) -> (r: u64)
        ensures
            r == balance(self@, key@),
    {
        match self.get(key) {
            Some(v) => v,
            None => 0,
        }
    }

    /// Sets the value of `key`.
    pub fn insert(&mut self, key: String, value: u64)
        ensures
            final(self)@ == old(self)@.insert(key@, value),
    {
        proof {
            use_type_invariant(&*self);
        }
        let (i, found) = self.find(key.as_str());
        let ghost s = self.entries();
        let ghost k = key@;
        let mut v: Vec<(String, u64)> = Vec::new();
        std::mem::swap(&mut v, &mut self.entries);
        assert(entry_views(v@) == s);
        if found {
            v.set(i, (key, value));
        } else {
            v.insert(i, (key, value));
        }
        let ghost t = entry_views(v@);
        proof {
            if found {
                assert(t =~= s.update(i as int, (k, value)));
            } else {
                assert(t =~= s.insert(i as int, (k, value)));
            }
            assert(sorted_by_key(t)) by {
                assert forall|a: int, b: int| 0 <= a < b < t.len() implies key_lt(
                    #[trigger] t[a].0,
                    #[trigger] t[b].0,
                ) by {
                    if found {
                        if a == i {
                            assert(key_lt(s[a].0, s[b].0));
                        } else if b == i {
                            assert(key_lt(s[a].0, s[b].0));
                        }
                    } else {
                        if a < i && b == i {
                        } else if a < i && b > i {
                            assert(t[b] == s[b - 1]);
                            assert(key_lt(s[a].0, s[b - 1].0));
                        } else if a == i {
                            assert(t[b] == s[b - 1]);
                            if b - 1 > i {
                                assert(key_lt(s[i as int].0, s[b - 1].0));
                                lemma_key_order(k, s[i as int].0, s[b - 1].0);
                            }
                        } else if a > i {
                            assert(t[a] == s[a - 1]);
                            assert(t[b] == s[b - 1]);
                        }
                    }
                }
            }
            let m = to_map(s).insert(k, value);
            assert(to_map(t) =~= m) by {
                assert forall|q: Seq<char>| #[trigger] m.contains_key(q) implies to_map(t).contains_key(q)
                    && to_map(t)[q] == m[q] by {
                    if q == k {
                        lemma_to_map_value(t, i as int);
                    } else {
                        lemma_to_map_dom(s, q);
                        let j = choose|j: int| 0 <= j < s.len() && #[trigger] s[j].0 == q;
                        lemma_to_map_value(s, j);
                        let jt = if found || j < i { j } else { j + 1 };
                        assert(t[jt] == s[j]);
                        lemma_to_map_value(t, jt);
                    }
                }
                assert forall|q: Seq<char>| #[trigger] to_map(t).contains_key(q) implies m.contains_key(q) by {
                    lemma_to_map_dom(t, q);
                    if q != k {
                        let j = choose|j: int| 0 <= j < t.len() && #[trigger] t[j].0 == q;
                        let js = if found || j < i { j } else { j - 1 };
                        assert(s[js] == t[j]);
                        lemma_to_map_dom(s, q);
                    }
                }
            }
        }
        self.entries = v;
    }

    /// Sets `key` to `value` unless `key` is already present.
    pub fn insert_if_absent(&mut self, key: String, value: u64)
        ensures
            final(self)@ == (if old(self)@.contains_key(key@) {
                old(self)@
            } else {
                old(self)@.insert(key@, value)
            }),
    {
        if self.get(key.as_str()).is_none() {
            self.insert(key, value);
        }
    }
}

/// The balance of an account, 0 when absent.
pub open spec fn balance(m: Map<Seq<char>, u64>, key: Seq<char>) -> u64 {
    if m.contains_key(key) { m[key] } else { 0 }
}

impl StateMap {
    /// The number of accounts.
    pub fn len(&self) -> (r: usize)
        ensures
            r == self.entries().len(),
    {
        self.entries.len()
    }

    /// The `i`-th account in name order, with its balance.
    pub fn entry_at(&self, i: usize) -> (r: (String, u64))
        requires
            i < self.entries().len(),
        ensures
            r.0@ == self.entries()[i as int].0,
            r.1 == self.entries()[i as int].1,
    {
        (self.entries[i].0.clone(), self.entries[i].1)
    }

    /// A copy of the state.
    pub fn duplicate(&self) -> (r: Self)
        ensures
            r@ == self@,
            r.entries() == self.entries(),
    {
        proof {
            use_type_invariant(self);
        }
        let mut v: Vec<(String, u64)> = Vec::new();
        let mut i: usize = 0;
        while i < self.entries.len()
            invariant
                i <= self.entries@.len(),
                v@.len() == i,
                entry_views(v@) == entry_views(self.entries@).take(i as int),
            decreases self.entries@.len() - i,
        {
            let k = self.entries[i].0.clone();
            let val = self.entries[i].1;
            let ghost before = v@;
            v.push((k, val));
            assert(entry_views(v@) =~= entry_views(self.entries@).take(i + 1)) by {
                assert forall|j: int| 0 <= j < i implies entry_views(v@)[j] == entry_views(before)[j] by {
                    assert(v@[j] == before[j]);
                }
            }
            i = i + 1;
        }
        assert(entry_views(self.entries@).take(self.entries@.len() as int) =~= entry_views(self.entries@));
        StateMap { entries: v }
    }

    /// The hash of each `name:value` leaf, in name order.
    fn leaf_hashes(&self) -> (r: Vec<String>)
        ensures
            views(r@) == state_leaves(self.entries()),
    {
        proof {
            reveal_strlit(":");
        }
        let mut leaves: Vec<String> = Vec::new();
        let mut i: usize = 0;
        while i < self.entries.len()
            invariant
                i <= self.entries@.len(),
                leaves@.len() == i,
                ":"@ == seq![':'],
                forall|j: int| 0 <= j < i ==> #[trigger] leaves@[j]@ == state_leaves(self.entries())[j],
            decreases self.entries@.len() - i,
        {
            let mut text = self.entries[i].0.clone();
            text.append(":");
            text.append(decimal_string(self.entries[i].1).as_str());
            assert(text@ =~= leaf_text(self.entries()[i as int].0, self.entries()[i as int].1));
            leaves.push(hash_str(text.as_str()));
            i = i + 1;
        }
        assert(views(leaves@) =~= state_leaves(self.entries()));
        leaves
    }
}

/// Computes the state root: the Merkle root of the hashes of `name:value`
/// for every account in name order, or the hash of `empty_state` when there
/// are no accounts.
pub fn state_root(state: &StateMap) -> (r: String)
    ensures
        r@ == spec_state_root(state@),
        sorted_by_key(sorted_entries(state@)),
        to_map(sorted_entries(state@)) == state@,
{
    proof {
        use_type_invariant(state);
        lemma_sorted_entries_of(state.entries());
    }
    let leaves = state.leaf_hashes();
    if leaves.len() == 0 {
        proof {
            reveal_strlit("empty_state");
            assert("empty_state"@ =~= empty_state_word());
        }
        hash_str("empty_state")
    } else {
        merkle_root(leaves.as_slice())
    }
}

/// Computes the deterministic state root of a state (the same commitment as
/// [`state_root`], checking for an empty state first).
pub fn compute_state_root(state: &StateMap) -> (r: String)
    ensures
        r@ == spec_state_root(state@),
        sorted_by_key(sorted_entries(state@)),
        to_map(sorted_entries(state@)) == state@,
{
    proof {
        use_type_invariant(state);
        lemma_sorted_entries_of(state.entries());
    }
    if state.is_empty() {
        proof {
            reveal_strlit("empty_state");
            assert("empty_state"@ =~= empty_state_word());
            if state.entries().len() > 0 {
                lemma_to_map_value(state.entries(), 0);
                assert(state@.contains_key(state.entries()[0].0));
            }
        }
        return hash_str("empty_state");
    }
    let leaves = state.leaf_hashes();
    proof {
        if state.entries().len() == 0 {
            assert(entry_views(state.entries@) =~= Seq::empty());
        }
    }
    merkle_root(leaves.as_slice())
}

} // verus!
