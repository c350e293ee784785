//! Ledger addresses as plain 32-byte values, with the byte-wise ordering the
//! conversation derivation uses to canonicalize its two participants.

use vstd::prelude::*;

verus! {

/// A ledger address: 32 raw bytes.
pub type Addr = [u8; 32];

/// Lexicographic order on byte strings; on two 32-byte addresses it is the
/// byte-wise ascending order used to canonicalize a conversation's pair.
pub open spec fn seq_lt(a: Seq<u8>, b: Seq<u8>) -> bool
    decreases a.len(),
{
    if a.len() == 0 {
        b.len() > 0
    } else if b.len() == 0 {
        false
    } else if a[0] != b[0] {
        a[0] < b[0]
    } else {
        seq_lt(a.skip(1), b.skip(1))
    }
}

/// The pair (a, b) in ascending order: a first when a < b, else b first.
pub open spec fn sorted_pair(a: Seq<u8>, b: Seq<u8>) -> (Seq<u8>, Seq<u8>) {
    if seq_lt(a, b) {
        (a, b)
    } else {
        (b, a)
    }
}

/// On equal-length byte strings, exactly one of `a < b`, `a == b`, `b < a` holds.
pub proof fn lemma_seq_lt_trichotomy(a: Seq<u8>, b: Seq<u8>)
    requires
        a.len() == b.len(),
    ensures
        seq_lt(a, b) || a == b || seq_lt(b, a),
        seq_lt(a, b) ==> a != b && !seq_lt(b, a),
        a == b ==> !seq_lt(a, b) && !seq_lt(b, a),
    decreases a.len(),
{
    if a.len() == 0 {
        assert(a =~= b);
    } else if a[0] != b[0] {
        assert(a != b);
    } else {
        lemma_seq_lt_trichotomy(a.skip(1), b.skip(1));
        if a.skip(1) == b.skip(1) {
            assert forall|j: int| 0 <= j < a.len() implies a[j] == b[j] by {
                if j > 0 {
                    assert(a[j] == a.skip(1)[j - 1]);
                    assert(b[j] == b.skip(1)[j - 1]);
                }
            }
            assert(a =~= b);
        } else {
            assert(a != b) by {
                assert(a.skip(1) != b.skip(1));
            }
        }
    }
}

/// Sorting a pair of equal-length byte strings does not depend on the order
/// in which the two are supplied.
pub proof fn lemma_sorted_pair_symmetric(a: Seq<u8>, b: Seq<u8>)
    requires
        a.len() == b.len(),
    ensures
        sorted_pair(a, b) == sorted_pair(b, a),
{
    lemma_seq_lt_trichotomy(a, b);
}

/// Whether two addresses hold the same bytes.
pub fn addr_eq(a: &Addr, b: &Addr) -> (r: bool)
    ensures
        r == (a@ == b@),
{
    let mut i: usize = 0;
    while i < 32
        invariant
            0 <= i <= 32,
            forall|j: int| 0 <= j < i ==> a@[j] == b@[j],
        decreases 32 - i,
    {
        if a[i] != b[i] {
            return false;
        }
        i = i + 1;
    }
    proof {
        assert(a@ =~= b@);
    }
    true
}

/// Whether `a` comes strictly before `b` in byte-wise ascending order.
pub fn addr_less_than(a: &Addr, b: &Addr) -> (r: bool)
    ensures
        r == seq_lt(a@, b@),
{
    let mut i: usize = 0;
    proof {
        assert(a@.skip(0) =~= a@);
        assert(b@.skip(0) =~= b@);
    }
    while i < 32
        invariant
            0 <= i <= 32,
            seq_lt(a@, b@) == seq_lt(a@.skip(i as int), b@.skip(i as int)),
        decreases 32 - i,
    {
        let ghost prev_a = a@.skip(i as int);
        let ghost prev_b = b@.skip(i as int);
        if a[i] != b[i] {
            return a[i] < b[i];
        }
        i = i + 1;
        proof {
            assert(prev_a.skip(1) =~= a@.skip(i as int));
            assert(prev_b.skip(1) =~= b@.skip(i as int));
        }
    }
    proof {
        assert(a@.skip(32) =~= Seq::<u8>::empty());
        assert(b@.skip(32) =~= Seq::<u8>::empty());
    }
    false
}

/// Sort the addresses in ascending order.
pub fn sort_addresses_asc<'a>(address_one: &'a Addr, address_two: &'a Addr) -> (r: (&'a Addr, &'a Addr))
    ensures
        (r.0@, r.1@) == sorted_pair(address_one@, address_two@),
{
    if addr_less_than(address_one, address_two) {
        (address_one, address_two)
    } else {
        (address_two, address_one)
    }
}

/// The bytes of an address as a growable vector, for use as a derivation seed.
pub fn addr_to_vec(a: &Addr) -> (r: Vec<u8>)
    ensures
        r@ == a@,
{
    let mut r: Vec<u8> = Vec::new();
    let mut i: usize = 0;
    while i < 32
        invariant
            0 <= i <= 32,
            r@ == a@.take(i as int),
        decreases 32 - i,
    {
        r.push(a[i]);
        i = i + 1;
        proof {
            assert(r@ =~= a@.take(i as int));
        }
    }
    proof {
        assert(a@.take(32) =~= a@);
    }
    r
}

/// An address built from the first 32 bytes of a vector.
pub fn addr_from_vec(v: &Vec<u8>) -> (r: Addr)
    requires
        v@.len() == 32,
    ensures
        r@ == v@,
{
    let mut r: Addr = [0u8; 32];
    let mut i: usize = 0;
    while i < 32
        invariant
            0 <= i <= 32,
            v@.len() == 32,
            forall|j: int| 0 <= j < i ==> r@[j] == v@[j],
        decreases 32 - i,
    {
        r[i] = v[i];
        i = i + 1;
    }
    proof {
        assert(r@ =~= v@);
    }
    r
}

} // verus!
