use vstd::prelude::*;

verus! {

/// Bit `i` of the byte `x`.
pub open spec fn bit_set(x: u8, i: u8) -> bool {
    (x >> i) & 1u8 == 1u8
}

/// `flags` has exactly the bits that some member of `codes` has.
pub open spec fn is_union_of_bits(flags: u8, codes: Set<u8>) -> bool {
    forall|i: u8|
        i < 8 ==> (#[trigger] bit_set(flags, i) <==> exists|m: u8| codes.contains(m) && bit_set(m, i))
}

pub proof fn lemma_bit_or(a: u8, b: u8, i: u8)
    requires
        i < 8,
    ensures
        bit_set(a | b, i) == (bit_set(a, i) || bit_set(b, i)),
{
    assert(((a | b) >> i) & 1u8 == 1u8 <==> ((a >> i) & 1u8 == 1u8 || (b >> i) & 1u8 == 1u8))
        by (bit_vector)
        requires
            i < 8,
    ;
}

pub proof fn lemma_bit_zero(i: u8)
    requires
        i < 8,
    ensures
        !bit_set(0u8, i),
{
    assert((0u8 >> i) & 1u8 == 0u8) by (bit_vector);
}

/// `c` has exactly one bit set.
pub open spec fn is_single_bit(c: u8) -> bool {
    c == 1 || c == 2 || c == 4 || c == 8 || c == 16 || c == 32 || c == 64 || c == 128
}

/// Every member of `s` has exactly one bit set.
pub open spec fn single_bit_codes(s: Set<u8>) -> bool {
    forall|c: u8| #[trigger] s.contains(c) ==> is_single_bit(c)
}

pub proof fn lemma_bit_and_not(a: u8, b: u8, i: u8)
    requires
        i < 8,
    ensures
        bit_set(a & !b, i) == (bit_set(a, i) && !bit_set(b, i)),
{
    assert(((a & !b) >> i) & 1u8 == 1u8 <==> ((a >> i) & 1u8 == 1u8 && !((b >> i) & 1u8 == 1u8)))
        by (bit_vector)
        requires
            i < 8,
    ;
}

/// Two single-bit bytes that share a bit are equal.
pub proof fn lemma_single_bits_meet(c: u8, d: u8, i: u8)
    requires
        i < 8,
        is_single_bit(c),
        is_single_bit(d),
        bit_set(c, i),
        bit_set(d, i),
    ensures
        c == d,
{
    assert(bit_set(c, i) && bit_set(d, i) ==> c == d) by (bit_vector)
        requires
            i < 8,
            c == 1 || c == 2 || c == 4 || c == 8 || c == 16 || c == 32 || c == 64 || c == 128,
            d == 1 || d == 2 || d == 4 || d == 8 || d == 16 || d == 32 || d == 64 || d == 128,
    ;
}

/// A single-bit byte `c` is contained in `f` exactly when `f` has the bit of `c`,
/// and it has some bit below eight.
pub proof fn lemma_single_bit_mask(f: u8, c: u8)
    requires
        is_single_bit(c),
    ensures
        exists|i: u8| i < 8 && #[trigger] bit_set(c, i),
        forall|i: u8| i < 8 && #[trigger] bit_set(c, i) ==> ((f & c == c) <==> bit_set(f, i)),
        forall|i: u8| i < 8 && #[trigger] bit_set(c, i) ==> ((f & c == 0) <==> !bit_set(f, i)),
{
    assert(forall|i: u8| i < 8 && bit_set(c, i) ==> ((f & c == c) <==> bit_set(f, i))) by (bit_vector)
        requires
            c == 1 || c == 2 || c == 4 || c == 8 || c == 16 || c == 32 || c == 64 || c == 128,
    ;
    assert(forall|i: u8| i < 8 && bit_set(c, i) ==> ((f & c == 0) <==> !bit_set(f, i))) by (bit_vector)
        requires
            c == 1 || c == 2 || c == 4 || c == 8 || c == 16 || c == 32 || c == 64 || c == 128,
    ;
    assert(bit_set(c, 0) || bit_set(c, 1) || bit_set(c, 2) || bit_set(c, 3) || bit_set(c, 4)
        || bit_set(c, 5) || bit_set(c, 6) || bit_set(c, 7)) by (bit_vector)
        requires
            c == 1 || c == 2 || c == 4 || c == 8 || c == 16 || c == 32 || c == 64 || c == 128,
    ;
}

/// The empty set of codes has no bits.
pub proof fn lemma_union_empty()
    ensures
        is_union_of_bits(0u8, Set::<u8>::empty()),
{
    assert forall|i: u8| i < 8 implies !bit_set(0u8, i) by {
        lemma_bit_zero(i);
    }
}

/// Adding a code to the set ors its bits into the flags.
pub proof fn lemma_union_insert(f: u8, s: Set<u8>, c: u8)
    requires
        is_union_of_bits(f, s),
    ensures
        is_union_of_bits(f | c, s.insert(c)),
{
    assert forall|i: u8| i < 8 implies (bit_set(f | c, i) <==> exists|m: u8|
        s.insert(c).contains(m) && bit_set(m, i)) by {
        lemma_bit_or(f, c, i);
        if bit_set(f, i) {
            let m = choose|m: u8| s.contains(m) && bit_set(m, i);
            assert(s.insert(c).contains(m));
        }
        if bit_set(c, i) {
            assert(s.insert(c).contains(c));
        }
    }
}

/// Taking a single-bit code out of a set of single-bit codes clears its bit
/// from the flags.
pub proof fn lemma_union_remove(f: u8, s: Set<u8>, c: u8)
    requires
        is_union_of_bits(f, s),
        single_bit_codes(s),
        is_single_bit(c),
    ensures
        is_union_of_bits(f & !c, s.remove(c)),
{
    assert forall|i: u8| i < 8 implies (bit_set(f & !c, i) <==> exists|m: u8|
        s.remove(c).contains(m) && bit_set(m, i)) by {
        lemma_bit_and_not(f, c, i);
        if bit_set(f, i) && !bit_set(c, i) {
            let m = choose|m: u8| s.contains(m) && bit_set(m, i);
            assert(s.remove(c).contains(m));
        }
        if exists|m: u8| s.remove(c).contains(m) && bit_set(m, i) {
            let m = choose|m: u8| s.remove(c).contains(m) && bit_set(m, i);
            assert(s.contains(m));
            if bit_set(c, i) {
                lemma_single_bits_meet(m, c, i);
            }
        }
    }
}

} // verus!
