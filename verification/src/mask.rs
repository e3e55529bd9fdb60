use vstd::prelude::*;

verus! {

/// Whether bit `i` of the pending mask `m` is set. Bit `i` set means that
/// commitment `i` has not been revealed yet.
pub open spec fn bit_set(m: u64, i: u64) -> bool {
    i < 64 && (m >> i) & 1 == 1
}

/// The number of set bits of `m`: how many commitments are still pending.
pub open spec fn popcnt(m: u64) -> nat
    decreases m,
{
    if m == 0 {
        0
    } else {
        ((m % 2) + popcnt((m / 2) as u64)) as nat
    }
}

/// Clearing bit `j` clears exactly that bit and leaves every other bit alone.
pub proof fn lemma_clear_bit(m: u64, j: u64)
    by (bit_vector)
    requires
        j < 64,
    ensures
        forall|i: u64| bit_set(m & !(1u64 << j), i) <==> (bit_set(m, i) && i != j),
{
}

/// Masking with `k` never sets a bit, so the popcount never grows.
pub proof fn lemma_popcnt_and_le(m: u64, k: u64)
    ensures
        popcnt(m & k) <= popcnt(m),
    decreases m,
{
    if m == 0 {
        assert(m & k == 0) by (bit_vector)
            requires
                m == 0,
        ;
    } else {
        assert((m & k) % 2 <= m % 2) by (bit_vector);
        assert((m & k) / 2 == (m / 2) & (k / 2)) by (bit_vector);
        assert(m / 2 < m) by (bit_vector)
            requires
                m != 0,
        ;
        lemma_popcnt_and_le((m / 2) as u64, (k / 2) as u64);
        assert(popcnt(m & k) == ((m & k) % 2 + popcnt(((m & k) / 2) as u64)) as nat);
    }
}

/// A nonzero mask has at least one set bit.
proof fn lemma_nonzero_has_bit(m: u64)
    requires
        m != 0,
    ensures
        exists|i: u64| bit_set(m, i),
    decreases m,
{
    if m % 2 == 1 {
        assert(bit_set(m, 0)) by (bit_vector)
            requires
                m % 2 == 1,
        ;
    } else {
        assert(m / 2 != 0 && m / 2 < m) by (bit_vector)
            requires
                m != 0 && m % 2 == 0,
        ;
        lemma_nonzero_has_bit((m / 2) as u64);
        let j = choose|j: u64| #[trigger] bit_set((m / 2) as u64, j);
        assert(bit_set((m / 2) as u64, j) && j < 63 ==> bit_set(m, (j + 1) as u64)) by (bit_vector);
        assert(!bit_set((m / 2) as u64, 63u64)) by (bit_vector);
        assert(bit_set(m, (j + 1) as u64));
    }
}

/// Law: the pending mask is zero exactly when no index remains pending,
/// so "everything revealed" is a constant-time check.
pub proof fn lemma_mask_zero_iff_no_bits(m: u64)
    ensures
        m == 0 <==> (forall|i: u64| !bit_set(m, i)),
{
    if m == 0 {
        assert forall|i: u64| !bit_set(m, i) by {
            assert(!bit_set(0u64, i)) by (bit_vector);
        }
    } else {
        lemma_nonzero_has_bit(m);
    }
}

/// The mask whose low `n` bits are set: all of `n` commitments pending.
pub fn full_mask(n: usize) -> (m: u64)
    requires
        n <= 64,
    ensures
        forall|i: u64| bit_set(m, i) <==> i < n,
        n > 0 ==> m != 0,
        n == 0 ==> m == 0,
{
    if n == 64 {
        proof {
            assert(forall|i: u64| #[trigger] bit_set(u64::MAX, i) <==> i < 64) by (bit_vector);
        }
        u64::MAX
    } else {
        let n64 = n as u64;
        proof {
            assert(1u64 << n64 >= 1) by (bit_vector)
                requires
                    n64 < 64,
            ;
        }
        let m = (1u64 << n64) - 1;
        proof {
            assert(forall|i: u64| #[trigger] bit_set(((1u64 << n64) - 1) as u64, i) <==> i < n64) by (bit_vector)
                requires
                    n64 < 64,
            ;
            if n64 > 0 {
                assert((1u64 << n64) - 1 != 0) by (bit_vector)
                    requires
                        0 < n64 < 64,
                ;
            } else {
                assert((1u64 << n64) - 1 == 0) by (bit_vector)
                    requires
                        n64 == 0,
                ;
            }
        }
        m
    }
}

/// Clears bit `j`: commitment `j` is no longer pending.
pub fn clear_bit(m: u64, j: u64) -> (r: u64)
    requires
        j < 64,
    ensures
        forall|i: u64| bit_set(r, i) <==> (bit_set(m, i) && i != j),
        popcnt(r) <= popcnt(m),
{
    let r = m & !(1u64 << j);
    proof {
        lemma_clear_bit(m, j);
        lemma_popcnt_and_le(m, !(1u64 << j));
    }
    r
}

} // verus!
