//! Per-task signal sets.
use vstd::prelude::*;

verus! {

/// A 128-bit signal set held in two 64-bit words. Signals `1..32` are
/// addressed one by one through bits `0..31` of the first word; the rest is
/// carried by the bulk operations only.
#[derive(Debug, Clone, Copy)]
pub struct SigSet {
    pub bits: [u64; 2],
}

/// The bit that stands for `signal` in the first word.
pub open spec fn sig_bit(signal: u32) -> u64
    recommends
        1 <= signal < 32,
{
    1u64 << ((signal - 1) as u64)
}

/// Whether `signal` is one that the per-signal operations address.
pub open spec fn addressable(signal: u32) -> bool {
    1 <= signal < 32
}

impl SigSet {
    /// The first word of the set.
    pub open spec fn low(self) -> u64 {
        self.bits@[0]
    }

    /// The second word of the set.
    pub open spec fn high(self) -> u64 {
        self.bits@[1]
    }

    /// Membership of `signal`, as seen through the per-signal operations.
    pub open spec fn contains(self, signal: u32) -> bool {
        addressable(signal) && self.low() & sig_bit(signal) != 0
    }

    /// The first word after `add(signal)`.
    pub open spec fn low_after_add(self, signal: u32) -> u64 {
        if addressable(signal) {
            self.low() | sig_bit(signal)
        } else {
            self.low()
        }
    }

    /// The first word after `remove(signal)`.
    pub open spec fn low_after_remove(self, signal: u32) -> u64 {
        if addressable(signal) {
            self.low() & !sig_bit(signal)
        } else {
            self.low()
        }
    }
}

proof fn lemma_bit_or(w: u64, i: u64, j: u64)
    requires
        i < 64,
        j < 64,
    ensures
        (w | (1u64 << i)) & (1u64 << j) != 0 <==> (i == j || w & (1u64 << j) != 0),
{
    assert((w | (1u64 << i)) & (1u64 << j) != 0 <==> (i == j || w & (1u64 << j) != 0))
        by (bit_vector)
        requires
            i < 64,
            j < 64,
    ;
}

proof fn lemma_bit_clear(w: u64, i: u64, j: u64)
    requires
        i < 64,
        j < 64,
    ensures
        (w & !(1u64 << i)) & (1u64 << j) != 0 <==> (i != j && w & (1u64 << j) != 0),
{
    assert((w & !(1u64 << i)) & (1u64 << j) != 0 <==> (i != j && w & (1u64 << j) != 0))
        by (bit_vector)
        requires
            i < 64,
            j < 64,
    ;
}

impl SigSet {
    /// Adds `signal`; tells whether it was absent before. Signals outside
    /// `1..32` are refused and leave the set as it is.
    pub fn add(&mut self, signal: u32) -> (r: bool)
        ensures
            r == (addressable(signal) && !old(self).contains(signal)),
            final(self).high() == old(self).high(),
            final(self).low() == old(self).low_after_add(signal),
            forall|t: u32| #[trigger]
                final(self).contains(t) == (old(self).contains(t) || (t == signal
                    && addressable(signal))),
    {
        if !(1 <= signal && signal < 32) {
            return false;
        }
        let bit: u64 = 1u64 << ((signal - 1) as u64);
        if self.bits[0] & bit != 0 {
            proof {
                lemma_bit_set_present(old(self).low(), (signal - 1) as u64);
            }
            return false;
        }
        self.bits = [self.bits[0] | bit, self.bits[1]];
        proof {
            assert forall|t: u32| #[trigger]
                self.contains(t) == (old(self).contains(t) || t == signal) by {
                if addressable(t) {
                    lemma_bit_or(old(self).low(), (signal - 1) as u64, (t - 1) as u64);
                }
            }
        }
        true
    }

    /// Removes `signal`; tells whether it was present before. Signals outside
    /// `1..32` are refused and leave the set as it is.
    pub fn remove(&mut self, signal: u32) -> (r: bool)
        ensures
            r == (addressable(signal) && old(self).contains(signal)),
            final(self).high() == old(self).high(),
            final(self).low() == old(self).low_after_remove(signal),
            forall|t: u32| #[trigger]
                final(self).contains(t) == (old(self).contains(t) && t != signal),
    {
        if !(1 <= signal && signal < 32) {
            return false;
        }
        let bit: u64 = 1u64 << ((signal - 1) as u64);
        if self.bits[0] & bit == 0 {
            proof {
                lemma_bit_clear_absent(old(self).low(), (signal - 1) as u64);
            }
            return false;
        }
        self.bits = [self.bits[0] & !bit, self.bits[1]];
        proof {
            assert forall|t: u32| #[trigger]
                self.contains(t) == (old(self).contains(t) && t != signal) by {
                if addressable(t) {
                    lemma_bit_clear(old(self).low(), (signal - 1) as u64, (t - 1) as u64);
                }
            }
        }
        true
    }

    /// Whether `signal` is in the set; false outside `1..32`.
    pub fn has(&self, signal: u32) -> (r: bool)
        ensures
            r == self.contains(signal),
    {
        1 <= signal && signal < 32 && (self.bits[0] & (1u64 << ((signal - 1) as u64))) != 0
    }

    /// Adds every signal of `other`, in both words.
    pub fn add_from(&mut self, other: &SigSet)
        ensures
            final(self).low() == old(self).low() | other.low(),
            final(self).high() == old(self).high() | other.high(),
    {
        self.bits = [self.bits[0] | other.bits[0], self.bits[1] | other.bits[1]];
    }

    /// Removes every signal of `other`, in both words.
    pub fn remove_from(&mut self, other: &SigSet)
        ensures
            final(self).low() == old(self).low() & !other.low(),
            final(self).high() == old(self).high() & !other.high(),
    {
        self.bits = [self.bits[0] & !other.bits[0], self.bits[1] & !other.bits[1]];
    }
}

/// `k` is the lowest set bit of `w`.
pub open spec fn is_lowest_bit(w: u64, k: u64) -> bool {
    k < 64 && w & (1u64 << k) != 0 && forall|j: u64| j < k ==> #[trigger] (w & (1u64 << j)) == 0
}

impl SigSet {
    /// Takes out the lowest-numbered signal of the first word that `mask`
    /// also holds, and returns its number; `None` where there is none.
    pub fn dequeue(&mut self, mask: &SigSet) -> (r: Option<u32>)
        ensures
            r is None <==> old(self).low() & mask.low() == 0,
            r is None ==> *final(self) == *old(self),
            r matches Some(s) ==> 1 <= s <= 64 && is_lowest_bit(
                old(self).low() & mask.low(),
                (s - 1) as u64,
            ) && final(self).low() == old(self).low() & !(1u64 << ((s - 1) as u64))
                && final(self).high() == old(self).high(),
    {
        let bits: u64 = self.bits[0] & mask.bits[0];
        if bits == 0 {
            None
        } else {
            let signal: u32 = bits.trailing_zeros();
            proof {
                vstd::std_specs::bits::axiom_u64_trailing_zeros(bits);
                let k = signal as u64;
                lemma_shift_test(bits, k);
                assert forall|j: u64| j < k implies #[trigger] (bits & (1u64 << j)) == 0 by {
                    lemma_shift_test(bits, j);
                }
            }
            self.bits = [self.bits[0] & !(1u64 << (signal as u64)), self.bits[1]];
            Some(signal + 1)
        }
    }
}

/// For a signal in `1..32`: it is present after `add`, absent after
/// `remove`, and adding a signal that was absent and removing it again gives
/// back the set that was there before.
pub proof fn lemma_add_remove(s: SigSet, signal: u32)
    requires
        addressable(signal),
    ensures
        s.low_after_add(signal) & sig_bit(signal) != 0,
        s.low_after_remove(signal) & sig_bit(signal) == 0,
        !s.contains(signal) ==> (s.low_after_add(signal) & !sig_bit(signal)) == s.low(),
{
    let i = (signal - 1) as u64;
    let w = s.low();
    assert((w | (1u64 << i)) & (1u64 << i) != 0) by (bit_vector)
        requires
            i < 64,
    ;
    assert((w & !(1u64 << i)) & (1u64 << i) == 0) by (bit_vector)
        requires
            i < 64,
    ;
    assert(w & (1u64 << i) == 0 ==> ((w | (1u64 << i)) & !(1u64 << i)) == w) by (bit_vector)
        requires
            i < 64,
    ;
}

proof fn lemma_shift_test(w: u64, j: u64)
    requires
        j < 64,
    ensures
        ((w >> j) & 1u64 == 1u64) <==> (w & (1u64 << j) != 0),
        ((w >> j) & 1u64 == 0u64) <==> (w & (1u64 << j) == 0),
{
    assert(((w >> j) & 1u64 == 1u64) <==> (w & (1u64 << j) != 0)) by (bit_vector)
        requires
            j < 64,
    ;
    assert(((w >> j) & 1u64 == 0u64) <==> (w & (1u64 << j) == 0)) by (bit_vector)
        requires
            j < 64,
    ;
}

proof fn lemma_bit_set_present(w: u64, i: u64)
    requires
        i < 64,
        w & (1u64 << i) != 0,
    ensures
        w | (1u64 << i) == w,
{
    assert(w | (1u64 << i) == w) by (bit_vector)
        requires
            i < 64,
            w & (1u64 << i) != 0,
    ;
}

proof fn lemma_bit_clear_absent(w: u64, i: u64)
    requires
        i < 64,
        w & (1u64 << i) == 0,
    ensures
        w & !(1u64 << i) == w,
{
    assert(w & !(1u64 << i) == w) by (bit_vector)
        requires
            i < 64,
            w & (1u64 << i) == 0,
    ;
}

} // verus!
