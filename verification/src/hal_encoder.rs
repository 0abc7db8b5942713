//! The encoder delta tracker: turns a free-running, wrapping step counter of
//! width `BITS` into a correctly signed rotation delta across the wrap
//! boundary.

use vstd::arithmetic::power2::lemma2_to64;
use vstd::arithmetic::power2::lemma_pow2_strictly_increases;
use vstd::arithmetic::power2::pow2;
use vstd::bits::lemma_usize_shl_is_mul;
use vstd::prelude::*;

verus! {

/// The mask selecting bit `bits - 1`, the most significant bit of a counter
/// of width `bits`.
pub open spec fn msb_mask(bits: u8) -> usize
    recommends
        1 <= bits <= 30,
{
    1usize << ((bits - 1) as usize)
}

/// What one call of `delta` returns for a counter of width `bits`: the raw
/// difference of the two readings, corrected by one counter period when the
/// most significant bit changed, which is taken for a wrap crossing. The
/// result is meaningful only while the true inter-poll motion stays below
/// half the counter's range; larger motion is ambiguous by nature.
pub open spec fn encoder_delta(bits: u8, steps: usize, last_steps: usize) -> int
    recommends
        1 <= bits <= 30,
{
    let raw = steps - last_steps;
    if (steps & msb_mask(bits)) == (last_steps & msb_mask(bits)) {
        raw
    } else if steps > last_steps {
        raw - pow2(bits as nat)
    } else {
        raw + pow2(bits as nat)
    }
}

/// A quadrature encoder read through a wrapping hardware counter of width
/// `BITS`. The implementor owns the `last_steps` value from which deltas
/// are computed; both readings always stay below `2^BITS`.
pub trait EncoderController<const BITS: u8> {
    /// The current value of the hardware step counter.
    spec fn steps(&self) -> usize;

    /// The reading stored by the most recent delta computation.
    spec fn last_steps(&self) -> usize;

    /// Both stored readings lie within the counter's range.
    spec fn wf(&self) -> bool;

    fn read_steps(&self) -> (steps: usize)
        requires
            self.wf(),
        ensures
            steps == self.steps(),
            (steps as nat) < pow2(BITS as nat),
        ;

    fn read_last_steps(&self) -> (last_steps: usize)
        requires
            self.wf(),
        ensures
            last_steps == self.last_steps(),
            (last_steps as nat) < pow2(BITS as nat),
        ;

    fn store_last_steps(&mut self, value: usize)
        requires
            old(self).wf(),
            (value as nat) < pow2(BITS as nat),
        ensures
            final(self).wf(),
            final(self).last_steps() == value,
            final(self).steps() == old(self).steps(),
        ;

    fn reset(&mut self)
        requires
            old(self).wf(),
        ensures
            final(self).wf(),
            final(self).steps() == 0,
            final(self).last_steps() == 0,
        ;

    /// The signed step delta since the previous call. The raw difference of
    /// the two readings is corrected by one counter period when bit
    /// `BITS - 1` changed between them, then the current reading replaces
    /// the stored one.
    fn delta(&mut self) -> (delta: isize)
        requires
            old(self).wf(),
            1 <= BITS <= 30,
        ensures
            final(self).wf(),
            final(self).steps() == old(self).steps(),
            final(self).last_steps() == old(self).steps(),
            delta as int == encoder_delta(BITS, old(self).steps(), old(self).last_steps()),
    {
        let steps = self.read_steps();
        let last_steps = self.read_last_steps();
        proof {
            lemma2_to64();
            if (BITS as nat) < 30 {
                lemma_pow2_strictly_increases(BITS as nat, 30);
            }
            lemma_usize_shl_is_mul(1, (BITS - 1) as usize);
            lemma_usize_shl_is_mul(1, BITS as usize);
        }
        let mask: usize = 1usize << ((BITS - 1) as usize);
        let period: usize = 1usize << (BITS as usize);
        let mut delta: isize = steps as isize - last_steps as isize;
        if (steps & mask) != (last_steps & mask) {
            if steps > last_steps {
                delta = delta - period as isize;
            } else {
                delta = delta + period as isize;
            }
        }
        self.store_last_steps(steps);
        delta
    }
}

/// The correction never changes the reading's congruence class: the delta
/// is always congruent to `steps - last_steps` modulo the counter period.
pub proof fn lemma_delta_congruent(bits: u8, steps: usize, last_steps: usize)
    requires
        1 <= bits <= 30,
    ensures
        (encoder_delta(bits, steps, last_steps) - (steps - last_steps)) % (pow2(
            bits as nat,
        ) as int) == 0,
{
    let p = pow2(bits as nat) as int;
    vstd::arithmetic::power2::lemma_pow2_pos(bits as nat);
    let d = encoder_delta(bits, steps, last_steps);
    let raw = steps - last_steps;
    if (steps & msb_mask(bits)) == (last_steps & msb_mask(bits)) {
        assert(d - raw == 0);
    } else if steps > last_steps {
        assert(d - raw == -p);
        assert((-p) % p == 0) by (nonlinear_arith)
            requires
                p > 0,
        ;
    } else {
        assert(d - raw == p);
        assert(p % p == 0) by (nonlinear_arith)
            requires
                p > 0,
        ;
    }
}

/// While both readings stay in the same half of the counter's range, no
/// correction is applied: the delta is exactly the raw difference.
pub proof fn lemma_delta_same_half(bits: u8, steps: usize, last_steps: usize)
    requires
        1 <= bits <= 30,
        (steps & msb_mask(bits)) == (last_steps & msb_mask(bits)),
    ensures
        encoder_delta(bits, steps, last_steps) == steps - last_steps,
{
}

/// The most significant bit of a counter reading is set exactly when the
/// reading lies in the upper half of the counter's range.
pub proof fn lemma_msb_reads_half(bits: u8, value: usize)
    requires
        1 <= bits <= 30,
        (value as nat) < pow2(bits as nat),
    ensures
        (value & msb_mask(bits)) == if (value as nat) >= pow2((bits - 1) as nat) {
            msb_mask(bits)
        } else {
            0usize
        },
{
    lemma2_to64();
    lemma_usize_shl_is_mul(1, (bits - 1) as usize);
    lemma_usize_shl_is_mul(1, bits as usize);
    if (bits as nat) < 30 {
        lemma_pow2_strictly_increases(bits as nat, 30);
    }
    let b = bits as usize;
    assert((value & (1usize << (b - 1) as usize)) == (if value >= (1usize << (b - 1) as usize) {
        (1usize << (b - 1) as usize)
    } else {
        0usize
    })) by (bit_vector)
        requires
            1 <= b <= 30,
            value < (1usize << b),
    ;
}

/// Crossing the wrap forward — the stored reading in the upper half, the
/// current one in the lower — yields the true forward motion: the raw
/// difference plus one counter period.
pub proof fn lemma_delta_wrap_forward(bits: u8, steps: usize, last_steps: usize)
    requires
        1 <= bits <= 30,
        (steps as nat) < pow2((bits - 1) as nat),
        pow2((bits - 1) as nat) <= (last_steps as nat) < pow2(bits as nat),
    ensures
        encoder_delta(bits, steps, last_steps) == steps + pow2(bits as nat) - last_steps,
{
    vstd::arithmetic::power2::lemma_pow2_pos((bits - 1) as nat);
    lemma_pow2_strictly_increases((bits - 1) as nat, bits as nat);
    lemma_msb_reads_half(bits, steps);
    lemma_msb_reads_half(bits, last_steps);
    assert(msb_mask(bits) != 0usize) by {
        lemma2_to64();
        lemma_usize_shl_is_mul(1, (bits - 1) as usize);
        if (bits as nat) < 30 {
            lemma_pow2_strictly_increases(bits as nat, 30);
        }
    }
}

/// Crossing the wrap backward — the stored reading in the lower half, the
/// current one in the upper — yields the true backward motion: the raw
/// difference minus one counter period.
pub proof fn lemma_delta_wrap_backward(bits: u8, steps: usize, last_steps: usize)
    requires
        1 <= bits <= 30,
        (last_steps as nat) < pow2((bits - 1) as nat),
        pow2((bits - 1) as nat) <= (steps as nat) < pow2(bits as nat),
    ensures
        encoder_delta(bits, steps, last_steps) == steps - last_steps - pow2(bits as nat),
{
    vstd::arithmetic::power2::lemma_pow2_pos((bits - 1) as nat);
    lemma_pow2_strictly_increases((bits - 1) as nat, bits as nat);
    lemma_msb_reads_half(bits, steps);
    lemma_msb_reads_half(bits, last_steps);
    assert(msb_mask(bits) != 0usize) by {
        lemma2_to64();
        lemma_usize_shl_is_mul(1, (bits - 1) as usize);
        if (bits as nat) < 30 {
            lemma_pow2_strictly_increases(bits as nat, 30);
        }
    }
}

} // verus!
