//! Bit-clock reader: the converter's serial protocol.
//!
//! One sample is 24 data bits, shifted in MSB first, one bit per clock
//! pulse, followed by 1 to 3 extra pulses that select the channel/gain of
//! the next conversion.  The converter signals conversion-complete by
//! pulling its data line low; readiness polling is non-blocking per call.
//! The functions here decide and decode; toggling the physical lines is the
//! caller's task, which hands the observed levels in as plain booleans.

use vstd::arithmetic::power2::lemma2_to64;
use vstd::arithmetic::power2::lemma_pow2_unfold;
use vstd::arithmetic::power2::pow2;
use vstd::prelude::*;

verus! {

/// Number of data bits in one converter sample.
pub const SAMPLE_BITS: usize = 24;

/// Smallest raw sample: the 24-bit two's-complement minimum.
pub const RAW_MIN: i32 = -0x80_0000;

/// Largest raw sample: the 24-bit two's-complement maximum.
pub const RAW_MAX: i32 = 0x7F_FFFF;

/// A bit pattern fits in 24 bits.
pub open spec fn pattern_valid(bits: u32) -> bool {
    bits < 0x100_0000
}

/// A decoded sample lies in the signed 24-bit range.
pub open spec fn raw_in_range(s: int) -> bool {
    -0x80_0000 <= s <= 0x7F_FFFF
}

/// Meaning of a 24-bit pattern under two's complement: patterns with bit 23
/// set denote negative values, one modulus below their unsigned reading.
pub open spec fn decoded(bits: u32) -> int {
    if bits >= 0x80_0000 {
        bits - 0x100_0000
    } else {
        bits as int
    }
}

/// Sign-extend a 24-bit pattern (bit 23 replicated upward) into a wider
/// signed integer.  This is the only interpretation a raw sample ever gets.
pub fn decode_sample(bits: u32) -> (s: i32)
    requires
        pattern_valid(bits),
    ensures
        s as int == decoded(bits),
        raw_in_range(s as int),
{
    if bits >= 0x80_0000 {
        ((bits as i64) - 0x100_0000) as i32
    } else {
        bits as i32
    }
}

/// Sign extension is exactly the inverse of reduction modulo 2^24: the
/// decoded value is congruent to the pattern, lies in the signed 24-bit
/// range, and is the only integer doing both.
pub proof fn lemma_decode_sign_extends(bits: u32)
    requires
        pattern_valid(bits),
    ensures
        raw_in_range(decoded(bits)),
        decoded(bits) % 0x100_0000 == bits as int,
        forall|s: int| raw_in_range(s) && s % 0x100_0000 == bits as int ==> s == decoded(bits),
{
    assert(decoded(bits) % 0x100_0000 == bits as int) by (nonlinear_arith)
        requires
            bits < 0x100_0000,
    ;
    assert forall|s: int| raw_in_range(s) && s % 0x100_0000 == bits as int implies s == decoded(
        bits,
    ) by {
        assert(s % 0x100_0000 == bits as int && -0x80_0000 <= s <= 0x7F_FFFF ==> s == decoded(bits))
            by (nonlinear_arith)
            requires
                bits < 0x100_0000,
        ;
    }
}

/// Unsigned value of a run of data-line levels, MSB first: each shift
/// doubles the accumulator and brings the newest bit in at the bottom.
pub open spec fn bits_value(levels: Seq<bool>) -> nat
    decreases levels.len(),
{
    if levels.len() == 0 {
        0
    } else {
        2 * bits_value(levels.drop_last()) + (if levels.last() {
            1nat
        } else {
            0nat
        })
    }
}

/// The raw sample a run of 24 levels denotes: its MSB-first value read as
/// 24-bit two's complement.
pub open spec fn sample_of_levels(levels: Seq<bool>) -> int
    recommends
        levels.len() == 24,
{
    decoded(bits_value(levels) as u32)
}

/// Channel/gain configuration selected by the pulses trailing a transfer.
/// The selection applies to the converter's *next* conversion and is a fixed
/// driver configuration, not a per-call input.
#[derive(Clone, Copy, Debug, PartialEq, Eq, Structural)]
pub enum GainMode {
    /// Channel A at gain 128: one trailing pulse.
    A128,
    /// Channel B at gain 32: two trailing pulses.
    B32,
    /// Channel A at gain 64: three trailing pulses.
    A64,
}

impl GainMode {
    /// Trailing clock pulses (beyond the 24 data bits) that select this mode.
    pub open spec fn extra_pulses_spec(self) -> nat {
        match self {
            GainMode::A128 => 1,
            GainMode::B32 => 2,
            GainMode::A64 => 3,
        }
    }

    /// Number of trailing pulses to issue, without sampling, after the data
    /// bits of a transfer.
    pub fn extra_pulses(self) -> (n: u8)
        ensures
            n as nat == self.extra_pulses_spec(),
            1 <= n <= 3,
    {
        match self {
            GainMode::A128 => 1,
            GainMode::B32 => 2,
            GainMode::A64 => 3,
        }
    }

    /// Total clock pulses of one whole transfer: 24 data pulses plus the
    /// trailing selection pulses.  The whole run must stay inside the
    /// converter's timing window, so the caller executes it under its
    /// preemption guard.
    pub fn total_pulses(self) -> (n: u8)
        ensures
            n as nat == 24 + self.extra_pulses_spec(),
    {
        24 + self.extra_pulses()
    }
}

/// States of one sample acquisition.
#[derive(Clone, Copy, Debug)]
pub enum ReaderState {
    /// Conversion still running: the data line was last observed high.
    NotReady,
    /// The data line has been observed low: the sample may be shifted out.
    Ready,
    /// Mid-transfer: `acc` holds the `bits_read` data bits seen so far.
    Transferring { acc: u32, bits_read: u8 },
    /// Transfer complete: `sample` is the decoded raw sample.
    Done { sample: i32 },
}

impl ReaderState {
    /// Internal consistency: a partial accumulator fits in the bits read so
    /// far, and a finished sample is in the raw range.
    pub open spec fn wf(self) -> bool {
        match self {
            ReaderState::NotReady => true,
            ReaderState::Ready => true,
            ReaderState::Transferring { acc, bits_read } => bits_read <= 24 && (acc as nat) < pow2(
                bits_read as nat,
            ),
            ReaderState::Done { sample } => raw_in_range(sample as int),
        }
    }

    /// Non-blocking readiness poll: the converter pulls the data line low
    /// when a conversion is complete, so a low level means ready.  The
    /// caller decides whether and how long to retry.
    pub fn poll(self, data_line_low: bool) -> (next: Self)
        requires
            self is NotReady,
        ensures
            data_line_low ==> next is Ready,
            !data_line_low ==> next is NotReady,
            next.wf(),
    {
        if data_line_low {
            ReaderState::Ready
        } else {
            ReaderState::NotReady
        }
    }

    /// Open the transfer with an empty accumulator.
    pub fn begin_transfer(self) -> (next: Self)
        requires
            self is Ready,
        ensures
            next == (ReaderState::Transferring { acc: 0u32, bits_read: 0u8 }),
            next.wf(),
    {
        proof {
            lemma2_to64();
        }
        ReaderState::Transferring { acc: 0, bits_read: 0 }
    }

    /// One clock pulse during the data phase: the level sampled right after
    /// the pulse is shifted in at the bottom of the accumulator.
    pub fn shift_in(self, data_line_high: bool) -> (next: Self)
        requires
            self is Transferring,
            self->bits_read < 24,
            self.wf(),
        ensures
            next is Transferring,
            next->acc == 2 * self->acc + (if data_line_high {
                1int
            } else {
                0int
            }),
            next->bits_read == self->bits_read + 1,
            next.wf(),
    {
        proof {
            lemma2_to64();
            vstd::arithmetic::power2::lemma_pow2_strictly_increases(
                self->bits_read as nat,
                24nat,
            );
            lemma_pow2_unfold((self->bits_read + 1) as nat);
        }
        match self {
            ReaderState::Transferring { acc, bits_read } => ReaderState::Transferring {
                acc: 2 * acc + (if data_line_high {
                    1
                } else {
                    0
                }),
                bits_read: bits_read + 1,
            },
            _ => self,
        }
    }

    /// Close the transfer after all 24 data bits: decode the accumulator
    /// into the signed raw sample.
    pub fn finish(self) -> (next: Self)
        requires
            self is Transferring,
            self->bits_read == 24,
            self.wf(),
        ensures
            next is Done,
            next->sample as int == decoded(self->acc),
            next.wf(),
    {
        proof {
            lemma2_to64();
        }
        match self {
            ReaderState::Transferring { acc, .. } => ReaderState::Done {
                sample: decode_sample(acc),
            },
            _ => self,
        }
    }

    /// The decoded sample of a finished acquisition.
    pub fn into_sample(self) -> (s: i32)
        requires
            self is Done,
        ensures
            s == self->sample,
    {
        match self {
            ReaderState::Done { sample } => sample,
            _ => 0,
        }
    }
}

/// Run one whole data phase over the 24 levels observed at the data line,
/// MSB first, and decode the result.  The raw sample of a transfer is the
/// two's-complement reading of exactly those levels.
pub fn read_transfer(levels: &[bool]) -> (s: i32)
    requires
        levels@.len() == 24,
    ensures
        s as int == sample_of_levels(levels@),
        raw_in_range(s as int),
{
    let mut st = ReaderState::Ready.begin_transfer();
    let mut i: usize = 0;
    while i < 24
        invariant
            levels@.len() == 24,
            i <= 24,
            st is Transferring,
            st->bits_read == i,
            st->acc as nat == bits_value(levels@.take(i as int)),
            st.wf(),
        decreases 24 - i,
    {
        st = st.shift_in(levels[i]);
        proof {
            assert(levels@.take(i + 1).drop_last() =~= levels@.take(i as int));
            assert(levels@.take(i + 1).last() == levels@[i as int]);
        }
        i = i + 1;
    }
    proof {
        assert(levels@.take(24) =~= levels@);
        lemma2_to64();
    }
    st.finish().into_sample()
}

} // verus!
