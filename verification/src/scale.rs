//! The scale facade: calibration state, readiness, and the read contract.
//!
//! The facade owns the calibration state exclusively.  The surrounding
//! control loop reads the physical lines and hands the observed levels and
//! decoded samples in; every function here is verified for every such
//! input.

use crate::calib::all_in_raw_range;
use crate::calib::mean_of;
use crate::calib::mean_samples;
use crate::calib::round_half_away;
use crate::calib::round_scaled;
use crate::reader::raw_in_range;
use crate::reader::read_transfer;
use crate::reader::sample_of_levels;
use vstd::prelude::*;

verus! {

/// Errors the driver reports to the outer loop.
#[derive(Clone, Copy, Debug, PartialEq, Eq, Structural)]
pub enum ScaleError {
    /// The sensor never signalled readiness within the caller's retry
    /// budget; recoverable by retrying later or skipping the cycle.
    ReadTimeout,
}

/// The live driver's calibration state: a zero-load offset in the raw
/// sample domain, and the scale factor `scale_num / scale_den` that maps
/// centered raw counts to physical units.
pub struct Scale {
    /// Raw reading that counts as "no load"; set by tare or restored from
    /// the retained cell.
    pub offset: i32,
    /// Numerator of the rational scale factor.
    pub scale_num: u32,
    /// Denominator of the rational scale factor.
    pub scale_den: u32,
}

impl Scale {
    /// The offset stays in the raw-sample domain and the scale factor is a
    /// positive rational.
    pub open spec fn wf(self) -> bool {
        &&& raw_in_range(self.offset as int)
        &&& self.scale_num >= 1
        &&& self.scale_den >= 1
    }

    /// The reading this calibration state assigns to a raw sample: the
    /// centered count scaled to physical units and rounded to the nearest
    /// integer, ties away from zero.
    pub open spec fn weight_spec(self, raw: int) -> int {
        round_half_away((raw - self.offset) * self.scale_num, self.scale_den as int)
    }

    /// Fresh driver state: offset zero until a tare or a restore, scale
    /// factor as given.  Acquiring the physical lines is the caller's task
    /// and its failure is the caller's configuration error.
    pub fn new(scale_num: u32, scale_den: u32) -> (s: Self)
        requires
            scale_num >= 1,
            scale_den >= 1,
        ensures
            s.offset == 0,
            s.scale_num == scale_num,
            s.scale_den == scale_den,
            s.wf(),
    {
        Scale { offset: 0, scale_num, scale_den }
    }

    /// Whether the converter is ready to be read, judged from the data
    /// line's observed level: it pulls the line low when a conversion is
    /// complete.  Never fails; polling is non-blocking per call.
    pub fn is_ready(&self, data_line_high: bool) -> (r: bool)
        ensures
            r == !data_line_high,
    {
        !data_line_high
    }

    /// Establish the zero reference from a run of raw samples taken with no
    /// load on the sensor (a caller obligation the driver cannot check):
    /// the offset becomes their truncated arithmetic mean.  The scale
    /// factor is untouched.
    pub fn tare(&mut self, samples: &[i32])
        requires
            old(self).wf(),
            1 <= samples@.len() <= 0xFFFF_FFFF,
            all_in_raw_range(samples@),
        ensures
            final(self).offset as int == mean_of(samples@),
            final(self).scale_num == old(self).scale_num,
            final(self).scale_den == old(self).scale_den,
            final(self).wf(),
    {
        self.offset = mean_samples(samples);
    }

    /// Convert one raw sample to physical units: `(raw - offset)` scaled by
    /// the rational factor and rounded to the nearest integer, ties away
    /// from zero.
    pub fn read_rounded(&self, raw: i32) -> (w: i64)
        requires
            self.wf(),
            raw_in_range(raw as int),
        ensures
            w == self.weight_spec(raw as int),
    {
        let diff: i64 = raw as i64 - self.offset as i64;
        round_scaled(diff, self.scale_num, self.scale_den)
    }

    /// Decode the 24 observed data-line levels of one transfer and convert
    /// the sample to physical units in one step.
    pub fn read_rounded_from_levels(&self, levels: &[bool]) -> (w: i64)
        requires
            self.wf(),
            levels@.len() == 24,
        ensures
            w == self.weight_spec(sample_of_levels(levels@)),
    {
        let raw = read_transfer(levels);
        self.read_rounded(raw)
    }

    /// The current zero-load offset.
    pub fn get_offset(&self) -> (v: i32)
        ensures
            v == self.offset,
    {
        self.offset
    }

    /// Restore a zero-load offset directly, without re-averaging; used when
    /// resuming from low-power sleep with a persisted offset.
    pub fn set_offset(&mut self, v: i32)
        requires
            raw_in_range(v as int),
        ensures
            final(self).offset == v,
            final(self).scale_num == old(self).scale_num,
            final(self).scale_den == old(self).scale_den,
            old(self).wf() ==> final(self).wf(),
    {
        self.offset = v;
    }
}

/// Readings depend on the calibration state alone: two driver states with
/// the same offset and the same scale factor assign the same reading to
/// every raw sample.  Restoring a persisted offset into a freshly
/// constructed scale after a sleep/wake cycle therefore reproduces the
/// pre-sleep readings exactly.
pub proof fn lemma_reading_determined_by_calibration(a: Scale, b: Scale, raw: int)
    requires
        a.offset == b.offset,
        a.scale_num == b.scale_num,
        a.scale_den == b.scale_den,
    ensures
        a.weight_spec(raw) == b.weight_spec(raw),
{
}

/// A scale reads zero at its own offset: right after a tare, the raw
/// sample that set the zero reference weighs exactly nothing.
pub proof fn lemma_zero_load_reads_zero(s: Scale, raw: int)
    requires
        s.wf(),
        s.offset == raw,
    ensures
        s.weight_spec(raw) == 0,
{
    let d = s.scale_den as int;
    assert((raw - s.offset) * s.scale_num == 0) by (nonlinear_arith)
        requires
            raw == s.offset,
    ;
    vstd::arithmetic::div_mod::lemma_basic_div(d, 2 * d);
}

/// Per-call decision of the bounded readiness poll.
pub enum PollStep {
    /// The data line was low: the sample may be read now.
    Proceed,
    /// Still high: delay, then poll again with one fewer attempt left.
    Retry { attempts_left: u32 },
    /// Still high and the retry budget is spent: report a timeout instead
    /// of blocking forever.
    GiveUp,
}

/// Decide one step of the bounded readiness poll from the retry budget and
/// the data line's observed level.  The caller performs the delay between
/// polls and stops on `Proceed` or `GiveUp`, so an unresponsive sensor
/// costs at most the given number of attempts.
pub fn poll_step(attempts_left: u32, data_line_high: bool) -> (s: PollStep)
    ensures
        !data_line_high ==> s == PollStep::Proceed,
        data_line_high && attempts_left > 0 ==> s == (PollStep::Retry {
            attempts_left: (attempts_left - 1) as u32,
        }),
        data_line_high && attempts_left == 0 ==> s == PollStep::GiveUp,
{
    if !data_line_high {
        PollStep::Proceed
    } else if attempts_left > 0 {
        PollStep::Retry { attempts_left: attempts_left - 1 }
    } else {
        PollStep::GiveUp
    }
}

/// Run the bounded poll over the data-line levels observed at successive
/// attempts: the number of polls spent before the first low level, or a
/// timeout if the whole budget saw the line high.
pub fn poll_until_ready(observed: &[bool]) -> (r: Result<usize, ScaleError>)
    ensures
        match r {
            Ok(k) => k < observed@.len() && !observed@[k as int] && (forall|j: int|
                0 <= j < k ==> observed@[j]),
            Err(e) => e == ScaleError::ReadTimeout && (forall|j: int|
                0 <= j < observed@.len() ==> observed@[j]),
        },
{
    let n = observed.len();
    let mut i: usize = 0;
    while i < n
        invariant
            n == observed@.len(),
            i <= n,
            forall|j: int| 0 <= j < i ==> observed@[j],
        decreases n - i,
    {
        if !observed[i] {
            return Ok(i);
        }
        i = i + 1;
    }
    Err(ScaleError::ReadTimeout)
}

} // verus!
