//! The retained-memory offset cell and the boot decision built on it.
//!
//! The node sleeps between reports.  Re-taring after every wake would need
//! the load removed each cycle, so the tare offset is kept in a memory cell
//! that survives low-power sleep but resets to a sentinel on a full
//! power-on, forcing fresh calibration then.  This module models that cell
//! as a plain value with `get`/`set`; the surrounding program maps it onto
//! the platform's retained memory region.

use crate::calib::all_in_raw_range;
use crate::calib::mean_of;
use crate::reader::raw_in_range;
use crate::scale::Scale;
use vstd::prelude::*;

verus! {

/// The value the retained cell holds after a full power-on reset, meaning
/// "no calibration recorded".  A true zero-load reading of 0 would collide
/// with it and trigger a harmless re-tare; the value domain offers no way
/// to tell the two apart.
pub const OFFSET_SENTINEL: i32 = 0;

/// Model of the retained offset cell: one signed-integer value that
/// survives low-power sleep, is written once per tare and read once at
/// boot, and is authoritative only when it differs from the sentinel.
pub struct OffsetCell {
    /// The stored offset, or the sentinel.
    pub value: i32,
}

impl OffsetCell {
    /// The cell only ever holds the sentinel or a tare result, so its value
    /// stays in the raw-sample domain.
    pub open spec fn wf(self) -> bool {
        raw_in_range(self.value as int)
    }

    /// The cell holds no recorded calibration.
    pub open spec fn is_sentinel(self) -> bool {
        self.value == OFFSET_SENTINEL
    }

    /// The cell as a full power-on reset leaves it: at the sentinel.
    pub fn power_on() -> (c: Self)
        ensures
            c.is_sentinel(),
            c.wf(),
    {
        OffsetCell { value: OFFSET_SENTINEL }
    }

    /// Read the stored value; done once per boot.
    pub fn get(&self) -> (v: i32)
        ensures
            v == self.value,
    {
        self.value
    }

    /// Record an offset; done once per tare.
    pub fn set(&mut self, v: i32)
        requires
            raw_in_range(v as int),
        ensures
            final(self).value == v,
            final(self).wf(),
    {
        self.value = v;
    }
}

/// What the boot sequence must do about calibration.
pub enum BootPlan {
    /// Nothing recorded: run a fresh tare and persist its result.
    RunTare,
    /// A recorded offset: restore it, skipping the averaging pass.
    Restore(i32),
}

/// Decide the boot path from the persisted value: a cell at the sentinel
/// means no recorded calibration and forces a fresh tare; anything else is
/// an offset to restore.
pub fn boot_plan(persisted: i32) -> (p: BootPlan)
    ensures
        persisted == OFFSET_SENTINEL ==> p == BootPlan::RunTare,
        persisted != OFFSET_SENTINEL ==> p == BootPlan::Restore(persisted),
{
    if persisted == OFFSET_SENTINEL {
        BootPlan::RunTare
    } else {
        BootPlan::Restore(persisted)
    }
}

/// Run the boot sequence's calibration step against a freshly constructed
/// scale: consult the retained cell; at the sentinel, tare from the given
/// no-load samples and write the result back; otherwise restore the
/// persisted offset and leave the cell untouched.
pub fn startup(scale: &mut Scale, cell: &mut OffsetCell, tare_samples: &[i32])
    requires
        old(scale).wf(),
        old(cell).wf(),
        1 <= tare_samples@.len() <= 0xFFFF_FFFF,
        all_in_raw_range(tare_samples@),
    ensures
        final(scale).scale_num == old(scale).scale_num,
        final(scale).scale_den == old(scale).scale_den,
        final(scale).wf(),
        final(cell).wf(),
        old(cell).is_sentinel() ==> final(scale).offset as int == mean_of(tare_samples@)
            && final(cell).value == final(scale).offset,
        !old(cell).is_sentinel() ==> final(scale).offset == old(cell).value && final(cell).value
            == old(cell).value,
{
    let persisted = cell.get();
    match boot_plan(persisted) {
        BootPlan::RunTare => {
            scale.tare(tare_samples);
            let fresh = scale.get_offset();
            cell.set(fresh);
        },
        BootPlan::Restore(v) => {
            scale.set_offset(v);
        },
    }
}

} // verus!
