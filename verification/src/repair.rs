//! What a pass of price repair changed.

use vstd::prelude::*;

verus! {

/// Counters describing what one pass of repair changed.
#[derive(Debug, Clone, Copy, PartialEq, Eq, Structural)]
pub struct RepairReport {
    /// Bars whose OHLC was scaled by 100×/0.01× to fix a currency mixup.
    pub currency_unit_fixes: u32,
    /// Zero/NaN bars filled by interpolating from neighbors.
    pub zero_fills: u32,
    /// Pre-split bars rescaled to undo a missing split adjustment.
    pub split_fixes: u32,
}

impl RepairReport {
    /// Did any pass make a change?
    pub fn any(&self) -> (r: bool)
        ensures
            r == (self.currency_unit_fixes > 0 || self.zero_fills > 0 || self.split_fixes > 0),
    {
        self.currency_unit_fixes > 0 || self.zero_fills > 0 || self.split_fixes > 0
    }
}

impl Default for RepairReport {
    fn default() -> (r: Self)
        ensures
            r == (RepairReport { currency_unit_fixes: 0, zero_fills: 0, split_fixes: 0 }),
    {
        RepairReport { currency_unit_fixes: 0, zero_fills: 0, split_fixes: 0 }
    }
}

} // verus!
