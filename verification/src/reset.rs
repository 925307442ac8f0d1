//! Hardware reset sequence of the controller.
//!
//! The controller answers on the bus only after its reset line was
//! driven low, held, released high and held again. The sequence is
//! planned here as data; the caller owns the output pin and the delay
//! source and must perform the steps in the order given, before the
//! first bus transaction.
use vstd::prelude::*;

verus! {

/// How long the reset line is held low, in microseconds. The device
/// family requires a low pulse of at least 100 microseconds.
pub const RESET_LOW_HOLD_MICROS: u32 = 200;

/// How long the line is held after release, in milliseconds, before the
/// first bus transaction may be issued.
pub const RESET_HIGH_HOLD_MILLIS: u32 = 5;

/// One step of the reset sequence.
#[derive(Copy, Clone, Debug, PartialEq, Eq, Structural)]
pub enum ResetStep {
    /// Drive the reset line low.
    RstLow,
    /// Drive the reset line high.
    RstHigh,
    /// Hold the line as it is for at least this many microseconds.
    HoldMicros(u32),
    /// Hold the line as it is for at least this many milliseconds.
    HoldMillis(u32),
}

/// The reset sequence: low, hold, high, hold.
pub open spec fn spec_reset_sequence() -> Seq<ResetStep> {
    seq![
        ResetStep::RstLow,
        ResetStep::HoldMicros(RESET_LOW_HOLD_MICROS),
        ResetStep::RstHigh,
        ResetStep::HoldMillis(RESET_HIGH_HOLD_MILLIS),
    ]
}

/// The steps, in order, that bring the controller out of reset into a
/// bus-responsive state.
pub fn reset_sequence() -> (r: Vec<ResetStep>)
    ensures
        r@ == spec_reset_sequence(),
{
    let mut v: Vec<ResetStep> = Vec::new();
    v.push(ResetStep::RstLow);
    v.push(ResetStep::HoldMicros(RESET_LOW_HOLD_MICROS));
    v.push(ResetStep::RstHigh);
    v.push(ResetStep::HoldMillis(RESET_HIGH_HOLD_MILLIS));
    proof {
        assert(v@ =~= spec_reset_sequence());
    }
    v
}

/// The reset plan drives the line low strictly before it drives it
/// high, holds low for at least the 100 microseconds the device family
/// requires, and holds high for at least 5 milliseconds before the
/// first transaction.
pub proof fn lemma_reset_ordering()
    ensures
        ({
            let s = spec_reset_sequence();
            &&& s.len() == 4
            &&& s[0] == ResetStep::RstLow
            &&& s[2] == ResetStep::RstHigh
            &&& forall|i: int| 0 <= i < s.len() && s[i] == ResetStep::RstHigh ==> i > 0
            &&& (s[1] matches ResetStep::HoldMicros(us) && us >= 100)
            &&& (s[3] matches ResetStep::HoldMillis(ms) && ms >= 5)
        }),
{
}

} // verus!
