use vstd::prelude::*;

verus! {

/// Recoverable failures of the waveform and sampling operations.
///
/// None of these is fatal: a caller skips the offending note, rejects the
/// requested duty, or reports an empty sensing cycle and retries.
#[derive(Clone, Copy, Debug, PartialEq, Eq, Structural)]
pub enum WaveError {
    /// The target frequency is incompatible with the configured counter
    /// clock and divisor: the period register would fall below one.
    InvalidFrequency,
    /// A duty ratio above full scale was requested.
    InvalidDuty,
    /// The echo input did not change level within the configured bound.
    EchoTimeout,
}

} // verus!
