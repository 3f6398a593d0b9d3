//! What the library takes on trust from `signal_hook` about signals: which of
//! them it refuses, and the numbers of the two user-defined signals.
//!
//! The numbers are those that Linux gives the signals on every architecture
//! but MIPS and SPARC.

use vstd::prelude::*;

verus! {

/// The number of the illegal-instruction signal.
pub const SIGILL: i32 = 4;

/// The number of the arithmetic-error signal.
pub const SIGFPE: i32 = 8;

/// The number of the kill signal.
pub const SIGKILL: i32 = 9;

/// The number of the first user-defined signal.
pub const SIGUSR1: i32 = 10;

/// The number of the invalid-memory-reference signal.
pub const SIGSEGV: i32 = 11;

/// The number of the second user-defined signal.
pub const SIGUSR2: i32 = 12;

/// The number of the stop signal.
pub const SIGSTOP: i32 = 19;

/// `std::io::Error`, the error of a registration that the operating system
/// turned down. Nothing is known of what it holds.
#[verifier::external_type_specification]
#[verifier::external_body]
pub struct ExIoError(std::io::Error);

/// Whether `signal_hook` refuses to register anything for the signal with this
/// number: two signals that cannot be handled at all, and three that it takes
/// special care to handle.
pub open spec fn forbidden(signal: i32) -> bool {
    signal == SIGKILL || signal == SIGSTOP || signal == SIGILL || signal == SIGFPE || signal
        == SIGSEGV
}

/// Looks the number up in `signal_hook::consts::FORBIDDEN`, the list of
/// `SIGKILL`, `SIGSTOP`, `SIGILL`, `SIGFPE` and `SIGSEGV`.
#[verifier::external_body]
pub(crate) fn is_forbidden(signal: i32) -> (refused: bool)
    ensures
        refused == forbidden(signal),
{
    signal_hook::consts::FORBIDDEN.contains(&signal)
}

/// `signal_hook::consts::SIGUSR1`, the number of the first user-defined
/// signal.
#[verifier::external_body]
pub(crate) fn sigusr1() -> (signal: i32)
    ensures
        signal == SIGUSR1,
{
    signal_hook::consts::SIGUSR1
}

/// `signal_hook::consts::SIGUSR2`, the number of the second user-defined
/// signal.
#[verifier::external_body]
pub(crate) fn sigusr2() -> (signal: i32)
    ensures
        signal == SIGUSR2,
{
    signal_hook::consts::SIGUSR2
}

} // verus!
