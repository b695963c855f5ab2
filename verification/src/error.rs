//! The five ways in which an agent fails.
use vstd::prelude::*;

verus! {

/// Why an agent gave no result. Every failure of `execute` or `verify` is one
/// of these five, and none of them comes with a partial result.
#[derive(Clone, Copy, Debug, PartialEq, Eq, Structural)]
pub enum ZKError {
    /// The engine could not be set up for the program, before any proving.
    Construction,
    /// The identity that the engine derived is not the declared one.
    IdentityMismatch,
    /// The engine failed while it ran or proved the program.
    Execution,
    /// The payload could not be decoded, or the engine rejected it.
    Verification,
    /// The argument is bound to another backend than the agent's.
    BackendMismatch,
}

} // verus!
