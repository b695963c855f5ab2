//! The argument of execution: what an agent seals and what it verifies.
use vstd::prelude::*;
use crate::agent::Backend;
use crate::program::Program;
use crate::program::ZKProgram;

verus! {

/// An argument of execution: the sealed payload that an agent's engine
/// produced, and the identity of the program that it claims to have run.
///
/// The payload is never read here. The claimed identity serves to route and
/// to look up; an agent that verifies derives the identity anew.
pub trait ZKArg {
    /// The bytes of the payload.
    spec fn payload(&self) -> Seq<u8>;

    /// The 32 bytes of the claimed program identity.
    spec fn claimed_identity(&self) -> Seq<u8>;

    /// The backend whose agent can read the payload, if known.
    spec fn bound_agent(&self) -> Option<Backend>;

    /// The payload, as the backend encoded it.
    fn cipher_bytes(&self) -> (bytes: &[u8])
        ensures
            bytes@ == self.payload(),
    ;

    /// The identity of the program that this argument claims to satisfy.
    fn program_id(&self) -> (id: &[u8; 32])
        ensures
            id@ == self.claimed_identity(),
    ;

    /// A hint at the agent that can verify this argument.
    fn agent(&self) -> (agent: Option<Backend>)
        ensures
            agent == self.bound_agent(),
    ;

    /// The program that this argument travels with, if any. Its identity is
    /// the claimed one.
    fn program(&self) -> (program: Option<&Program>)
        ensures
            program matches Some(p) ==> p.identity() == self.claimed_identity(),
    ;

    /// The characters of the name of this kind of argument.
    spec fn kind() -> Seq<char>;

    /// The name of this kind of argument, for people to read. A kind that
    /// has no name of its own answers with [`unnamed`].
    fn name() -> (name: &'static str)
        ensures
            name@ == Self::kind(),
    ;
}

/// The characters of the name of a kind of argument that gave itself none.
pub open spec fn unnamed_kind() -> Seq<char> {
    "unnamed zk argument. i wouldn't trust it"@
}

/// The name of a kind of argument that gave itself none.
pub fn unnamed() -> (name: &'static str)
    ensures
        name@ == unnamed_kind(),
{
    "unnamed zk argument. i wouldn't trust it"
}

} // verus!
