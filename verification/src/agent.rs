//! The decisions that every backend's agent makes the same way: whom it
//! reads an argument for, when it seals a proof, and when it gives out public
//! outputs. The engines themselves are asked from outside this library; an
//! agent is told what they answered.
use vstd::prelude::*;
use crate::arg::ZKArg;
use crate::error::ZKError;
use crate::identity::corroborates;
use crate::identity::same_identity;

verus! {

/// The proving engines that an agent can wrap.
#[derive(Clone, Copy, Debug, PartialEq, Eq, Structural)]
pub enum Backend {
    RiscZero,
    SPOne,
}

/// Whether an agent of `backend` may read an argument bound to `bound`: an
/// argument bound to no backend is open to every agent.
pub open spec fn readable_by(bound: Option<Backend>, backend: Backend) -> bool {
    bound matches Some(b) ==> b == backend
}

/// What an agent returns for a payload that its engine decoded: the public
/// outputs if the engine accepted the payload and derived from it what was
/// expected, and no outputs otherwise.
pub open spec fn verdict(
    expected: Seq<u8>,
    accepted: bool,
    derived: Option<[u8; 32]>,
    outputs: Seq<u8>,
) -> Result<Seq<u8>, ZKError> {
    if !accepted {
        Err(ZKError::Verification)
    } else if !corroborates(expected, derived) {
        Err(ZKError::IdentityMismatch)
    } else {
        Ok(outputs)
    }
}

/// The bytes of a result that holds bytes.
pub open spec fn outputs_of(result: Result<Vec<u8>, ZKError>) -> Result<Seq<u8>, ZKError> {
    match result {
        Ok(bytes) => Ok(bytes@),
        Err(e) => Err(e),
    }
}

/// Turns away an argument that is bound to another backend, before its
/// payload is touched.
pub fn screen(bound: Option<Backend>, backend: Backend) -> (r: Result<(), ZKError>)
    ensures
        readable_by(bound, backend) ==> r == Ok::<(), ZKError>(()),
        !readable_by(bound, backend) ==> r == Err::<(), ZKError>(ZKError::BackendMismatch),
{
    match bound {
        None => Ok(()),
        Some(b) => {
            if b == backend {
                Ok(())
            } else {
                Err(ZKError::BackendMismatch)
            }
        },
    }
}

/// Holds what an engine derived against what is expected of it. An agent
/// goes on only where the engine derived something and it is what is
/// expected.
pub fn corroborate(expected: &[u8; 32], derived: Option<[u8; 32]>) -> (r: Result<(), ZKError>)
    ensures
        corroborates(expected@, derived) ==> r == Ok::<(), ZKError>(()),
        !corroborates(expected@, derived) ==> r == Err::<(), ZKError>(ZKError::IdentityMismatch),
{
    match derived {
        None => Err(ZKError::IdentityMismatch),
        Some(d) => {
            if same_identity(expected, &d) {
                Ok(())
            } else {
                Err(ZKError::IdentityMismatch)
            }
        },
    }
}

/// What an engine reported of one proving run.
#[derive(Clone, Debug)]
pub enum Report {
    /// The engine could not be set up for the input.
    Unprepared,
    /// The engine failed while it ran or proved the program.
    Failed,
    /// The engine proved the run.
    Proved {
        /// What the engine derived from its proof, where it could derive
        /// it: the program identity, or a digest that binds it.
        derived: Option<[u8; 32]>,
        /// The encoded proof, where it could be encoded.
        payload: Option<Vec<u8>>,
    },
}

/// The payload that an agent seals given what the engine reported, or the
/// error that it returns; `expected` is what the engine must have derived.
///
/// An engine that could not be set up is a `Construction` error; one that
/// failed, or whose proof could not be encoded, an `Execution` error. A proof
/// is sealed only if the engine derived from it what was expected.
pub open spec fn sealing(expected: Seq<u8>, report: Report) -> Result<Seq<u8>, ZKError> {
    match report {
        Report::Unprepared => Err(ZKError::Construction),
        Report::Failed => Err(ZKError::Execution),
        Report::Proved { derived, payload } => match payload {
            None => Err(ZKError::Execution),
            Some(bytes) => if corroborates(expected, derived) {
                Ok(bytes@)
            } else {
                Err(ZKError::IdentityMismatch)
            },
        },
    }
}

/// The payload of a result that holds an argument.
pub open spec fn sealed_by<A: ZKArg>(result: Result<A, ZKError>) -> Result<Seq<u8>, ZKError> {
    match result {
        Ok(arg) => Ok(arg.payload()),
        Err(e) => Err(e),
    }
}

/// Decides what `execute` seals once the engine has reported.
pub fn settle(expected: &[u8; 32], report: Report) -> (r: Result<Vec<u8>, ZKError>)
    ensures
        outputs_of(r) == sealing(expected@, report),
{
    match report {
        Report::Unprepared => Err(ZKError::Construction),
        Report::Failed => Err(ZKError::Execution),
        Report::Proved { derived, payload } => {
            let bytes = match payload {
                Some(bytes) => bytes,
                None => {
                    return Err(ZKError::Execution);
                },
            };
            match corroborate(expected, derived) {
                Ok(()) => Ok(bytes),
                Err(e) => Err(e),
            }
        },
    }
}

/// No payload is sealed unless the engine proved the run, the proof was
/// encoded, and the engine derived from it what was expected; the payload is
/// then that encoding, byte for byte.
pub proof fn lemma_sealed_payload_is_corroborated(expected: Seq<u8>, report: Report)
    ensures
        sealing(expected, report) is Ok <==> (report matches Report::Proved {
            derived,
            payload: Some(_),
        } && corroborates(expected, derived)),
        sealing(expected, report) matches Ok(sealed) ==> (report matches Report::Proved {
            payload: Some(bytes),
            ..
        } && sealed == bytes@),
{
}

/// What an engine found in a payload that it decoded.
#[derive(Clone, Debug)]
pub struct Findings {
    /// Whether the engine accepted the payload as a valid proof.
    pub accepted: bool,
    /// What the engine derived from the payload, where it could derive it:
    /// the program identity, or a digest that binds it.
    pub derived: Option<[u8; 32]>,
    /// The public outputs that the payload carries.
    pub outputs: Vec<u8>,
}

/// What an agent of `backend` returns for an argument bound to `bound`,
/// given what the engine found in its payload; `None` stands for a payload
/// that the engine could not decode, and `expected` is what the engine must
/// have derived.
///
/// An argument bound to another backend is turned away whatever its payload
/// holds. A payload that does not decode is a `Verification` error. For one
/// that decodes, `verdict` decides.
pub open spec fn ruling(
    backend: Backend,
    bound: Option<Backend>,
    expected: Seq<u8>,
    findings: Option<Findings>,
) -> Result<Seq<u8>, ZKError> {
    if !readable_by(bound, backend) {
        Err(ZKError::BackendMismatch)
    } else {
        match findings {
            None => Err(ZKError::Verification),
            Some(f) => verdict(expected, f.accepted, f.derived, f.outputs@),
        }
    }
}

/// Decides what `verify` returns once the engine has spoken.
pub fn judge(
    backend: Backend,
    bound: Option<Backend>,
    expected: &[u8; 32],
    findings: Option<Findings>,
) -> (r: Result<Vec<u8>, ZKError>)
    ensures
        outputs_of(r) == ruling(backend, bound, expected@, findings),
{
    match screen(bound, backend) {
        Ok(()) => {},
        Err(e) => {
            return Err(e);
        },
    }
    let found = match findings {
        Some(found) => found,
        None => {
            return Err(ZKError::Verification);
        },
    };
    if !found.accepted {
        return Err(ZKError::Verification);
    }
    match corroborate(expected, found.derived) {
        Ok(()) => Ok(found.outputs),
        Err(e) => Err(e),
    }
}

/// The backend whose agent an argument is to be handed to. An argument that
/// is bound to no backend names no agent: any agent may read it, but none
/// can be chosen for it.
pub open spec fn routed(bound: Option<Backend>) -> Result<Backend, ZKError> {
    match bound {
        Some(backend) => Ok(backend),
        None => Err(ZKError::BackendMismatch),
    }
}

/// Chooses the agent for an argument by the backend that it is bound to.
pub fn route(bound: Option<Backend>) -> (r: Result<Backend, ZKError>)
    ensures
        r == routed(bound),
{
    match bound {
        Some(backend) => Ok(backend),
        None => Err(ZKError::BackendMismatch),
    }
}

/// An argument is readable by the agent that it is routed to.
pub proof fn lemma_routed_agent_reads(bound: Option<Backend>)
    ensures
        routed(bound) matches Ok(backend) ==> readable_by(bound, backend),
{
}

/// An argument that is bound to one backend and handed to the agent of
/// another is turned away with `BackendMismatch`, whatever its payload holds
/// and whatever an engine would find in it.
pub proof fn lemma_other_backend_is_turned_away(
    backend: Backend,
    bound: Backend,
    expected: Seq<u8>,
    findings: Option<Findings>,
)
    requires
        bound != backend,
    ensures
        ruling(backend, Some(bound), expected, findings) == Err::<Seq<u8>, ZKError>(
            ZKError::BackendMismatch,
        ),
{
}

/// Outputs are given out only for a payload that the engine decoded and
/// accepted and from which it derived what was expected, and they are the
/// outputs that the engine found, byte for byte. On every other finding the
/// result is an error.
pub proof fn lemma_outputs_come_from_an_accepted_payload(
    backend: Backend,
    bound: Option<Backend>,
    expected: Seq<u8>,
    findings: Option<Findings>,
)
    ensures
        ruling(backend, bound, expected, findings) matches Ok(outputs) ==> readable_by(
            bound,
            backend,
        ) && (findings matches Some(f) && f.accepted && corroborates(expected, f.derived)
            && outputs == f.outputs@),
        ruling(backend, bound, expected, findings) is Err ==> !readable_by(bound, backend)
            || findings is None || !findings->0.accepted || !corroborates(
            expected,
            findings->0.derived,
        ),
{
}

/// An agent adds no failure of its own to an argument of its own backend:
/// where the engine accepts the payload and derives from it what is
/// expected, the agent returns the outputs that the engine found.
pub proof fn lemma_accepted_payload_gives_its_outputs(
    backend: Backend,
    expected: Seq<u8>,
    findings: Findings,
)
    requires
        findings.accepted,
        corroborates(expected, findings.derived),
    ensures
        ruling(backend, Some(backend), expected, Some(findings)) == Ok::<Seq<u8>, ZKError>(
            findings.outputs@,
        ),
        ruling(backend, None, expected, Some(findings)) == Ok::<Seq<u8>, ZKError>(
            findings.outputs@,
        ),
{
}

} // verus!
