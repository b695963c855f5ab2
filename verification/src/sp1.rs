//! An agent for the SP1 zkVM. Its engine is driven from outside this
//! library: the agent says what to ask of the engine next, and is told what
//! came back. It seals a compressed proof together with the verifying key.
use vstd::prelude::*;
use crate::agent::Backend;
use crate::agent::corroborate;
use crate::agent::Findings;
use crate::agent::judge;
use crate::agent::outputs_of;
use crate::agent::readable_by;
use crate::agent::Report;
use crate::agent::ruling;
use crate::agent::sealing;
use crate::agent::screen;
use crate::arg::unnamed;
use crate::arg::unnamed_kind;
use crate::arg::ZKArg;
use crate::error::ZKError;
use crate::program::Program;
use crate::program::ZKProgram;

verus! {

/// An argument of execution that holds an SP1 compressed proof and the
/// verifying key of its program, encoded together.
#[derive(Clone, Debug)]
pub struct ZKSPOneExe {
    /// The proof and the verifying key, encoded.
    pub proof: Vec<u8>,
    /// The hash of the verifying key that the proof is claimed for.
    pub program_id: [u8; 32],
}

impl ZKSPOneExe {
    /// Seals an encoded proof under the identity that it was proved for.
    pub fn seal(proof: Vec<u8>, program_id: &[u8; 32]) -> (exe: ZKSPOneExe)
        ensures
            exe.proof@ == proof@,
            exe.program_id@ == program_id@,
    {
        ZKSPOneExe { proof, program_id: *program_id }
    }
}

impl ZKArg for ZKSPOneExe {
    open spec fn payload(&self) -> Seq<u8> {
        self.proof@
    }

    open spec fn claimed_identity(&self) -> Seq<u8> {
        self.program_id@
    }

    open spec fn bound_agent(&self) -> Option<Backend> {
        Some(Backend::SPOne)
    }

    fn cipher_bytes(&self) -> (bytes: &[u8]) {
        self.proof.as_slice()
    }

    fn program_id(&self) -> (id: &[u8; 32]) {
        &self.program_id
    }

    fn agent(&self) -> (agent: Option<Backend>) {
        Some(Backend::SPOne)
    }

    fn program(&self) -> (program: Option<&Program>)
        ensures
            program is None,
    {
        None
    }

    open spec fn kind() -> Seq<char> {
        unnamed_kind()
    }

    fn name() -> (name: &'static str) {
        unnamed()
    }
}

/// How far a proving session has come.
#[derive(Clone, Copy, Debug, PartialEq, Eq, Structural)]
pub enum Stage {
    /// The engine runs the program on the input, without proving.
    Running,
    /// The engine derives the proving and the verifying key.
    Keying,
    /// The engine proves.
    Proving,
    /// The proof and the verifying key are being encoded.
    Encoding,
    /// The session is over: an argument was delivered, or an error.
    Closed,
}

/// What the engine did at the agent's last request.
#[derive(Debug)]
pub enum Event {
    /// The run without proof ended, well or not.
    Ran { ok: bool },
    /// The keys are set up; `vk_hash` is the hash of the verifying key.
    Keyed { vk_hash: [u8; 32] },
    /// The proving ended, well or not.
    Proved { ok: bool },
    /// The encoding ended: with the payload, or without one.
    Encoded { payload: Option<Vec<u8>> },
}

/// What the agent asks for next, or how the session ends.
#[derive(Debug)]
pub enum Action {
    /// Run the program on the input, without proving.
    Run,
    /// Set up the proving and the verifying key of the program.
    Setup,
    /// Produce the compressed proof.
    Prove,
    /// Encode the proof together with the verifying key.
    Encode,
    /// The session ends with this argument.
    Deliver(ZKSPOneExe),
    /// The session ends with this error, and without an argument.
    Fail(ZKError),
}

/// An action as the contracts speak of it: an argument stands as its payload
/// and its claimed identity.
pub enum Step {
    Run,
    Setup,
    Prove,
    Encode,
    Deliver { payload: Seq<u8>, identity: Seq<u8> },
    Fail(ZKError),
}

impl View for Action {
    type V = Step;

    open spec fn view(&self) -> Step {
        match *self {
            Action::Run => Step::Run,
            Action::Setup => Step::Setup,
            Action::Prove => Step::Prove,
            Action::Encode => Step::Encode,
            Action::Deliver(exe) => Step::Deliver {
                payload: exe.proof@,
                identity: exe.program_id@,
            },
            Action::Fail(e) => Step::Fail(e),
        }
    }
}

/// The stage that follows `stage` on `event`, and the action that goes with
/// it, in a session for the program with identity `declared`.
///
/// The session moves on only while the engine reports success and the
/// verifying key hashes to the declared identity. An event that does not
/// answer the stage's request closes the session with an `Execution` error.
pub open spec fn transition(stage: Stage, event: Event, declared: Seq<u8>) -> (Stage, Step) {
    match (stage, event) {
        (Stage::Running, Event::Ran { ok: true }) => (Stage::Keying, Step::Setup),
        (Stage::Keying, Event::Keyed { vk_hash }) => if vk_hash@ == declared {
            (Stage::Proving, Step::Prove)
        } else {
            (Stage::Closed, Step::Fail(ZKError::IdentityMismatch))
        },
        (Stage::Proving, Event::Proved { ok: true }) => (Stage::Encoding, Step::Encode),
        (Stage::Encoding, Event::Encoded { payload: Some(bytes) }) => (
            Stage::Closed,
            Step::Deliver { payload: bytes@, identity: declared },
        ),
        _ => (Stage::Closed, Step::Fail(ZKError::Execution)),
    }
}

/// Where a session stands after the engine's answers `events`, taken in
/// order from the opening of the session, and the last action of the agent.
pub open spec fn replay(declared: Seq<u8>, events: Seq<Event>) -> (Stage, Step)
    decreases events.len(),
{
    if events.len() == 0 {
        (Stage::Running, Step::Run)
    } else {
        transition(replay(declared, events.drop_last()).0, events.last(), declared)
    }
}

/// Whether the first `n` of `events` are the answers of an engine that ran
/// the program, derived a verifying key that hashes to `declared`, and
/// proved, in that order and as far as `n` reaches.
pub open spec fn corroborated_so_far(declared: Seq<u8>, events: Seq<Event>, n: int) -> bool {
    &&& n <= events.len()
    &&& n >= 1 ==> events[0] == (Event::Ran { ok: true })
    &&& n >= 2 ==> (events[1] matches Event::Keyed { vk_hash } && vk_hash@ == declared)
    &&& n >= 3 ==> events[2] == (Event::Proved { ok: true })
}

/// A session is at a stage before the end exactly when every answer so far
/// was the one that the stage before it asked for. Any other answer has
/// closed it, and a closed session stays closed.
pub proof fn lemma_stage_counts_good_answers(declared: Seq<u8>, events: Seq<Event>)
    ensures
        replay(declared, events).0 == Stage::Running <==> events.len() == 0,
        replay(declared, events).0 == Stage::Keying <==> events.len() == 1 && corroborated_so_far(
            declared,
            events,
            1,
        ),
        replay(declared, events).0 == Stage::Proving <==> events.len() == 2 && corroborated_so_far(
            declared,
            events,
            2,
        ),
        replay(declared, events).0 == Stage::Encoding <==> events.len() == 3
            && corroborated_so_far(declared, events, 3),
    decreases events.len(),
{
    if events.len() > 0 {
        lemma_stage_counts_good_answers(declared, events.drop_last());
    }
}

/// A session delivers an argument exactly when the engine ran the program,
/// derived a verifying key that hashes to the declared identity, proved, and
/// the proof was encoded, in that order and with nothing after. The argument
/// then holds the encoded payload and claims the declared identity.
pub proof fn lemma_delivery_is_earned(declared: Seq<u8>, events: Seq<Event>)
    ensures
        replay(declared, events).1 is Deliver <==> events.len() == 4 && corroborated_so_far(
            declared,
            events,
            3,
        ) && (events[3] matches Event::Encoded { payload: Some(_) }),
        replay(declared, events).1 matches Step::Deliver { payload, identity } ==> identity
            == declared && (events[3] matches Event::Encoded { payload: Some(bytes) } && payload
            == bytes@),
{
    if events.len() > 0 {
        lemma_stage_counts_good_answers(declared, events.drop_last());
    }
}

/// A session seals what every agent seals: where the engine ran and proved,
/// the session's last action is the `sealing` of the report that holds the
/// hash of the verifying key as the derived identity, and the encoding as
/// the payload.
pub proof fn lemma_session_seals_as_reported(
    declared: Seq<u8>,
    vk_hash: [u8; 32],
    payload: Option<Vec<u8>>,
)
    ensures
        ({
            let events = seq![
                Event::Ran { ok: true },
                Event::Keyed { vk_hash },
                Event::Proved { ok: true },
                Event::Encoded { payload },
            ];
            let report = Report::Proved { derived: Some(vk_hash), payload };
            match sealing(declared, report) {
                Ok(sealed) => replay(declared, events).1 == (Step::Deliver {
                    payload: sealed,
                    identity: declared,
                }),
                Err(e) => replay(declared, events).1 is Fail,
            }
        }),
{
    let events = seq![
        Event::Ran { ok: true },
        Event::Keyed { vk_hash },
        Event::Proved { ok: true },
        Event::Encoded { payload },
    ];
    lemma_delivery_is_earned(declared, events);
}

/// A proving session: the stage it is at, and the identity of the program
/// that it proves.
#[derive(Debug)]
pub struct Session {
    stage: Stage,
    program_id: [u8; 32],
}

impl Session {
    /// The stage that the session is at.
    pub closed spec fn stage(&self) -> Stage {
        self.stage
    }

    /// The identity of the program that the session proves.
    pub closed spec fn declared(&self) -> Seq<u8> {
        self.program_id@
    }

    /// Whether the session is over.
    pub fn is_closed(&self) -> (closed: bool)
        ensures
            closed == (self.stage() == Stage::Closed),
    {
        self.stage == Stage::Closed
    }
}

/// The agent for the SP1 backend. It holds nothing: every instance serves
/// every program and argument of its backend.
#[derive(Clone, Copy, Debug, PartialEq, Eq, Structural)]
pub struct ZKSPOneAgent;

impl Default for ZKSPOneAgent {
    fn default() -> (agent: ZKSPOneAgent)
        ensures
            agent == ZKSPOneAgent,
    {
        ZKSPOneAgent
    }
}

impl ZKSPOneAgent {
    /// The backend that this agent wraps.
    pub open spec fn backend(&self) -> Backend {
        Backend::SPOne
    }

    /// Opens a proving session for `program`. The first thing to ask of the
    /// engine is a run without proof.
    pub fn begin<P: ZKProgram>(&self, program: &P) -> (r: (Session, Action))
        ensures
            r.0.stage() == Stage::Running,
            r.0.declared() == program.identity(),
            r.1@ == Step::Run,
    {
        (Session { stage: Stage::Running, program_id: *program.id() }, Action::Run)
    }

    /// Takes the engine's answer and says what comes next.
    pub fn advance(&self, session: Session, event: Event) -> (r: (Session, Action))
        ensures
            r.0.declared() == session.declared(),
            (r.0.stage(), r.1@) == transition(session.stage(), event, session.declared()),
    {
        let program_id = session.program_id;
        let (stage, action) = match (session.stage, event) {
            (Stage::Running, Event::Ran { ok: true }) => (Stage::Keying, Action::Setup),
            (Stage::Keying, Event::Keyed { vk_hash }) => {
                match corroborate(&program_id, Some(vk_hash)) {
                    Ok(()) => (Stage::Proving, Action::Prove),
                    Err(e) => (Stage::Closed, Action::Fail(e)),
                }
            },
            (Stage::Proving, Event::Proved { ok: true }) => (Stage::Encoding, Action::Encode),
            (Stage::Encoding, Event::Encoded { payload: Some(bytes) }) => (
                Stage::Closed,
                Action::Deliver(ZKSPOneExe::seal(bytes, &program_id)),
            ),
            _ => (Stage::Closed, Action::Fail(ZKError::Execution)),
        };
        (Session { stage, program_id }, action)
    }

    /// Whether the engine may be handed the payload of `exe` at all: an
    /// argument bound to another backend is turned away before any decoding.
    pub fn screen<A: ZKArg>(&self, exe: &A) -> (r: Result<(), ZKError>)
        ensures
            readable_by(exe.bound_agent(), Backend::SPOne) ==> r == Ok::<(), ZKError>(()),
            !readable_by(exe.bound_agent(), Backend::SPOne) ==> r == Err::<(), ZKError>(
                ZKError::BackendMismatch,
            ),
    {
        screen(exe.agent(), Backend::SPOne)
    }

    /// What verifying `exe` returns, given what the engine found in its
    /// payload: whether it accepted the proof under the verifying key that
    /// travels with it, the hash of that key, and the public values. `None`
    /// stands for a payload that does not decode.
    pub fn verify<A: ZKArg>(&self, exe: &A, findings: Option<Findings>) -> (r: Result<
        Vec<u8>,
        ZKError,
    >)
        ensures
            outputs_of(r) == ruling(
                Backend::SPOne,
                exe.bound_agent(),
                exe.claimed_identity(),
                findings,
            ),
    {
        judge(Backend::SPOne, exe.agent(), exe.program_id(), findings)
    }

    /// The agent that the whole process shares.
    pub fn singleton() -> (agent: &'static ZKSPOneAgent)
        ensures
            *agent == ZKSPOneAgent,
            agent.backend() == Backend::SPOne,
    {
        &ZKSPOneAgent
    }
}

} // verus!
