use zkpo::arg::ZKArg;
use zkpo::error::ZKError;
use zkpo::program::Program;
use zkpo::sp1::Action;
use zkpo::sp1::Event;
use zkpo::sp1::Session;
use zkpo::sp1::ZKSPOneAgent;

fn identity_one() -> [u8; 32] {
    let mut id = [0u8; 32];
    id[31] = 1;
    id
}

fn add_program() -> Program {
    Program::new(identity_one(), b"ADD".to_vec())
}

fn keyed(agent: &ZKSPOneAgent) -> Session {
    let (session, action) = agent.begin(&add_program());
    assert!(matches!(action, Action::Run));
    let (session, action) = agent.advance(session, Event::Ran { ok: true });
    assert!(matches!(action, Action::Setup));
    let (session, action) = agent.advance(session, Event::Keyed { vk_hash: identity_one() });
    assert!(matches!(action, Action::Prove));
    assert!(!session.is_closed());
    session
}

#[test]
fn session_delivers_after_every_step_went_well() {
    let agent = ZKSPOneAgent::singleton();
    let session = keyed(agent);
    let (session, action) = agent.advance(session, Event::Proved { ok: true });
    assert!(matches!(action, Action::Encode));
    assert!(!session.is_closed());
    let (session, action) = agent.advance(session, Event::Encoded { payload: Some(vec![9, 8]) });
    assert!(session.is_closed());
    match action {
        Action::Deliver(exe) => {
            assert_eq!(exe.cipher_bytes(), &[9, 8][..]);
            assert_eq!(exe.program_id(), &identity_one());
            assert_eq!(exe.proof, vec![9, 8]);
        }
        other => panic!("no argument: {:?}", other),
    }
}

#[test]
fn malformed_input_ends_the_session_without_an_argument() {
    let agent = ZKSPOneAgent;
    let (session, action) = agent.begin(&add_program());
    assert!(matches!(action, Action::Run));
    assert!(!session.is_closed());
    let (session, action) = agent.advance(session, Event::Ran { ok: false });
    assert!(matches!(action, Action::Fail(ZKError::Execution)));
    assert!(session.is_closed());
}

#[test]
fn foreign_verifying_key_is_an_identity_mismatch() {
    let agent = ZKSPOneAgent;
    let (session, _) = agent.begin(&add_program());
    let (session, _) = agent.advance(session, Event::Ran { ok: true });
    let mut other = identity_one();
    other[31] = 2;
    let (session, action) = agent.advance(session, Event::Keyed { vk_hash: other });
    assert!(matches!(action, Action::Fail(ZKError::IdentityMismatch)));
    assert!(session.is_closed());
}

#[test]
fn failed_proving_is_an_execution_error() {
    let agent = ZKSPOneAgent;
    let session = keyed(&agent);
    let (session, action) = agent.advance(session, Event::Proved { ok: false });
    assert!(matches!(action, Action::Fail(ZKError::Execution)));
    assert!(session.is_closed());
}

#[test]
fn failed_encoding_is_an_execution_error() {
    let agent = ZKSPOneAgent;
    let session = keyed(&agent);
    let (session, _) = agent.advance(session, Event::Proved { ok: true });
    let (session, action) = agent.advance(session, Event::Encoded { payload: None });
    assert!(matches!(action, Action::Fail(ZKError::Execution)));
    assert!(session.is_closed());
}

#[test]
fn answer_out_of_turn_closes_the_session() {
    let agent = ZKSPOneAgent;
    let (session, _) = agent.begin(&add_program());
    let (session, action) = agent.advance(session, Event::Encoded { payload: Some(vec![1]) });
    assert!(matches!(action, Action::Fail(ZKError::Execution)));
    assert!(session.is_closed());
    let (session, _) = agent.begin(&add_program());
    let (session, action) = agent.advance(session, Event::Keyed { vk_hash: identity_one() });
    assert!(matches!(action, Action::Fail(ZKError::Execution)));
    assert!(session.is_closed());
    let session = keyed(&agent);
    let (session, action) = agent.advance(session, Event::Ran { ok: true });
    assert!(matches!(action, Action::Fail(ZKError::Execution)));
    assert!(session.is_closed());
}

#[test]
fn closed_session_stays_closed() {
    let agent = ZKSPOneAgent;
    let session = keyed(&agent);
    let (session, _) = agent.advance(session, Event::Proved { ok: true });
    let (session, action) = agent.advance(session, Event::Encoded { payload: Some(vec![]) });
    assert!(matches!(action, Action::Deliver(_)));
    let (session, action) = agent.advance(session, Event::Encoded { payload: Some(vec![]) });
    assert!(matches!(action, Action::Fail(ZKError::Execution)));
    let (session, action) = agent.advance(session, Event::Ran { ok: true });
    assert!(matches!(action, Action::Fail(ZKError::Execution)));
    assert!(session.is_closed());
}
