use risc0_zkvm::sha::Digestible;
use risc0_zkvm::FakeReceipt;
use risc0_zkvm::InnerReceipt;
use risc0_zkvm::MaybePruned;
use risc0_zkvm::Receipt;
use risc0_zkvm::ReceiptClaim;
use zkpo::agent::Findings;
use zkpo::arg::ZKArg;
use zkpo::error::ZKError;
use zkpo::program::Program;
use zkpo::risc0::Proving;
use zkpo::risc0::ZKRiscZeroAgent;
use zkpo::risc0::ZKRiscZeroArg;
use zkpo::sp1::ZKSPOneExe;

fn image_one() -> [u8; 32] {
    let mut id = [0u8; 32];
    id[31] = 1;
    id
}

fn add_program() -> Program {
    Program::new(image_one(), b"ADD".to_vec())
}

fn receipt(image_id: [u8; 32], journal: Vec<u8>) -> Receipt {
    let claim = ReceiptClaim::ok(image_id, journal.clone());
    Receipt::new(InnerReceipt::Fake(FakeReceipt::new(claim)), journal)
}

fn found_in(payload: &[u8], accepted: bool) -> Option<Findings> {
    let receipt: Receipt = bincode::deserialize(payload).ok()?;
    let derived = receipt.claim().ok().map(|claim| claim.digest().into());
    Some(Findings { accepted, derived, outputs: receipt.journal.bytes })
}

fn verified<A: ZKArg>(arg: &A, accepted: bool) -> Result<Vec<u8>, ZKError> {
    ZKRiscZeroAgent.verify(arg, found_in(arg.cipher_bytes(), accepted))
}

fn sealed(image_id: [u8; 32], journal: Vec<u8>) -> ZKRiscZeroArg {
    let agent = ZKRiscZeroAgent;
    let program = Program::new(image_id, vec![]);
    let commission = agent.begin(&program, Some(image_id)).unwrap();
    agent.finish(commission, Proving::Proved(receipt(image_id, journal))).unwrap()
}

#[test]
fn proved_receipt_is_sealed_and_gives_its_journal() {
    let agent = ZKRiscZeroAgent::singleton();
    let commission = agent.begin(&add_program(), Some(image_one())).unwrap();
    let proved = receipt(image_one(), vec![5, 0, 0, 0]);
    let expected_payload = bincode::serialize(&proved).unwrap();
    let arg = agent.finish(commission, Proving::Proved(proved)).unwrap();
    assert_eq!(arg.program_id(), &image_one());
    assert_eq!(arg.cipher_bytes(), &expected_payload[..]);
    assert_eq!(verified(&arg, true), Ok(vec![5, 0, 0, 0]));
    assert_eq!(verified(&arg, false), Err(ZKError::Verification));
}

#[test]
fn receipt_with_a_pruned_claim_gives_its_journal() {
    let agent = ZKRiscZeroAgent;
    let journal = vec![9u8, 9, 9];
    let digest = ReceiptClaim::ok(image_one(), journal.clone()).digest();
    let pruned = Receipt::new(
        InnerReceipt::Fake(FakeReceipt::new(MaybePruned::Pruned(digest))),
        journal.clone(),
    );
    let commission = agent.begin(&add_program(), Some(image_one())).unwrap();
    let arg = agent.finish(commission, Proving::Proved(pruned)).unwrap();
    assert_eq!(verified(&arg, true), Ok(journal));
}

#[test]
fn receipt_of_another_image_is_not_sealed() {
    let agent = ZKRiscZeroAgent;
    let commission = agent.begin(&add_program(), Some(image_one())).unwrap();
    let foreign = receipt([7u8; 32], vec![5, 0, 0, 0]);
    let r = agent.finish(commission, Proving::Proved(foreign));
    assert!(matches!(r, Err(ZKError::IdentityMismatch)));
}

#[test]
fn receipt_that_did_not_end_well_is_not_sealed() {
    let agent = ZKRiscZeroAgent;
    let journal = vec![5u8, 0, 0, 0];
    let claim = ReceiptClaim::paused(image_one(), journal.clone());
    let paused = Receipt::new(InnerReceipt::Fake(FakeReceipt::new(claim)), journal);
    let commission = agent.begin(&add_program(), Some(image_one())).unwrap();
    let r = agent.finish(commission, Proving::Proved(paused));
    assert!(matches!(r, Err(ZKError::IdentityMismatch)));
}

#[test]
fn receipt_with_a_swapped_journal_is_not_sealed() {
    let agent = ZKRiscZeroAgent;
    let claim = ReceiptClaim::ok(image_one(), vec![5u8, 0, 0, 0]);
    let swapped = Receipt::new(InnerReceipt::Fake(FakeReceipt::new(claim)), vec![6, 0, 0, 0]);
    let payload = bincode::serialize(&swapped).unwrap();
    let commission = agent.begin(&add_program(), Some(image_one())).unwrap();
    let r = agent.finish(commission, Proving::Proved(swapped));
    assert!(matches!(r, Err(ZKError::IdentityMismatch)));
    let arg = ZKRiscZeroArg { receipt_bytes: payload, program_id: image_one() };
    assert_eq!(verified(&arg, true), Err(ZKError::IdentityMismatch));
    assert_eq!(verified(&arg, false), Err(ZKError::Verification));
}

#[test]
fn failed_proving_yields_no_argument() {
    let agent = ZKRiscZeroAgent;
    let commission = agent.begin(&add_program(), Some(image_one())).unwrap();
    let r = agent.finish(commission, Proving::Failed);
    assert!(matches!(r, Err(ZKError::Execution)));
    let commission = agent.begin(&add_program(), Some(image_one())).unwrap();
    let r = agent.finish(commission, Proving::Unprepared);
    assert!(matches!(r, Err(ZKError::Construction)));
}

#[test]
fn wrongly_declared_program_is_refused_before_proving() {
    let agent = ZKRiscZeroAgent;
    let r = agent.begin(&add_program(), Some([3u8; 32]));
    assert!(matches!(r, Err(ZKError::IdentityMismatch)));
    let r = agent.begin(&add_program(), None);
    assert!(matches!(r, Err(ZKError::Construction)));
    assert!(agent.begin(&add_program(), Some(image_one())).is_ok());
}

#[test]
fn findings_are_held_against_the_claimed_identity() {
    let arg = sealed(image_one(), vec![1, 2]);
    let claim = ReceiptClaim::ok(image_one(), vec![1u8, 2]).digest();
    let good = Findings { accepted: true, derived: Some(claim.into()), outputs: vec![1, 2] };
    assert_eq!(ZKRiscZeroAgent.verify(&arg, Some(good.clone())), Ok(vec![1, 2]));
    let other_journal = Findings { outputs: vec![1, 3], ..good.clone() };
    assert_eq!(
        ZKRiscZeroAgent.verify(&arg, Some(other_journal)),
        Err(ZKError::IdentityMismatch)
    );
    let other_claim = Findings { derived: Some([0u8; 32]), ..good.clone() };
    assert_eq!(ZKRiscZeroAgent.verify(&arg, Some(other_claim)), Err(ZKError::IdentityMismatch));
    let no_claim = Findings { derived: None, ..good.clone() };
    assert_eq!(ZKRiscZeroAgent.verify(&arg, Some(no_claim)), Err(ZKError::IdentityMismatch));
    let of_the_identity = Findings { derived: Some(image_one()), ..good.clone() };
    assert_eq!(
        ZKRiscZeroAgent.verify(&arg, Some(of_the_identity)),
        Err(ZKError::IdentityMismatch)
    );
    let rejected = Findings { accepted: false, ..good };
    assert_eq!(ZKRiscZeroAgent.verify(&arg, Some(rejected)), Err(ZKError::Verification));
    assert_eq!(ZKRiscZeroAgent.verify(&arg, None), Err(ZKError::Verification));
}

#[test]
fn accepted_receipt_under_another_identity_is_an_identity_mismatch() {
    let arg = sealed(image_one(), vec![5, 0, 0, 0]);
    let relabelled = ZKRiscZeroArg { receipt_bytes: arg.receipt_bytes, program_id: [9u8; 32] };
    assert_eq!(verified(&relabelled, true), Err(ZKError::IdentityMismatch));
    assert_eq!(verified(&relabelled, false), Err(ZKError::Verification));
}

#[test]
fn no_flipped_byte_changes_the_outputs() {
    let journal = vec![5u8, 0, 0, 0];
    let arg = sealed(image_one(), journal.clone());
    for at in 0..arg.receipt_bytes.len() {
        let mut tampered = arg.receipt_bytes.clone();
        tampered[at] ^= 0xff;
        let tampered = ZKRiscZeroArg { receipt_bytes: tampered, program_id: image_one() };
        assert_eq!(verified(&tampered, false), Err(ZKError::Verification));
        match verified(&tampered, true) {
            Ok(outputs) => assert_eq!(outputs, journal),
            Err(e) => assert!(matches!(e, ZKError::Verification | ZKError::IdentityMismatch)),
        }
    }
}

#[test]
fn undecodable_payload_is_a_verification_error_whatever_was_accepted() {
    let payload = sealed(image_one(), vec![5, 0, 0, 0]).receipt_bytes;
    let cases = vec![vec![], vec![0xff; 7], payload[..payload.len() / 2].to_vec()];
    for bytes in cases {
        let arg = ZKRiscZeroArg { receipt_bytes: bytes, program_id: image_one() };
        assert_eq!(verified(&arg, true), Err(ZKError::Verification));
        assert_eq!(verified(&arg, false), Err(ZKError::Verification));
    }
}

#[test]
fn argument_of_the_other_backend_is_not_opened() {
    let payload = sealed(image_one(), vec![5, 0, 0, 0]).receipt_bytes;
    let exe = ZKSPOneExe { proof: payload, program_id: image_one() };
    assert_eq!(ZKRiscZeroAgent.screen(&exe), Err(ZKError::BackendMismatch));
    assert_eq!(verified(&exe, true), Err(ZKError::BackendMismatch));
    assert_eq!(verified(&exe, false), Err(ZKError::BackendMismatch));
    let arg = sealed(image_one(), vec![]);
    assert_eq!(ZKRiscZeroAgent.screen(&arg), Ok(()));
}
