//! An agent for the RISC Zero zkVM. Its prover and its verifier are asked
//! from outside this library, and payloads are decoded there; the agent is
//! told what they answered and what was found. What a receipt claims it
//! holds against the declared identity itself.
use vstd::prelude::*;
use crate::agent::Backend;
use crate::agent::corroborate;
use crate::agent::Findings;
use crate::agent::judge;
use crate::agent::outputs_of;
use crate::agent::readable_by;
use crate::agent::Report;
use crate::agent::screen;
use crate::agent::ruling;
use crate::agent::sealed_by;
use crate::agent::settle;
use crate::arg::unnamed;
use crate::arg::unnamed_kind;
use crate::arg::ZKArg;
use crate::error::ZKError;
use crate::program::Program;
use crate::program::ZKProgram;

verus! {

/// `risc0_zkvm::Receipt`: the engine's proof of one execution, with the
/// journal that the guest wrote. Nothing inside it is visible here.
#[verifier::external_type_specification]
#[verifier::external_body]
pub struct ExReceipt(risc0_zkvm::Receipt);

/// `bincode::ErrorKind`: why a receipt could not be encoded.
#[verifier::external_type_specification]
#[verifier::external_body]
pub struct ExCodecError(bincode::ErrorKind);

/// The bincode encoding of a receipt, as `bincode::serialize` gives it;
/// `None` where it gives none.
pub uninterp spec fn receipt_encoding(receipt: risc0_zkvm::Receipt) -> Option<Seq<u8>>;

/// The digest of a receipt's claim, as `Receipt::claim` and
/// `Digestible::digest` give it; `None` where the receipt yields no claim.
pub uninterp spec fn receipt_claim(receipt: risc0_zkvm::Receipt) -> Option<Seq<u8>>;

/// The journal of a receipt: its field `journal.bytes`.
pub uninterp spec fn receipt_journal(receipt: risc0_zkvm::Receipt) -> Seq<u8>;

/// The digest of the claim that the image `image_id` ran to a normal end and
/// wrote `journal`: the digest of `ReceiptClaim::ok` of the two.
pub uninterp spec fn ok_claim(image_id: Seq<u8>, journal: Seq<u8>) -> Seq<u8>;

/// The bytes of a digest that may be missing.
pub open spec fn digest_of(digest: Option<[u8; 32]>) -> Option<Seq<u8>> {
    match digest {
        Some(d) => Some(d@),
        None => None,
    }
}

/// The bytes of an encoding that may have failed.
pub open spec fn encoded(r: Result<Vec<u8>, Box<bincode::ErrorKind>>) -> Option<Seq<u8>> {
    match r {
        Ok(bytes) => Some(bytes@),
        Err(_) => None,
    }
}

/// Encodes a receipt with `bincode::serialize`. The outcome depends on the
/// receipt alone.
#[verifier::external_body]
fn encode_receipt(receipt: &risc0_zkvm::Receipt) -> (bytes: Result<
    Vec<u8>,
    Box<bincode::ErrorKind>,
>)
    ensures
        encoded(bytes) == receipt_encoding(*receipt),
{
    bincode::serialize(receipt)
}

/// The digest of a receipt's claim, with `Receipt::claim` and
/// `Digestible::digest`; `None` where the receipt yields no claim. It
/// depends on the receipt alone. No seal is checked.
#[verifier::external_body]
fn claim_digest(receipt: &risc0_zkvm::Receipt) -> (digest: Option<[u8; 32]>)
    ensures
        digest_of(digest) == receipt_claim(*receipt),
{
    let claim = receipt.claim().ok()?;
    Some(risc0_zkvm::sha::Digestible::digest(&claim).into())
}

/// A copy of a receipt's journal, its field `journal.bytes`.
#[verifier::external_body]
fn journal_bytes(receipt: &risc0_zkvm::Receipt) -> (journal: Vec<u8>)
    ensures
        journal@ == receipt_journal(*receipt),
{
    receipt.journal.bytes.clone()
}

/// The digest of `ReceiptClaim::ok` for the image `image_id`, handed over
/// with `Digest::from_bytes`, and the journal `journal`. It depends on the
/// two alone.
#[verifier::external_body]
fn ok_claim_digest(image_id: &[u8; 32], journal: &[u8]) -> (digest: [u8; 32])
    ensures
        digest@ == ok_claim(image_id@, journal@),
{
    let image = risc0_zkvm::Digest::from_bytes(*image_id);
    let claim = risc0_zkvm::ReceiptClaim::ok(image, journal.to_vec());
    risc0_zkvm::sha::Digestible::digest(&claim).into()
}

/// Whether a receipt claims that the image `declared` ran to a normal end
/// and wrote the receipt's own journal.
pub open spec fn claims(receipt: risc0_zkvm::Receipt, declared: Seq<u8>) -> bool {
    receipt_claim(receipt) == Some(ok_claim(declared, receipt_journal(receipt)))
}

/// An argument of execution that holds a RISC Zero receipt.
#[derive(Clone, Debug)]
pub struct ZKRiscZeroArg {
    /// The receipt, encoded.
    pub receipt_bytes: Vec<u8>,
    /// The image identity of the program that the receipt is claimed for.
    pub program_id: [u8; 32],
}

/// Another name for [`ZKRiscZeroArg`].
pub type ZKRiscZeroProof = ZKRiscZeroArg;

impl ZKRiscZeroArg {
    /// Seals an encoded receipt under the identity that it was proved for.
    pub fn seal(receipt_bytes: Vec<u8>, program_id: &[u8; 32]) -> (arg: ZKRiscZeroArg)
        ensures
            arg.receipt_bytes@ == receipt_bytes@,
            arg.program_id@ == program_id@,
    {
        ZKRiscZeroArg { receipt_bytes, program_id: *program_id }
    }
}

impl ZKArg for ZKRiscZeroArg {
    open spec fn payload(&self) -> Seq<u8> {
        self.receipt_bytes@
    }

    open spec fn claimed_identity(&self) -> Seq<u8> {
        self.program_id@
    }

    open spec fn bound_agent(&self) -> Option<Backend> {
        Some(Backend::RiscZero)
    }

    fn cipher_bytes(&self) -> (bytes: &[u8]) {
        self.receipt_bytes.as_slice()
    }

    fn program_id(&self) -> (id: &[u8; 32]) {
        &self.program_id
    }

    fn agent(&self) -> (agent: Option<Backend>) {
        Some(Backend::RiscZero)
    }

    fn program(&self) -> (program: Option<&Program>)
        ensures
            program is None,
    {
        None
    }

    open spec fn kind() -> Seq<char> {
        unnamed_kind()
    }

    fn name() -> (name: &'static str) {
        unnamed()
    }
}

/// The leave to prove one program: its identity was derived from its
/// executable and is the declared one.
#[derive(Debug)]
pub struct Commission {
    program_id: [u8; 32],
}

impl Commission {
    /// The identity of the program that is to be proved.
    pub closed spec fn declared(&self) -> Seq<u8> {
        self.program_id@
    }
}

/// What the prover did with a commission.
#[derive(Debug)]
pub enum Proving {
    /// The executor environment could not be built.
    Unprepared,
    /// The prover failed.
    Failed,
    /// The prover gave this receipt.
    Proved(risc0_zkvm::Receipt),
}

/// What `begin` returns for a program with the identity `declared`, given
/// the identity that the engine derived from the executable; `None` stands
/// for an executable from which it could derive none.
pub open spec fn commissioning(declared: Seq<u8>, derived: Option<[u8; 32]>) -> Result<
    Seq<u8>,
    ZKError,
> {
    match derived {
        None => Err(ZKError::Construction),
        Some(d) => if d@ == declared {
            Ok(declared)
        } else {
            Err(ZKError::IdentityMismatch)
        },
    }
}

/// The identity in a result that holds a commission.
pub open spec fn commissioned(r: Result<Commission, ZKError>) -> Result<Seq<u8>, ZKError> {
    match r {
        Ok(commission) => Ok(commission.declared()),
        Err(e) => Err(e),
    }
}

/// What `finish` seals for a commission to prove the image `declared`, or
/// the error that it returns, given what the prover did.
///
/// An environment that could not be built is a `Construction` error, and a
/// failed prover an `Execution` error. A receipt that cannot be encoded is
/// an `Execution` error, and one that does not claim the declared image an
/// `IdentityMismatch`. Otherwise the receipt's encoding is sealed.
pub open spec fn finishing(declared: Seq<u8>, proving: Proving) -> Result<Seq<u8>, ZKError> {
    match proving {
        Proving::Unprepared => Err(ZKError::Construction),
        Proving::Failed => Err(ZKError::Execution),
        Proving::Proved(receipt) => match receipt_encoding(receipt) {
            None => Err(ZKError::Execution),
            Some(bytes) => if claims(receipt, declared) {
                Ok(bytes)
            } else {
                Err(ZKError::IdentityMismatch)
            },
        },
    }
}

/// What `verify` returns for an argument bound to `bound` that claims the
/// identity `declared`, given what was found in its payload: whether the
/// verifier accepted it, the digest of the receipt's claim, and the journal;
/// `None` stands for a payload that is no encoded receipt.
///
/// An argument bound to another backend is turned away. A payload that is no
/// encoded receipt, or that the verifier did not accept, is a `Verification`
/// error. An accepted receipt whose claim is not that the declared image ran
/// to a normal end and wrote the journal found is an `IdentityMismatch`.
/// Otherwise the outputs are that journal.
pub open spec fn receipt_ruling(
    bound: Option<Backend>,
    declared: Seq<u8>,
    findings: Option<Findings>,
) -> Result<Seq<u8>, ZKError> {
    match findings {
        None => ruling(Backend::RiscZero, bound, declared, findings),
        Some(f) => ruling(Backend::RiscZero, bound, ok_claim(declared, f.outputs@), findings),
    }
}

/// An argument that this agent sealed is given its journal back whenever the
/// verifier accepts it and the findings are the claim and the journal of the
/// receipt that was sealed: what `finish` seals for an image, `verify` reads
/// as a claim of that image.
pub proof fn lemma_sealed_receipt_gives_its_journal(
    declared: Seq<u8>,
    receipt: risc0_zkvm::Receipt,
    findings: Findings,
)
    requires
        finishing(declared, Proving::Proved(receipt)) is Ok,
        findings.accepted,
        digest_of(findings.derived) == receipt_claim(receipt),
        findings.outputs@ == receipt_journal(receipt),
    ensures
        receipt_ruling(Some(Backend::RiscZero), declared, Some(findings)) == Ok::<
            Seq<u8>,
            ZKError,
        >(receipt_journal(receipt)),
{
}

/// The outputs that `verify` gives out are the journal that was found, the
/// verifier accepted the payload, and the claim that was found is that the
/// declared image ran to a normal end and wrote those outputs.
pub proof fn lemma_outputs_are_the_journal(
    bound: Option<Backend>,
    declared: Seq<u8>,
    findings: Option<Findings>,
)
    ensures
        receipt_ruling(bound, declared, findings) matches Ok(outputs) ==> (findings matches Some(
            f,
        ) && f.accepted && outputs == f.outputs@ && digest_of(f.derived) == Some(
            ok_claim(declared, outputs),
        )),
{
}

/// The agent for the RISC Zero backend. It holds nothing: every instance
/// serves every program and argument of its backend.
#[derive(Clone, Copy, Debug, PartialEq, Eq, Structural)]
pub struct ZKRiscZeroAgent;

impl ZKRiscZeroAgent {
    /// The backend that this agent wraps.
    pub open spec fn backend(&self) -> Backend {
        Backend::RiscZero
    }

    /// Gives leave to prove `program`, or refuses before any proving:
    /// `derived` is the image identity that the engine derived from the
    /// program's executable. An executable from which it derived none is a
    /// `Construction` error, and an identity other than the program's own an
    /// `IdentityMismatch`.
    pub fn begin<P: ZKProgram>(&self, program: &P, derived: Option<[u8; 32]>) -> (r: Result<
        Commission,
        ZKError,
    >)
        ensures
            commissioned(r) == commissioning(program.identity(), derived),
    {
        if derived.is_none() {
            return Err(ZKError::Construction);
        }
        match corroborate(program.id(), derived) {
            Ok(()) => Ok(Commission { program_id: *program.id() }),
            Err(e) => Err(e),
        }
    }

    /// Seals what the prover did with a commission, as `finishing` says. A
    /// receipt is sealed only if its claim is that the commission's image
    /// ran to a normal end and wrote the receipt's journal; the payload is
    /// then the receipt's encoding.
    pub fn finish(&self, commission: Commission, proving: Proving) -> (r: Result<
        ZKRiscZeroArg,
        ZKError,
    >)
        ensures
            sealed_by(r) == finishing(commission.declared(), proving),
            r matches Ok(arg) ==> arg.program_id@ == commission.declared(),
    {
        let report = match proving {
            Proving::Unprepared => {
                return Err(ZKError::Construction);
            },
            Proving::Failed => {
                return Err(ZKError::Execution);
            },
            Proving::Proved(receipt) => {
                let journal = journal_bytes(&receipt);
                let expected = ok_claim_digest(&commission.program_id, journal.as_slice());
                let derived = claim_digest(&receipt);
                let payload = match encode_receipt(&receipt) {
                    Ok(bytes) => Some(bytes),
                    Err(_) => None,
                };
                (expected, Report::Proved { derived, payload })
            },
        };
        match settle(&report.0, report.1) {
            Ok(bytes) => Ok(ZKRiscZeroArg::seal(bytes, &commission.program_id)),
            Err(e) => Err(e),
        }
    }

    /// Whether the verifier may be handed the payload of `proof` at all: an
    /// argument bound to another backend is turned away before any decoding.
    pub fn screen<A: ZKArg>(&self, proof: &A) -> (r: Result<(), ZKError>)
        ensures
            readable_by(proof.bound_agent(), Backend::RiscZero) ==> r == Ok::<(), ZKError>(()),
            !readable_by(proof.bound_agent(), Backend::RiscZero) ==> r == Err::<(), ZKError>(
                ZKError::BackendMismatch,
            ),
    {
        screen(proof.agent(), Backend::RiscZero)
    }

    /// What verifying `proof` returns, given what was found in its payload:
    /// whether the verifier accepted it under the claimed identity, the
    /// digest of the receipt's claim, and the journal; `None` stands for a
    /// payload that is no encoded receipt. The agent holds the claim against
    /// the claimed identity and the journal itself, whatever the verifier
    /// said.
    pub fn verify<A: ZKArg>(&self, proof: &A, findings: Option<Findings>) -> (r: Result<
        Vec<u8>,
        ZKError,
    >)
        ensures
            outputs_of(r) == receipt_ruling(
                proof.bound_agent(),
                proof.claimed_identity(),
                findings,
            ),
    {
        match screen(proof.agent(), Backend::RiscZero) {
            Ok(()) => {},
            Err(e) => {
                return Err(e);
            },
        }
        let expected = match &findings {
            Some(found) => ok_claim_digest(proof.program_id(), found.outputs.as_slice()),
            None => *proof.program_id(),
        };
        judge(Backend::RiscZero, proof.agent(), &expected, findings)
    }

    /// The agent that the whole process shares.
    pub fn singleton() -> (agent: &'static ZKRiscZeroAgent)
        ensures
            *agent == ZKRiscZeroAgent,
            agent.backend() == Backend::RiscZero,
    {
        &ZKRiscZeroAgent
    }
}

impl Default for ZKRiscZeroAgent {
    fn default() -> (agent: ZKRiscZeroAgent)
        ensures
            agent == ZKRiscZeroAgent,
    {
        ZKRiscZeroAgent
    }
}

} // verus!
