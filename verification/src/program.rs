//! Programs: an executable artifact under a stable identity.
use vstd::prelude::*;
use crate::agent::Backend;

verus! {

/// A piece of verifiable computation: an executable artifact and the identity
/// under which an agent's backend knows it.
///
/// The identity is held, never computed here: deriving it from the executable
/// is the backend's business.
pub trait ZKProgram {
    /// The 32 bytes of the identity.
    spec fn identity(&self) -> Seq<u8>;

    /// The bytes of the executable artifact.
    spec fn executable(&self) -> Seq<u8>;

    /// The backend that this program is known to run on, if any.
    spec fn bound_agent(&self) -> Option<Backend>;

    /// The label that the program goes by among people, if it has one. No
    /// agent reads it.
    spec fn display_name(&self) -> Option<Seq<char>>;

    /// The stable identifier of the program.
    fn id(&self) -> (id: &[u8; 32])
        ensures
            id@ == self.identity(),
    ;

    /// The artifact that the backend loads.
    fn elf(&self) -> (elf: &[u8])
        ensures
            elf@ == self.executable(),
    ;

    /// A hint at the agent that can run this program.
    fn agent(&self) -> (agent: Option<Backend>)
        ensures
            agent == self.bound_agent(),
    ;

    /// The program's label.
    fn name(&self) -> (name: Option<&str>)
        ensures
            label_of(name) == self.display_name(),
    ;
}

/// The characters of a label that may be missing.
pub open spec fn label_of(name: Option<&str>) -> Option<Seq<char>> {
    match name {
        Some(label) => Some(label@),
        None => None,
    }
}

/// A program held in memory.
#[derive(Clone, Debug)]
pub struct Program {
    id: [u8; 32],
    elf: Vec<u8>,
    label: Option<String>,
    agent: Option<Backend>,
}

impl Program {
    /// A program with the given identity and executable, without a label and
    /// bound to no agent.
    pub fn new(id: [u8; 32], elf: Vec<u8>) -> (program: Program)
        ensures
            program.identity() == id@,
            program.executable() == elf@,
            program.bound_agent() is None,
            program.display_name() is None,
    {
        Program { id, elf, label: None, agent: None }
    }

    /// The same program under the label `label`.
    pub fn with_name(self, label: String) -> (program: Program)
        ensures
            program.display_name() == Some(label@),
            program.identity() == self.identity(),
            program.executable() == self.executable(),
            program.bound_agent() == self.bound_agent(),
    {
        Program { id: self.id, elf: self.elf, label: Some(label), agent: self.agent }
    }

    /// The same program, bound to the agent of `backend`.
    pub fn with_agent(self, backend: Backend) -> (program: Program)
        ensures
            program.bound_agent() == Some(backend),
            program.identity() == self.identity(),
            program.executable() == self.executable(),
            program.display_name() == self.display_name(),
    {
        Program { id: self.id, elf: self.elf, label: self.label, agent: Some(backend) }
    }
}

impl ZKProgram for Program {
    closed spec fn identity(&self) -> Seq<u8> {
        self.id@
    }

    closed spec fn executable(&self) -> Seq<u8> {
        self.elf@
    }

    closed spec fn bound_agent(&self) -> Option<Backend> {
        self.agent
    }

    closed spec fn display_name(&self) -> Option<Seq<char>> {
        match self.label {
            Some(label) => Some(label@),
            None => None,
        }
    }

    fn id(&self) -> (id: &[u8; 32]) {
        &self.id
    }

    fn elf(&self) -> (elf: &[u8]) {
        self.elf.as_slice()
    }

    fn agent(&self) -> (agent: Option<Backend>) {
        self.agent
    }

    fn name(&self) -> (name: Option<&str>) {
        match &self.label {
            Some(label) => Some(label.as_str()),
            None => None,
        }
    }
}

} // verus!
