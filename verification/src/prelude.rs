//! The three roles, the errors, and the agents of every backend.
pub use crate::agent::Backend;
pub use crate::arg::ZKArg;
pub use crate::error::ZKError;
pub use crate::program::Program;
pub use crate::program::ZKProgram;
pub use crate::registry::Agent;
pub use crate::registry::AgentRegistry;
pub use crate::risc0::ZKRiscZeroAgent;
pub use crate::risc0::ZKRiscZeroArg;
pub use crate::risc0::ZKRiscZeroProof;
pub use crate::sp1::ZKSPOneAgent;
pub use crate::sp1::ZKSPOneExe;
