//! Zero-knowledge arguments of execution behind one interface.
//!
//! A program is an executable artifact together with a 32-byte identity. An
//! agent has a proving engine run a program on an input and seals what the
//! engine hands back into an argument; later it, or an equal agent elsewhere,
//! has the engine check that argument and gives out the program's public
//! outputs. The engines are asked from outside this library: an agent says
//! what is to be asked and decides on the answers. No argument leaves an
//! agent, and no output is given out, unless what the engine derived binds
//! the identity that was declared.
pub mod agent;
pub mod arg;
pub mod error;
pub mod guest;
pub mod identity;
pub mod prelude;
pub mod program;
pub mod registry;
pub mod risc0;
pub mod sp1;

pub use crate::arg::ZKArg;
pub use crate::error::ZKError;
pub use crate::program::ZKProgram;
