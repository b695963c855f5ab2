//! One agent per backend, built when it is first asked for and shared from
//! then on.
use vstd::prelude::*;
use crate::agent::Backend;
use crate::agent::readable_by;
use crate::agent::screen;
use crate::arg::ZKArg;
use crate::error::ZKError;
use crate::risc0::ZKRiscZeroAgent;
use crate::sp1::ZKSPOneAgent;

verus! {

/// An agent of one of the supported backends.
#[derive(Clone, Copy, Debug, PartialEq, Eq, Structural)]
pub enum Agent {
    RiscZero(ZKRiscZeroAgent),
    SPOne(ZKSPOneAgent),
}

impl Agent {
    /// The agent that serves `backend`. Agents hold no state of their own, so
    /// there is one per backend.
    pub open spec fn serving(backend: Backend) -> Agent {
        match backend {
            Backend::RiscZero => Agent::RiscZero(ZKRiscZeroAgent),
            Backend::SPOne => Agent::SPOne(ZKSPOneAgent),
        }
    }

    /// The backend that this agent wraps.
    pub open spec fn spec_backend(&self) -> Backend {
        match *self {
            Agent::RiscZero(_) => Backend::RiscZero,
            Agent::SPOne(_) => Backend::SPOne,
        }
    }

    /// The backend that this agent wraps.
    #[verifier::when_used_as_spec(spec_backend)]
    pub fn backend(&self) -> (backend: Backend)
        ensures
            backend == self.spec_backend(),
            *self == Agent::serving(backend),
    {
        match self {
            Agent::RiscZero(_) => Backend::RiscZero,
            Agent::SPOne(_) => Backend::SPOne,
        }
    }

    /// Whether this agent's engine may be handed the payload of `proof` at
    /// all: an argument bound to another backend is turned away before any
    /// decoding.
    pub fn screen<A: ZKArg>(&self, proof: &A) -> (r: Result<(), ZKError>)
        ensures
            readable_by(proof.bound_agent(), self.spec_backend()) ==> r == Ok::<(), ZKError>(()),
            !readable_by(proof.bound_agent(), self.spec_backend()) ==> r == Err::<(), ZKError>(
                ZKError::BackendMismatch,
            ),
    {
        screen(proof.agent(), self.backend())
    }
}

/// The agents that were built so far, at most one per backend.
///
/// A registry belongs to whoever made it: two registries share nothing, and
/// yet hand out equal agents.
#[derive(Clone, Copy, Debug, PartialEq, Eq, Structural)]
pub struct AgentRegistry {
    risc_zero: Option<ZKRiscZeroAgent>,
    sp_one: Option<ZKSPOneAgent>,
}

impl AgentRegistry {
    /// Whether the agent for `backend` was built.
    pub closed spec fn built(&self, backend: Backend) -> bool {
        match backend {
            Backend::RiscZero => self.risc_zero is Some,
            Backend::SPOne => self.sp_one is Some,
        }
    }

    /// The registry after the agent for `backend` was asked for.
    pub closed spec fn after(self, backend: Backend) -> AgentRegistry {
        match backend {
            Backend::RiscZero => AgentRegistry { risc_zero: Some(ZKRiscZeroAgent), ..self },
            Backend::SPOne => AgentRegistry { sp_one: Some(ZKSPOneAgent), ..self },
        }
    }

    /// A registry in which no agent is built yet.
    pub fn new() -> (registry: AgentRegistry)
        ensures
            forall|backend: Backend| !registry.built(backend),
    {
        AgentRegistry { risc_zero: None, sp_one: None }
    }

    /// Whether the agent for `backend` was built.
    pub fn is_built(&self, backend: Backend) -> (built: bool)
        ensures
            built == self.built(backend),
    {
        match backend {
            Backend::RiscZero => self.risc_zero.is_some(),
            Backend::SPOne => self.sp_one.is_some(),
        }
    }

    /// The shared agent for `backend`. The first call for a backend builds
    /// its agent; every later one finds it, and leaves the registry as it
    /// was.
    pub fn agent(&mut self, backend: Backend) -> (agent: Agent)
        ensures
            agent == Agent::serving(backend),
            *final(self) == old(self).after(backend),
    {
        match backend {
            Backend::RiscZero => {
                match self.risc_zero {
                    Some(agent) => Agent::RiscZero(agent),
                    None => {
                        let agent = ZKRiscZeroAgent::default();
                        self.risc_zero = Some(agent);
                        Agent::RiscZero(agent)
                    },
                }
            },
            Backend::SPOne => {
                match self.sp_one {
                    Some(agent) => Agent::SPOne(agent),
                    None => {
                        let agent = ZKSPOneAgent::default();
                        self.sp_one = Some(agent);
                        Agent::SPOne(agent)
                    },
                }
            },
        }
    }
}

/// Asking for an agent builds it at most once: after the first request for a
/// backend its agent is built, the other backends are as they were, and a
/// request for an agent that is built changes nothing. So a second request
/// leaves the registry as the first one left it, and requests for two
/// backends give the same registry in either order.
pub proof fn lemma_agents_are_built_once(registry: AgentRegistry, backend: Backend, other: Backend)
    ensures
        registry.after(backend).built(backend),
        other != backend ==> registry.after(backend).built(other) == registry.built(other),
        registry.built(backend) ==> registry.after(backend) == registry,
        registry.after(backend).after(backend) == registry.after(backend),
        registry.after(backend).after(other) == registry.after(other).after(backend),
{
    if let Some(agent) = registry.risc_zero {
        assert(agent == ZKRiscZeroAgent);
    }
    if let Some(agent) = registry.sp_one {
        assert(agent == ZKSPOneAgent);
    }
}

impl Default for AgentRegistry {
    fn default() -> (registry: AgentRegistry)
        ensures
            forall|backend: Backend| !registry.built(backend),
    {
        AgentRegistry::new()
    }
}

} // verus!
