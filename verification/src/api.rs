//! The thin facade a container application drives an instance through:
//! instantiate, start, stop, read the state. Invoking application code
//! inside the execution sandbox is not part of this core; `call` answers
//! for the preconditions this core owns and defers the rest.

use vstd::prelude::*;
use std::sync::Arc;
use crate::cas::ContentStorage;
use crate::context::{Context, ContextView};
use crate::dht_store::DhtStore;
use crate::dna::Dna;
use crate::eav::EavStorage;
use crate::error::HolochainError;
use crate::network::Network;
use crate::state::{NucleusState, NucleusStateView, State, StateView};

verus! {

/// Spec-level image of an application instance.
pub ghost struct HolochainView {
    pub state: StateView,
    pub context: ContextView,
    pub active: bool,
}

/// A running (or stopped) application instance.
pub struct Holochain {
    state: State,
    context: Arc<Context>,
    active: bool,
}

impl View for Holochain {
    type V = HolochainView;

    closed spec fn view(&self) -> HolochainView {
        HolochainView { state: self.state@, context: self.context@, active: self.active }
    }
}

impl Holochain {
    /// Creates a new instance: loads the application definition into the
    /// nucleus over an empty DHT store, inactive until started. The
    /// genesis run inside the application-code sandbox is not part of this
    /// core, so instantiation itself never fails here.
    pub fn new(dna: Dna, context: Arc<Context>) -> (r: Result<Holochain, HolochainError>)
        ensures
            r matches Ok(hc) && ({
                &&& hc@.state.nucleus == (NucleusStateView { dna: Some(dna@), initialized: true })
                &&& hc@.state.dht.cas.len() == 0
                &&& hc@.state.dht.net.published.len() == 0
                &&& hc@.state.dht.net.requested.len() == 0
                &&& hc@.context == context@
                &&& hc@.active == false
            }),
    {
        let dht: DhtStore = DhtStore::new(ContentStorage::new(), EavStorage::new(), Network::new());
        let state: State = State::from_parts(NucleusState::with_initialized_dna(dna), dht);
        let app = Holochain { state, context, active: false };
        Ok(app)
    }

    /// Activates the instance; starting an active instance is refused.
    pub fn start(&mut self) -> (r: Result<(), HolochainError>)
        ensures
            old(self)@.active ==> (r matches Err(e) && e == HolochainError::InstanceActive
                && final(self)@ == old(self)@),
            !old(self)@.active ==> (r is Ok && final(self)@ == (HolochainView {
                state: old(self)@.state,
                context: old(self)@.context,
                active: true,
            })),
    {
        if self.active {
            return Err(HolochainError::InstanceActive);
        }
        self.active = true;
        Ok(())
    }

    /// Deactivates the instance; stopping an inactive instance is refused.
    pub fn stop(&mut self) -> (r: Result<(), HolochainError>)
        ensures
            !old(self)@.active ==> (r matches Err(e) && e == HolochainError::InstanceNotActive
                && final(self)@ == old(self)@),
            old(self)@.active ==> (r is Ok && final(self)@ == (HolochainView {
                state: old(self)@.state,
                context: old(self)@.context,
                active: false,
            })),
    {
        if !self.active {
            return Err(HolochainError::InstanceNotActive);
        }
        self.active = false;
        Ok(())
    }

    /// Calls a function in a zome. This core owns only the activation
    /// precondition; marshalling the call into the application-code
    /// sandbox and waiting for its correlated result live outside it, so
    /// an active instance is answered with `NotImplemented`.
    #[allow(unused_variables)]
    pub fn call(&mut self, zome: &str, cap: &str, fn_name: &str, params: &str) -> (r: Result<
        String,
        HolochainError,
    >)
        ensures
            final(self)@ == old(self)@,
            !old(self)@.active ==> (r matches Err(e) && e == HolochainError::InstanceNotActive),
            old(self)@.active ==> (r matches Err(e) && e == HolochainError::NotImplemented),
    {
        if !self.active {
            return Err(HolochainError::InstanceNotActive);
        }
        Err(HolochainError::NotImplemented)
    }

    /// The execution context this instance runs under.
    pub fn context(&self) -> (c: &Arc<Context>)
        ensures
            c@ == self@.context,
    {
        &self.context
    }

    /// Checks whether the instance is active.
    pub fn active(&self) -> (r: bool)
        ensures
            r == self@.active,
    {
        self.active
    }

    /// A copy of the instance's current state.
    pub fn state(&mut self) -> (r: Result<State, HolochainError>)
        ensures
            final(self)@ == old(self)@,
            r matches Ok(s) && s@ == old(self)@.state,
    {
        Ok(self.state.clone())
    }
}

} // verus!
