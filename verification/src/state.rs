//! The instance state an application runs over: the nucleus slice (the
//! loaded application definition and its initialization mark) and the DHT
//! store slice.

use vstd::prelude::*;
use crate::cas::ContentStorage;
use crate::dht_store::{DhtStore, DhtStoreView};
use crate::dna::{Dna, DnaView};
use crate::eav::EavStorage;
use crate::network::Network;

verus! {

/// Spec-level image of the nucleus state slice.
pub ghost struct NucleusStateView {
    pub dna: Option<DnaView>,
    pub initialized: bool,
}

/// The nucleus state slice: which application definition is loaded, and
/// whether the application has been initialized.
#[derive(PartialEq, Eq, Debug)]
pub struct NucleusState {
    dna: Option<Dna>,
    initialized: bool,
}

impl View for NucleusState {
    type V = NucleusStateView;

    closed spec fn view(&self) -> NucleusStateView {
        NucleusStateView {
            dna: match &self.dna {
                Some(dna) => Some(dna@),
                None => None,
            },
            initialized: self.initialized,
        }
    }
}

impl Clone for NucleusState {
    fn clone(&self) -> (res: Self)
        ensures
            res@ == self@,
    {
        NucleusState {
            dna: match &self.dna {
                Some(dna) => Some(dna.clone()),
                None => None,
            },
            initialized: self.initialized,
        }
    }
}

impl NucleusState {
    /// A nucleus with no application loaded.
    pub fn new() -> (n: NucleusState)
        ensures
            n@ == (NucleusStateView { dna: None, initialized: false }),
    {
        NucleusState { dna: None, initialized: false }
    }

    /// A nucleus holding an initialized application.
    pub fn with_initialized_dna(dna: Dna) -> (n: NucleusState)
        ensures
            n@ == (NucleusStateView { dna: Some(dna@), initialized: true }),
    {
        NucleusState { dna: Some(dna), initialized: true }
    }

    /// The loaded application definition, if any.
    pub fn dna(&self) -> (d: Option<Dna>)
        ensures
            d is Some <==> self@.dna is Some,
            d matches Some(dna) ==> self@.dna == Some(dna@),
    {
        match &self.dna {
            Some(dna) => Some(dna.clone()),
            None => None,
        }
    }

    /// Whether the application has been initialized.
    pub fn has_initialized(&self) -> (r: bool)
        ensures
            r == self@.initialized,
    {
        self.initialized
    }
}

/// Spec-level image of the instance state.
pub ghost struct StateView {
    pub nucleus: NucleusStateView,
    pub dht: DhtStoreView,
}

/// The instance state: the nucleus slice and the DHT store slice.
#[derive(PartialEq, Eq, Debug)]
pub struct State {
    nucleus: NucleusState,
    dht: DhtStore,
}

impl View for State {
    type V = StateView;

    closed spec fn view(&self) -> StateView {
        StateView { nucleus: self.nucleus@, dht: self.dht@ }
    }
}

impl Clone for State {
    fn clone(&self) -> (res: Self)
        ensures
            res@ == self@,
    {
        State { nucleus: self.nucleus.clone(), dht: self.dht.clone() }
    }
}

impl State {
    /// A fresh state: no application loaded, an empty DHT store over fresh
    /// storage and network handles.
    pub fn new() -> (s: State)
        ensures
            s@.nucleus == (NucleusStateView { dna: None, initialized: false }),
            s@.dht.cas.len() == 0,
            s@.dht.eav.len() == 0,
            s@.dht.net.published.len() == 0,
            s@.dht.net.requested.len() == 0,
            s@.dht.net.remote.len() == 0,
    {
        State {
            nucleus: NucleusState::new(),
            dht: DhtStore::new(ContentStorage::new(), EavStorage::new(), Network::new()),
        }
    }

    /// Builds a state from its two slices.
    pub fn from_parts(nucleus: NucleusState, dht: DhtStore) -> (s: State)
        ensures
            s@ == (StateView { nucleus: nucleus@, dht: dht@ }),
    {
        State { nucleus, dht }
    }

    /// The nucleus state slice.
    pub fn nucleus(&self) -> (n: &NucleusState)
        ensures
            n@ == self@.nucleus,
    {
        &self.nucleus
    }

    /// The DHT store slice.
    pub fn dht(&self) -> (d: &DhtStore)
        ensures
            d@ == self@.dht,
    {
        &self.dht
    }
}

} // verus!
