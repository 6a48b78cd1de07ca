//! The action-driven state-reduction core of a peer-to-peer application
//! runtime: a node's local, content-addressed replica of distributed
//! application data (the DHT store), advanced one action at a time by a
//! dispatch engine that maps each action to a pure reduction function.
//!
//! The reducers enforce the commit preconditions (no duplicate commit, entry
//! types must be declared and publishable), the publishing policy (system
//! entries stay node-local, publishable application entries are replicated),
//! and the network fallback for reads, with every rejection an explicit
//! "no change" rather than a fault.

pub mod action;
pub mod api;
pub mod cas;
pub mod context;
pub mod dht_reducers;
pub mod dht_store;
pub mod dna;
pub mod eav;
pub mod entry;
pub mod error;
pub mod hash;
pub mod laws;
pub mod network;
pub mod state;
