//! The DHT store: the aggregate of the node's content storage, attribute
//! storage and network facade. The node owns one such aggregate, shared
//! across the whole history of snapshots; only a reduction, under the
//! single-writer scope, mutates it, and a published snapshot is the
//! aggregate wrapped (cloned) at that point for readers to keep.

use vstd::prelude::*;
use crate::cas::{cas_wf, spec_cas_add, ContentStorage};
use crate::eav::{EavStorage, EavView};
use crate::entry::{addr_of, Address, Entry, EntryView};
use crate::error::HolochainError;
use crate::network::{net_lookup, Network, NetworkView};

verus! {

/// Spec-level image of the store aggregate.
pub ghost struct DhtStoreView {
    pub cas: Seq<EntryView>,
    pub eav: Seq<EavView>,
    pub net: NetworkView,
}

/// The DHT store aggregate; a clone of it is one published snapshot.
#[derive(PartialEq, Eq, Debug)]
pub struct DhtStore {
    content_storage: ContentStorage,
    meta_storage: EavStorage,
    network: Network,
}

impl View for DhtStore {
    type V = DhtStoreView;

    closed spec fn view(&self) -> DhtStoreView {
        DhtStoreView {
            cas: self.content_storage@,
            eav: self.meta_storage@,
            net: self.network@,
        }
    }
}

impl Clone for DhtStore {
    fn clone(&self) -> (res: Self)
        ensures
            res@ == self@,
    {
        DhtStore {
            content_storage: self.content_storage.clone(),
            meta_storage: self.meta_storage.clone(),
            network: self.network.clone(),
        }
    }
}

impl DhtStore {
    /// Well-formedness: the content storage holds each address at most once.
    pub open spec fn wf(&self) -> bool {
        cas_wf(self@.cas)
    }

    /// Builds a store over the given storage and network handles.
    pub fn new(content_storage: ContentStorage, meta_storage: EavStorage, network: Network) -> (s:
        DhtStore)
        ensures
            s@ == (DhtStoreView { cas: content_storage@, eav: meta_storage@, net: network@ }),
    {
        DhtStore { content_storage, meta_storage, network }
    }

    /// The content storage handle.
    pub fn content_storage(&self) -> (c: &ContentStorage)
        ensures
            c@ == self@.cas,
    {
        &self.content_storage
    }

    /// Adds an entry to the shared content storage, in place.
    pub fn add_entry(&mut self, entry: &Entry) -> (r: Result<(), HolochainError>)
        ensures
            r is Ok,
            final(self)@ == (DhtStoreView {
                cas: spec_cas_add(old(self)@.cas, entry@),
                eav: old(self)@.eav,
                net: old(self)@.net,
            }),
            old(self).wf() ==> final(self).wf(),
    {
        self.content_storage.add(entry)
    }

    /// The attribute storage handle.
    pub fn meta_storage(&self) -> (m: &EavStorage)
        ensures
            m@ == self@.eav,
    {
        &self.meta_storage
    }

    /// The network handle.
    pub fn network(&self) -> (n: &Network)
        ensures
            n@ == self@.net,
    {
        &self.network
    }

    /// Broadcasts an entry through the shared network handle.
    pub fn publish(&mut self, entry: &Entry)
        ensures
            final(self)@ == (DhtStoreView {
                cas: old(self)@.cas,
                eav: old(self)@.eav,
                net: NetworkView {
                    remote: old(self)@.net.remote,
                    published: old(self)@.net.published.push(entry@),
                    requested: old(self)@.net.requested,
                },
            }),
    {
        self.network.publish(entry)
    }

    /// Asks the peers for the content under `address` through the shared
    /// network handle, which records the request whatever the outcome.
    pub fn network_get(&mut self, address: &Address) -> (r: Option<Entry>)
        ensures
            final(self)@ == (DhtStoreView {
                cas: old(self)@.cas,
                eav: old(self)@.eav,
                net: NetworkView {
                    remote: old(self)@.net.remote,
                    published: old(self)@.net.published,
                    requested: old(self)@.net.requested.push(*address),
                },
            }),
            match r {
                Some(e) => net_lookup(old(self)@.net.remote, *address) == Some(e@),
                None => net_lookup(old(self)@.net.remote, *address) is None,
            },
    {
        self.network.get(address)
    }
}

} // verus!
