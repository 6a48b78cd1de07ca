//! The network facade: the replication layer as the reducers see it.
//! `publish` broadcasts an entry, fire-and-forget; `get` asks the peers for
//! the content under an address. This in-memory facade models the peers'
//! answers as a fixed table seeded by the caller, and records every publish
//! and every get, so a caller can observe exactly which requests the
//! reducers made. No delivery or consistency guarantee is assumed: a `get`
//! may fail, and what a peer hands back need not match the address it was
//! asked for.

use vstd::prelude::*;
use crate::entry::{Address, Entry, EntryView};

verus! {

/// Spec-level image of one peer-held record.
pub ghost struct RemoteEntryView {
    pub address: Address,
    pub entry: EntryView,
}

/// One record the peers hold: an entry filed under the address the peers
/// claim for it. The claimed address and the entry's derived address need
/// not agree; a mismatch models a corrupt or tampered payload.
#[derive(PartialEq, Eq, Debug)]
pub struct RemoteEntry {
    pub address: Address,
    pub entry: Entry,
}

impl View for RemoteEntry {
    type V = RemoteEntryView;

    open spec fn view(&self) -> RemoteEntryView {
        RemoteEntryView { address: self.address, entry: self.entry@ }
    }
}

impl Clone for RemoteEntry {
    fn clone(&self) -> (res: Self)
        ensures
            res == *self,
    {
        RemoteEntry { address: self.address, entry: self.entry.clone() }
    }
}

/// The first peer-held entry filed under address `a`, if any.
pub open spec fn net_lookup(remote: Seq<RemoteEntryView>, a: Address) -> Option<EntryView>
    decreases remote.len(),
{
    if remote.len() == 0 {
        None
    } else if remote[0].address == a {
        Some(remote[0].entry)
    } else {
        net_lookup(remote.drop_first(), a)
    }
}

/// Spec-level image of the network facade: what the peers hold, what this
/// node has published, and which addresses it has asked the peers for.
pub ghost struct NetworkView {
    pub remote: Seq<RemoteEntryView>,
    pub published: Seq<EntryView>,
    pub requested: Seq<Address>,
}

/// The network facade.
#[derive(PartialEq, Eq, Debug)]
pub struct Network {
    remote: Vec<RemoteEntry>,
    published: Vec<Entry>,
    requested: Vec<Address>,
}

impl View for Network {
    type V = NetworkView;

    closed spec fn view(&self) -> NetworkView {
        NetworkView {
            remote: Seq::new(self.remote@.len(), |i: int| self.remote@[i]@),
            published: Seq::new(self.published@.len(), |i: int| self.published@[i]@),
            requested: self.requested@,
        }
    }
}

impl Clone for Network {
    fn clone(&self) -> (res: Self)
        ensures
            res@ == self@,
    {
        let res = Network {
            remote: self.remote.clone(),
            published: self.published.clone(),
            requested: self.requested.clone(),
        };
        proof {
            assert(res@.remote =~= self@.remote);
            assert(res@.published =~= self@.published);
            assert(res@.requested =~= self@.requested);
        }
        res
    }
}

impl Network {
    /// A facade with no peer content, nothing published and nothing asked.
    pub fn new() -> (n: Network)
        ensures
            n@ == (NetworkView {
                remote: Seq::<RemoteEntryView>::empty(),
                published: Seq::<EntryView>::empty(),
                requested: Seq::<Address>::empty(),
            }),
    {
        let n = Network { remote: Vec::new(), published: Vec::new(), requested: Vec::new() };
        proof {
            assert(n@.remote =~= Seq::<RemoteEntryView>::empty());
            assert(n@.published =~= Seq::<EntryView>::empty());
            assert(n@.requested =~= Seq::<Address>::empty());
        }
        n
    }

    /// Seeds one record the peers will answer with, filed under the address
    /// they claim for it.
    pub fn add_remote_entry(&mut self, address: Address, entry: Entry)
        ensures
            final(self)@ == (NetworkView {
                remote: old(self)@.remote.push(
                    RemoteEntryView { address, entry: entry@ },
                ),
                published: old(self)@.published,
                requested: old(self)@.requested,
            }),
    {
        let ghost prior: NetworkView = self@;
        self.remote.push(RemoteEntry { address, entry });
        proof {
            assert(self@.remote =~= prior.remote.push(
                self.remote@[prior.remote.len() as int]@,
            ));
            assert(self@.published =~= prior.published);
        }
    }

    /// Broadcasts an entry to the replication layer, fire-and-forget.
    pub fn publish(&mut self, entry: &Entry)
        ensures
            final(self)@ == (NetworkView {
                remote: old(self)@.remote,
                published: old(self)@.published.push(entry@),
                requested: old(self)@.requested,
            }),
    {
        let ghost prior: NetworkView = self@;
        self.published.push(entry.clone());
        proof {
            assert(self@.published =~= prior.published.push(entry@));
            assert(self@.remote =~= prior.remote);
        }
    }

    /// Asks the peers for the content under `address`. Records the request,
    /// and answers from the seeded peer content; an address the peers do not
    /// hold fails with `None`.
    pub fn get(&mut self, address: &Address) -> (r: Option<Entry>)
        ensures
            final(self)@ == (NetworkView {
                remote: old(self)@.remote,
                published: old(self)@.published,
                requested: old(self)@.requested.push(*address),
            }),
            match r {
                Some(e) => net_lookup(old(self)@.remote, *address) == Some(e@),
                None => net_lookup(old(self)@.remote, *address) is None,
            },
    {
        self.requested.push(*address);
        proof {
            assert(self@.remote =~= old(self)@.remote);
            assert(self@.published =~= old(self)@.published);
            assert(self@.requested =~= old(self)@.requested.push(*address));
            assert(self@.remote.skip(0) =~= self@.remote);
        }
        let n: usize = self.remote.len();
        let mut i: usize = 0;
        while i < n
            invariant
                n == self.remote.len(),
                i <= n,
                self@.remote == old(self)@.remote,
                self@.published == old(self)@.published,
                self@.requested == old(self)@.requested.push(*address),
                net_lookup(self@.remote.skip(i as int), *address) == net_lookup(
                    self@.remote,
                    *address,
                ),
            decreases n - i,
        {
            let ghost rest: Seq<RemoteEntryView> = self@.remote.skip(i as int);
            proof {
                assert(rest[0] == self@.remote[i as int]);
            }
            if self.remote[i].address.0 == address.0 {
                return Some(self.remote[i].entry.clone());
            }
            proof {
                assert(rest.drop_first() =~= self@.remote.skip(i as int + 1));
            }
            i = i + 1;
        }
        proof {
            assert(self@.remote.skip(n as int) =~= Seq::<RemoteEntryView>::empty());
        }
        None
    }

    /// How many entries this node has published.
    pub fn publish_count(&self) -> (n: usize)
        ensures
            n == self@.published.len(),
    {
        self.published.len()
    }

    /// How many network fetches this node has made.
    pub fn request_count(&self) -> (n: usize)
        ensures
            n == self@.requested.len(),
    {
        self.requested.len()
    }

    /// The entries this node has published, oldest first.
    pub fn published(&self) -> (p: &Vec<Entry>)
        ensures
            p@.len() == self@.published.len(),
            forall|i: int| 0 <= i < p@.len() ==> p@[i]@ == self@.published[i],
    {
        &self.published
    }
}

} // verus!
