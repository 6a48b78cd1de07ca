//! The laws the reduction engine obeys, stated over the spec-level model
//! `spec_reduce` that every executable reducer refines. Each proof function
//! here is a public statement of the library: its doc comment says the law
//! in words, its contract says it exactly.

use vstd::prelude::*;
use crate::action::ActionView;
use crate::cas::{
    cas_contains, cas_count, cas_fetch, cas_wf, lemma_cas_count_absent, lemma_cas_count_push,
    lemma_cas_fetch_push,
};
use crate::context::ContextView;
use crate::dht_store::DhtStoreView;
use crate::dht_reducers::{spec_reduce, spec_reduce_commit_entry, spec_resolve_reducer};
use crate::dna::{spec_entry_type_def_of, spec_sharing_can_publish};
use crate::entry::{addr_of, spec_can_publish, spec_is_sys, type_tag, Address, EntryView};
use crate::network::net_lookup;

verus! {

/// Commit idempotence-rejection: committing the same entry twice in
/// sequence, starting from a snapshot that does not hold its address, the
/// first commit either succeeds or is rejected by policy; whenever it
/// succeeded (the snapshot changed), the second commit is rejected with no
/// change, and the address is present exactly once.
pub proof fn lemma_commit_idempotence_rejection(
    context: ContextView,
    store: DhtStoreView,
    entry: EntryView,
)
    requires
        cas_wf(store.cas),
        !cas_contains(store.cas, addr_of(entry)),
    ensures
        ({
            let s1 = spec_reduce(context, store, ActionView::Commit(entry));
            let s2 = spec_reduce(context, s1, ActionView::Commit(entry));
            &&& s1 != store ==> s2 == s1
            &&& s1 != store ==> cas_count(s1.cas, addr_of(entry)) == 1
        }),
{
    let s1 = spec_reduce(context, store, ActionView::Commit(entry));
    if s1 != store {
        assert(s1.cas == store.cas.push(entry));
        assert(cas_contains(s1.cas, addr_of(entry))) by {
            assert(s1.cas[store.cas.len() as int] == entry);
        };
        assert(spec_reduce_commit_entry(context, s1, entry) is None);
        lemma_cas_count_absent(store.cas, addr_of(entry));
        lemma_cas_count_push(store.cas, entry, addr_of(entry));
    }
}

/// System/application routing, system half: a publishable-capable system
/// entry, committed into a snapshot that does not yet hold it, appears in
/// local storage and is never handed to the network facade's publish.
pub proof fn lemma_system_entry_routing(
    context: ContextView,
    store: DhtStoreView,
    entry: EntryView,
)
    requires
        !cas_contains(store.cas, addr_of(entry)),
        spec_is_sys(entry.entry_type),
        spec_can_publish(entry.entry_type),
    ensures
        ({
            let s1 = spec_reduce(context, store, ActionView::Commit(entry));
            &&& cas_contains(s1.cas, addr_of(entry))
            &&& s1.net.published == store.net.published
        }),
{
    let s1 = spec_reduce(context, store, ActionView::Commit(entry));
    assert(s1.cas[store.cas.len() as int] == entry);
}

/// System/application routing, application half: an application entry
/// whose declared type permits publishing, committed into a snapshot that
/// does not yet hold it, appears in local storage and is published.
pub proof fn lemma_app_entry_routing(context: ContextView, store: DhtStoreView, entry: EntryView)
    requires
        !cas_contains(store.cas, addr_of(entry)),
        !spec_is_sys(entry.entry_type),
        context.dna matches Some(dna) && spec_entry_type_def_of(
            dna.entry_types,
            type_tag(entry.entry_type),
        ) matches Some(def) && spec_sharing_can_publish(def.sharing),
    ensures
        ({
            let s1 = spec_reduce(context, store, ActionView::Commit(entry));
            &&& cas_contains(s1.cas, addr_of(entry))
            &&& s1.net.published == store.net.published.push(entry)
        }),
{
    let s1 = spec_reduce(context, store, ActionView::Commit(entry));
    assert(s1.cas[store.cas.len() as int] == entry);
}

/// Sharing policy enforcement: an application entry whose declared type
/// forbids publishing is rejected entirely — no local storage write, no
/// publish, no change at all.
pub proof fn lemma_sharing_policy_enforcement(
    context: ContextView,
    store: DhtStoreView,
    entry: EntryView,
)
    requires
        !spec_is_sys(entry.entry_type),
        context.dna matches Some(dna) && spec_entry_type_def_of(
            dna.entry_types,
            type_tag(entry.entry_type),
        ) matches Some(def) && !spec_sharing_can_publish(def.sharing),
    ensures
        spec_reduce(context, store, ActionView::Commit(entry)) == store,
{
}

/// Unknown schema rejection: an application entry whose type has no
/// definition in the loaded application definition is rejected with no
/// change.
pub proof fn lemma_unknown_schema_rejection(
    context: ContextView,
    store: DhtStoreView,
    entry: EntryView,
)
    requires
        !spec_is_sys(entry.entry_type),
        context.dna matches Some(dna) ==> spec_entry_type_def_of(
            dna.entry_types,
            type_tag(entry.entry_type),
        ) is None,
    ensures
        spec_reduce(context, store, ActionView::Commit(entry)) == store,
{
}

/// Get-entry cache-first: requesting an address already present locally
/// never invokes the network facade — the snapshot, its request log
/// included, is returned unchanged.
pub proof fn lemma_get_entry_cache_first(
    context: ContextView,
    store: DhtStoreView,
    address: Address,
)
    requires
        cas_contains(store.cas, address.0),
    ensures
        spec_reduce(context, store, ActionView::GetEntry(address)) == store,
        spec_reduce(context, store, ActionView::GetEntry(address)).net.requested
            == store.net.requested,
{
}

/// Get-entry network fallback: requesting an absent address triggers
/// exactly one network fetch, whatever the outcome — the shared network
/// handle records it. When the peers answer with a payload whose derived
/// address matches, the entry becomes locally fetchable; when they answer
/// nothing, or with a payload whose derived address does not match (a
/// data-integrity violation), nothing is cached and nothing is published.
pub proof fn lemma_get_entry_network_fallback(
    context: ContextView,
    store: DhtStoreView,
    address: Address,
)
    requires
        cas_wf(store.cas),
        !cas_contains(store.cas, address.0),
    ensures
        ({
            let s1 = spec_reduce(context, store, ActionView::GetEntry(address));
            &&& s1.net.requested == store.net.requested.push(address)
            &&& match net_lookup(store.net.remote, address) {
                Some(entry) => (if addr_of(entry) == address.0 {
                    cas_fetch(s1.cas, address.0) == Some(entry)
                } else {
                    s1.cas == store.cas && s1.net.published == store.net.published
                }),
                None => s1.cas == store.cas && s1.net.published == store.net.published,
            }
        }),
{
    match net_lookup(store.net.remote, address) {
        Some(entry) => {
            if addr_of(entry) == address.0 {
                lemma_cas_fetch_push(store.cas, entry);
            }
        },
        None => {},
    }
}

/// Unrecognized action no-op: dispatching an action outside the known
/// variant set returns the identical snapshot.
pub proof fn lemma_unrecognized_action_noop(
    context: ContextView,
    store: DhtStoreView,
    action: ActionView,
)
    requires
        spec_resolve_reducer(action) is None,
    ensures
        spec_reduce(context, store, action) == store,
{
}

} // verus!
