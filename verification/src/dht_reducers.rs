//! The DHT reducers: the dispatch engine and the per-action reduction
//! functions. The node owns one `DhtStore` aggregate whose storage and
//! network handles are shared across the whole history of snapshots; a
//! reduction mutates it in place, under the caller's single-writer scope,
//! and on success wraps the now-current aggregate as a fresh snapshot for
//! publication. Every reduction is total — rejection of any kind is "no
//! change", never a fault — and each one refines the spec-level model
//! `spec_reduce`, over which the library's laws are stated and proved.

use vstd::prelude::*;
use std::sync::Arc;
use crate::action::{Action, ActionView, ActionWrapper};
use crate::cas::{cas_contains, cas_wf, spec_cas_add};
use crate::context::{Context, ContextView};
use crate::dht_store::{DhtStore, DhtStoreView};
use crate::dna::{spec_entry_type_def_of, spec_sharing_can_publish, EntryTypeDef};
use crate::entry::{addr_of, type_tag, spec_can_publish, spec_is_sys, Address, Entry, EntryView};
use crate::network::{net_lookup, NetworkView};

verus! {

/// The view of a reduction's result: `None` is "no change", `Some` is the
/// published snapshot of the store after the reduction.
pub open spec fn store_option_view(r: Option<DhtStore>) -> Option<DhtStoreView> {
    match r {
        None => None,
        Some(s) => Some(s@),
    }
}

/// Model of committing a system entry: publishable-capable types reach the
/// local content storage and are never handed to the network.
pub open spec fn spec_commit_sys_entry(store: DhtStoreView, entry: EntryView) -> Option<
    DhtStoreView,
> {
    if !spec_can_publish(entry.entry_type) {
        None
    } else {
        Some(DhtStoreView { cas: spec_cas_add(store.cas, entry), eav: store.eav, net: store.net })
    }
}

/// Model of committing an application entry: the type must be declared by
/// the loaded application definition and its sharing policy must permit
/// publishing; then the entry reaches local storage and is broadcast.
pub open spec fn spec_commit_app_entry(
    context: ContextView,
    store: DhtStoreView,
    entry: EntryView,
) -> Option<DhtStoreView> {
    match context.dna {
        None => None,
        Some(dna) => match spec_entry_type_def_of(dna.entry_types, type_tag(entry.entry_type)) {
            None => None,
            Some(def) => if !spec_sharing_can_publish(def.sharing) {
                None
            } else {
                Some(
                    DhtStoreView {
                        cas: spec_cas_add(store.cas, entry),
                        eav: store.eav,
                        net: NetworkView {
                            remote: store.net.remote,
                            published: store.net.published.push(entry),
                            requested: store.net.requested,
                        },
                    },
                )
            },
        },
    }
}

/// Model of the top-level commit: a duplicate address is rejected, then the
/// entry is routed by its type classification. A rejected commit leaves the
/// store exactly as it was.
pub open spec fn spec_reduce_commit_entry(
    context: ContextView,
    store: DhtStoreView,
    entry: EntryView,
) -> Option<DhtStoreView> {
    if cas_contains(store.cas, addr_of(entry)) {
        None
    } else if spec_is_sys(entry.entry_type) {
        spec_commit_sys_entry(store, entry)
    } else {
        spec_commit_app_entry(context, store, entry)
    }
}

/// Model of what the network-fallback read does to the store. An address
/// already cached makes no fetch at all. An absent address is asked of the
/// peers exactly once, whatever the outcome — the shared network handle
/// keeps the request on failure too — and only a payload whose derived
/// address matches the requested address is cached.
pub open spec fn spec_get_entry_effect(store: DhtStoreView, address: Address) -> DhtStoreView {
    if cas_contains(store.cas, address.0) {
        store
    } else {
        let asked = DhtStoreView {
            cas: store.cas,
            eav: store.eav,
            net: NetworkView {
                remote: store.net.remote,
                published: store.net.published,
                requested: store.net.requested.push(address),
            },
        };
        match net_lookup(store.net.remote, address) {
            None => asked,
            Some(entry) => if addr_of(entry) != address.0 {
                asked
            } else {
                DhtStoreView { cas: spec_cas_add(store.cas, entry), eav: asked.eav, net: asked.net }
            },
        }
    }
}

/// Model of the network-fallback read's published result: `None` for every
/// rejection (already cached, peers hold nothing, integrity mismatch), the
/// snapshot after caching on success.
pub open spec fn spec_reduce_get_entry_from_network(store: DhtStoreView, address: Address) -> Option<
    DhtStoreView,
> {
    if cas_contains(store.cas, address.0) {
        None
    } else {
        match net_lookup(store.net.remote, address) {
            None => None,
            Some(entry) => if addr_of(entry) != address.0 {
                None
            } else {
                Some(spec_get_entry_effect(store, address))
            },
        }
    }
}

/// The reduction functions of the closed dispatch table.
#[derive(Clone, Copy, PartialEq, Eq, Structural, Debug)]
pub enum DhtReducer {
    CommitEntry,
    GetEntryFromNetwork,
    AddLink,
    GetLinks,
}

/// Model of dispatch resolution: which reduction function answers an
/// action, if the action addresses the DHT state slice at all.
pub open spec fn spec_resolve_reducer(action: ActionView) -> Option<DhtReducer> {
    match action {
        ActionView::Commit(_) => Some(DhtReducer::CommitEntry),
        ActionView::GetEntry(_) => Some(DhtReducer::GetEntryFromNetwork),
        ActionView::AddLink(_) => Some(DhtReducer::AddLink),
        ActionView::GetLinks(_) => Some(DhtReducer::GetLinks),
        _ => None,
    }
}

/// Model of one whole reduction step: the store after the action, with
/// rejection of any kind folded into "no change".
pub open spec fn spec_reduce(
    context: ContextView,
    store: DhtStoreView,
    action: ActionView,
) -> DhtStoreView {
    match action {
        ActionView::Commit(entry) => match spec_reduce_commit_entry(context, store, entry) {
            None => store,
            Some(new_store) => new_store,
        },
        ActionView::GetEntry(address) => spec_get_entry_effect(store, address),
        _ => store,
    }
}

/// Model of whether one reduction step changed the published state: true
/// exactly when the resolved reducer produced a new snapshot.
pub open spec fn spec_reduce_changed(
    context: ContextView,
    store: DhtStoreView,
    action: ActionView,
) -> bool {
    match action {
        ActionView::Commit(entry) => spec_reduce_commit_entry(context, store, entry) is Some,
        ActionView::GetEntry(address) => spec_reduce_get_entry_from_network(store, address)
            is Some,
        _ => false,
    }
}

/// Maps an incoming action to the correct reducer.
pub fn resolve_reducer(action_wrapper: &ActionWrapper) -> (r: Option<DhtReducer>)
    ensures
        r == spec_resolve_reducer(action_wrapper@.action),
{
    match action_wrapper.action() {
        Action::Commit(_) => Some(DhtReducer::CommitEntry),
        Action::GetEntry(_) => Some(DhtReducer::GetEntryFromNetwork),
        Action::AddLink(_) => Some(DhtReducer::AddLink),
        Action::GetLinks(_) => Some(DhtReducer::GetLinks),
        _ => None,
    }
}

/// Commits a system entry: adds it to the shared local content storage
/// only — the write is visible through every handle to this store. System
/// entries are node-local bookkeeping and are never handed to the network.
/// On success the now-current aggregate is wrapped as a fresh snapshot.
pub fn commit_sys_entry(_context: Arc<Context>, store: &mut DhtStore, entry: &Entry) -> (r: Option<
    DhtStore,
>)
    ensures
        store_option_view(r) == spec_commit_sys_entry(old(store)@, entry@),
        final(store)@ == (match spec_commit_sys_entry(old(store)@, entry@) {
            None => old(store)@,
            Some(s) => s,
        }),
        old(store).wf() ==> final(store).wf(),
    {
    // system entry type must be publishable
    if !entry.entry_type().can_publish() {
        return None;
    }
    // add it to local storage, in place
    let res = store.add_entry(entry);
    if res.is_err() {
        return None;
    }
    // system entry types are not published to the network
    Some(store.clone())
}

/// Commits an application entry: validates it against the loaded
/// application definition, adds it to the shared local content storage,
/// and then — and only then — broadcasts it, so the node never announces
/// data it cannot itself serve. On success the now-current aggregate is
/// wrapped as a fresh snapshot; a rejection mutates nothing.
pub fn commit_app_entry(context: Arc<Context>, store: &mut DhtStore, entry: &Entry) -> (r: Option<
    DhtStore,
>)
    ensures
        store_option_view(r) == spec_commit_app_entry(context@, old(store)@, entry@),
        final(store)@ == (match spec_commit_app_entry(context@, old(store)@, entry@) {
            None => old(store)@,
            Some(s) => s,
        }),
        old(store).wf() ==> final(store).wf(),
    {
    // pre-condition: the entry type must be declared by the loaded
    // application definition
    let entry_type_name: String = entry.entry_type().to_string();
    let maybe_def: Option<EntryTypeDef> = match context.dna() {
        Some(dna) => dna.get_entry_type_def(&entry_type_name),
        None => None,
    };
    let def: EntryTypeDef = match maybe_def {
        Some(def) => def,
        None => {
            return None;
        },
    };
    // the declared sharing policy must permit publishing
    if !def.sharing.can_publish() {
        return None;
    }
    // add it to local storage, in place...
    let res = store.add_entry(entry);
    if res.is_err() {
        return None;
    }
    // ...and publish it to the network
    store.publish(entry);
    Some(store.clone())
}

/// Reduces a Commit action: rejects a duplicate address, then routes the
/// entry to the system or the application commit path by its type. A
/// rejected commit leaves the store untouched.
pub fn reduce_commit_entry(
    context: Arc<Context>,
    store: &mut DhtStore,
    action_wrapper: &ActionWrapper,
) -> (r: Option<DhtStore>)
    requires
        action_wrapper@.action is Commit,
    ensures
        store_option_view(r) == spec_reduce_commit_entry(
            context@,
            old(store)@,
            action_wrapper@.action->Commit_0,
        ),
        final(store)@ == (match spec_reduce_commit_entry(
            context@,
            old(store)@,
            action_wrapper@.action->Commit_0,
        ) {
            None => old(store)@,
            Some(s) => s,
        }),
        old(store).wf() ==> final(store).wf(),
    {
    let entry: &Entry = match action_wrapper.action() {
        Action::Commit(entry) => entry,
        _ => vstd::pervasive::unreached(),
    };
    // pre-condition: must not already have the entry in local storage
    let address: Address = entry.address();
    if store.content_storage().contains(&address).unwrap() {
        return None;
    }
    // handle system entries and application entries differently
    if entry.entry_type().is_sys() {
        return commit_sys_entry(context, store, entry);
    }
    commit_app_entry(context, store, entry)
}

/// Reduces a GetEntry action: an address already cached locally is a
/// redundant fetch and a no-op. Otherwise ask the peers, exactly once —
/// the shared network handle records the request whatever the outcome —
/// verify that the payload's derived address matches the requested
/// address, and cache it.
pub fn reduce_get_entry_from_network(
    _context: Arc<Context>,
    store: &mut DhtStore,
    action_wrapper: &ActionWrapper,
) -> (r: Option<DhtStore>)
    requires
        action_wrapper@.action is GetEntry,
    ensures
        store_option_view(r) == spec_reduce_get_entry_from_network(
            old(store)@,
            action_wrapper@.action->GetEntry_0,
        ),
        final(store)@ == spec_get_entry_effect(
            old(store)@,
            action_wrapper@.action->GetEntry_0,
        ),
        old(store).wf() ==> final(store).wf(),
    {
    let address: &Address = match action_wrapper.action() {
        Action::GetEntry(address) => address,
        _ => vstd::pervasive::unreached(),
    };
    // pre-condition check: look in local storage first
    if store.content_storage().contains(address).unwrap() {
        return None;
    }
    // retrieve it from the network...
    let address: Address = *address;
    match store.network_get(&address) {
        None => None,
        Some(entry) => {
            // a payload whose derived address does not match the requested
            // address is a data-integrity violation, treated as a failed
            // fetch, never cached
            let derived: Address = entry.address();
            if derived.0 != address.0 {
                return None;
            }
            // ...and add it to the local storage
            let res = store.add_entry(&entry);
            match res {
                Err(_) => None,
                Ok(()) => Some(store.clone()),
            }
        },
    }
}

/// Reduces an AddLink action. Link indexing is architecturally reserved
/// and not yet part of the observed behaviour: unconditionally "no change".
pub fn reduce_add_link(
    _context: Arc<Context>,
    store: &mut DhtStore,
    _action_wrapper: &ActionWrapper,
) -> (r: Option<DhtStore>)
    ensures
        r is None,
        final(store)@ == old(store)@,
{
    None
}

/// Reduces a GetLinks action. Link indexing is architecturally reserved
/// and not yet part of the observed behaviour: unconditionally "no change".
pub fn reduce_get_links(
    _context: Arc<Context>,
    store: &mut DhtStore,
    _action_wrapper: &ActionWrapper,
) -> (r: Option<DhtStore>)
    ensures
        r is None,
        final(store)@ == old(store)@,
{
    None
}

/// DHT state-slice reduce entry point: resolves the reducer for the
/// action's variant and applies it to the node's store, in place, under
/// the caller's single-writer scope. Returns whether the published state
/// changed. An unrecognized variant, or a rejected commit, leaves the
/// store identical; a failed network fetch leaves the content untouched
/// with only the shared network handle recording the attempt. The
/// reduction never fails and never panics on a well-formed action.
///
/// Note: a reduction function must never dispatch a further action while
/// it runs — the caller holds the single-writer scope for the whole call.
pub fn reduce(
    context: Arc<Context>,
    store: &mut DhtStore,
    action_wrapper: &ActionWrapper,
) -> (changed: bool)
    requires
        cas_wf(old(store)@.cas),
    ensures
        final(store)@ == spec_reduce(context@, old(store)@, action_wrapper@.action),
        cas_wf(final(store)@.cas),
        changed == spec_reduce_changed(context@, old(store)@, action_wrapper@.action),
        spec_resolve_reducer(action_wrapper@.action) is None ==> final(store)@ == old(store)@,
        (action_wrapper@.action matches ActionView::Commit(entry) && spec_reduce_commit_entry(
            context@,
            old(store)@,
            entry,
        ) is None) ==> final(store)@ == old(store)@,
        (action_wrapper@.action matches ActionView::GetEntry(address) && cas_contains(
            old(store)@.cas,
            address.0,
        )) ==> final(store)@ == old(store)@,
    {
    // get the reducer
    let maybe_reducer: Option<DhtReducer> = resolve_reducer(action_wrapper);
    if maybe_reducer.is_none() {
        return false;
    }
    let reducer: DhtReducer = maybe_reducer.unwrap();
    // reduce
    let maybe_new_store: Option<DhtStore> = match reducer {
        DhtReducer::CommitEntry => reduce_commit_entry(context, store, action_wrapper),
        DhtReducer::GetEntryFromNetwork => reduce_get_entry_from_network(
            context,
            store,
            action_wrapper,
        ),
        DhtReducer::AddLink => reduce_add_link(context, store, action_wrapper),
        DhtReducer::GetLinks => reduce_get_links(context, store, action_wrapper),
    };
    maybe_new_store.is_some()
}

} // verus!
