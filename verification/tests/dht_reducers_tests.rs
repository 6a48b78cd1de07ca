//! The DHT reducers, driven end to end through `reduce` and the per-action
//! reduction functions.

use std::sync::Arc;

use holochain_core::action::{Action, ActionWrapper, GetLinksArgs, Link};
use holochain_core::cas::ContentStorage;
use holochain_core::context::Context;
use holochain_core::dht_reducers::{
    commit_sys_entry, reduce, reduce_add_link, reduce_get_links,
};
use holochain_core::dht_store::DhtStore;
use holochain_core::dna::{Dna, EntryTypeDef, Sharing};
use holochain_core::eav::EavStorage;
use holochain_core::entry::{Address, Entry, EntryType};
use holochain_core::network::Network;

fn make_test_context(agent: &str) -> Arc<Context> {
    let mut dna = Dna::new("TestApp".to_string());
    dna.add_entry_type("testEntryType".to_string(), EntryTypeDef::new(Sharing::Public));
    dna.add_entry_type("privateEntryType".to_string(), EntryTypeDef::new(Sharing::Private));
    Arc::new(Context::new(agent.to_string(), Some(dna)))
}

fn make_test_store() -> DhtStore {
    DhtStore::new(ContentStorage::new(), EavStorage::new(), Network::new())
}

fn make_test_entry() -> Entry {
    Entry::new(EntryType::App("testEntryType".to_string()), "test entry content".to_string())
}

fn make_test_sys_entry() -> Entry {
    Entry::new(EntryType::AgentId, "bob".to_string())
}

fn make_test_unpublishable_entry() -> Entry {
    Entry::new(EntryType::Dna, "application definition content".to_string())
}

fn contains(store: &DhtStore, address: &Address) -> bool {
    store.content_storage().contains(address).expect("could not read from cas")
}

#[test]
fn commit_sys_entry_test() {
    let context = make_test_context("bob");
    let mut store = make_test_store();
    let entry = make_test_entry();

    let unpublishable_entry = make_test_unpublishable_entry();

    let new_dht_store =
        commit_sys_entry(Arc::clone(&context), &mut store, &unpublishable_entry);

    // the application definition type is not publishable so nothing happens
    assert_eq!(None, new_dht_store);
    assert_eq!(
        None,
        store
            .content_storage()
            .fetch(&entry.address())
            .expect("could not fetch from cas")
    );

    let sys_entry = make_test_sys_entry();

    let new_dht_store = commit_sys_entry(Arc::clone(&context), &mut store, &sys_entry)
        .expect("there should be a new store for committing a sys entry");

    // the storage handle is shared: the write is visible through the
    // node's store and through the published snapshot alike
    assert_eq!(
        Some(sys_entry.clone()),
        store
            .content_storage()
            .fetch(&sys_entry.address())
            .expect("could not fetch from cas")
    );
    assert_eq!(
        Some(sys_entry.clone()),
        new_dht_store
            .content_storage()
            .fetch(&sys_entry.address())
            .expect("could not fetch from cas")
    );
}

#[test]
fn commit_idempotence_rejection() {
    let context = make_test_context("bob");
    let mut store = make_test_store();
    let entry = make_test_sys_entry();
    let action = ActionWrapper::new(1, Action::Commit(entry.clone()));

    // first commit succeeds: the state changes
    let changed = reduce(Arc::clone(&context), &mut store, &action);
    assert!(changed);
    assert!(contains(&store, &entry.address()));
    assert_eq!(store.content_storage().len(), 1);

    // second commit of the same address is rejected: no change, address
    // still present once
    let snapshot = store.clone();
    let action2 = ActionWrapper::new(2, Action::Commit(entry.clone()));
    let changed = reduce(Arc::clone(&context), &mut store, &action2);
    assert!(!changed);
    assert_eq!(store, snapshot);
    assert_eq!(store.content_storage().len(), 1);
}

#[test]
fn system_application_routing() {
    let context = make_test_context("bob");
    let mut store = make_test_store();

    // a system entry reaches local storage but never the network
    let sys_entry = make_test_sys_entry();
    let action = ActionWrapper::new(1, Action::Commit(sys_entry.clone()));
    assert!(reduce(Arc::clone(&context), &mut store, &action));
    assert!(contains(&store, &sys_entry.address()));
    assert_eq!(store.network().publish_count(), 0);

    // a publishable application entry reaches local storage and is published
    let app_entry = make_test_entry();
    let action2 = ActionWrapper::new(2, Action::Commit(app_entry.clone()));
    assert!(reduce(Arc::clone(&context), &mut store, &action2));
    assert!(contains(&store, &app_entry.address()));
    assert_eq!(store.network().publish_count(), 1);
    assert_eq!(store.network().published()[0], app_entry);
}

#[test]
fn sharing_policy_enforcement() {
    let context = make_test_context("bob");
    let mut store = make_test_store();

    // a non-publishable application entry is rejected entirely: no local
    // storage write either
    let entry = Entry::new(
        EntryType::App("privateEntryType".to_string()),
        "private content".to_string(),
    );
    let snapshot = store.clone();
    let action = ActionWrapper::new(1, Action::Commit(entry.clone()));
    let changed = reduce(Arc::clone(&context), &mut store, &action);
    assert!(!changed);
    assert_eq!(store, snapshot);
    assert!(!contains(&store, &entry.address()));
    assert_eq!(store.content_storage().len(), 0);
    assert_eq!(store.network().publish_count(), 0);
}

#[test]
fn unknown_schema_rejection() {
    let context = make_test_context("bob");
    let mut store = make_test_store();

    // an application entry whose type has no definition is rejected
    let entry = Entry::new(
        EntryType::App("undeclaredEntryType".to_string()),
        "stray content".to_string(),
    );
    let snapshot = store.clone();
    let action = ActionWrapper::new(1, Action::Commit(entry.clone()));
    assert!(!reduce(Arc::clone(&context), &mut store, &action));
    assert_eq!(store, snapshot);
    assert_eq!(store.content_storage().len(), 0);

    // the same commit under a context with no application loaded is
    // rejected too
    let bare_context = Arc::new(Context::new("bob".to_string(), None));
    let action2 = ActionWrapper::new(2, Action::Commit(entry.clone()));
    assert!(!reduce(bare_context, &mut store, &action2));
    assert_eq!(store, snapshot);
}

#[test]
fn get_entry_cache_first() {
    let context = make_test_context("bob");
    let entry = make_test_sys_entry();

    // commit the entry first so the address is cached locally
    let mut store = make_test_store();
    let commit = ActionWrapper::new(1, Action::Commit(entry.clone()));
    assert!(reduce(Arc::clone(&context), &mut store, &commit));
    assert!(contains(&store, &entry.address()));

    // a request for a cached address never invokes the network facade
    let snapshot = store.clone();
    let get = ActionWrapper::new(2, Action::GetEntry(entry.address()));
    let changed = reduce(Arc::clone(&context), &mut store, &get);
    assert!(!changed);
    assert_eq!(store, snapshot);
    assert_eq!(store.network().request_count(), 0);
}

#[test]
fn get_entry_network_fallback_success() {
    let context = make_test_context("bob");
    let entry = make_test_sys_entry();

    // the peers hold the entry under its true derived address
    let mut network = Network::new();
    network.add_remote_entry(entry.address(), entry.clone());
    let mut store = DhtStore::new(ContentStorage::new(), EavStorage::new(), network);
    assert!(!contains(&store, &entry.address()));

    // an absent address triggers exactly one network fetch, and the entry
    // becomes locally fetchable afterward
    let get = ActionWrapper::new(1, Action::GetEntry(entry.address()));
    let changed = reduce(Arc::clone(&context), &mut store, &get);
    assert!(changed);
    assert_eq!(store.network().request_count(), 1);
    assert!(contains(&store, &entry.address()));
    assert_eq!(
        Some(entry.clone()),
        store
            .content_storage()
            .fetch(&entry.address())
            .expect("could not fetch from cas")
    );
}

#[test]
fn get_entry_network_fallback_failure() {
    let context = make_test_context("bob");
    let entry = make_test_sys_entry();

    // the peers hold nothing: no state change is published, nothing is
    // cached, and the shared network handle records the one attempt
    let mut store = make_test_store();
    let get = ActionWrapper::new(1, Action::GetEntry(entry.address()));
    let changed = reduce(Arc::clone(&context), &mut store, &get);
    assert!(!changed);
    assert!(!contains(&store, &entry.address()));
    assert_eq!(store.content_storage().len(), 0);
    assert_eq!(store.network().request_count(), 1);
}

#[test]
fn get_entry_rejects_integrity_violation() {
    let context = make_test_context("bob");
    let requested = make_test_sys_entry();
    let tampered = Entry::new(EntryType::AgentId, "mallory".to_string());
    assert_ne!(requested.address(), tampered.address());

    // the peers answer the requested address with a payload whose derived
    // address does not match: a data-integrity violation, never cached
    let mut network = Network::new();
    network.add_remote_entry(requested.address(), tampered.clone());
    let mut store = DhtStore::new(ContentStorage::new(), EavStorage::new(), network);
    let get = ActionWrapper::new(1, Action::GetEntry(requested.address()));
    let changed = reduce(Arc::clone(&context), &mut store, &get);
    assert!(!changed);
    assert!(!contains(&store, &requested.address()));
    assert!(!contains(&store, &tampered.address()));
    assert_eq!(store.content_storage().len(), 0);
    assert_eq!(store.network().request_count(), 1);
}

#[test]
fn unrecognized_action_noop() {
    let context = make_test_context("bob");
    let mut store = make_test_store();
    let snapshot = store.clone();

    // an action that belongs to another state slice passes through
    // untouched: the store is left identical
    let dna = Dna::new("TestApp".to_string());
    let action = ActionWrapper::new(1, Action::InitApplication(dna));
    assert!(!reduce(Arc::clone(&context), &mut store, &action));
    assert_eq!(store, snapshot);

    let action2 = ActionWrapper::new(2, Action::ReturnInitializationResult(None));
    assert!(!reduce(Arc::clone(&context), &mut store, &action2));
    assert_eq!(store, snapshot);
}

#[test]
fn link_actions_are_stubs() {
    let context = make_test_context("bob");
    let mut store = make_test_store();
    let snapshot = store.clone();
    let base = make_test_sys_entry().address();
    let target = make_test_entry().address();

    let link = Link { base, target, tag: "child".to_string() };
    let add = ActionWrapper::new(1, Action::AddLink(link.clone()));
    assert_eq!(None, reduce_add_link(Arc::clone(&context), &mut store, &add));
    assert!(!reduce(Arc::clone(&context), &mut store, &add));
    assert_eq!(store, snapshot);

    let args = GetLinksArgs { entry_address: base, tag: "child".to_string() };
    let get = ActionWrapper::new(2, Action::GetLinks(args.clone()));
    assert_eq!(None, reduce_get_links(Arc::clone(&context), &mut store, &get));
    assert!(!reduce(Arc::clone(&context), &mut store, &get));
    assert_eq!(store, snapshot);
}

#[test]
fn end_to_end_scenario() {
    let context = make_test_context("bob");

    // start with an empty store
    let mut store = make_test_store();

    // commit system entry S: stored locally, publish count 0
    let sys_entry = make_test_sys_entry();
    let commit_sys = ActionWrapper::new(1, Action::Commit(sys_entry.clone()));
    assert!(reduce(Arc::clone(&context), &mut store, &commit_sys));
    assert!(contains(&store, &sys_entry.address()));
    assert_eq!(store.network().publish_count(), 0);

    // commit publishable application entry A: stored locally, publish count 1
    let app_entry = make_test_entry();
    let commit_app = ActionWrapper::new(2, Action::Commit(app_entry.clone()));
    assert!(reduce(Arc::clone(&context), &mut store, &commit_app));
    assert!(contains(&store, &app_entry.address()));
    assert_eq!(store.network().publish_count(), 1);

    // commit A again: snapshot identical to the previous step, publish
    // count still 1
    let snapshot = store.clone();
    let commit_again = ActionWrapper::new(3, Action::Commit(app_entry.clone()));
    assert!(!reduce(Arc::clone(&context), &mut store, &commit_again));
    assert_eq!(store, snapshot);
    assert_eq!(store.network().publish_count(), 1);
}
