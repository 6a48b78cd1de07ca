//! The storage and network capabilities on their own: idempotent
//! content-addressed adds, schema lookup, and the network facade's
//! bookkeeping.

use holochain_core::cas::ContentStorage;
use holochain_core::dna::{Dna, EntryTypeDef, Sharing};
use holochain_core::eav::{EavStorage, EntityAttributeValue};
use holochain_core::entry::{Entry, EntryType};
use holochain_core::network::Network;

fn sys_entry(content: &str) -> Entry {
    Entry::new(EntryType::AgentId, content.to_string())
}

#[test]
fn cas_add_contains_fetch() {
    let mut cas = ContentStorage::new();
    let entry = sys_entry("bob");
    assert!(!cas.contains(&entry.address()).unwrap());
    assert_eq!(None, cas.fetch(&entry.address()).unwrap());

    cas.add(&entry).unwrap();
    assert!(cas.contains(&entry.address()).unwrap());
    assert_eq!(Some(entry.clone()), cas.fetch(&entry.address()).unwrap());
    assert_eq!(cas.len(), 1);
}

#[test]
fn cas_add_is_idempotent() {
    let mut cas = ContentStorage::new();
    let entry = sys_entry("bob");
    cas.add(&entry).unwrap();
    cas.add(&entry).unwrap();
    assert_eq!(cas.len(), 1);

    let other = sys_entry("alex");
    cas.add(&other).unwrap();
    assert_eq!(cas.len(), 2);
    assert_eq!(Some(other), cas.fetch(&sys_entry("alex").address()).unwrap());
}

#[test]
fn dna_entry_type_lookup() {
    let mut dna = Dna::new("TestApp".to_string());
    dna.add_entry_type("testEntryType".to_string(), EntryTypeDef::new(Sharing::Public));
    dna.add_entry_type("privateEntryType".to_string(), EntryTypeDef::new(Sharing::Private));

    let public = dna.get_entry_type_def(&"testEntryType".to_string());
    assert_eq!(Some(EntryTypeDef::new(Sharing::Public)), public);
    assert!(public.unwrap().sharing.can_publish());

    let private = dna.get_entry_type_def(&"privateEntryType".to_string());
    assert_eq!(Some(EntryTypeDef::new(Sharing::Private)), private);
    assert!(!private.unwrap().sharing.can_publish());

    assert_eq!(None, dna.get_entry_type_def(&"undeclared".to_string()));
    assert!(!Sharing::Encrypted.can_publish());
}

#[test]
fn network_bookkeeping() {
    let mut network = Network::new();
    assert_eq!(network.publish_count(), 0);
    assert_eq!(network.request_count(), 0);

    let entry = sys_entry("bob");
    network.publish(&entry);
    assert_eq!(network.publish_count(), 1);
    assert_eq!(network.published()[0], entry);

    // an address nobody holds fails; the request is still recorded
    assert_eq!(None, network.get(&entry.address()));
    assert_eq!(network.request_count(), 1);

    network.add_remote_entry(entry.address(), entry.clone());
    assert_eq!(Some(entry.clone()), network.get(&entry.address()));
    assert_eq!(network.request_count(), 2);
}

#[test]
fn eav_storage_holds_triples() {
    let mut eav = EavStorage::new();
    assert_eq!(eav.len(), 0);
    let triple = EntityAttributeValue {
        entity: sys_entry("bob").address(),
        attribute: "link".to_string(),
        value: "child".to_string(),
    };
    eav.add(triple);
    assert_eq!(eav.len(), 1);
}
