//! Content addressing: the address of an entry is a pure function of its
//! type and content.

use holochain_core::entry::{Address, Entry, EntryType};

fn app_entry(tag: &str, content: &str) -> Entry {
    Entry::new(EntryType::App(tag.to_string()), content.to_string())
}

#[test]
fn address_is_deterministic() {
    let a = app_entry("testEntryType", "test entry content");
    let b = app_entry("testEntryType", "test entry content");
    assert_eq!(a.address(), b.address());
    // re-deriving the address from the same entry yields the same address
    assert_eq!(a.address(), a.address());
}

#[test]
fn address_depends_on_content_and_type() {
    let a = app_entry("testEntryType", "test entry content");
    let b = app_entry("testEntryType", "other content");
    let c = app_entry("otherEntryType", "test entry content");
    assert_ne!(a.address(), b.address());
    assert_ne!(a.address(), c.address());
}

#[test]
fn address_exact_values() {
    let sys = Entry::new(EntryType::Dna, "x".to_string());
    assert_eq!(sys.address(), Address(0x6bce_dab1_41e6_f4ea));
    let agent = Entry::new(EntryType::AgentId, "bob".to_string());
    assert_eq!(agent.address(), Address(0xd149_136c_e441_354d));
    let app = app_entry("testEntryType", "test entry content");
    assert_eq!(app.address(), Address(0x9f7f_c585_bc36_8b58));
}

#[test]
fn entry_type_classification() {
    assert!(EntryType::Dna.is_sys());
    assert!(EntryType::AgentId.is_sys());
    assert!(EntryType::Deletion.is_sys());
    assert!(!EntryType::App("testEntryType".to_string()).is_sys());
    // the application definition itself is never publishable; other system
    // types are
    assert!(!EntryType::Dna.can_publish());
    assert!(EntryType::AgentId.can_publish());
    assert!(EntryType::Deletion.can_publish());
}

#[test]
fn entry_accessors() {
    let e = app_entry("testEntryType", "test entry content");
    assert_eq!(e.entry_type(), &EntryType::App("testEntryType".to_string()));
    assert_eq!(e.content(), "test entry content");
    assert_eq!(e.entry_type().to_string(), "testEntryType");
    assert_eq!(EntryType::AgentId.to_string(), "agent_id");
}
