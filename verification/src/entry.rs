//! Entries: the immutable, content-addressed units of system and
//! application data, and the derivation of their addresses.

use vstd::prelude::*;
use crate::hash::{fnv_chars, fnv_str, fnv_update, fnv_round, FNV_OFFSET_BASIS};

verus! {

/// The content address of an entry: a deterministic hash of the entry's
/// type tag and content.
#[derive(Clone, Copy, PartialEq, Eq, Structural, Hash, Debug)]
pub struct Address(pub u64);

/// Spec-level image of an entry type.
pub ghost enum EntryTypeView {
    Dna,
    AgentId,
    Deletion,
    App(Seq<char>),
}

/// The type tag of an entry: system-reserved variants, or an
/// application-defined type named by the loaded application definition.
#[derive(PartialEq, Eq, Debug)]
pub enum EntryType {
    Dna,
    AgentId,
    Deletion,
    App(String),
}

impl Clone for EntryType {
    fn clone(&self) -> (res: Self)
        ensures
            res == *self,
    {
        match self {
            EntryType::Dna => EntryType::Dna,
            EntryType::AgentId => EntryType::AgentId,
            EntryType::Deletion => EntryType::Deletion,
            EntryType::App(name) => EntryType::App(name.clone()),
        }
    }
}

impl View for EntryType {
    type V = EntryTypeView;

    open spec fn view(&self) -> EntryTypeView {
        match self {
            EntryType::Dna => EntryTypeView::Dna,
            EntryType::AgentId => EntryTypeView::AgentId,
            EntryType::Deletion => EntryTypeView::Deletion,
            EntryType::App(name) => EntryTypeView::App(name@),
        }
    }
}

/// The tag hashed into an entry's address, and the name under which an
/// application type is looked up in the application definition.
pub open spec fn type_tag(t: EntryTypeView) -> Seq<char> {
    match t {
        EntryTypeView::Dna => "dna"@,
        EntryTypeView::AgentId => "agent_id"@,
        EntryTypeView::Deletion => "deletion"@,
        EntryTypeView::App(name) => name,
    }
}

/// Whether a type tag is system-reserved rather than application-defined.
pub open spec fn spec_is_sys(t: EntryTypeView) -> bool {
    !(t is App)
}

/// The fixed publishability rule for entry types: only the application
/// definition itself is reserved to the local node; every other type may
/// reach storage (application types are further gated by their declared
/// sharing policy).
pub open spec fn spec_can_publish(t: EntryTypeView) -> bool {
    !(t is Dna)
}

impl EntryType {
    /// The textual tag of this entry type.
    pub fn to_string(&self) -> (s: String)
        ensures
            s@ == type_tag(self@),
    {
        match self {
            EntryType::Dna => "dna".to_owned(),
            EntryType::AgentId => "agent_id".to_owned(),
            EntryType::Deletion => "deletion".to_owned(),
            EntryType::App(name) => name.clone(),
        }
    }

    /// Whether this is a system-reserved type.
    pub fn is_sys(&self) -> (r: bool)
        ensures
            r == spec_is_sys(self@),
    {
        match self {
            EntryType::App(_) => false,
            _ => true,
        }
    }

    /// Whether this type is publishable-capable.
    pub fn can_publish(&self) -> (r: bool)
        ensures
            r == spec_can_publish(self@),
    {
        match self {
            EntryType::Dna => false,
            _ => true,
        }
    }
}

/// Spec-level image of an entry.
pub ghost struct EntryView {
    pub entry_type: EntryTypeView,
    pub content: Seq<char>,
}

/// The address derived from a type tag and a content sequence: the FNV-1a
/// fold over the tag, a zero separator, then the content.
pub open spec fn spec_address_of(t: EntryTypeView, content: Seq<char>) -> u64 {
    fnv_chars(fnv_update(fnv_chars(FNV_OFFSET_BASIS, type_tag(t)), 0), content)
}

/// The address of an entry, as a pure function of its type and content.
pub open spec fn addr_of(e: EntryView) -> u64 {
    spec_address_of(e.entry_type, e.content)
}

/// An immutable unit of content-addressed data: a type tag and the
/// serialized content. The address is derived, never stored, so it can
/// never disagree with the content.
#[derive(PartialEq, Eq, Debug)]
pub struct Entry {
    entry_type: EntryType,
    content: String,
}

impl Clone for Entry {
    fn clone(&self) -> (res: Self)
        ensures
            res == *self,
    {
        Entry { entry_type: self.entry_type.clone(), content: self.content.clone() }
    }
}

impl View for Entry {
    type V = EntryView;

    closed spec fn view(&self) -> EntryView {
        EntryView { entry_type: self.entry_type@, content: self.content@ }
    }
}

impl Entry {
    /// Builds an entry from its type tag and serialized content.
    pub fn new(entry_type: EntryType, content: String) -> (e: Entry)
        ensures
            e@ == (EntryView { entry_type: entry_type@, content: content@ }),
    {
        Entry { entry_type, content }
    }

    /// The entry's type tag.
    pub fn entry_type(&self) -> (t: &EntryType)
        ensures
            t@ == self@.entry_type,
    {
        &self.entry_type
    }

    /// The entry's serialized content.
    pub fn content(&self) -> (c: &String)
        ensures
            c@ == self@.content,
    {
        &self.content
    }

    /// Derives the entry's content address from its type and content.
    pub fn address(&self) -> (a: Address)
        ensures
            a.0 == addr_of(self@),
    {
        let tag: String = self.entry_type.to_string();
        let h: u64 = fnv_str(FNV_OFFSET_BASIS, tag.as_str());
        let h: u64 = fnv_round(h, 0);
        Address(fnv_str(h, self.content.as_str()))
    }
}

/// Content-addressing law: the derived address is a pure function of an
/// entry's type and content, so entries with identical type and content
/// have identical addresses.
pub proof fn lemma_content_addressing(e1: EntryView, e2: EntryView)
    requires
        e1.entry_type == e2.entry_type,
        e1.content == e2.content,
    ensures
        addr_of(e1) == addr_of(e2),
{
}

} // verus!
