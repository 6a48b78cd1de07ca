//! Actions: the closed set of state-transition requests an upstream
//! component can dispatch. The DHT reducers answer four of them; every
//! other variant belongs to another state slice of the larger system and
//! must pass through the DHT reduction untouched.

use vstd::prelude::*;
use crate::dna::{Dna, DnaView};
use crate::entry::{Address, Entry, EntryView};

verus! {

/// Spec-level image of a link between two entries.
pub ghost struct LinkView {
    pub base: Address,
    pub target: Address,
    pub tag: Seq<char>,
}

/// A directed, tagged link between two stored entries.
#[derive(PartialEq, Eq, Debug)]
pub struct Link {
    pub base: Address,
    pub target: Address,
    pub tag: String,
}

impl View for Link {
    type V = LinkView;

    open spec fn view(&self) -> LinkView {
        LinkView { base: self.base, target: self.target, tag: self.tag@ }
    }
}

impl Clone for Link {
    fn clone(&self) -> (res: Self)
        ensures
            res == *self,
    {
        Link { base: self.base, target: self.target, tag: self.tag.clone() }
    }
}

/// Spec-level image of a link query.
pub ghost struct GetLinksArgsView {
    pub entry_address: Address,
    pub tag: Seq<char>,
}

/// A query for the links hanging off one entry under one tag.
#[derive(PartialEq, Eq, Debug)]
pub struct GetLinksArgs {
    pub entry_address: Address,
    pub tag: String,
}

impl View for GetLinksArgs {
    type V = GetLinksArgsView;

    open spec fn view(&self) -> GetLinksArgsView {
        GetLinksArgsView { entry_address: self.entry_address, tag: self.tag@ }
    }
}

impl Clone for GetLinksArgs {
    fn clone(&self) -> (res: Self)
        ensures
            res == *self,
    {
        GetLinksArgs { entry_address: self.entry_address, tag: self.tag.clone() }
    }
}

/// Spec-level image of an action.
pub ghost enum ActionView {
    Commit(EntryView),
    GetEntry(Address),
    AddLink(LinkView),
    GetLinks(GetLinksArgsView),
    InitApplication(DnaView),
    ReturnInitializationResult(Option<Seq<char>>),
}

/// One state-transition request. `Commit`, `GetEntry`, `AddLink` and
/// `GetLinks` address the DHT state slice; the remaining variants address
/// the application-lifecycle slice and are no-ops for the DHT reducers.
#[derive(PartialEq, Eq, Debug)]
pub enum Action {
    Commit(Entry),
    GetEntry(Address),
    AddLink(Link),
    GetLinks(GetLinksArgs),
    InitApplication(Dna),
    ReturnInitializationResult(Option<String>),
}

impl View for Action {
    type V = ActionView;

    open spec fn view(&self) -> ActionView {
        match self {
            Action::Commit(entry) => ActionView::Commit(entry@),
            Action::GetEntry(address) => ActionView::GetEntry(*address),
            Action::AddLink(link) => ActionView::AddLink(link@),
            Action::GetLinks(args) => ActionView::GetLinks(args@),
            Action::InitApplication(dna) => ActionView::InitApplication(dna@),
            Action::ReturnInitializationResult(r) => ActionView::ReturnInitializationResult(
                match r {
                    Some(msg) => Some(msg@),
                    None => None,
                },
            ),
        }
    }
}

/// Spec-level image of a wrapped action.
pub ghost struct ActionWrapperView {
    pub id: u64,
    pub action: ActionView,
}

/// An action wrapped with its identity metadata. The reducers dispatch on
/// the inner action alone; upstream components use the id to correlate a
/// result with the request that caused it.
#[derive(PartialEq, Eq, Debug)]
pub struct ActionWrapper {
    id: u64,
    action: Action,
}

impl View for ActionWrapper {
    type V = ActionWrapperView;

    closed spec fn view(&self) -> ActionWrapperView {
        ActionWrapperView { id: self.id, action: self.action@ }
    }
}

impl ActionWrapper {
    /// Wraps an action under the given identity.
    pub fn new(id: u64, action: Action) -> (w: ActionWrapper)
        ensures
            w@ == (ActionWrapperView { id, action: action@ }),
    {
        ActionWrapper { id, action }
    }

    /// The wrapped action.
    pub fn action(&self) -> (a: &Action)
        ensures
            a@ == self@.action,
    {
        &self.action
    }

    /// The identity of this dispatch.
    pub fn id(&self) -> (id: u64)
        ensures
            id == self@.id,
    {
        self.id
    }
}

} // verus!
