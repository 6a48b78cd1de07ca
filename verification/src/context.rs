//! The execution context handed to every reduction: the acting agent and
//! the currently loaded application definition. The reducers consume it,
//! never mutate it.

use vstd::prelude::*;
use crate::dna::{Dna, DnaView};

verus! {

/// Spec-level image of a context.
pub ghost struct ContextView {
    pub agent: Seq<char>,
    pub dna: Option<DnaView>,
}

/// The execution context: who acts, and under which application
/// definition. A context without a definition can still reduce system
/// commits and reads; an application commit is rejected under it.
#[derive(PartialEq, Eq, Debug)]
pub struct Context {
    pub agent: String,
    pub dna: Option<Dna>,
}

impl View for Context {
    type V = ContextView;

    open spec fn view(&self) -> ContextView {
        ContextView {
            agent: self.agent@,
            dna: match &self.dna {
                Some(dna) => Some(dna@),
                None => None,
            },
        }
    }
}

impl Clone for Context {
    fn clone(&self) -> (res: Self)
        ensures
            res@ == self@,
    {
        Context {
            agent: self.agent.clone(),
            dna: match &self.dna {
                Some(dna) => Some(dna.clone()),
                None => None,
            },
        }
    }
}

impl Context {
    /// Builds a context for an agent, with the loaded application
    /// definition if one is loaded.
    pub fn new(agent: String, dna: Option<Dna>) -> (c: Context)
        ensures
            c@.agent == agent@,
            c@.dna is Some <==> dna is Some,
            dna matches Some(d) ==> c@.dna == Some(d@),
    {
        Context { agent, dna }
    }

    /// The loaded application definition, if any.
    pub fn dna(&self) -> (d: &Option<Dna>)
        ensures
            d is Some <==> self@.dna is Some,
            *d matches Some(dna) ==> self@.dna == Some(dna@),
    {
        &self.dna
    }
}

} // verus!
