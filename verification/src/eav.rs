//! The attribute storage: (entity, attribute, value) relationships, held
//! for link indexing. The current reductions reserve this capability
//! without exercising it.

use vstd::prelude::*;
use crate::entry::Address;

verus! {

/// Spec-level image of one stored relationship.
pub ghost struct EavView {
    pub entity: Address,
    pub attribute: Seq<char>,
    pub value: Seq<char>,
}

/// One (entity, attribute, value) relationship.
#[derive(PartialEq, Eq, Debug)]
pub struct EntityAttributeValue {
    pub entity: Address,
    pub attribute: String,
    pub value: String,
}

impl View for EntityAttributeValue {
    type V = EavView;

    open spec fn view(&self) -> EavView {
        EavView { entity: self.entity, attribute: self.attribute@, value: self.value@ }
    }
}

impl Clone for EntityAttributeValue {
    fn clone(&self) -> (res: Self)
        ensures
            res == *self,
    {
        EntityAttributeValue {
            entity: self.entity,
            attribute: self.attribute.clone(),
            value: self.value.clone(),
        }
    }
}

/// The attribute store.
#[derive(PartialEq, Eq, Debug)]
pub struct EavStorage {
    triples: Vec<EntityAttributeValue>,
}

impl View for EavStorage {
    type V = Seq<EavView>;

    closed spec fn view(&self) -> Seq<EavView> {
        Seq::new(self.triples@.len(), |i: int| self.triples@[i]@)
    }
}

impl Clone for EavStorage {
    fn clone(&self) -> (res: Self)
        ensures
            res@ == self@,
    {
        let res = EavStorage { triples: self.triples.clone() };
        proof {
            assert(res@ =~= self@);
        }
        res
    }
}

impl EavStorage {
    /// An empty attribute store.
    pub fn new() -> (s: EavStorage)
        ensures
            s@ == Seq::<EavView>::empty(),
    {
        let s = EavStorage { triples: Vec::new() };
        proof {
            assert(s@ =~= Seq::<EavView>::empty());
        }
        s
    }

    /// Records one relationship.
    pub fn add(&mut self, eav: EntityAttributeValue)
        ensures
            final(self)@ == old(self)@.push(eav@),
    {
        let ghost prior: Seq<EavView> = self@;
        self.triples.push(eav);
        proof {
            assert(self@ =~= prior.push(self.triples@[prior.len() as int]@));
        }
    }

    /// How many relationships are stored.
    pub fn len(&self) -> (n: usize)
        ensures
            n == self@.len(),
    {
        self.triples.len()
    }
}

} // verus!
