//! The application definition: the externally supplied schema that names
//! each application-defined entry type and fixes its sharing policy. It is
//! loaded once per running application instance and read-only from the
//! core's perspective.

use vstd::prelude::*;

verus! {

/// The sharing classification of an application entry type, from which its
/// publishability is derived.
#[derive(Clone, Copy, PartialEq, Eq, Structural, Debug)]
pub enum Sharing {
    Public,
    Private,
    Encrypted,
}

/// Whether a sharing policy permits replication to the network.
pub open spec fn spec_sharing_can_publish(s: Sharing) -> bool {
    s is Public
}

impl Sharing {
    /// Whether this sharing policy permits replication to the network.
    pub fn can_publish(&self) -> (r: bool)
        ensures
            r == spec_sharing_can_publish(*self),
    {
        match self {
            Sharing::Public => true,
            _ => false,
        }
    }
}

/// The definition of one application entry type: its sharing policy.
#[derive(Clone, Copy, PartialEq, Eq, Structural, Debug)]
pub struct EntryTypeDef {
    pub sharing: Sharing,
}

impl EntryTypeDef {
    /// Builds a definition with the given sharing policy.
    pub fn new(sharing: Sharing) -> (d: EntryTypeDef)
        ensures
            d == (EntryTypeDef { sharing }),
    {
        EntryTypeDef { sharing }
    }
}

/// Spec-level image of one named entry-type definition.
pub ghost struct NamedEntryTypeView {
    pub name: Seq<char>,
    pub def: EntryTypeDef,
}

/// One entry-type definition under the name the application declares it by.
#[derive(PartialEq, Eq, Debug)]
pub struct NamedEntryType {
    pub name: String,
    pub def: EntryTypeDef,
}

impl View for NamedEntryType {
    type V = NamedEntryTypeView;

    open spec fn view(&self) -> NamedEntryTypeView {
        NamedEntryTypeView { name: self.name@, def: self.def }
    }
}

impl Clone for NamedEntryType {
    fn clone(&self) -> (res: Self)
        ensures
            res == *self,
    {
        NamedEntryType { name: self.name.clone(), def: self.def }
    }
}

impl NamedEntryType {
    /// Binds a definition to the name the application declares it by.
    pub fn new(name: String, def: EntryTypeDef) -> (n: NamedEntryType)
        ensures
            n@ == (NamedEntryTypeView { name: name@, def }),
    {
        NamedEntryType { name, def }
    }
}

/// The definition looked up under `name`: the first binding with that name,
/// if any.
pub open spec fn spec_entry_type_def_of(defs: Seq<NamedEntryTypeView>, name: Seq<char>) -> Option<
    EntryTypeDef,
>
    decreases defs.len(),
{
    if defs.len() == 0 {
        None
    } else if defs[0].name == name {
        Some(defs[0].def)
    } else {
        spec_entry_type_def_of(defs.drop_first(), name)
    }
}

/// Spec-level image of an application definition.
pub ghost struct DnaView {
    pub name: Seq<char>,
    pub entry_types: Seq<NamedEntryTypeView>,
}

/// An application definition: its name and the entry types it declares.
#[derive(PartialEq, Eq, Debug)]
pub struct Dna {
    pub name: String,
    pub entry_types: Vec<NamedEntryType>,
}

impl View for Dna {
    type V = DnaView;

    open spec fn view(&self) -> DnaView {
        DnaView {
            name: self.name@,
            entry_types: Seq::new(self.entry_types@.len(), |i: int| self.entry_types@[i]@),
        }
    }
}

impl Clone for Dna {
    fn clone(&self) -> (res: Self)
        ensures
            res@ == self@,
    {
        let res = Dna { name: self.name.clone(), entry_types: self.entry_types.clone() };
        proof {
            assert(res@.entry_types =~= self@.entry_types);
        }
        res
    }
}

impl Dna {
    /// An application definition with no declared entry types.
    pub fn new(name: String) -> (d: Dna)
        ensures
            d@.name == name@,
            d@.entry_types == Seq::<NamedEntryTypeView>::empty(),
    {
        let d = Dna { name, entry_types: Vec::new() };
        proof {
            assert(d@.entry_types =~= Seq::<NamedEntryTypeView>::empty());
        }
        d
    }

    /// Declares one more entry type.
    pub fn add_entry_type(&mut self, name: String, def: EntryTypeDef)
        ensures
            final(self)@.name == old(self)@.name,
            final(self)@.entry_types == old(self)@.entry_types.push(
                NamedEntryTypeView { name: name@, def },
            ),
    {
        let ghost prior: Seq<NamedEntryTypeView> = self@.entry_types;
        self.entry_types.push(NamedEntryType { name, def });
        proof {
            assert(self@.entry_types =~= prior.push(
                NamedEntryTypeView { name: name@, def },
            ));
        }
    }

    /// The definition of the entry type declared under `entry_type_name`,
    /// if the application declares one.
    pub fn get_entry_type_def(&self, entry_type_name: &String) -> (r: Option<EntryTypeDef>)
        ensures
            r == spec_entry_type_def_of(self@.entry_types, entry_type_name@),
    {
        let n: usize = self.entry_types.len();
        proof {
            assert(self@.entry_types.skip(0) =~= self@.entry_types);
        }
        let mut i: usize = 0;
        while i < n
            invariant
                n == self.entry_types.len(),
                i <= n,
                spec_entry_type_def_of(self@.entry_types.skip(i as int), entry_type_name@)
                    == spec_entry_type_def_of(self@.entry_types, entry_type_name@),
                forall|j: int| 0 <= j < i ==> self@.entry_types[j].name != entry_type_name@,
            decreases n - i,
        {
            let ghost rest: Seq<NamedEntryTypeView> = self@.entry_types.skip(i as int);
            if self.entry_types[i].name == *entry_type_name {
                proof {
                    assert(rest[0] == self@.entry_types[i as int]);
                }
                return Some(self.entry_types[i].def);
            }
            proof {
                assert(rest[0] == self@.entry_types[i as int]);
                assert(rest.drop_first() =~= self@.entry_types.skip(i as int + 1));
            }
            i = i + 1;
        }
        proof {
            assert(self@.entry_types.skip(n as int) =~= Seq::<NamedEntryTypeView>::empty());
        }
        None
    }
}

} // verus!
