//! The local content-addressable storage: immutable entries keyed by their
//! own derived address. Adding identical content twice is idempotent, and a
//! well-formed store never holds two entries with the same address.

use vstd::prelude::*;
use crate::entry::{addr_of, Address, Entry, EntryView};
use crate::error::HolochainError;

verus! {

/// Whether the stored sequence holds an entry with address `a`.
pub open spec fn cas_contains(s: Seq<EntryView>, a: u64) -> bool {
    exists|i: int| 0 <= i < s.len() && addr_of(s[i]) == a
}

/// The first stored entry with address `a`, if any.
pub open spec fn cas_fetch(s: Seq<EntryView>, a: u64) -> Option<EntryView>
    decreases s.len(),
{
    if s.len() == 0 {
        None
    } else if addr_of(s[0]) == a {
        Some(s[0])
    } else {
        cas_fetch(s.drop_first(), a)
    }
}

/// How many stored entries carry address `a`.
pub open spec fn cas_count(s: Seq<EntryView>, a: u64) -> nat
    decreases s.len(),
{
    if s.len() == 0 {
        0
    } else {
        cas_count(s.drop_first(), a) + (if addr_of(s[0]) == a {
            1nat
        } else {
            0nat
        })
    }
}

/// The stored sequence after an idempotent add: unchanged when the entry's
/// address is already held, extended by the entry otherwise.
pub open spec fn spec_cas_add(s: Seq<EntryView>, e: EntryView) -> Seq<EntryView> {
    if cas_contains(s, addr_of(e)) {
        s
    } else {
        s.push(e)
    }
}

/// Well-formedness of the stored sequence: addresses are pairwise distinct.
pub open spec fn cas_wf(s: Seq<EntryView>) -> bool {
    forall|i: int, j: int| 0 <= i < j < s.len() ==> addr_of(s[i]) != addr_of(s[j])
}

/// An entry absent from `s` is the first match as soon as it is appended.
pub proof fn lemma_cas_fetch_push(s: Seq<EntryView>, e: EntryView)
    requires
        !cas_contains(s, addr_of(e)),
    ensures
        cas_fetch(s.push(e), addr_of(e)) == Some(e),
    decreases s.len(),
{
    if s.len() == 0 {
        assert(s.push(e)[0] == e);
    } else {
        assert(addr_of(s[0]) != addr_of(e));
        assert(s.push(e)[0] == s[0]);
        assert(s.push(e).drop_first() =~= s.drop_first().push(e));
        assert(!cas_contains(s.drop_first(), addr_of(e))) by {
            if cas_contains(s.drop_first(), addr_of(e)) {
                let i = choose|i: int|
                    0 <= i < s.drop_first().len() && addr_of(s.drop_first()[i]) == addr_of(e);
                assert(s.drop_first()[i] == s[i + 1]);
                assert(0 <= i + 1 < s.len() && addr_of(s[i + 1]) == addr_of(e));
            }
        };
        lemma_cas_fetch_push(s.drop_first(), e);
    }
}

/// An address absent from `s` is stored zero times, and appending an entry
/// with that address stores it exactly once.
pub proof fn lemma_cas_count_absent(s: Seq<EntryView>, a: u64)
    requires
        !cas_contains(s, a),
    ensures
        cas_count(s, a) == 0,
    decreases s.len(),
{
    if s.len() > 0 {
        assert(addr_of(s[0]) != a);
        assert(!cas_contains(s.drop_first(), a)) by {
            if cas_contains(s.drop_first(), a) {
                let i = choose|i: int|
                    0 <= i < s.drop_first().len() && addr_of(s.drop_first()[i]) == a;
                assert(s.drop_first()[i] == s[i + 1]);
                assert(0 <= i + 1 < s.len() && addr_of(s[i + 1]) == a);
            }
        };
        lemma_cas_count_absent(s.drop_first(), a);
    }
}

/// Appending one entry raises the count of its own address by one and
/// leaves every other count unchanged.
pub proof fn lemma_cas_count_push(s: Seq<EntryView>, e: EntryView, a: u64)
    ensures
        cas_count(s.push(e), a) == cas_count(s, a) + (if addr_of(e) == a {
            1nat
        } else {
            0nat
        }),
    decreases s.len(),
{
    if s.len() == 0 {
        assert(s.push(e)[0] == e);
        assert(s.push(e).drop_first() =~= Seq::<EntryView>::empty());
        assert(cas_count(s.push(e).drop_first(), a) == 0);
        assert(cas_count(s.push(e), a) == cas_count(s.push(e).drop_first(), a) + (
        if addr_of(s.push(e)[0]) == a {
            1nat
        } else {
            0nat
        }));
    } else {
        assert(s.push(e)[0] == s[0]);
        assert(s.push(e).drop_first() =~= s.drop_first().push(e));
        lemma_cas_count_push(s.drop_first(), e, a);
        assert(cas_count(s.push(e), a) == cas_count(s.push(e).drop_first(), a) + (
        if addr_of(s.push(e)[0]) == a {
            1nat
        } else {
            0nat
        }));
        assert(cas_count(s, a) == cas_count(s.drop_first(), a) + (if addr_of(s[0]) == a {
            1nat
        } else {
            0nat
        }));
    }
}

/// The node-local content store.
#[derive(PartialEq, Eq, Debug)]
pub struct ContentStorage {
    entries: Vec<Entry>,
}

impl View for ContentStorage {
    type V = Seq<EntryView>;

    closed spec fn view(&self) -> Seq<EntryView> {
        Seq::new(self.entries@.len(), |i: int| self.entries@[i]@)
    }
}

impl Clone for ContentStorage {
    fn clone(&self) -> (res: Self)
        ensures
            res@ == self@,
    {
        let res = ContentStorage { entries: self.entries.clone() };
        proof {
            assert(res@ =~= self@);
        }
        res
    }
}

impl ContentStorage {
    /// Well-formedness: no two stored entries share an address.
    pub open spec fn wf(&self) -> bool {
        cas_wf(self@)
    }

    /// An empty content store.
    pub fn new() -> (s: ContentStorage)
        ensures
            s@ == Seq::<EntryView>::empty(),
            s.wf(),
    {
        let s = ContentStorage { entries: Vec::new() };
        proof {
            assert(s@ =~= Seq::<EntryView>::empty());
        }
        s
    }

    /// How many entries the store holds.
    pub fn len(&self) -> (n: usize)
        ensures
            n == self@.len(),
    {
        self.entries.len()
    }

    /// Whether an entry with the given address is stored locally.
    pub fn contains(&self, address: &Address) -> (r: Result<bool, HolochainError>)
        ensures
            r matches Ok(b) && b == cas_contains(self@, address.0),
    {
        let n: usize = self.entries.len();
        let mut i: usize = 0;
        while i < n
            invariant
                n == self.entries.len(),
                i <= n,
                forall|j: int| 0 <= j < i ==> addr_of(self@[j]) != address.0,
            decreases n - i,
        {
            let a: Address = self.entries[i].address();
            if a.0 == address.0 {
                proof {
                    assert(addr_of(self@[i as int]) == address.0);
                }
                return Ok(true);
            }
            i = i + 1;
        }
        Ok(false)
    }

    /// Adds an entry, keyed by its derived address. Adding content that is
    /// already stored is an idempotent no-op; this in-memory store itself
    /// never fails.
    pub fn add(&mut self, entry: &Entry) -> (r: Result<(), HolochainError>)
        ensures
            r is Ok,
            final(self)@ == spec_cas_add(old(self)@, entry@),
            old(self).wf() ==> final(self).wf(),
    {
        let address: Address = entry.address();
        let present: bool = match self.contains(&address) {
            Ok(b) => b,
            Err(e) => {
                return Err(e);
            },
        };
        if present {
            return Ok(());
        }
        let ghost prior: Seq<EntryView> = self@;
        self.entries.push(entry.clone());
        proof {
            assert(self@ =~= prior.push(entry@));
            if cas_wf(prior) {
                assert forall|i: int, j: int| 0 <= i < j < self@.len() implies addr_of(
                    self@[i],
                ) != addr_of(self@[j]) by {
                    if j == prior.len() {
                        assert(self@[j] == entry@);
                        assert(!cas_contains(prior, addr_of(entry@)));
                        assert(self@[i] == prior[i]);
                    }
                }
            }
        }
        Ok(())
    }

    /// Fetches the stored entry with the given address, if any.
    pub fn fetch(&self, address: &Address) -> (r: Result<Option<Entry>, HolochainError>)
        ensures
            r matches Ok(found) && match found {
                Some(e) => cas_fetch(self@, address.0) == Some(e@),
                None => cas_fetch(self@, address.0) is None,
            },
    {
        let n: usize = self.entries.len();
        proof {
            assert(self@.skip(0) =~= self@);
        }
        let mut i: usize = 0;
        while i < n
            invariant
                n == self.entries.len(),
                i <= n,
                cas_fetch(self@.skip(i as int), address.0) == cas_fetch(self@, address.0),
            decreases n - i,
        {
            let ghost rest: Seq<EntryView> = self@.skip(i as int);
            let a: Address = self.entries[i].address();
            proof {
                assert(rest[0] == self@[i as int]);
            }
            if a.0 == address.0 {
                return Ok(Some(self.entries[i].clone()));
            }
            proof {
                assert(rest.drop_first() =~= self@.skip(i as int + 1));
            }
            i = i + 1;
        }
        proof {
            assert(self@.skip(n as int) =~= Seq::<EntryView>::empty());
        }
        Ok(None)
    }
}

} // verus!
