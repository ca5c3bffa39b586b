//! The template catalog: the process's one set of validated adverts,
//! keyed by name, filled at startup and only read from then on.

use vstd::prelude::*;
use crate::advert::Advert;

verus! {

/// Character-for-character string equality.
fn str_eq(a: &str, b: &str) -> (r: bool)
    ensures
        r == (a@ == b@),
{
    let a_len = a.unicode_len();
    let b_len = b.unicode_len();
    if a_len != b_len {
        return false;
    }
    let mut i: usize = 0;
    while i < a_len
        invariant
            a_len == a@.len(),
            b_len == b@.len(),
            a_len == b_len,
            0 <= i <= a_len,
            forall|j: int| 0 <= j < i ==> a@[j] == b@[j],
        decreases a_len - i,
    {
        if a.get_char(i) != b.get_char(i) {
            return false;
        }
        i = i + 1;
    }
    proof {
        assert(a@ =~= b@);
    }
    true
}

/// The first advert stored under `name`, if any.
pub open spec fn spec_get(entries: Seq<(String, Advert)>, name: Seq<char>) -> Option<Advert>
    decreases entries.len(),
{
    if entries.len() == 0 {
        None
    } else if entries[0].0@ == name {
        Some(entries[0].1)
    } else {
        spec_get(entries.drop_first(), name)
    }
}

/// `spec_get` finds nothing exactly when no entry bears the name.
pub proof fn lemma_spec_get_none(entries: Seq<(String, Advert)>, name: Seq<char>)
    ensures
        spec_get(entries, name) is None <==> forall|i: int|
            0 <= i < entries.len() ==> entries[i].0@ != name,
    decreases entries.len(),
{
    if entries.len() > 0 {
        lemma_spec_get_none(entries.drop_first(), name);
        assert forall|i: int| 1 <= i < entries.len() implies entries[i] == entries.drop_first()[i
            - 1] by {
            assert(entries.drop_first()[i - 1] == entries[i]);
        }
        if entries[0].0@ == name {
            assert(!(forall|i: int| 0 <= i < entries.len() ==> entries[i].0@ != name)) by {
                assert(entries[0].0@ == name);
            }
        } else if spec_get(entries.drop_first(), name) is None {
            assert forall|i: int| 0 <= i < entries.len() implies entries[i].0@ != name by {
                if i >= 1 {
                    assert(entries.drop_first()[i - 1].0@ != name);
                }
            }
        } else {
            assert(exists|j: int|
                0 <= j < entries.drop_first().len() && entries.drop_first()[j].0@ == name);
            let j = choose|j: int|
                0 <= j < entries.drop_first().len() && entries.drop_first()[j].0@ == name;
            assert(entries[j + 1].0@ == name);
        }
    }
}

/// The validated template set, which every request reads and none
/// writes.
pub struct AdvertCatalog {
    entries: Vec<(String, Advert)>,
}

impl AdvertCatalog {
    /// The stored entries, in insertion order.
    pub closed spec fn entries(&self) -> Seq<(String, Advert)> {
        self.entries@
    }

    /// Names are unique and every stored advert is well formed.
    pub open spec fn wf(&self) -> bool {
        &&& forall|i: int, j: int|
            0 <= i < j < self.entries().len() ==> self.entries()[i].0@ != self.entries()[j].0@
        &&& forall|i: int| 0 <= i < self.entries().len() ==> (#[trigger] self.entries()[i]).1.wf()
    }

    /// An empty catalog.
    pub fn new() -> (c: AdvertCatalog)
        ensures
            c.wf(),
            c.entries().len() == 0,
    {
        AdvertCatalog { entries: Vec::new() }
    }

    /// How many templates are stored.
    pub fn len(&self) -> (n: usize)
        ensures
            n == self.entries().len(),
    {
        self.entries.len()
    }

    /// Store an advert under a name.  Refused (and nothing changes) when
    /// the name is already taken.
    pub fn add(&mut self, name: String, advert: Advert) -> (added: bool)
        requires
            old(self).wf(),
            advert.wf(),
        ensures
            final(self).wf(),
            added <==> spec_get(old(self).entries(), name@) is None,
            added ==> final(self).entries() == old(self).entries().push((name, advert)),
            !added ==> *final(self) == *old(self),
    {
        if self.get(name.as_str()).is_some() {
            return false;
        }
        proof {
            lemma_spec_get_none(self.entries(), name@);
        }
        self.entries.push((name, advert));
        true
    }

    /// Look the name up, first match first.
    pub fn get<'a>(&'a self, name: &str) -> (r: Option<&'a Advert>)
        ensures
            match r {
                Some(a) => spec_get(self.entries(), name@) == Some(*a) && (self.wf() ==> a.wf()),
                None => spec_get(self.entries(), name@) is None,
            },
    {
        let n = self.entries.len();
        proof {
            assert(self.entries().skip(0) =~= self.entries());
        }
        let mut i: usize = 0;
        while i < n
            invariant
                n == self.entries().len(),
                0 <= i <= n,
                spec_get(self.entries(), name@) == spec_get(self.entries().skip(i as int), name@),
            decreases n - i,
        {
            let entry = &self.entries[i];
            if str_eq(entry.0.as_str(), name) {
                proof {
                    assert(self.entries().skip(i as int)[0] == self.entries()[i as int]);
                }
                return Some(&entry.1);
            }
            proof {
                assert(self.entries().skip(i as int).drop_first() =~= self.entries().skip(
                    i as int + 1,
                ));
            }
            i = i + 1;
        }
        proof {
            assert(self.entries().skip(n as int).len() == 0);
        }
        None
    }
}

} // verus!
