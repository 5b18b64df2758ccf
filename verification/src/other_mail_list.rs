use vstd::prelude::*;

use crate::email::{address_is_valid, address_ok};
use crate::person::{Person, PersonView};

verus! {

/// The contacts held by the filled slots of `s`, in order.
pub open spec fn present_persons(s: Seq<Option<PersonView>>) -> Seq<PersonView>
    decreases s.len(),
{
    if s.len() == 0 {
        Seq::empty()
    } else {
        match s.last() {
            Some(p) => present_persons(s.drop_last()).push(p),
            None => present_persons(s.drop_last()),
        }
    }
}

/// Every filled slot of `s` holds an address the parser accepts.
pub open spec fn all_entries_ok(s: Seq<Option<PersonView>>) -> bool {
    forall|i: int|
        0 <= i < s.len() ==> match #[trigger] s[i] {
            Some(p) => address_ok(p.mail),
            None => true,
        }
}

/// What becomes of an ad-hoc slot when empty rows are cleared: an entry
/// with an empty address is dropped.
pub open spec fn cleared_slot(e: Option<PersonView>) -> Option<PersonView> {
    match e {
        Some(p) => if p.mail.len() == 0 {
            None
        } else {
            Some(p)
        },
        None => None,
    }
}

/// The ad-hoc recipient list: rows typed straight into the form, each
/// either cleared or holding a free-form entry, plus a counter of the
/// rows handed out so far (the form addresses rows by that number).
#[derive(Debug)]
pub struct OtherMailList {
    list: Vec<Option<Person>>,
    size: usize,
}

impl OtherMailList {
    /// The rows of the list, in order.
    pub closed spec fn entries(self) -> Seq<Option<PersonView>> {
        self.list.deep_view()
    }

    /// The row counter.
    pub closed spec fn spec_size(self) -> usize {
        self.size
    }

    /// The row counter, as handed to the form.
    pub fn size(&self) -> (r: usize)
        ensures
            r == self.spec_size(),
    {
        self.size
    }

    /// The number of rows, filled or cleared.
    pub fn len(&self) -> (r: usize)
        ensures
            r == self.entries().len(),
    {
        self.list.len()
    }

    /// Appends a fresh, empty row.
    pub fn add_person(&mut self)
        ensures
            final(self).entries() == old(self).entries().push(
                Some(PersonView { name: Seq::empty(), mail: Seq::empty() }),
            ),
            final(self).spec_size() == old(self).spec_size(),
    {
        self.list.push(Some(Person { name: String::new(), mail: String::new() }));
        proof {
            assert(self.entries() =~= old(self).entries().push(
                Some(PersonView { name: Seq::empty(), mail: Seq::empty() }),
            ));
        }
    }

    /// Overwrites row `index` with the typed address, which also
    /// stands in for the row's name.
    pub fn edit_person(&mut self, mail: &str, index: usize)
        requires
            index < old(self).entries().len(),
        ensures
            final(self).entries() == old(self).entries().update(
                index as int,
                Some(PersonView { name: mail@, mail: mail@ }),
            ),
            final(self).spec_size() == old(self).spec_size(),
    {
        self.list[index] = Some(Person { name: mail.to_owned(), mail: mail.to_owned() });
        proof {
            assert(self.entries() =~= old(self).entries().update(
                index as int,
                Some(PersonView { name: mail@, mail: mail@ }),
            ));
        }
    }

    /// Clears row `index`.
    pub fn remove_person(&mut self, index: usize)
        requires
            index < old(self).entries().len(),
        ensures
            final(self).entries() == old(self).entries().update(index as int, None),
            final(self).spec_size() == old(self).spec_size(),
    {
        self.list[index] = None;
        proof {
            assert(self.entries() =~= old(self).entries().update(index as int, None));
        }
    }

    /// Counts one more row handed out.
    pub fn increment_size(&mut self)
        requires
            old(self).spec_size() < usize::MAX,
        ensures
            final(self).spec_size() == old(self).spec_size() + 1,
            final(self).entries() == old(self).entries(),
    {
        self.size += 1;
    }

    /// Clears every row whose address is empty; done when the form
    /// closes.
    pub fn remove_empty_persons(&mut self)
        ensures
            final(self).entries().len() == old(self).entries().len(),
            forall|j: int|
                0 <= j < old(self).entries().len() ==> final(self).entries()[j] == cleared_slot(
                    #[trigger] old(self).entries()[j],
                ),
            final(self).spec_size() == old(self).spec_size(),
    {
        let mut i: usize = 0;
        while i < self.list.len()
            invariant
                i <= self.list.len(),
                self.list.len() == old(self).list.len(),
                self.size == old(self).size,
                forall|j: int|
                    0 <= j < i ==> self.entries()[j] == cleared_slot(
                        #[trigger] old(self).entries()[j],
                    ),
                forall|j: int| i <= j < self.list.len() ==> self.list[j] == old(self).list[j],
            decreases self.list.len() - i,
        {
            let empty_row = match &self.list[i] {
                Some(p) => p.mail.as_str().is_empty(),
                None => false,
            };
            if empty_row {
                self.list[i] = None;
            }
            i += 1;
        }
    }

    /// The entries of the filled rows, in order, ready to be merged
    /// into a send.
    pub fn export_other_mail_list(&self) -> (r: Vec<Person>)
        ensures
            r.deep_view() == present_persons(self.entries()),
    {
        let mut out: Vec<Person> = Vec::new();
        let mut i: usize = 0;
        proof {
            assert(self.entries().subrange(0, 0) =~= Seq::<Option<PersonView>>::empty());
        }
        while i < self.list.len()
            invariant
                i <= self.list.len(),
                out.deep_view() == present_persons(self.entries().subrange(0, i as int)),
            decreases self.list.len() - i,
        {
            let ghost before = out.deep_view();
            proof {
                assert(self.entries().subrange(0, i + 1).drop_last() =~= self.entries().subrange(
                    0,
                    i as int,
                ));
                assert(self.entries().subrange(0, i + 1).last() == self.entries()[i as int]);
            }
            match &self.list[i] {
                Some(p) => {
                    out.push(p.duplicate());
                    proof {
                        assert(out.deep_view() =~= before.push(p@));
                    }
                },
                None => {},
            }
            i += 1;
        }
        proof {
            assert(self.entries().subrange(0, self.entries().len() as int) =~= self.entries());
        }
        out
    }

    /// True when the list holds no rows at all.
    pub fn is_empty(&self) -> (r: bool)
        ensures
            r == (self.entries().len() == 0),
    {
        self.list.is_empty()
    }

    /// True when every filled row holds a well-formed address; an
    /// empty or fully cleared list counts as valid.
    pub fn is_valid(&self) -> (r: bool)
        ensures
            r == all_entries_ok(self.entries()),
    {
        let mut i: usize = 0;
        while i < self.list.len()
            invariant
                i <= self.list.len(),
                forall|j: int|
                    0 <= j < i ==> match #[trigger] self.entries()[j] {
                        Some(p) => address_ok(p.mail),
                        None => true,
                    },
            decreases self.list.len() - i,
        {
            match &self.list[i] {
                Some(p) => {
                    if !address_is_valid(p.mail.as_str()) {
                        proof {
                            assert(self.entries()[i as int] == Some(p@));
                            assert(!address_ok(p@.mail));
                        }
                        return false;
                    }
                },
                None => {},
            }
            i += 1;
        }
        true
    }
}

impl Default for OtherMailList {
    /// A list with no rows and the counter at nought.
    fn default() -> (r: OtherMailList)
        ensures
            r.entries() == Seq::<Option<PersonView>>::empty(),
            r.spec_size() == 0,
    {
        let r = OtherMailList { list: Vec::new(), size: 0 };
        proof {
            assert(r.entries() =~= Seq::<Option<PersonView>>::empty());
        }
        r
    }
}

} // verus!
