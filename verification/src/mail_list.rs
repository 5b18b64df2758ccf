use vstd::prelude::*;

use crate::person::{Person, PersonView};

verus! {

/// What becomes of a roster slot when incomplete entries are pruned: a
/// contact with an empty name or an empty address is dropped.
pub open spec fn pruned_slot(e: Option<PersonView>) -> Option<PersonView> {
    match e {
        Some(p) => if p.name.len() == 0 || p.mail.len() == 0 {
            None
        } else {
            Some(p)
        },
        None => None,
    }
}

/// The roster: an indexed sequence of slots, each either empty or
/// holding a named contact. The shell loads and stores the sequence;
/// the methods here are the lookups and edits made between loading and
/// storing.
#[derive(Debug)]
pub struct MailList {
    list: Vec<Option<Person>>,
}

impl MailList {
    /// The slots of the roster, in order.
    pub closed spec fn entries(self) -> Seq<Option<PersonView>> {
        self.list.deep_view()
    }

    /// A roster made of the given slots.
    pub fn new(list: Vec<Option<Person>>) -> (r: MailList)
        ensures
            r.entries() == list.deep_view(),
    {
        MailList { list }
    }

    /// The number of slots.
    pub fn len(&self) -> (r: usize)
        ensures
            r == self.entries().len(),
    {
        self.list.len()
    }

    /// The contact in slot `id`, when the slot is filled.
    pub fn load_person(&self, id: usize) -> (r: Option<Person>)
        requires
            id < self.entries().len(),
        ensures
            r.deep_view() == self.entries()[id as int],
    {
        match &self.list[id] {
            Some(p) => Some(p.duplicate()),
            None => None,
        }
    }

    /// Gives slot `id` the name `name`, keeping the slot's address; an
    /// empty slot becomes a contact with that name and an empty
    /// address.
    pub fn save_person_name(&mut self, id: usize, name: String)
        requires
            id < old(self).entries().len(),
        ensures
            final(self).entries() == old(self).entries().update(
                id as int,
                Some(
                    PersonView {
                        name: name@,
                        mail: match old(self).entries()[id as int] {
                            Some(p) => p.mail,
                            None => Seq::empty(),
                        },
                    },
                ),
            ),
    {
        let mut person = match self.load_person(id) {
            Some(person) => person,
            None => Person { name: String::new(), mail: String::new() },
        };
        person.name = name;
        self.list[id] = Some(person);
        proof {
            assert(self.entries() =~= old(self).entries().update(
                id as int,
                Some(
                    PersonView {
                        name: name@,
                        mail: match old(self).entries()[id as int] {
                            Some(p) => p.mail,
                            None => Seq::empty(),
                        },
                    },
                ),
            ));
        }
    }

    /// Gives slot `id` the address `mail`, keeping the slot's name; an
    /// empty slot becomes a contact with that address and an empty
    /// name.
    pub fn save_person_mail(&mut self, id: usize, mail: String)
        requires
            id < old(self).entries().len(),
        ensures
            final(self).entries() == old(self).entries().update(
                id as int,
                Some(
                    PersonView {
                        name: match old(self).entries()[id as int] {
                            Some(p) => p.name,
                            None => Seq::empty(),
                        },
                        mail: mail@,
                    },
                ),
            ),
    {
        let mut person = match self.load_person(id) {
            Some(person) => person,
            None => Person { name: String::new(), mail: String::new() },
        };
        person.mail = mail;
        self.list[id] = Some(person);
        proof {
            assert(self.entries() =~= old(self).entries().update(
                id as int,
                Some(
                    PersonView {
                        name: match old(self).entries()[id as int] {
                            Some(p) => p.name,
                            None => Seq::empty(),
                        },
                        mail: mail@,
                    },
                ),
            ));
        }
    }

    /// Empties every slot whose contact lacks a name or an address;
    /// done before the roster is stored.
    pub fn prune_incomplete(&mut self)
        ensures
            final(self).entries().len() == old(self).entries().len(),
            forall|j: int|
                0 <= j < old(self).entries().len() ==> final(self).entries()[j] == pruned_slot(
                    #[trigger] old(self).entries()[j],
                ),
    {
        let mut i: usize = 0;
        while i < self.list.len()
            invariant
                i <= self.list.len(),
                self.list.len() == old(self).list.len(),
                forall|j: int|
                    0 <= j < i ==> self.entries()[j] == pruned_slot(
                        #[trigger] old(self).entries()[j],
                    ),
                forall|j: int| i <= j < self.list.len() ==> self.list[j] == old(self).list[j],
            decreases self.list.len() - i,
        {
            let incomplete = match &self.list[i] {
                Some(p) => p.name.as_str().is_empty() || p.mail.as_str().is_empty(),
                None => false,
            };
            if incomplete {
                self.list[i] = None;
            }
            i += 1;
        }
    }

    /// The slots as a fresh vector, for storing.
    pub fn to_entries(&self) -> (r: Vec<Option<Person>>)
        ensures
            r.deep_view() == self.entries(),
    {
        let mut out: Vec<Option<Person>> = Vec::new();
        let mut i: usize = 0;
        while i < self.list.len()
            invariant
                i <= self.list.len(),
                out.deep_view() == self.entries().subrange(0, i as int),
            decreases self.list.len() - i,
        {
            let ghost before = out.deep_view();
            match &self.list[i] {
                Some(p) => out.push(Some(p.duplicate())),
                None => out.push(None),
            }
            proof {
                assert(out.deep_view() =~= before.push(self.entries()[i as int]));
                assert(self.entries().subrange(0, i + 1).drop_last() =~= self.entries().subrange(
                    0,
                    i as int,
                ));
            }
            i += 1;
        }
        proof {
            assert(self.entries().subrange(0, self.entries().len() as int) =~= self.entries());
        }
        out
    }
}

} // verus!
