use vstd::prelude::*;

verus! {

/// A named contact: a display name and a raw e-mail address string.
///
/// The address has not been validated; validation happens when the entry
/// is handed to the dispatch core.
#[derive(Debug)]
pub struct Person {
    pub name: String,
    pub mail: String,
}

/// The mathematical value of a contact: both fields as character sequences.
pub ghost struct PersonView {
    pub name: Seq<char>,
    pub mail: Seq<char>,
}

impl View for Person {
    type V = PersonView;

    open spec fn view(&self) -> PersonView {
        PersonView { name: self.name@, mail: self.mail@ }
    }
}

impl DeepView for Person {
    type V = PersonView;

    open spec fn deep_view(&self) -> PersonView {
        self.view()
    }
}

impl Person {
    /// An exact copy, built field by field so its value is known.
    pub fn duplicate(&self) -> (r: Person)
        ensures
            r@ == self@,
    {
        Person { name: self.name.clone(), mail: self.mail.clone() }
    }
}

} // verus!
