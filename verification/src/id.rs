use std::marker::PhantomData;
use vstd::prelude::*;

verus! {

/// The identifier of an entity of type `T`: a string, typed by what it
/// identifies.
#[derive(Debug)]
pub struct Id<T>(pub String, pub PhantomData<T>);

impl<T> View for Id<T> {
    type V = Seq<char>;

    open spec fn view(&self) -> Seq<char> {
        self.0@
    }
}

impl<T> Id<T> {
    /// The id that `s` spells.
    pub fn new(s: String) -> (res: Self)
        ensures
            res@ == s@,
    {
        Id(s, PhantomData)
    }

    /// The id as text.
    pub fn as_str(&self) -> (res: &str)
        ensures
            res@ == self@,
    {
        self.0.as_str()
    }

    /// The id as text of its own.
    pub fn to_string(&self) -> (res: String)
        ensures
            res@ == self@,
    {
        self.0.clone()
    }

    /// The text of the id.
    pub fn into_string(self) -> (res: String)
        ensures
            res@ == self@,
    {
        self.0
    }
}

impl<T> Clone for Id<T> {
    fn clone(&self) -> (res: Self)
        ensures
            res == *self,
    {
        Id(self.0.clone(), PhantomData)
    }
}

impl<T> Default for Id<T> {
    fn default() -> (res: Self)
        ensures
            res@ == Seq::<char>::empty(),
    {
        Id(String::new(), PhantomData)
    }
}

impl<T> PartialEq for Id<T> {
    fn eq(&self, other: &Self) -> (res: bool) {
        self.0 == other.0
    }
}

impl<T> vstd::std_specs::cmp::PartialEqSpecImpl for Id<T> {
    open spec fn obeys_eq_spec() -> bool {
        true
    }

    open spec fn eq_spec(&self, other: &Self) -> bool {
        self.0@ == other.0@
    }
}

} // verus!
