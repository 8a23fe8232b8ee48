//! Person builder: accumulate named fields through chained setters, then
//! validate and produce the value, or a descriptive failure when a domain
//! rule is violated.

use vstd::prelude::*;

verus! {

/// A validated person value.
#[derive(Debug)]
pub struct Person {
    pub name: String,
    pub age: u8,
    pub likes: String,
}

/// Accumulates the fields of a `Person`; `build` validates them.
/// The setters return `Self` so calls can be chained before `build`.
pub struct PersonBuilder {
    name: String,
    age: u8,
    likes: String,
}

impl PersonBuilder {
    /// The name accumulated so far.
    pub closed spec fn name_chars(&self) -> Seq<char> {
        self.name@
    }

    /// The age accumulated so far.
    pub closed spec fn age_value(&self) -> u8 {
        self.age
    }

    /// The likes accumulated so far.
    pub closed spec fn likes_chars(&self) -> Seq<char> {
        self.likes@
    }

    /// The domain rule checked by `build`: a person named Homer may not be
    /// older than forty.
    pub open spec fn rejected(&self) -> bool {
        self.name_chars() == "Homer"@ && self.age_value() > 40
    }

    /// A builder starts with an empty name, age zero and empty likes.
    pub fn new() -> (b: PersonBuilder)
        ensures
            b.name_chars() == Seq::<char>::empty(),
            b.age_value() == 0,
            b.likes_chars() == Seq::<char>::empty(),
    {
        PersonBuilder { name: String::new(), age: 0, likes: String::new() }
    }

    /// Set the name, leaving the other fields as they were.
    pub fn name(self, a_name: String) -> (b: Self)
        ensures
            b.name_chars() == a_name@,
            b.age_value() == self.age_value(),
            b.likes_chars() == self.likes_chars(),
    {
        let mut next = self;
        next.name = a_name;
        next
    }

    /// Set the age, leaving the other fields as they were.
    pub fn age(self, age: u8) -> (b: Self)
        ensures
            b.age_value() == age,
            b.name_chars() == self.name_chars(),
            b.likes_chars() == self.likes_chars(),
    {
        let mut next = self;
        next.age = age;
        next
    }

    /// Set the likes, leaving the other fields as they were.
    pub fn likes(self, likes: String) -> (b: Self)
        ensures
            b.likes_chars() == likes@,
            b.name_chars() == self.name_chars(),
            b.age_value() == self.age_value(),
    {
        let mut next = self;
        next.likes = likes;
        next
    }

    /// Validate the accumulated fields. Construction fails exactly when the
    /// domain rule rejects them; otherwise the person carries the fields
    /// unchanged.
    pub fn build(self) -> (r: Result<Person, String>)
        ensures
            self.rejected() ==> r is Err && r->Err_0@ == "Homer can't be that old"@,
            !self.rejected() ==> r is Ok && r->Ok_0.name@ == self.name_chars()
                && r->Ok_0.age == self.age_value() && r->Ok_0.likes@ == self.likes_chars(),
    {
        if self.name == "Homer".to_owned() && self.age > 40 {
            return Err("Homer can't be that old".to_owned());
        }
        Ok(Person { name: self.name, age: self.age, likes: self.likes })
    }
}

} // verus!
