//! Method-forwarding adapter: compose a `Dog` and re-expose its bark under
//! the `Cat` capability, forwarding the call unchanged.

use vstd::prelude::*;

verus! {

/// The capability the adapter re-exposes. A roar's visible behaviour is to
/// emit a line naming the animal; `roar` hands that name back so that the
/// callers, which do the printing, stay outside the verified library.
pub trait Cat {
    /// The name the roar announces.
    spec fn roar_name(&self) -> Seq<char>;

    /// Roar, handing back the name that the roar announces.
    fn roar(&self) -> (r: &String)
        ensures
            r@ == self.roar_name(),
    ;
}

/// A dog that barks its own name.
pub struct Dog {
    pub name: String,
}

impl Dog {
    /// Bark, handing back the barking dog's name.
    fn bark(&self) -> (r: &String)
        ensures
            r@ == self.name@,
    {
        &self.name
    }
}

/// Composes a concrete `Dog` and implements `Cat` so that calls are
/// proxied, unchanged, to the wrapped dog.
pub struct DogToCatAdapter {
    pub dog: Dog,
}

impl Cat for DogToCatAdapter {
    open spec fn roar_name(&self) -> Seq<char> {
        self.dog.name@
    }

    fn roar(&self) -> (r: &String) {
        self.dog.bark()
    }
}

} // verus!
