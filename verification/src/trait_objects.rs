//! Values of different types in one list, behind a trait they share.

use vstd::prelude::*;

verus! {

/// An animal that makes a noise.
pub trait NoisyAnimal {
    /// The noise that the animal makes.
    spec fn noise(&self) -> Seq<char>;

    /// Makes the animal's noise.
    fn make_noise(&self) -> (noise: &'static str)
        ensures
            noise@ == self.noise(),
    ;
}

/// A cat.
pub struct Cat {}

impl NoisyAnimal for Cat {
    open spec fn noise(&self) -> Seq<char> {
        "meow"@
    }

    fn make_noise(&self) -> (noise: &'static str) {
        "meow"
    }
}

/// A dog.
pub struct Dog {}

impl NoisyAnimal for Dog {
    open spec fn noise(&self) -> Seq<char> {
        "woof"@
    }

    fn make_noise(&self) -> (noise: &'static str) {
        "woof"
    }
}

/// The noises of the animals, one for each animal and in their order.
pub fn make_noises(animals: Vec<Box<dyn NoisyAnimal>>) -> (noises: Vec<&'static str>)
    ensures
        noises@.len() == animals@.len(),
        forall|k: int| 0 <= k < animals@.len() ==> (#[trigger] noises@[k])@ == animals@[k].noise(),
{
    let mut noises: Vec<&'static str> = Vec::new();
    let mut i: usize = 0;
    while i < animals.len()
        invariant
            i <= animals@.len(),
            noises@.len() == i,
            forall|k: int| 0 <= k < i ==> (#[trigger] noises@[k])@ == animals@[k].noise(),
        decreases animals@.len() - i,
    {
        noises.push(animals[i].make_noise());
        i += 1;
    }
    noises
}

} // verus!
