//! A trait with a function that makes a value, a method that each
//! implementation writes in its own way, and a method that all of them
//! inherit; and a journey that works with any implementation.

use crate::text::str_eq;
use vstd::prelude::*;
use vstd::string::*;

verus! {

/// How a vehicle gets ahead.
#[derive(Debug, Clone, Copy, PartialEq, Eq, Structural)]
pub enum Motion {
    Fly,
    Pedal,
    Drive,
}

/// Something with a name that carries people.
pub trait Vehicle: Sized {
    /// The name that the vehicle was given.
    spec fn name_spec(&self) -> Seq<char>;

    /// A vehicle called `name`.
    fn new(name: &'static str) -> (vehicle: Self)
        ensures
            vehicle.name_spec() == name@,
    ;

    /// The vehicle's name.
    fn name(&self) -> (name: &'static str)
        ensures
            name@ == self.name_spec(),
    ;

    /// How the vehicle gets ahead.
    spec fn motion(&self) -> Motion;

    /// Moves on by one leg: says what the vehicle has to do for it.
    fn move_on(&self) -> (motion: Motion)
        ensures
            motion == self.motion(),
    ;

    /// The word `Vehicle`, a space and the name. Implementations take this
    /// method as it is.
    fn to_string(&self) -> (text: String)
        ensures
            text@ == "Vehicle "@ + self.name_spec(),
    {
        let mut text = String::from_str("Vehicle ");
        text.append(self.name());
        text
    }
}

/// A vehicle that flies.
#[derive(Debug)]
pub struct Airplane {
    pub name: &'static str,
}

/// A vehicle that is pedalled.
#[derive(Debug)]
pub struct Bicycle {
    pub name: &'static str,
}

/// A vehicle that is driven.
#[derive(Debug)]
pub struct Car {
    pub name: &'static str,
}

impl Vehicle for Airplane {
    open spec fn name_spec(&self) -> Seq<char> {
        self.name@
    }

    fn new(name: &'static str) -> (vehicle: Self) {
        Airplane { name: name }
    }

    fn name(&self) -> (name: &'static str) {
        self.name
    }

    open spec fn motion(&self) -> Motion {
        Motion::Fly
    }

    fn move_on(&self) -> (motion: Motion) {
        Motion::Fly
    }
}

impl Vehicle for Bicycle {
    open spec fn name_spec(&self) -> Seq<char> {
        self.name@
    }

    fn new(name: &'static str) -> (vehicle: Self) {
        Bicycle { name: name }
    }

    fn name(&self) -> (name: &'static str) {
        self.name
    }

    open spec fn motion(&self) -> Motion {
        Motion::Pedal
    }

    fn move_on(&self) -> (motion: Motion) {
        Motion::Pedal
    }
}

impl Vehicle for Car {
    open spec fn name_spec(&self) -> Seq<char> {
        self.name@
    }

    fn new(name: &'static str) -> (vehicle: Self) {
        Car { name: name }
    }

    fn name(&self) -> (name: &'static str) {
        self.name
    }

    open spec fn motion(&self) -> Motion {
        Motion::Drive
    }

    fn move_on(&self) -> (motion: Motion) {
        Motion::Drive
    }
}

/// One step of the journey from Amsterdam to the place called `pairs`,
/// for a vehicle that has come to `location`: at `pairs` the journey is
/// over, anywhere else the vehicle moves on. The traveller makes the move
/// and calls again from the place reached.
pub fn from_amsterdam_to_pairs<T: Vehicle>(vehicle: &T, location: &str) -> (step: Option<Motion>)
    ensures
        step == if location@ == "pairs"@ {
            None
        } else {
            Some(vehicle.motion())
        },
{
    if str_eq(location, "pairs") {
        None
    } else {
        Some(vehicle.move_on())
    }
}

} // verus!
