//! The character body the states act upon.
//!
//! The states only set the body's velocity; the host engine owns the
//! body's lifecycle and performs position integration and collision
//! response after each physics callback returns.

use vstd::prelude::*;

use crate::direction::Vec2;

verus! {

/// The physical movement entity: the one piece of it the state machine
/// touches is its velocity, in fixed-point coordinates per second.
#[derive(Clone, Copy, PartialEq, Eq, Structural, Debug)]
pub struct CharacterBody {
    pub velocity: Vec2,
}

impl CharacterBody {
    /// A body at rest.
    pub fn new() -> (b: CharacterBody)
        ensures
            b == (CharacterBody { velocity: Vec2 { x: 0, y: 0 } }),
    {
        CharacterBody { velocity: Vec2 { x: 0, y: 0 } }
    }

    /// Sets the body's velocity.
    pub fn set_velocity(&mut self, velocity: Vec2)
        ensures
            *final(self) == (CharacterBody { velocity }),
    {
        self.velocity = velocity;
    }

    /// The body's velocity.
    pub fn get_velocity(&self) -> (v: Vec2)
        ensures
            v == self.velocity,
    {
        self.velocity
    }
}

} // verus!
