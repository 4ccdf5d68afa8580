//! The idle-family states: the character stands still.
//!
//! Every idle variant zeroes the owner's velocity on entry and plays an
//! idle clip. Its per-frame decision ignores which idle variant is
//! active: any nonzero input routes to the run-family state of the
//! input's category, and zero input stays put. Idle states do not
//! override the physics callback; the velocity was already zeroed at
//! entry.

use vstd::prelude::*;

use crate::body::CharacterBody;
use crate::direction::DirectionType;
use crate::direction::Vec2;
use crate::direction::determine_direction_type;
use crate::direction::spec_direction_of;
use crate::resource::CharacterResource;
use crate::run_state::BackRunState;
use crate::run_state::RunState;
use crate::run_state::SideRunState;
use crate::state::PlayerState;
use crate::state::spec_animation_name;
use crate::state::spec_init_resource;
use crate::state::spec_process_target;
use crate::state::spec_run_state_for;

verus! {

/// The forward-facing idle state.
#[derive(Clone, Copy, PartialEq, Eq, Structural, Debug)]
pub struct IdleState;

/// The backward-facing idle state.
#[derive(Clone, Copy, PartialEq, Eq, Structural, Debug)]
pub struct BackIdleState;

/// The side-facing idle state.
#[derive(Clone, Copy, PartialEq, Eq, Structural, Debug)]
pub struct SideIdleState;

/// The per-frame decision every idle variant shares: stay on zero
/// input, otherwise enter the run-family state of the input's category.
fn idle_process(input: Vec2) -> (t: Option<PlayerState>)
    ensures
        t == if input.spec_is_zero() {
            None::<PlayerState>
        } else {
            Some(spec_run_state_for(spec_direction_of(input)))
        },
{
    if !input.is_zero() {
        let direction_type = determine_direction_type(input);
        return match direction_type {
            DirectionType::Back => Some(PlayerState::BackRun(BackRunState)),
            DirectionType::Side => Some(PlayerState::SideRun(SideRunState)),
            DirectionType::Default => Some(PlayerState::Run(RunState)),
        };
    }
    None
}

impl IdleState {
    /// The clip for a direction tag: bare `"idle"` for the default tag,
    /// `<tag>_idle` otherwise.
    pub fn get_animation_name(&self, animation_direction: DirectionType) -> (name: String)
        ensures
            name@ == spec_animation_name(PlayerState::Idle(IdleState), animation_direction),
    {
        match animation_direction {
            DirectionType::Default => "idle".to_owned(),
            DirectionType::Back => "back_idle".to_owned(),
            DirectionType::Side => "side_idle".to_owned(),
        }
    }

    /// Entry: stop the character and play the idle clip named after the
    /// current direction tag.
    pub fn init(&self, owner: &mut CharacterBody, resource: &mut CharacterResource)
        ensures
            *final(owner) == (CharacterBody { velocity: Vec2 { x: 0, y: 0 } }),
            final(resource)@ == spec_init_resource(PlayerState::Idle(IdleState), old(resource)@),
    {
        owner.set_velocity(Vec2::zero());
        let animation_name = self.get_animation_name(resource.get_animation_direction());
        resource.play_animation(animation_name.as_str());
    }

    /// Per-frame decision for this state.
    pub fn process(&self, input: Vec2) -> (t: Option<PlayerState>)
        ensures
            t == spec_process_target(PlayerState::Idle(IdleState), input),
    {
        idle_process(input)
    }
}

impl BackIdleState {
    /// The clip for a direction tag: always `"back_idle"`.
    pub fn get_animation_name(&self, _animation_direction: DirectionType) -> (name: String)
        ensures
            name@ == spec_animation_name(PlayerState::BackIdle(BackIdleState), _animation_direction),
    {
        "back_idle".to_owned()
    }

    /// Entry: stop the character and play the back idle clip.
    pub fn init(&self, owner: &mut CharacterBody, resource: &mut CharacterResource)
        ensures
            *final(owner) == (CharacterBody { velocity: Vec2 { x: 0, y: 0 } }),
            final(resource)@ == spec_init_resource(
                PlayerState::BackIdle(BackIdleState),
                old(resource)@,
            ),
    {
        owner.set_velocity(Vec2::zero());
        let animation_name = self.get_animation_name(resource.get_animation_direction());
        resource.play_animation(animation_name.as_str());
    }

    /// Per-frame decision for this state.
    pub fn process(&self, input: Vec2) -> (t: Option<PlayerState>)
        ensures
            t == spec_process_target(PlayerState::BackIdle(BackIdleState), input),
    {
        idle_process(input)
    }
}

impl SideIdleState {
    /// The clip for a direction tag: always `"side_idle"`.
    pub fn get_animation_name(&self, _animation_direction: DirectionType) -> (name: String)
        ensures
            name@ == spec_animation_name(PlayerState::SideIdle(SideIdleState), _animation_direction),
    {
        "side_idle".to_owned()
    }

    /// Entry: stop the character and play the side idle clip.
    pub fn init(&self, owner: &mut CharacterBody, resource: &mut CharacterResource)
        ensures
            *final(owner) == (CharacterBody { velocity: Vec2 { x: 0, y: 0 } }),
            final(resource)@ == spec_init_resource(
                PlayerState::SideIdle(SideIdleState),
                old(resource)@,
            ),
    {
        owner.set_velocity(Vec2::zero());
        let animation_name = self.get_animation_name(resource.get_animation_direction());
        resource.play_animation(animation_name.as_str());
    }

    /// Per-frame decision for this state.
    pub fn process(&self, input: Vec2) -> (t: Option<PlayerState>)
        ensures
            t == spec_process_target(PlayerState::SideIdle(SideIdleState), input),
    {
        idle_process(input)
    }
}

} // verus!
