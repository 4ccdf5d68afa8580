//! The closed set of movement states and the transition rules.
//!
//! The six state variants form two families (idle, run) crossed with the
//! three direction categories. This module defines the sum type over
//! them, the specification of every transition and entry effect, and the
//! dispatch of each state-machine callback to the active variant.

use vstd::prelude::*;

use crate::body::CharacterBody;
use crate::direction::DirectionType;
use crate::direction::Vec2;
use crate::direction::spec_direction_of;
use crate::idle_state::BackIdleState;
use crate::idle_state::IdleState;
use crate::idle_state::SideIdleState;
use crate::resource::CharacterResource;
use crate::resource::ResourceModel;
use crate::run_state::BackRunState;
use crate::run_state::RunState;
use crate::run_state::SideRunState;
use crate::run_state::spec_run_velocity;

verus! {

/// One behavioral mode of the character: exactly one variant is active
/// in the machine at any time.
#[derive(Clone, Copy, PartialEq, Eq, Structural, Debug)]
pub enum PlayerState {
    Idle(IdleState),
    BackIdle(BackIdleState),
    SideIdle(SideIdleState),
    Run(RunState),
    BackRun(BackRunState),
    SideRun(SideRunState),
}

/// Whether the state belongs to the idle family.
pub open spec fn spec_is_idle_family(s: PlayerState) -> bool {
    match s {
        PlayerState::Idle(_) => true,
        PlayerState::BackIdle(_) => true,
        PlayerState::SideIdle(_) => true,
        _ => false,
    }
}

/// Whether the state belongs to the run family.
pub open spec fn spec_is_run_family(s: PlayerState) -> bool {
    !spec_is_idle_family(s)
}

/// The direction category a state faces.
pub open spec fn spec_state_direction(s: PlayerState) -> DirectionType {
    match s {
        PlayerState::Idle(_) => DirectionType::Default,
        PlayerState::BackIdle(_) => DirectionType::Back,
        PlayerState::SideIdle(_) => DirectionType::Side,
        PlayerState::Run(_) => DirectionType::Default,
        PlayerState::BackRun(_) => DirectionType::Back,
        PlayerState::SideRun(_) => DirectionType::Side,
    }
}

/// The run-family state facing the given direction category.
pub open spec fn spec_run_state_for(d: DirectionType) -> PlayerState {
    match d {
        DirectionType::Default => PlayerState::Run(RunState),
        DirectionType::Back => PlayerState::BackRun(BackRunState),
        DirectionType::Side => PlayerState::SideRun(SideRunState),
    }
}

/// The idle-family state facing the given direction category.
pub open spec fn spec_idle_state_for(d: DirectionType) -> PlayerState {
    match d {
        DirectionType::Default => PlayerState::Idle(IdleState),
        DirectionType::Back => PlayerState::BackIdle(BackIdleState),
        DirectionType::Side => PlayerState::SideIdle(SideIdleState),
    }
}

/// The clip name a state derives from a direction tag.
///
/// The unqualified variants use bare names for the `Default` tag
/// (`"idle"`, `"running"`); every other combination is `<tag>_<family>`.
/// The back/side variants name their own clip whatever the tag says.
pub open spec fn spec_animation_name(s: PlayerState, d: DirectionType) -> Seq<char> {
    match s {
        PlayerState::Idle(_) => match d {
            DirectionType::Default => "idle"@,
            DirectionType::Back => "back_idle"@,
            DirectionType::Side => "side_idle"@,
        },
        PlayerState::BackIdle(_) => "back_idle"@,
        PlayerState::SideIdle(_) => "side_idle"@,
        PlayerState::Run(_) => match d {
            DirectionType::Default => "running"@,
            DirectionType::Back => "back_running"@,
            DirectionType::Side => "side_running"@,
        },
        PlayerState::BackRun(_) => "back_running"@,
        PlayerState::SideRun(_) => "side_running"@,
    }
}

/// The resource after a state's entry callback ran.
///
/// An idle-family state keeps the animation direction and plays the clip
/// named after the current direction tag; a run-family state first sets
/// the animation direction to its own category, then plays its clip.
pub open spec fn spec_init_resource(s: PlayerState, r: ResourceModel) -> ResourceModel {
    if spec_is_idle_family(s) {
        r.play(spec_animation_name(s, r.animation_direction))
    } else {
        let d = spec_state_direction(s);
        (ResourceModel { animation_direction: d, ..r }).play(spec_animation_name(s, d))
    }
}

/// The owner's velocity after a state's entry callback ran: an
/// idle-family state stops the character, a run-family state leaves the
/// velocity alone.
pub open spec fn spec_init_velocity(s: PlayerState, v: Vec2) -> Vec2 {
    if spec_is_idle_family(s) {
        Vec2 { x: 0, y: 0 }
    } else {
        v
    }
}

/// The per-frame transition decision: `None` remains in `s`.
///
/// An idle-family state stays put on zero input and routes to the
/// run-family state of the input's category otherwise. A run-family
/// state routes to its matching idle variant on zero input, stays put
/// when the input matches its own category, and routes to the matching
/// run variant otherwise.
pub open spec fn spec_process_target(s: PlayerState, input: Vec2) -> Option<PlayerState> {
    if spec_is_idle_family(s) {
        if input.spec_is_zero() {
            None
        } else {
            Some(spec_run_state_for(spec_direction_of(input)))
        }
    } else {
        if input.spec_is_zero() {
            Some(spec_idle_state_for(spec_state_direction(s)))
        } else if spec_direction_of(input) == spec_state_direction(s) {
            None
        } else {
            Some(spec_run_state_for(spec_direction_of(input)))
        }
    }
}

/// The per-physics-frame transition decision: only a run-family state
/// with zero input transitions, to its matching idle variant.
pub open spec fn spec_physics_target(s: PlayerState, input: Vec2) -> Option<PlayerState> {
    if spec_is_run_family(s) && input.spec_is_zero() {
        Some(spec_idle_state_for(spec_state_direction(s)))
    } else {
        None
    }
}

/// The owner's velocity after a state's physics callback ran, before any
/// transition is applied: a run-family state stops on zero input and
/// moves at one and a half times the base speed along the input
/// otherwise; an idle-family state leaves the velocity alone.
pub open spec fn spec_physics_velocity(
    s: PlayerState,
    input: Vec2,
    speed: int,
    v: Vec2,
) -> Vec2 {
    if spec_is_run_family(s) {
        if input.spec_is_zero() {
            Vec2 { x: 0, y: 0 }
        } else {
            spec_run_velocity(input, speed)
        }
    } else {
        v
    }
}

impl PlayerState {
    /// The entry callback of the active variant: run once, synchronously,
    /// whenever this state becomes current.
    pub fn init(&self, owner: &mut CharacterBody, resource: &mut CharacterResource)
        ensures
            *final(owner) == (CharacterBody {
                velocity: spec_init_velocity(*self, old(owner).velocity),
            }),
            final(resource)@ == spec_init_resource(*self, old(resource)@),
    {
        match self {
            PlayerState::Idle(s) => s.init(owner, resource),
            PlayerState::BackIdle(s) => s.init(owner, resource),
            PlayerState::SideIdle(s) => s.init(owner, resource),
            PlayerState::Run(s) => s.init(resource),
            PlayerState::BackRun(s) => s.init(resource),
            PlayerState::SideRun(s) => s.init(resource),
        }
    }

    /// The per-frame callback of the active variant: decides a transition
    /// from the current input and touches nothing else.
    pub fn process(&self, input: Vec2) -> (t: Option<PlayerState>)
        ensures
            t == spec_process_target(*self, input),
    {
        match self {
            PlayerState::Idle(s) => s.process(input),
            PlayerState::BackIdle(s) => s.process(input),
            PlayerState::SideIdle(s) => s.process(input),
            PlayerState::Run(s) => s.process(input),
            PlayerState::BackRun(s) => s.process(input),
            PlayerState::SideRun(s) => s.process(input),
        }
    }

    /// The per-physics-frame callback of the active variant: a run-family
    /// state updates the owner's velocity and may decide a transition; an
    /// idle-family state does nothing.
    pub fn physics_process(
        &self,
        owner: &mut CharacterBody,
        resource: &CharacterResource,
        input: Vec2,
    ) -> (t: Option<PlayerState>)
        requires
            input.spec_is_unit_input(),
            resource@.wf(),
        ensures
            *final(owner) == (CharacterBody {
                velocity: spec_physics_velocity(
                    *self,
                    input,
                    resource@.speed,
                    old(owner).velocity,
                ),
            }),
            t == spec_physics_target(*self, input),
    {
        match self {
            PlayerState::Idle(_) => None,
            PlayerState::BackIdle(_) => None,
            PlayerState::SideIdle(_) => None,
            PlayerState::Run(s) => s.physics_process(owner, resource, input),
            PlayerState::BackRun(s) => s.physics_process(owner, resource, input),
            PlayerState::SideRun(s) => s.physics_process(owner, resource, input),
        }
    }

    /// The input-event callback: no variant overrides the default no-op,
    /// so no input event ever decides a transition.
    pub fn input(&self) -> (t: Option<PlayerState>)
        ensures
            t is None,
    {
        None
    }

    /// The force-integration callback: display-only, and no variant
    /// overrides the default no-op.
    pub fn integrate_forces(&self) {
    }

    /// The clip name the active variant derives from a direction tag.
    pub fn get_animation_name(&self, direction: DirectionType) -> (name: String)
        ensures
            name@ == spec_animation_name(*self, direction),
    {
        match self {
            PlayerState::Idle(s) => s.get_animation_name(direction),
            PlayerState::BackIdle(s) => s.get_animation_name(direction),
            PlayerState::SideIdle(s) => s.get_animation_name(direction),
            PlayerState::Run(s) => s.get_animation_name(direction),
            PlayerState::BackRun(s) => s.get_animation_name(direction),
            PlayerState::SideRun(s) => s.get_animation_name(direction),
        }
    }
}

} // verus!
