//! The state machine driver.
//!
//! The machine owns the shared character resource and exactly one
//! current state (optional only before the first `ready`). Host
//! callbacks hand it the owner body and the current input vector as
//! plain values; the machine delegates to the active state and, when the
//! state decides a transition, stores the new state and immediately runs
//! its entry callback — exactly once per transition, synchronously,
//! before any later callback reaches the new state.

use vstd::prelude::*;

use crate::body::CharacterBody;
use crate::direction::DirectionType;
use crate::direction::Vec2;
use crate::idle_state::IdleState;
use crate::resource::CharacterResource;
use crate::resource::ResourceModel;
use crate::state::PlayerState;
use crate::state::spec_init_resource;
use crate::state::spec_init_velocity;
use crate::state::spec_physics_target;
use crate::state::spec_physics_velocity;
use crate::state::spec_process_target;

verus! {

/// The mathematical model of a [`PlayerStateMachine`].
pub ghost struct MachineModel {
    pub current_state: Option<PlayerState>,
    pub resource: ResourceModel,
}

/// The machine and the owner body after a transition to `target`: the
/// new state becomes current and its entry callback runs on the live
/// owner and resource.
pub open spec fn spec_transition(
    m: MachineModel,
    target: PlayerState,
    body: CharacterBody,
) -> (MachineModel, CharacterBody) {
    (
        MachineModel {
            current_state: Some(target),
            resource: spec_init_resource(target, m.resource),
        },
        CharacterBody { velocity: spec_init_velocity(target, body.velocity) },
    )
}

/// The machine and the owner body after `ready`: the initial state (the
/// plain idle state, unless a state was already set) becomes current
/// through the transition protocol.
pub open spec fn spec_after_ready(
    m: MachineModel,
    body: CharacterBody,
) -> (MachineModel, CharacterBody) {
    let initial = match m.current_state {
        Some(s) => s,
        None => PlayerState::Idle(IdleState),
    };
    spec_transition(m, initial, body)
}

/// The machine and the owner body after a per-frame callback: the
/// active state decides a transition from the input; without an active
/// state, or without a transition, nothing changes.
pub open spec fn spec_after_process(
    m: MachineModel,
    body: CharacterBody,
    input: Vec2,
) -> (MachineModel, CharacterBody) {
    match m.current_state {
        None => (m, body),
        Some(s) => match spec_process_target(s, input) {
            None => (m, body),
            Some(target) => spec_transition(m, target, body),
        },
    }
}

/// The machine and the owner body after a per-physics-frame callback:
/// the active state first updates the velocity, then any decided
/// transition runs its entry callback.
pub open spec fn spec_after_physics_process(
    m: MachineModel,
    body: CharacterBody,
    input: Vec2,
) -> (MachineModel, CharacterBody) {
    match m.current_state {
        None => (m, body),
        Some(s) => {
            let moved = CharacterBody {
                velocity: spec_physics_velocity(s, input, m.resource.speed, body.velocity),
            };
            match spec_physics_target(s, input) {
                None => (m, moved),
                Some(target) => spec_transition(m, target, moved),
            }
        },
    }
}

/// The debug name of the current state.
pub open spec fn spec_state_name(s: Option<PlayerState>) -> Seq<char> {
    match s {
        None => "None"@,
        Some(PlayerState::Idle(_)) => "IdleState"@,
        Some(PlayerState::BackIdle(_)) => "BackIdleState"@,
        Some(PlayerState::SideIdle(_)) => "SideIdleState"@,
        Some(PlayerState::Run(_)) => "RunState"@,
        Some(PlayerState::BackRun(_)) => "BackRunState"@,
        Some(PlayerState::SideRun(_)) => "SideRunState"@,
    }
}

/// The driver: holds the current state and the shared resource, routes
/// host callbacks to the active state, and applies decided transitions.
#[derive(Debug)]
pub struct PlayerStateMachine {
    current_state: Option<PlayerState>,
    resource: CharacterResource,
}

impl View for PlayerStateMachine {
    type V = MachineModel;

    closed spec fn view(&self) -> MachineModel {
        MachineModel { current_state: self.current_state, resource: self.resource@ }
    }
}

impl PlayerStateMachine {
    /// A machine with no state set yet and a fresh resource.
    pub fn new() -> (m: PlayerStateMachine)
        ensures
            m@.current_state is None,
            m@.resource == (ResourceModel {
                animation_player: None,
                animation_direction: DirectionType::Default,
                last_facing_direction: Vec2 { x: 0, y: 0 },
                speed: 50,
            }),
            m@.resource.wf(),
    {
        PlayerStateMachine { current_state: None, resource: CharacterResource::new() }
    }

    /// Replaces the current state and immediately runs the new state's
    /// entry callback with the live owner and resource.
    pub fn state(&mut self, state: PlayerState, owner: &mut CharacterBody)
        ensures
            (final(self)@, *final(owner)) == spec_transition(old(self)@, state, *old(owner)),
    {
        self.current_state = Some(state);
        state.init(owner, &mut self.resource);
    }

    /// The `ready` callback: sets the plain idle state as the initial
    /// state unless one is already set, then runs the current state's
    /// entry callback.
    pub fn ready(&mut self, owner: &mut CharacterBody)
        ensures
            (final(self)@, *final(owner)) == spec_after_ready(old(self)@, *old(owner)),
    {
        let current = match self.current_state {
            Some(s) => s,
            None => PlayerState::Idle(IdleState),
        };
        self.state(current, owner);
    }

    /// The per-frame callback: delegates to the active state and applies
    /// any decided transition. Does nothing before the first state is
    /// set.
    pub fn handle_process(&mut self, owner: &mut CharacterBody, input: Vec2)
        ensures
            (final(self)@, *final(owner)) == spec_after_process(old(self)@, *old(owner), input),
    {
        match self.current_state {
            None => {},
            Some(s) => {
                match s.process(input) {
                    None => {},
                    Some(new_state) => self.state(new_state, owner),
                }
            },
        }
    }

    /// The per-physics-frame callback: delegates to the active state and
    /// applies any decided transition. Does nothing before the first
    /// state is set.
    pub fn handle_physics_process(&mut self, owner: &mut CharacterBody, input: Vec2)
        requires
            input.spec_is_unit_input(),
            old(self)@.resource.wf(),
        ensures
            (final(self)@, *final(owner)) == spec_after_physics_process(
                old(self)@,
                *old(owner),
                input,
            ),
    {
        match self.current_state {
            None => {},
            Some(s) => {
                match s.physics_process(owner, &self.resource, input) {
                    None => {},
                    Some(new_state) => self.state(new_state, owner),
                }
            },
        }
    }

    /// The input-event callback: delegates to the active state, whose
    /// input handler never decides a transition, so nothing changes.
    pub fn handle_input(&mut self, owner: &mut CharacterBody)
        ensures
            *final(self) == *old(self),
            *final(owner) == *old(owner),
    {
        match self.current_state {
            None => {},
            Some(s) => {
                match s.input() {
                    None => {},
                    Some(new_state) => self.state(new_state, owner),
                }
            },
        }
    }

    /// The force-integration callback: delegates unconditionally to the
    /// active state's display-only handler and never transitions.
    pub fn handle_integrate_forces(&mut self, _owner: &CharacterBody)
        ensures
            *final(self) == *old(self),
    {
        match self.current_state {
            None => {},
            Some(s) => s.integrate_forces(),
        }
    }

    /// Replaces the shared resource.
    pub fn set_resource(&mut self, resource: CharacterResource)
        ensures
            final(self)@ == (MachineModel { resource: resource@, ..old(self)@ }),
    {
        self.resource = resource;
    }

    /// The shared resource.
    pub fn resource(&self) -> (r: &CharacterResource)
        ensures
            r@ == self@.resource,
    {
        &self.resource
    }

    /// The shared resource, mutably.
    pub fn resource_mut(&mut self) -> (r: &mut CharacterResource)
        ensures
            r@ == old(self)@.resource,
            final(self)@ == (MachineModel {
                current_state: old(self)@.current_state,
                resource: final(r)@,
            }),
    {
        &mut self.resource
    }

    /// The current state, if one is set.
    pub fn current_state(&self) -> (s: Option<PlayerState>)
        ensures
            s == self@.current_state,
    {
        self.current_state
    }

    /// The debug name of the current state.
    pub fn current_state_name(&self) -> (name: String)
        ensures
            name@ == spec_state_name(self@.current_state),
    {
        match self.current_state {
            None => "None".to_owned(),
            Some(PlayerState::Idle(_)) => "IdleState".to_owned(),
            Some(PlayerState::BackIdle(_)) => "BackIdleState".to_owned(),
            Some(PlayerState::SideIdle(_)) => "SideIdleState".to_owned(),
            Some(PlayerState::Run(_)) => "RunState".to_owned(),
            Some(PlayerState::BackRun(_)) => "BackRunState".to_owned(),
            Some(PlayerState::SideRun(_)) => "SideRunState".to_owned(),
        }
    }
}

} // verus!
