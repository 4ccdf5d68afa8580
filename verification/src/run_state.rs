//! The run-family states: the character moves.
//!
//! Every run variant sets the animation direction to its own category on
//! entry and plays its running clip. Per frame it may re-route to
//! another run variant or, on zero input, to its matching idle variant.
//! Per physics frame it stops (and goes idle) on zero input, and
//! otherwise sets the owner's velocity to the input direction scaled by
//! one and a half times the base speed.

use vstd::prelude::*;

use crate::body::CharacterBody;
use crate::direction::DirectionType;
use crate::direction::UNIT;
use crate::direction::Vec2;
use crate::direction::determine_direction_type;
use crate::direction::spec_direction_of;
use crate::idle_state::BackIdleState;
use crate::idle_state::IdleState;
use crate::idle_state::SideIdleState;
use crate::resource::CharacterResource;
use crate::resource::MAX_SPEED;
use crate::state::PlayerState;
use crate::state::spec_animation_name;
use crate::state::spec_idle_state_for;
use crate::state::spec_init_resource;
use crate::state::spec_physics_target;
use crate::state::spec_physics_velocity;
use crate::state::spec_process_target;
use crate::state::spec_run_state_for;

verus! {

/// The forward-facing run state.
#[derive(Clone, Copy, PartialEq, Eq, Structural, Debug)]
pub struct RunState;

/// The backward-facing run state.
#[derive(Clone, Copy, PartialEq, Eq, Structural, Debug)]
pub struct BackRunState;

/// The side-facing run state.
#[derive(Clone, Copy, PartialEq, Eq, Structural, Debug)]
pub struct SideRunState;

/// Half of `n`, rounded toward zero.
pub open spec fn spec_half_toward_zero(n: int) -> int {
    if n >= 0 {
        n / 2
    } else {
        -((-n) / 2)
    }
}

/// One velocity component while running: the input component times one
/// and a half times the base speed, rounded toward zero.
pub open spec fn spec_run_component(c: int, speed: int) -> int {
    spec_half_toward_zero(c * speed * 3)
}

/// The running velocity: the input direction scaled by one and a half
/// times the base speed.
pub open spec fn spec_run_velocity(direction: Vec2, speed: int) -> Vec2 {
    Vec2 {
        x: spec_run_component(direction.x as int, speed) as i32,
        y: spec_run_component(direction.y as int, speed) as i32,
    }
}

/// With a unit input component and a speed within range, the running
/// component stays within fixed-point range, so `spec_run_velocity`
/// truncates nothing.
pub proof fn lemma_run_component_fits(c: int, speed: int)
    requires
        -UNIT as int <= c <= UNIT as int,
        0 <= speed <= MAX_SPEED as int,
    ensures
        i32::MIN <= spec_run_component(c, speed) <= i32::MAX,
{
    assert(-3000000000 <= c * speed * 3 <= 3000000000) by (nonlinear_arith)
        requires
            -1000 <= c <= 1000,
            0 <= speed <= 1000000,
    ;
}

/// One velocity component while running.
fn run_component(c: i32, speed: i32) -> (r: i32)
    requires
        -UNIT <= c <= UNIT,
        0 <= speed <= MAX_SPEED,
    ensures
        r as int == spec_run_component(c as int, speed as int),
{
    proof {
        assert(-3000000000 <= (c as int) * (speed as int) * 3 <= 3000000000) by (nonlinear_arith)
            requires
                -1000 <= c as int <= 1000,
                0 <= speed as int <= 1000000,
        ;
    }
    let n: i64 = (c as i64) * (speed as i64) * 3;
    if n >= 0 {
        ((n as u64) / 2) as i32
    } else {
        -((((-n) as u64) / 2) as i32)
    }
}

/// The running velocity, in fixed-point coordinates.
fn run_velocity(direction: Vec2, speed: i32) -> (v: Vec2)
    requires
        direction.spec_is_unit_input(),
        0 <= speed <= MAX_SPEED,
    ensures
        v == spec_run_velocity(direction, speed as int),
{
    proof {
        lemma_run_component_fits(direction.x as int, speed as int);
        lemma_run_component_fits(direction.y as int, speed as int);
    }
    Vec2 {
        x: run_component(direction.x, speed),
        y: run_component(direction.y, speed),
    }
}

/// The per-frame decision every run variant shares, given its own
/// direction category: go idle (direction-matched) on zero input, stay
/// on input of the own category, re-route otherwise.
fn run_process(own: DirectionType, input: Vec2) -> (t: Option<PlayerState>)
    ensures
        t == if input.spec_is_zero() {
            Some(spec_idle_state_for(own))
        } else if spec_direction_of(input) == own {
            None::<PlayerState>
        } else {
            Some(spec_run_state_for(spec_direction_of(input)))
        },
{
    if input.is_zero() {
        return Some(match own {
            DirectionType::Default => PlayerState::Idle(IdleState),
            DirectionType::Back => PlayerState::BackIdle(BackIdleState),
            DirectionType::Side => PlayerState::SideIdle(SideIdleState),
        });
    }
    let direction_type = determine_direction_type(input);
    if direction_type == own {
        None
    } else {
        Some(match direction_type {
            DirectionType::Default => PlayerState::Run(RunState),
            DirectionType::Back => PlayerState::BackRun(BackRunState),
            DirectionType::Side => PlayerState::SideRun(SideRunState),
        })
    }
}

/// The per-physics-frame behavior every run variant shares, given its
/// own direction category: stop and go idle on zero input, otherwise
/// run along the input at one and a half times the base speed.
fn run_physics_process(
    own: DirectionType,
    owner: &mut CharacterBody,
    resource: &CharacterResource,
    input: Vec2,
) -> (t: Option<PlayerState>)
    requires
        input.spec_is_unit_input(),
        resource@.wf(),
    ensures
        *final(owner) == (CharacterBody {
            velocity: if input.spec_is_zero() {
                Vec2 { x: 0, y: 0 }
            } else {
                spec_run_velocity(input, resource@.speed)
            },
        }),
        t == if input.spec_is_zero() {
            Some(spec_idle_state_for(own))
        } else {
            None::<PlayerState>
        },
{
    if input.is_zero() {
        owner.set_velocity(Vec2::zero());
        return Some(match own {
            DirectionType::Default => PlayerState::Idle(IdleState),
            DirectionType::Back => PlayerState::BackIdle(BackIdleState),
            DirectionType::Side => PlayerState::SideIdle(SideIdleState),
        });
    }
    let velocity = run_velocity(input, resource.get_speed());
    owner.set_velocity(velocity);
    None
}

impl RunState {
    /// The clip for a direction tag: bare `"running"` for the default
    /// tag, `<tag>_running` otherwise.
    pub fn get_animation_name(&self, animation_direction: DirectionType) -> (name: String)
        ensures
            name@ == spec_animation_name(PlayerState::Run(RunState), animation_direction),
    {
        match animation_direction {
            DirectionType::Default => "running".to_owned(),
            DirectionType::Back => "back_running".to_owned(),
            DirectionType::Side => "side_running".to_owned(),
        }
    }

    /// The direction-category accessor of the state contract; the run
    /// state faces the default category.
    pub fn get_direction_type(&self) -> (d: DirectionType)
        ensures
            d == DirectionType::Default,
    {
        DirectionType::Default
    }

    /// Entry: face the default category and play the running clip.
    pub fn init(&self, resource: &mut CharacterResource)
        ensures
            final(resource)@ == spec_init_resource(PlayerState::Run(RunState), old(resource)@),
    {
        resource.set_animation_direction(DirectionType::Default);
        let animation_name = self.get_animation_name(DirectionType::Default);
        resource.play_animation(animation_name.as_str());
    }

    /// Per-frame decision for this state.
    pub fn process(&self, input: Vec2) -> (t: Option<PlayerState>)
        ensures
            t == spec_process_target(PlayerState::Run(RunState), input),
    {
        run_process(DirectionType::Default, input)
    }

    /// Per-physics-frame behavior for this state.
    pub fn physics_process(
        &self,
        owner: &mut CharacterBody,
        resource: &CharacterResource,
        input: Vec2,
    ) -> (t: Option<PlayerState>)
        requires
            input.spec_is_unit_input(),
            resource@.wf(),
        ensures
            *final(owner) == (CharacterBody {
                velocity: spec_physics_velocity(
                    PlayerState::Run(RunState),
                    input,
                    resource@.speed,
                    old(owner).velocity,
                ),
            }),
            t == spec_physics_target(PlayerState::Run(RunState), input),
    {
        run_physics_process(DirectionType::Default, owner, resource, input)
    }
}

impl BackRunState {
    /// The clip for a direction tag: always `"back_running"`.
    pub fn get_animation_name(&self, _animation_direction: DirectionType) -> (name: String)
        ensures
            name@ == spec_animation_name(PlayerState::BackRun(BackRunState), _animation_direction),
    {
        "back_running".to_owned()
    }

    /// Entry: face the back category and play the back running clip.
    pub fn init(&self, resource: &mut CharacterResource)
        ensures
            final(resource)@ == spec_init_resource(
                PlayerState::BackRun(BackRunState),
                old(resource)@,
            ),
    {
        resource.set_animation_direction(DirectionType::Back);
        let animation_name = self.get_animation_name(DirectionType::Back);
        resource.play_animation(animation_name.as_str());
    }

    /// Per-frame decision for this state.
    pub fn process(&self, input: Vec2) -> (t: Option<PlayerState>)
        ensures
            t == spec_process_target(PlayerState::BackRun(BackRunState), input),
    {
        run_process(DirectionType::Back, input)
    }

    /// Per-physics-frame behavior for this state.
    pub fn physics_process(
        &self,
        owner: &mut CharacterBody,
        resource: &CharacterResource,
        input: Vec2,
    ) -> (t: Option<PlayerState>)
        requires
            input.spec_is_unit_input(),
            resource@.wf(),
        ensures
            *final(owner) == (CharacterBody {
                velocity: spec_physics_velocity(
                    PlayerState::BackRun(BackRunState),
                    input,
                    resource@.speed,
                    old(owner).velocity,
                ),
            }),
            t == spec_physics_target(PlayerState::BackRun(BackRunState), input),
    {
        run_physics_process(DirectionType::Back, owner, resource, input)
    }
}

impl SideRunState {
    /// The clip for a direction tag: always `"side_running"`.
    pub fn get_animation_name(&self, _animation_direction: DirectionType) -> (name: String)
        ensures
            name@ == spec_animation_name(PlayerState::SideRun(SideRunState), _animation_direction),
    {
        "side_running".to_owned()
    }

    /// Entry: face the side category and play the side running clip.
    pub fn init(&self, resource: &mut CharacterResource)
        ensures
            final(resource)@ == spec_init_resource(
                PlayerState::SideRun(SideRunState),
                old(resource)@,
            ),
    {
        resource.set_animation_direction(DirectionType::Side);
        let animation_name = self.get_animation_name(DirectionType::Side);
        resource.play_animation(animation_name.as_str());
    }

    /// Per-frame decision for this state.
    pub fn process(&self, input: Vec2) -> (t: Option<PlayerState>)
        ensures
            t == spec_process_target(PlayerState::SideRun(SideRunState), input),
    {
        run_process(DirectionType::Side, input)
    }

    /// Per-physics-frame behavior for this state.
    pub fn physics_process(
        &self,
        owner: &mut CharacterBody,
        resource: &CharacterResource,
        input: Vec2,
    ) -> (t: Option<PlayerState>)
        requires
            input.spec_is_unit_input(),
            resource@.wf(),
        ensures
            *final(owner) == (CharacterBody {
                velocity: spec_physics_velocity(
                    PlayerState::SideRun(SideRunState),
                    input,
                    resource@.speed,
                    old(owner).velocity,
                ),
            }),
            t == spec_physics_target(PlayerState::SideRun(SideRunState), input),
    {
        run_physics_process(DirectionType::Side, owner, resource, input)
    }
}

} // verus!
