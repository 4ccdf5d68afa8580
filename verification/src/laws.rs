//! Laws of the state machine, proved once and for all inputs.

use vstd::prelude::*;

use crate::body::CharacterBody;
use crate::direction::DirectionType;
use crate::direction::HALF_UNIT;
use crate::direction::Vec2;
use crate::direction::spec_direction_of;
use crate::idle_state::BackIdleState;
use crate::idle_state::IdleState;
use crate::machine::MachineModel;
use crate::machine::spec_after_physics_process;
use crate::machine::spec_after_process;
use crate::machine::spec_after_ready;
use crate::resource::ResourceModel;
use crate::run_state::BackRunState;
use crate::run_state::RunState;
use crate::run_state::SideRunState;
use crate::run_state::spec_run_velocity;
use crate::state::PlayerState;
use crate::state::spec_animation_name;
use crate::state::spec_init_resource;
use crate::state::spec_init_velocity;
use crate::state::spec_is_idle_family;
use crate::state::spec_is_run_family;
use crate::state::spec_process_target;
use crate::state::spec_state_direction;

verus! {

/// The classifier's case rules: `y` beyond half a unit downward gives
/// `Default`, beyond half a unit upward gives `Back`, else `x` beyond
/// half a unit either way gives `Side`, and everything else — the zero
/// vector included — gives `Default`.
pub proof fn lemma_classifier_cases(v: Vec2)
    ensures
        v.y > HALF_UNIT ==> spec_direction_of(v) == DirectionType::Default,
        v.y < -HALF_UNIT ==> spec_direction_of(v) == DirectionType::Back,
        v.y <= HALF_UNIT && -HALF_UNIT <= v.y && (v.x > HALF_UNIT || v.x < -HALF_UNIT)
            ==> spec_direction_of(v) == DirectionType::Side,
        -HALF_UNIT <= v.x <= HALF_UNIT && -HALF_UNIT <= v.y <= HALF_UNIT
            ==> spec_direction_of(v) == DirectionType::Default,
        v.spec_is_zero() ==> spec_direction_of(v) == DirectionType::Default,
{
}

/// Entering any idle-family state stops the character: its entry
/// callback always leaves the owner's velocity at the zero vector.
pub proof fn lemma_idle_entry_stops(s: PlayerState, v: Vec2)
    requires
        spec_is_idle_family(s),
    ensures
        spec_init_velocity(s, v) == (Vec2 { x: 0, y: 0 }),
{
}

/// Entering any run-family state sets the animation direction to that
/// state's own category and requests exactly one playback, of the clip
/// named after that category; the rest of the resource is untouched.
pub proof fn lemma_run_entry_animates(s: PlayerState, r: ResourceModel)
    requires
        spec_is_run_family(s),
    ensures
        spec_init_resource(s, r).animation_direction == spec_state_direction(s),
        spec_init_resource(s, r).last_facing_direction == r.last_facing_direction,
        spec_init_resource(s, r).speed == r.speed,
        r.animation_player matches Some(log) ==> spec_init_resource(s, r).animation_player
            == Some(log.push(spec_animation_name(s, spec_state_direction(s)))),
        r.animation_player is None ==> spec_init_resource(s, r).animation_player is None,
{
}

/// Entering any idle-family state keeps the animation direction and
/// requests exactly one playback, of the clip named after the current
/// tag; the rest of the resource is untouched.
pub proof fn lemma_idle_entry_animates(s: PlayerState, r: ResourceModel)
    requires
        spec_is_idle_family(s),
    ensures
        spec_init_resource(s, r).animation_direction == r.animation_direction,
        spec_init_resource(s, r).last_facing_direction == r.last_facing_direction,
        spec_init_resource(s, r).speed == r.speed,
        r.animation_player matches Some(log) ==> spec_init_resource(s, r).animation_player
            == Some(log.push(spec_animation_name(s, r.animation_direction))),
        r.animation_player is None ==> spec_init_resource(s, r).animation_player is None,
{
}

/// The idle rows of the transition table agree: which idle variant is
/// active makes no difference to the per-frame decision — all three
/// route to the same run-family targets and never to a sibling idle
/// variant.
pub proof fn lemma_idle_rows_agree(s1: PlayerState, s2: PlayerState, input: Vec2)
    requires
        spec_is_idle_family(s1),
        spec_is_idle_family(s2),
    ensures
        spec_process_target(s1, input) == spec_process_target(s2, input),
        spec_process_target(s1, input) matches Some(t) ==> spec_is_run_family(t),
{
}

/// The transition row of the plain run state: zero input goes idle,
/// input of its own (default) category stays, input of another category
/// re-routes to that category's run state.
pub proof fn lemma_run_process_row(input: Vec2)
    ensures
        input.spec_is_zero() ==> spec_process_target(PlayerState::Run(RunState), input)
            == Some(PlayerState::Idle(IdleState)),
        !input.spec_is_zero() && spec_direction_of(input) == DirectionType::Back
            ==> spec_process_target(PlayerState::Run(RunState), input)
                == Some(PlayerState::BackRun(BackRunState)),
        !input.spec_is_zero() && spec_direction_of(input) == DirectionType::Side
            ==> spec_process_target(PlayerState::Run(RunState), input)
                == Some(PlayerState::SideRun(SideRunState)),
        !input.spec_is_zero() && spec_direction_of(input) == DirectionType::Default
            ==> spec_process_target(PlayerState::Run(RunState), input) is None,
{
}

/// A physics frame in the back run state with zero input stops the
/// character and transitions it to the back idle state.
pub proof fn lemma_back_run_physics_stops(m: MachineModel, body: CharacterBody, input: Vec2)
    requires
        m.current_state == Some(PlayerState::BackRun(BackRunState)),
        input.spec_is_zero(),
    ensures
        spec_after_physics_process(m, body, input).0.current_state
            == Some(PlayerState::BackIdle(BackIdleState)),
        spec_after_physics_process(m, body, input).1.velocity == (Vec2 { x: 0, y: 0 }),
{
}

/// A physics frame in any run-family state with nonzero input keeps the
/// state and sets the velocity to the input direction scaled by one and
/// a half times the base speed.
pub proof fn lemma_run_physics_moves(m: MachineModel, body: CharacterBody, input: Vec2)
    requires
        m.current_state matches Some(s) && spec_is_run_family(s),
        !input.spec_is_zero(),
    ensures
        spec_after_physics_process(m, body, input).0 == m,
        spec_after_physics_process(m, body, input).1.velocity
            == spec_run_velocity(input, m.resource.speed),
{
}

/// The state a per-frame decision leaves the machine in: the decided
/// target, or the state itself when it stays put.
pub open spec fn spec_process_state(s: PlayerState, input: Vec2) -> PlayerState {
    match spec_process_target(s, input) {
        None => s,
        Some(t) => t,
    }
}

/// The state after `n` per-frame decisions under an unchanged input.
pub open spec fn spec_iterate_process(s: PlayerState, input: Vec2, n: nat) -> PlayerState
    decreases n,
{
    if n == 0 {
        s
    } else {
        spec_process_state(spec_iterate_process(s, input, (n - 1) as nat), input)
    }
}

/// Idempotence of running forward: under an unchanged nonzero input of
/// the default category, the plain run state never transitions, however
/// many per-frame decisions are taken.
pub proof fn lemma_run_stays_run(input: Vec2, n: nat)
    requires
        !input.spec_is_zero(),
        spec_direction_of(input) == DirectionType::Default,
    ensures
        spec_iterate_process(PlayerState::Run(RunState), input, n) == PlayerState::Run(RunState),
    decreases n,
{
    if n > 0 {
        lemma_run_stays_run(input, (n - 1) as nat);
    }
}

/// The machine keeps the animation direction in step with the active
/// state: before the first state is set it reads `Default`, and
/// afterwards it reads the active state's own category.
pub open spec fn spec_direction_synced(m: MachineModel) -> bool {
    match m.current_state {
        Some(s) => m.resource.animation_direction == spec_state_direction(s),
        None => m.resource.animation_direction == DirectionType::Default,
    }
}

/// `ready` establishes the sync invariant.
pub proof fn lemma_ready_preserves_sync(m: MachineModel, body: CharacterBody)
    requires
        spec_direction_synced(m),
    ensures
        spec_direction_synced(spec_after_ready(m, body).0),
{
}

/// Every per-frame decision preserves the sync invariant.
pub proof fn lemma_process_preserves_sync(m: MachineModel, body: CharacterBody, input: Vec2)
    requires
        spec_direction_synced(m),
    ensures
        spec_direction_synced(spec_after_process(m, body, input).0),
{
}

/// Every per-physics-frame decision preserves the sync invariant.
pub proof fn lemma_physics_preserves_sync(m: MachineModel, body: CharacterBody, input: Vec2)
    requires
        spec_direction_synced(m),
    ensures
        spec_direction_synced(spec_after_physics_process(m, body, input).0),
{
}

} // verus!
