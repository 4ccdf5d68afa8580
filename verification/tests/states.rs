use character_fsm::body::CharacterBody;
use character_fsm::direction::DirectionType;
use character_fsm::direction::Vec2;
use character_fsm::idle_state::BackIdleState;
use character_fsm::idle_state::IdleState;
use character_fsm::idle_state::SideIdleState;
use character_fsm::resource::AnimationPlayer;
use character_fsm::resource::CharacterResource;
use character_fsm::run_state::BackRunState;
use character_fsm::run_state::RunState;
use character_fsm::run_state::SideRunState;
use character_fsm::state::PlayerState;

fn resource_with_player() -> CharacterResource {
    let mut resource = CharacterResource::new();
    resource.set_animation_player(AnimationPlayer::new());
    resource
}

fn played(resource: &CharacterResource) -> Vec<String> {
    resource.get_animation_player().expect("player bound").played().clone()
}

#[test]
fn idle_init_zeroes_velocity_and_plays_idle() {
    let mut owner = CharacterBody::new();
    owner.set_velocity(Vec2::new(300, -200));
    let mut resource = resource_with_player();
    IdleState.init(&mut owner, &mut resource);
    assert_eq!(owner.get_velocity(), Vec2::zero());
    assert_eq!(played(&resource), vec!["idle".to_string()]);
}

#[test]
fn back_idle_init_zeroes_velocity_and_plays_back_idle() {
    let mut owner = CharacterBody::new();
    owner.set_velocity(Vec2::new(5, 5));
    let mut resource = resource_with_player();
    resource.set_animation_direction(DirectionType::Back);
    BackIdleState.init(&mut owner, &mut resource);
    assert_eq!(owner.get_velocity(), Vec2::zero());
    assert_eq!(played(&resource), vec!["back_idle".to_string()]);
}

#[test]
fn side_idle_init_zeroes_velocity_and_plays_side_idle() {
    let mut owner = CharacterBody::new();
    owner.set_velocity(Vec2::new(-75000, 0));
    let mut resource = resource_with_player();
    resource.set_animation_direction(DirectionType::Side);
    SideIdleState.init(&mut owner, &mut resource);
    assert_eq!(owner.get_velocity(), Vec2::zero());
    assert_eq!(played(&resource), vec!["side_idle".to_string()]);
}

#[test]
fn idle_init_plays_tagged_clip() {
    // The plain idle state names its clip after the current tag.
    let mut owner = CharacterBody::new();
    let mut resource = resource_with_player();
    resource.set_animation_direction(DirectionType::Back);
    IdleState.init(&mut owner, &mut resource);
    assert_eq!(played(&resource), vec!["back_idle".to_string()]);
}

#[test]
fn run_init_sets_direction_and_plays_once() {
    let mut resource = resource_with_player();
    resource.set_animation_direction(DirectionType::Side);
    RunState.init(&mut resource);
    assert_eq!(resource.get_animation_direction(), DirectionType::Default);
    assert_eq!(played(&resource), vec!["running".to_string()]);
}

#[test]
fn back_run_init_sets_direction_and_plays_once() {
    let mut resource = resource_with_player();
    BackRunState.init(&mut resource);
    assert_eq!(resource.get_animation_direction(), DirectionType::Back);
    assert_eq!(played(&resource), vec!["back_running".to_string()]);
}

#[test]
fn side_run_init_sets_direction_and_plays_once() {
    let mut resource = resource_with_player();
    SideRunState.init(&mut resource);
    assert_eq!(resource.get_animation_direction(), DirectionType::Side);
    assert_eq!(played(&resource), vec!["side_running".to_string()]);
}

#[test]
fn init_without_player_plays_nothing() {
    let mut resource = CharacterResource::new();
    RunState.init(&mut resource);
    assert_eq!(resource.get_animation_direction(), DirectionType::Default);
    assert!(resource.get_animation_player().is_none());
}

#[test]
fn run_process_row() {
    assert_eq!(RunState.process(Vec2::zero()), Some(PlayerState::Idle(IdleState)));
    assert_eq!(
        RunState.process(Vec2::new(0, -800)),
        Some(PlayerState::BackRun(BackRunState))
    );
    assert_eq!(
        RunState.process(Vec2::new(800, 0)),
        Some(PlayerState::SideRun(SideRunState))
    );
    assert_eq!(RunState.process(Vec2::new(0, 800)), None);
}

#[test]
fn back_run_process_row() {
    assert_eq!(BackRunState.process(Vec2::zero()), Some(PlayerState::BackIdle(BackIdleState)));
    assert_eq!(BackRunState.process(Vec2::new(0, -800)), None);
    assert_eq!(
        BackRunState.process(Vec2::new(800, 0)),
        Some(PlayerState::SideRun(SideRunState))
    );
    assert_eq!(
        BackRunState.process(Vec2::new(0, 800)),
        Some(PlayerState::Run(RunState))
    );
}

#[test]
fn side_run_process_row() {
    assert_eq!(SideRunState.process(Vec2::zero()), Some(PlayerState::SideIdle(SideIdleState)));
    assert_eq!(
        SideRunState.process(Vec2::new(0, -800)),
        Some(PlayerState::BackRun(BackRunState))
    );
    assert_eq!(SideRunState.process(Vec2::new(800, 0)), None);
    assert_eq!(
        SideRunState.process(Vec2::new(0, 800)),
        Some(PlayerState::Run(RunState))
    );
}

#[test]
fn idle_process_rows_ignore_idle_variant() {
    let inputs = [Vec2::new(0, 800), Vec2::new(0, -800), Vec2::new(800, 0)];
    let targets = [
        PlayerState::Run(RunState),
        PlayerState::BackRun(BackRunState),
        PlayerState::SideRun(SideRunState),
    ];
    for (input, target) in inputs.iter().zip(targets.iter()) {
        assert_eq!(IdleState.process(*input), Some(*target));
        assert_eq!(BackIdleState.process(*input), Some(*target));
        assert_eq!(SideIdleState.process(*input), Some(*target));
    }
    assert_eq!(IdleState.process(Vec2::zero()), None);
    assert_eq!(BackIdleState.process(Vec2::zero()), None);
    assert_eq!(SideIdleState.process(Vec2::zero()), None);
}

#[test]
fn run_process_is_idempotent_on_default_input() {
    // Unchanged forward input never leaves the plain run state.
    let input = Vec2::new(0, 800);
    let mut state = PlayerState::Run(RunState);
    for _ in 0..100 {
        let transition = state.process(input);
        assert_eq!(transition, None);
        if let Some(next) = transition {
            state = next;
        }
        assert_eq!(state, PlayerState::Run(RunState));
    }
}

#[test]
fn back_run_physics_zero_input_stops_and_goes_idle() {
    let mut owner = CharacterBody::new();
    owner.set_velocity(Vec2::new(-75000, 0));
    let resource = CharacterResource::new();
    let transition = BackRunState.physics_process(&mut owner, &resource, Vec2::zero());
    assert_eq!(owner.get_velocity(), Vec2::zero());
    assert_eq!(transition, Some(PlayerState::BackIdle(BackIdleState)));
}

#[test]
fn run_family_physics_nonzero_input_moves() {
    // velocity = direction x (speed x 1.5), here with the default speed 50.
    let mut owner = CharacterBody::new();
    let resource = CharacterResource::new();
    let input = Vec2::new(0, -1000);
    let transition = BackRunState.physics_process(&mut owner, &resource, input);
    assert_eq!(transition, None);
    assert_eq!(owner.get_velocity(), Vec2::new(0, -75000));

    let input = Vec2::new(-700, 700);
    let transition = RunState.physics_process(&mut owner, &resource, input);
    assert_eq!(transition, None);
    // 700 x 50 x 3 / 2 = 52500 fixed-point units per component.
    assert_eq!(owner.get_velocity(), Vec2::new(-52500, 52500));
}

#[test]
fn side_run_physics_scenario_speed_50() {
    // Full-right input at base speed 50 runs at 75 units: (1, 0) x 75.
    let mut owner = CharacterBody::new();
    let mut resource = CharacterResource::new();
    resource.set_speed(50);
    let transition = SideRunState.physics_process(&mut owner, &resource, Vec2::new(1000, 0));
    assert_eq!(transition, None);
    assert_eq!(owner.get_velocity(), Vec2::new(75000, 0));
}

#[test]
fn run_velocity_rounds_toward_zero() {
    // An odd product is halved toward zero in both signs.
    let mut owner = CharacterBody::new();
    let mut resource = CharacterResource::new();
    resource.set_speed(1);
    let transition = SideRunState.physics_process(&mut owner, &resource, Vec2::new(333, -333));
    assert_eq!(transition, None);
    // 333 x 1 x 3 = 999; half toward zero is 499 either way.
    assert_eq!(owner.get_velocity(), Vec2::new(499, -499));
}

#[test]
fn get_animation_name_per_state() {
    assert_eq!(IdleState.get_animation_name(DirectionType::Default), "idle");
    assert_eq!(IdleState.get_animation_name(DirectionType::Back), "back_idle");
    assert_eq!(IdleState.get_animation_name(DirectionType::Side), "side_idle");
    assert_eq!(BackIdleState.get_animation_name(DirectionType::Default), "back_idle");
    assert_eq!(SideIdleState.get_animation_name(DirectionType::Default), "side_idle");
    assert_eq!(RunState.get_animation_name(DirectionType::Default), "running");
    assert_eq!(RunState.get_animation_name(DirectionType::Back), "back_running");
    assert_eq!(RunState.get_animation_name(DirectionType::Side), "side_running");
    assert_eq!(BackRunState.get_animation_name(DirectionType::Side), "back_running");
    assert_eq!(SideRunState.get_animation_name(DirectionType::Back), "side_running");
}

#[test]
fn run_state_direction_type_accessor() {
    assert_eq!(RunState.get_direction_type(), DirectionType::Default);
}
