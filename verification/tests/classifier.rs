use character_fsm::direction::DirectionType;
use character_fsm::direction::Vec2;
use character_fsm::direction::determine_direction_type;

#[test]
fn classifier_forward_input_is_default() {
    assert_eq!(determine_direction_type(Vec2::new(0, 800)), DirectionType::Default);
    assert_eq!(determine_direction_type(Vec2::new(700, 700)), DirectionType::Default);
    assert_eq!(determine_direction_type(Vec2::new(-700, 700)), DirectionType::Default);
    assert_eq!(determine_direction_type(Vec2::new(0, 1000)), DirectionType::Default);
}

#[test]
fn classifier_upward_input_is_back() {
    assert_eq!(determine_direction_type(Vec2::new(0, -800)), DirectionType::Back);
    assert_eq!(determine_direction_type(Vec2::new(700, -700)), DirectionType::Back);
    assert_eq!(determine_direction_type(Vec2::new(-700, -700)), DirectionType::Back);
    assert_eq!(determine_direction_type(Vec2::new(0, -1000)), DirectionType::Back);
}

#[test]
fn classifier_horizontal_input_is_side() {
    assert_eq!(determine_direction_type(Vec2::new(1000, 0)), DirectionType::Side);
    assert_eq!(determine_direction_type(Vec2::new(-1000, 0)), DirectionType::Side);
    assert_eq!(determine_direction_type(Vec2::new(900, 400)), DirectionType::Side);
    assert_eq!(determine_direction_type(Vec2::new(-900, -400)), DirectionType::Side);
}

#[test]
fn classifier_zero_vector_is_default() {
    assert_eq!(determine_direction_type(Vec2::zero()), DirectionType::Default);
}

#[test]
fn classifier_half_unit_boundaries() {
    // Exactly half a unit matches no threshold: everything falls to Default.
    assert_eq!(determine_direction_type(Vec2::new(0, 500)), DirectionType::Default);
    assert_eq!(determine_direction_type(Vec2::new(0, -500)), DirectionType::Default);
    assert_eq!(determine_direction_type(Vec2::new(500, 0)), DirectionType::Default);
    assert_eq!(determine_direction_type(Vec2::new(-500, 0)), DirectionType::Default);
    // One past the threshold tips the case.
    assert_eq!(determine_direction_type(Vec2::new(0, 501)), DirectionType::Default);
    assert_eq!(determine_direction_type(Vec2::new(0, -501)), DirectionType::Back);
    assert_eq!(determine_direction_type(Vec2::new(501, 0)), DirectionType::Side);
    assert_eq!(determine_direction_type(Vec2::new(-501, 0)), DirectionType::Side);
}

#[test]
fn classifier_downward_wins_over_side() {
    // The rules match in order: a strong y component wins over x.
    assert_eq!(determine_direction_type(Vec2::new(800, 800)), DirectionType::Default);
    assert_eq!(determine_direction_type(Vec2::new(800, -800)), DirectionType::Back);
}
