use input_effects::mutable_xinput_state::ButtonState;
use input_effects::mutable_xinput_state::MutableXInputState;
use input_effects::mutation::Button;
use input_effects::mutation::Mutation;
use input_effects::mutation::Side;

#[test]
fn new_state_is_all_released() {
    let cs = MutableXInputState::new();
    assert_eq!(cs.buttons, 0);
    assert_eq!(cs.left_trigger, 0);
    assert_eq!(cs.right_trigger, 0);
    assert_eq!(cs.left_stick_raw(), (0, 0));
    assert_eq!(cs.right_stick_raw(), (0, 0));
    assert!(!cs.east_button());
    assert!(matches!(cs.north_button(), ButtonState::UP));
    assert!(matches!(cs.south_button(), ButtonState::UP));
}

#[test]
fn button_set_and_get_round_trip() {
    let mut cs = MutableXInputState::new();

    cs.set_north_button(ButtonState::DOWN);
    assert!(matches!(cs.north_button(), ButtonState::DOWN));
    cs.set_north_button(ButtonState::UP);
    assert!(matches!(cs.north_button(), ButtonState::UP));

    cs.set_south_button(ButtonState::DOWN);
    assert!(matches!(cs.south_button(), ButtonState::DOWN));

    cs.set_east_button(ButtonState::DOWN);
    assert!(cs.east_button());
    cs.set_east_button(ButtonState::UP);
    assert!(!cs.east_button());

    cs.set_west_button(ButtonState::DOWN);
    assert!(cs.west_button());

    cs.set_arrow_up(ButtonState::DOWN);
    assert!(cs.arrow_up());
    cs.set_arrow_down(ButtonState::DOWN);
    assert!(cs.arrow_down());
    cs.set_arrow_left(ButtonState::DOWN);
    assert!(cs.arrow_left());
    cs.set_arrow_right(ButtonState::DOWN);
    assert!(cs.arrow_right());

    cs.set_start_button(ButtonState::DOWN);
    assert!(cs.start_button());
    cs.set_select_button(ButtonState::DOWN);
    assert!(cs.select_button());
    cs.set_left_shoulder(ButtonState::DOWN);
    assert!(cs.left_shoulder());
    cs.set_right_shoulder(ButtonState::DOWN);
    assert!(cs.right_shoulder());
    cs.set_left_thumb_button(ButtonState::DOWN);
    assert!(cs.left_thumb_button());
    cs.set_right_thumb_button(ButtonState::DOWN);
    assert!(cs.right_thumb_button());
}

#[test]
fn setting_one_button_leaves_the_others_alone() {
    let mut cs = MutableXInputState::new();
    cs.set_east_button(ButtonState::DOWN);
    cs.set_arrow_up(ButtonState::DOWN);

    cs.set_west_button(ButtonState::DOWN);
    assert!(cs.east_button());
    assert!(cs.arrow_up());
    assert!(cs.west_button());

    cs.set_east_button(ButtonState::UP);
    assert!(!cs.east_button());
    assert!(cs.arrow_up());
    assert!(cs.west_button());
}

#[test]
fn trigger_bool_uses_the_default_threshold() {
    let mut cs = MutableXInputState::new();

    cs.set_left_trigger(MutableXInputState::TRIGGER_THRESHOLD - 1);
    assert!(!cs.left_trigger_bool());
    cs.set_left_trigger(MutableXInputState::TRIGGER_THRESHOLD);
    assert!(cs.left_trigger_bool());

    cs.set_right_trigger(MutableXInputState::TRIGGER_THRESHOLD - 1);
    assert!(!cs.right_trigger_bool());
    cs.set_right_trigger(u8::MAX);
    assert!(cs.right_trigger_bool());

    assert_eq!(cs.left_trigger(), 30);
    assert_eq!(cs.right_trigger(), 255);
}

#[test]
fn stick_set_and_get_round_trip() {
    let mut cs = MutableXInputState::new();
    cs.set_left_stick_raw((-32768, 32767));
    cs.set_right_stick_raw((100, -200));
    assert_eq!(cs.left_stick_raw(), (-32768, 32767));
    assert_eq!(cs.right_stick_raw(), (100, -200));
}

#[test]
fn equality_compares_only_the_packet_number() {
    let mut a = MutableXInputState::new();
    let mut b = MutableXInputState::new();
    b.set_east_button(ButtonState::DOWN);
    b.set_left_trigger(200);
    assert!(a == b);

    a.packet_number = 7;
    assert!(a != b);
    b.packet_number = 7;
    assert!(a == b);
}

#[test]
fn mutation_set_button_presses_and_releases() {
    let mut cs = MutableXInputState::new();
    Mutation::SetButton { button: Button::South, state: ButtonState::DOWN }.apply(&mut cs);
    assert!(matches!(cs.south_button(), ButtonState::DOWN));
    Mutation::SetButton { button: Button::South, state: ButtonState::UP }.apply(&mut cs);
    assert!(matches!(cs.south_button(), ButtonState::UP));
}

#[test]
fn mutation_set_trigger_sets_one_side() {
    let mut cs = MutableXInputState::new();
    Mutation::SetTrigger { side: Side::Right, value: 255 }.apply(&mut cs);
    assert_eq!(cs.right_trigger(), 255);
    assert_eq!(cs.left_trigger(), 0);
    Mutation::SetTrigger { side: Side::Left, value: 42 }.apply(&mut cs);
    assert_eq!(cs.left_trigger(), 42);
    assert_eq!(cs.right_trigger(), 255);
}

#[test]
fn mutation_set_stick_axis_sets_one_side() {
    let mut cs = MutableXInputState::new();
    Mutation::SetStickAxis { side: Side::Left, x: 5, y: -6 }.apply(&mut cs);
    assert_eq!(cs.left_stick_raw(), (5, -6));
    assert_eq!(cs.right_stick_raw(), (0, 0));
}

#[test]
fn mutation_swap_sticks_exchanges_both_pairs() {
    let mut cs = MutableXInputState::new();
    cs.set_left_stick_raw((1, 2));
    cs.set_right_stick_raw((3, 4));
    Mutation::SwapSticks.apply(&mut cs);
    assert_eq!(cs.left_stick_raw(), (3, 4));
    assert_eq!(cs.right_stick_raw(), (1, 2));
}
