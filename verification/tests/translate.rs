use input_simulation::coords::Coordinate;
use input_simulation::event::{
    coarse_result, motion_from_pressed, EventType, Failure, Motion, NativeCall, PointerState,
    SimulateError,
};
use input_simulation::keys::{Backend, Button, Key};
use input_simulation::translate::{
    notches, requires_pointer, translate, Plan, WHEEL_DOWN, WHEEL_LEFT, WHEEL_RIGHT, WHEEL_UP,
};

fn calls_of(plan: &Plan) -> Vec<NativeCall> {
    let mut calls = Vec::new();
    let mut index: u128 = 0;
    while let Some(call) = plan.call(index) {
        calls.push(call);
        index += 1;
    }
    assert_eq!(index, plan.len());
    calls
}

fn translated(backend: Backend, event: EventType, pointer: PointerState) -> Vec<NativeCall> {
    match translate(backend, &event, pointer) {
        Ok(plan) => calls_of(&plan),
        Err(failure) => panic!("translation failed: {:?}", failure),
    }
}

fn at(x: f64, y: f64) -> EventType {
    EventType::MouseMove { x: Coordinate::from_bits(x.to_bits()), y: Coordinate::from_bits(y.to_bits()) }
}

fn button(code: u32, pressed: bool) -> NativeCall {
    NativeCall::Button { code, pressed }
}

#[test]
fn key_press_then_release_makes_two_matching_calls() {
    for backend in [Backend::X11, Backend::Quartz] {
        for key in [Key::KeyA, Key::Return, Key::ShiftLeft, Key::F5, Key::Unknown(77)] {
            let mut calls = translated(backend, EventType::KeyPress(key), PointerState::zero());
            calls.extend(translated(backend, EventType::KeyRelease(key), PointerState::zero()));
            assert_eq!(calls.len(), 2);
            match (calls[0], calls[1]) {
                (
                    NativeCall::Key { code: down, pressed: true },
                    NativeCall::Key { code: up, pressed: false },
                ) => assert_eq!(down, up),
                other => panic!("unexpected calls: {:?}", other),
            }
        }
    }
}

#[test]
fn key_press_carries_the_native_code() {
    assert_eq!(
        translated(Backend::X11, EventType::KeyPress(Key::KeyS), PointerState::zero()),
        vec![NativeCall::Key { code: 39, pressed: true }]
    );
    assert_eq!(
        translated(Backend::Quartz, EventType::KeyRelease(Key::KeyS), PointerState::zero()),
        vec![NativeCall::Key { code: 1, pressed: false }]
    );
}

#[test]
fn unsupported_key_fails_translation() {
    let pointer = PointerState::zero();
    assert_eq!(
        translate(Backend::X11, &EventType::KeyPress(Key::Function), pointer),
        Err(Failure::UnsupportedKey)
    );
    assert_eq!(
        translate(Backend::Quartz, &EventType::KeyRelease(Key::Insert), pointer),
        Err(Failure::UnsupportedKey)
    );
    assert_eq!(
        translate(Backend::Quartz, &EventType::KeyPress(Key::Unknown(70000)), pointer),
        Err(Failure::UnsupportedKey)
    );
}

#[test]
fn buttons_map_to_fixed_indices() {
    let pointer = PointerState::zero();
    assert_eq!(
        translated(Backend::X11, EventType::ButtonPress(Button::Left), pointer),
        vec![button(1, true)]
    );
    assert_eq!(
        translated(Backend::X11, EventType::ButtonRelease(Button::Middle), pointer),
        vec![button(2, false)]
    );
    assert_eq!(
        translated(Backend::X11, EventType::ButtonPress(Button::Right), pointer),
        vec![button(3, true)]
    );
    assert_eq!(
        translated(Backend::X11, EventType::ButtonPress(Button::Unknown(8)), pointer),
        vec![button(8, true)]
    );
}

#[test]
fn positioned_buttons_carry_the_pointer_position() {
    let pointer = PointerState { x: 640, y: -480, pressed: 0 };
    let at = |code: u32, pressed: bool| NativeCall::ButtonAt { code, pressed, x: 640, y: -480 };
    assert_eq!(
        translated(Backend::Quartz, EventType::ButtonPress(Button::Left), pointer),
        vec![at(0, true)]
    );
    assert_eq!(
        translated(Backend::Quartz, EventType::ButtonRelease(Button::Left), pointer),
        vec![at(0, false)]
    );
    assert_eq!(
        translated(Backend::Quartz, EventType::ButtonPress(Button::Right), pointer),
        vec![at(1, true)]
    );
    assert_eq!(
        translated(Backend::Quartz, EventType::ButtonRelease(Button::Right), pointer),
        vec![at(1, false)]
    );
    assert_eq!(
        translated(Backend::Quartz, EventType::ButtonPress(Button::Middle), pointer),
        vec![at(2, true)]
    );
    assert_eq!(
        translated(Backend::Quartz, EventType::ButtonRelease(Button::Middle), pointer),
        vec![at(2, false)]
    );
    assert_eq!(
        translated(Backend::Quartz, EventType::ButtonPress(Button::Unknown(11)), pointer),
        vec![at(11, true)]
    );
    assert_eq!(
        translated(
            Backend::Quartz,
            EventType::ButtonRelease(Button::Unknown(0xffff_ffff)),
            pointer
        ),
        vec![at(0xffff_ffff, false)]
    );
}

#[test]
fn unpositioned_buttons_ignore_the_pointer() {
    let pointer = PointerState { x: 640, y: -480, pressed: 3 };
    assert_eq!(
        translated(Backend::X11, EventType::ButtonPress(Button::Middle), pointer),
        vec![button(2, true)]
    );
}

#[test]
fn unsupported_button_fails_translation() {
    let pointer = PointerState::zero();
    assert_eq!(
        translate(Backend::X11, &EventType::ButtonPress(Button::Unknown(1 << 32)), pointer),
        Err(Failure::UnsupportedButton)
    );
    assert_eq!(
        translate(Backend::X11, &EventType::ButtonRelease(Button::Unknown(u64::MAX)), pointer),
        Err(Failure::UnsupportedButton)
    );
    assert_eq!(
        translate(Backend::Quartz, &EventType::ButtonPress(Button::Unknown(1 << 32)), pointer),
        Err(Failure::UnsupportedButton)
    );
    assert_eq!(
        translate(Backend::Quartz, &EventType::ButtonRelease(Button::Unknown(u64::MAX)), pointer),
        Err(Failure::UnsupportedButton)
    );
}

#[test]
fn pointer_move_sanitizes_not_a_number_and_rounds() {
    assert_eq!(
        translated(Backend::X11, at(f64::NAN, 5.7), PointerState::zero()),
        vec![NativeCall::AbsoluteMove { x: 0, y: 6, motion: Motion::Move }]
    );
}

#[test]
fn pointer_move_clamps_to_the_native_range() {
    assert_eq!(
        translated(Backend::X11, at(1e30, -1e30), PointerState::zero()),
        vec![NativeCall::AbsoluteMove { x: i32::MAX, y: i32::MIN, motion: Motion::Move }]
    );
}

#[test]
fn pointer_move_is_a_drag_while_a_button_is_held() {
    let held = |pressed: u64| PointerState { x: 7, y: 9, pressed };
    let motion_of = |backend: Backend, pressed: u64| {
        match translated(backend, at(10.0, 20.0), held(pressed))[0] {
            NativeCall::AbsoluteMove { x: 10, y: 20, motion } => motion,
            other => panic!("unexpected call: {:?}", other),
        }
    };
    assert_eq!(motion_of(Backend::Quartz, 0), Motion::Move);
    assert_eq!(motion_of(Backend::Quartz, 1), Motion::LeftDrag);
    assert_eq!(motion_of(Backend::Quartz, 2), Motion::RightDrag);
    assert_eq!(motion_of(Backend::Quartz, 3), Motion::LeftDrag);
    assert_eq!(motion_of(Backend::Quartz, 4), Motion::Move);
    assert_eq!(motion_of(Backend::Quartz, 6), Motion::RightDrag);
    assert_eq!(motion_of(Backend::X11, 0), Motion::Move);
    assert_eq!(motion_of(Backend::X11, 1), Motion::Move);
    assert_eq!(motion_of(Backend::X11, 3), Motion::Move);
}

#[test]
fn held_buttons_choose_the_motion() {
    assert_eq!(motion_from_pressed(0), Motion::Move);
    assert_eq!(motion_from_pressed(1), Motion::LeftDrag);
    assert_eq!(motion_from_pressed(2), Motion::RightDrag);
    assert_eq!(motion_from_pressed(u64::MAX), Motion::LeftDrag);
    assert_eq!(motion_from_pressed(u64::MAX - 1), Motion::RightDrag);
    assert_eq!(motion_from_pressed(u64::MAX - 3), Motion::Move);
}

#[test]
fn a_move_reads_the_pointer_where_dragging_is_known() {
    assert!(requires_pointer(Backend::Quartz, &at(1.0, 2.0)));
    assert!(!requires_pointer(Backend::X11, &at(1.0, 2.0)));
}

#[test]
fn a_button_reads_the_pointer_where_button_events_are_positioned() {
    for button in [Button::Left, Button::Middle, Button::Right, Button::Unknown(5)] {
        assert!(requires_pointer(Backend::Quartz, &EventType::ButtonPress(button)));
        assert!(requires_pointer(Backend::Quartz, &EventType::ButtonRelease(button)));
        assert!(!requires_pointer(Backend::X11, &EventType::ButtonPress(button)));
        assert!(!requires_pointer(Backend::X11, &EventType::ButtonRelease(button)));
    }
    let overflowing = Button::Unknown(1 << 32);
    assert!(!requires_pointer(Backend::Quartz, &EventType::ButtonPress(overflowing)));
    assert!(!requires_pointer(Backend::Quartz, &EventType::ButtonRelease(overflowing)));
}

#[test]
fn keys_and_the_wheel_never_read_the_pointer() {
    for backend in [Backend::X11, Backend::Quartz] {
        assert!(!requires_pointer(backend, &EventType::KeyPress(Key::KeyA)));
        assert!(!requires_pointer(backend, &EventType::KeyRelease(Key::KeyA)));
        assert!(!requires_pointer(backend, &EventType::Wheel { delta_x: 1, delta_y: 1 }));
    }
}

#[test]
fn wheel_decomposes_into_clicks_of_pseudo_buttons() {
    let calls = translated(
        Backend::X11,
        EventType::Wheel { delta_x: 3, delta_y: -2 },
        PointerState::zero(),
    );
    assert_eq!(
        calls,
        vec![
            button(7, true),
            button(7, false),
            button(7, true),
            button(7, false),
            button(7, true),
            button(7, false),
            button(5, true),
            button(5, false),
            button(5, true),
            button(5, false),
        ]
    );
}

#[test]
fn wheel_directions_have_distinct_pseudo_buttons() {
    assert_eq!((WHEEL_UP, WHEEL_DOWN, WHEEL_LEFT, WHEEL_RIGHT), (4, 5, 6, 7));
    let pointer = PointerState::zero();
    assert_eq!(
        translated(Backend::X11, EventType::Wheel { delta_x: 0, delta_y: 1 }, pointer),
        vec![button(4, true), button(4, false)]
    );
    assert_eq!(
        translated(Backend::X11, EventType::Wheel { delta_x: 0, delta_y: -1 }, pointer),
        vec![button(5, true), button(5, false)]
    );
    assert_eq!(
        translated(Backend::X11, EventType::Wheel { delta_x: -1, delta_y: 0 }, pointer),
        vec![button(6, true), button(6, false)]
    );
    assert_eq!(
        translated(Backend::X11, EventType::Wheel { delta_x: 1, delta_y: 0 }, pointer),
        vec![button(7, true), button(7, false)]
    );
}

#[test]
fn wheel_at_rest_makes_no_call() {
    let plan = translate(
        Backend::X11,
        &EventType::Wheel { delta_x: 0, delta_y: 0 },
        PointerState::zero(),
    )
    .unwrap();
    assert_eq!(plan.len(), 0);
    assert_eq!(plan.call(0), None);
}

#[test]
fn wheel_of_extreme_deltas_is_planned_without_writing_it_out() {
    let plan = translate(
        Backend::X11,
        &EventType::Wheel { delta_x: i64::MIN, delta_y: i64::MAX },
        PointerState::zero(),
    )
    .unwrap();
    let across: u128 = 2 * (1u128 << 63);
    let along: u128 = 2 * ((1u128 << 63) - 1);
    assert_eq!(plan.len(), across + along);
    assert_eq!(plan.call(0), Some(button(6, true)));
    assert_eq!(plan.call(across - 1), Some(button(6, false)));
    assert_eq!(plan.call(across), Some(button(4, true)));
    assert_eq!(plan.call(across + along - 1), Some(button(4, false)));
    assert_eq!(plan.call(across + along), None);
    assert_eq!(plan.call(u128::MAX), None);
}

#[test]
fn notches_are_the_magnitude_of_the_delta() {
    assert_eq!(notches(0), 0);
    assert_eq!(notches(3), 3);
    assert_eq!(notches(-2), 2);
    assert_eq!(notches(i64::MAX), 9223372036854775807);
    assert_eq!(notches(i64::MIN), 9223372036854775808);
}

#[test]
fn native_scroll_takes_both_axes_in_one_call() {
    assert_eq!(
        translated(
            Backend::Quartz,
            EventType::Wheel { delta_x: 3, delta_y: -2 },
            PointerState::zero()
        ),
        vec![NativeCall::Scroll { delta_x: 3, delta_y: -2 }]
    );
    assert_eq!(
        translated(
            Backend::Quartz,
            EventType::Wheel { delta_x: i64::from(i32::MIN), delta_y: i64::from(i32::MAX) },
            PointerState::zero()
        ),
        vec![NativeCall::Scroll { delta_x: i32::MIN, delta_y: i32::MAX }]
    );
}

#[test]
fn native_scroll_fails_when_an_axis_does_not_fit() {
    let pointer = PointerState::zero();
    for (delta_x, delta_y) in [
        (i64::from(i32::MAX) + 1, 0),
        (0, i64::from(i32::MAX) + 1),
        (i64::from(i32::MIN) - 1, 0),
        (0, i64::from(i32::MIN) - 1),
        (i64::MAX, i64::MIN),
    ] {
        assert_eq!(
            translate(Backend::Quartz, &EventType::Wheel { delta_x, delta_y }, pointer),
            Err(Failure::NativeCallFailed)
        );
    }
}

#[test]
fn single_plan_has_one_call() {
    let call = NativeCall::Key { code: 38, pressed: true };
    let plan = Plan::Single(call);
    assert_eq!(plan.len(), 1);
    assert_eq!(plan.call(0), Some(call));
    assert_eq!(plan.call(1), None);
}

#[test]
fn translating_twice_gives_the_same_call() {
    let once = translate(Backend::X11, &EventType::KeyPress(Key::KeyQ), PointerState::zero());
    let again = translate(
        Backend::X11,
        &EventType::KeyPress(Key::KeyQ),
        PointerState { x: 5, y: 5, pressed: 3 },
    );
    assert_eq!(once, again);
    assert_eq!(once, Ok(Plan::Single(NativeCall::Key { code: 24, pressed: true })));
}

#[test]
fn every_failure_collapses_to_the_one_error() {
    assert_eq!(coarse_result(Ok(())), Ok(()));
    for failure in [
        Failure::SessionUnavailable,
        Failure::UnsupportedKey,
        Failure::UnsupportedButton,
        Failure::NativeCallFailed,
    ] {
        assert_eq!(coarse_result(Err(failure)), Err(SimulateError));
    }
}
