use vstd::prelude::*;
use crate::event::{motion_for, motion_from_pressed, EventType, Failure, Motion, NativeCall, PointerState};
use crate::keycodes::{button_code, code_from_button, code_from_key, key_code};
use crate::keys::Backend;

verus! {

/// The pseudo-button that one notch of the wheel upwards presses.
pub const WHEEL_UP: u32 = 4;

/// The pseudo-button that one notch of the wheel downwards presses.
pub const WHEEL_DOWN: u32 = 5;

/// The pseudo-button that one notch of the wheel to the left presses.
pub const WHEEL_LEFT: u32 = 6;

/// The pseudo-button that one notch of the wheel to the right presses.
pub const WHEEL_RIGHT: u32 = 7;

/// The number of notches in a wheel delta.
pub open spec fn magnitude(delta: i64) -> nat {
    if delta >= 0 {
        delta as nat
    } else {
        (-delta) as nat
    }
}

/// The pseudo-button for a horizontal wheel delta.
pub open spec fn horizontal_button(delta_x: i64) -> u32 {
    if delta_x > 0 {
        WHEEL_RIGHT
    } else {
        WHEEL_LEFT
    }
}

/// The pseudo-button for a vertical wheel delta.
pub open spec fn vertical_button(delta_y: i64) -> u32 {
    if delta_y > 0 {
        WHEEL_UP
    } else {
        WHEEL_DOWN
    }
}

/// Whether a wheel delta fits the width of a native scroll call.
pub open spec fn fits_native(delta: i64) -> bool {
    i32::MIN <= delta <= i32::MAX
}

/// `count` clicks of one button: a press and a release for each.
pub open spec fn clicks(code: u32, count: nat) -> Seq<NativeCall> {
    Seq::new(2 * count, |i: int| NativeCall::Button { code, pressed: i % 2 == 0 })
}

/// Whether the pointer has to be read before `event` can be translated: for a
/// move, where the backend tells a drag apart by the held buttons; for a
/// button that the backend has a code for, where its button events carry
/// the position at which they happen.
pub open spec fn needs_pointer(backend: Backend, event: EventType) -> bool {
    match event {
        EventType::MouseMove { .. } => backend.distinguishes_drag(),
        EventType::ButtonPress(button) | EventType::ButtonRelease(button) => {
            backend.positions_buttons() && button_code(backend, button) is Some
        },
        _ => false,
    }
}

/// The call that presses or releases the button with the native code `code`.
/// Where the backend's button events carry a position, it is the pointer's, so
/// that the event does not move the pointer.
pub open spec fn button_call(backend: Backend, code: u32, pressed: bool, pointer: PointerState) -> NativeCall {
    if backend.positions_buttons() {
        NativeCall::ButtonAt { code, pressed, x: pointer.x, y: pointer.y }
    } else {
        NativeCall::Button { code, pressed }
    }
}

/// The native calls that stand for `event` on `backend`, in the order in which
/// they are made, or the reason why there are none. `pointer` is read only
/// where `needs_pointer` holds.
pub open spec fn translation(backend: Backend, event: EventType, pointer: PointerState) -> Result<
    Seq<NativeCall>,
    Failure,
> {
    match event {
        EventType::KeyPress(key) => match key_code(backend, key) {
            Some(code) => Ok(seq![NativeCall::Key { code, pressed: true }]),
            None => Err(Failure::UnsupportedKey),
        },
        EventType::KeyRelease(key) => match key_code(backend, key) {
            Some(code) => Ok(seq![NativeCall::Key { code, pressed: false }]),
            None => Err(Failure::UnsupportedKey),
        },
        EventType::ButtonPress(button) => match button_code(backend, button) {
            Some(code) => Ok(seq![button_call(backend, code, true, pointer)]),
            None => Err(Failure::UnsupportedButton),
        },
        EventType::ButtonRelease(button) => match button_code(backend, button) {
            Some(code) => Ok(seq![button_call(backend, code, false, pointer)]),
            None => Err(Failure::UnsupportedButton),
        },
        EventType::MouseMove { x, y } => Ok(
            seq![
                NativeCall::AbsoluteMove {
                    x: x.native() as i32,
                    y: y.native() as i32,
                    motion: if backend.distinguishes_drag() {
                        motion_for(pointer.pressed)
                    } else {
                        Motion::Move
                    },
                },
            ],
        ),
        EventType::Wheel { delta_x, delta_y } => if backend.native_scroll() {
            if fits_native(delta_x) && fits_native(delta_y) {
                Ok(seq![NativeCall::Scroll { delta_x: delta_x as i32, delta_y: delta_y as i32 }])
            } else {
                Err(Failure::NativeCallFailed)
            }
        } else {
            Ok(
                clicks(horizontal_button(delta_x), magnitude(delta_x)) + clicks(
                    vertical_button(delta_y),
                    magnitude(delta_y),
                ),
            )
        },
    }
}

/// The calls of one translated event, held without writing out a long run of
/// clicks.
#[derive(Clone, Copy, Debug, PartialEq, Eq, Structural)]
pub enum Plan {
    Single(NativeCall),
    Clicks { first: u32, first_count: u64, second: u32, second_count: u64 },
}

impl Plan {
    /// The calls of the plan, in order.
    pub open spec fn calls(self) -> Seq<NativeCall> {
        match self {
            Plan::Single(call) => seq![call],
            Plan::Clicks { first, first_count, second, second_count } => clicks(
                first,
                first_count as nat,
            ) + clicks(second, second_count as nat),
        }
    }

    /// The number of calls.
    pub fn len(&self) -> (n: u128)
        ensures
            n == self.calls().len(),
    {
        match self {
            Plan::Single(_) => 1,
            Plan::Clicks { first_count, second_count, .. } => {
                let a: u128 = *first_count as u128;
                let b: u128 = *second_count as u128;
                2 * a + 2 * b
            },
        }
    }

    /// The call at `index`, counted from zero, or `None` past the end.
    pub fn call(&self, index: u128) -> (c: Option<NativeCall>)
        ensures
            index < self.calls().len() ==> c == Some(self.calls()[index as int]),
            index >= self.calls().len() ==> c is None,
    {
        match self {
            Plan::Single(call) => {
                if index == 0 {
                    Some(*call)
                } else {
                    None
                }
            },
            Plan::Clicks { first, first_count, second, second_count } => {
                let a: u128 = 2 * (*first_count as u128);
                let b: u128 = 2 * (*second_count as u128);
                if index < a {
                    Some(NativeCall::Button { code: *first, pressed: index % 2 == 0 })
                } else if index - a < b {
                    Some(NativeCall::Button { code: *second, pressed: (index - a) % 2 == 0 })
                } else {
                    None
                }
            },
        }
    }
}

/// The number of notches in a wheel delta.
pub fn notches(delta: i64) -> (n: u64)
    ensures
        n == magnitude(delta),
{
    if delta >= 0 {
        delta as u64
    } else if delta == i64::MIN {
        0x8000_0000_0000_0000
    } else {
        (-delta) as u64
    }
}

/// Whether the pointer has to be read before `event` can be translated.
pub fn requires_pointer(backend: Backend, event: &EventType) -> (r: bool)
    ensures
        r == needs_pointer(backend, *event),
{
    match event {
        EventType::MouseMove { .. } => backend.has_drag_events(),
        EventType::ButtonPress(button) | EventType::ButtonRelease(button) => {
            backend.has_positioned_buttons() && code_from_button(backend, *button).is_some()
        },
        _ => false,
    }
}

fn button_event(backend: Backend, code: u32, pressed: bool, pointer: PointerState) -> (call: NativeCall)
    ensures
        call == button_call(backend, code, pressed, pointer),
{
    if backend.has_positioned_buttons() {
        NativeCall::ButtonAt { code, pressed, x: pointer.x, y: pointer.y }
    } else {
        NativeCall::Button { code, pressed }
    }
}

/// Translates one event into the native calls that stand for it.
///
/// Nothing is touched: the result says what is to be called. An event that
/// the backend cannot express yields the failure and no call at all.
pub fn translate(backend: Backend, event: &EventType, pointer: PointerState) -> (r: Result<
    Plan,
    Failure,
>)
    ensures
        r matches Ok(plan) ==> translation(backend, *event, pointer) == Ok::<
            Seq<NativeCall>,
            Failure,
        >(plan.calls()),
        r matches Err(failure) ==> translation(backend, *event, pointer) == Err::<
            Seq<NativeCall>,
            Failure,
        >(failure),
{
    match event {
        EventType::KeyPress(key) => match code_from_key(backend, *key) {
            Some(code) => Ok(Plan::Single(NativeCall::Key { code, pressed: true })),
            None => Err(Failure::UnsupportedKey),
        },
        EventType::KeyRelease(key) => match code_from_key(backend, *key) {
            Some(code) => Ok(Plan::Single(NativeCall::Key { code, pressed: false })),
            None => Err(Failure::UnsupportedKey),
        },
        EventType::ButtonPress(button) => match code_from_button(backend, *button) {
            Some(code) => Ok(Plan::Single(button_event(backend, code, true, pointer))),
            None => Err(Failure::UnsupportedButton),
        },
        EventType::ButtonRelease(button) => match code_from_button(backend, *button) {
            Some(code) => Ok(Plan::Single(button_event(backend, code, false, pointer))),
            None => Err(Failure::UnsupportedButton),
        },
        EventType::MouseMove { x, y } => {
            let motion = if backend.has_drag_events() {
                motion_from_pressed(pointer.pressed)
            } else {
                Motion::Move
            };
            Ok(Plan::Single(NativeCall::AbsoluteMove { x: x.to_native(), y: y.to_native(), motion }))
        },
        EventType::Wheel { delta_x, delta_y } => {
            if backend.has_native_scroll() {
                if *delta_x < -0x8000_0000 || *delta_x > 0x7fff_ffff || *delta_y < -0x8000_0000
                    || *delta_y > 0x7fff_ffff {
                    Err(Failure::NativeCallFailed)
                } else {
                    Ok(
                        Plan::Single(
                            NativeCall::Scroll {
                                delta_x: *delta_x as i32,
                                delta_y: *delta_y as i32,
                            },
                        ),
                    )
                }
            } else {
                let first: u32 = if *delta_x > 0 {
                    WHEEL_RIGHT
                } else {
                    WHEEL_LEFT
                };
                let second: u32 = if *delta_y > 0 {
                    WHEEL_UP
                } else {
                    WHEEL_DOWN
                };
                Ok(
                    Plan::Clicks {
                        first,
                        first_count: notches(*delta_x),
                        second,
                        second_count: notches(*delta_y),
                    },
                )
            }
        },
    }
}

} // verus!
