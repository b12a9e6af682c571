use vstd::prelude::*;
use crate::coords::Coordinate;
use crate::keys::{Button, Key};

verus! {

/// One request to synthesize input.
#[derive(Clone, Copy, Debug, PartialEq, Eq)]
pub enum EventType {
    KeyPress(Key),
    KeyRelease(Key),
    ButtonPress(Button),
    ButtonRelease(Button),
    /// Moves the pointer to an absolute position.
    MouseMove { x: Coordinate, y: Coordinate },
    /// Turns the wheel; positive is right and up.
    Wheel { delta_x: i64, delta_y: i64 },
}

/// What the backend reports of the pointer at one moment. It is read anew
/// whenever it is needed and never kept from one request to the next.
#[derive(Clone, Copy, Debug, PartialEq, Eq, Structural)]
pub struct PointerState {
    pub x: i32,
    pub y: i32,
    /// One bit per held button: bit 0 the left button, bit 1 the right.
    pub pressed: u64,
}

impl PointerState {
    /// The state reported when the backend could not be asked.
    pub open spec fn zeroed() -> PointerState {
        PointerState { x: 0, y: 0, pressed: 0 }
    }

    pub fn zero() -> (s: PointerState)
        ensures
            s == PointerState::zeroed(),
    {
        PointerState { x: 0, y: 0, pressed: 0 }
    }
}

/// How a pointer move is announced on a backend that knows dragging.
#[derive(Clone, Copy, Debug, PartialEq, Eq, Structural)]
pub enum Motion {
    Move,
    LeftDrag,
    RightDrag,
}

/// The announcement that fits the held buttons: a drag by the left button
/// when it is held, else by the right one when that is held, else a plain
/// move.
pub open spec fn motion_for(pressed: u64) -> Motion {
    if pressed & 1 != 0 {
        Motion::LeftDrag
    } else if pressed & 2 != 0 {
        Motion::RightDrag
    } else {
        Motion::Move
    }
}

pub fn motion_from_pressed(pressed: u64) -> (m: Motion)
    ensures
        m == motion_for(pressed),
{
    if pressed & 1 != 0 {
        Motion::LeftDrag
    } else if pressed & 2 != 0 {
        Motion::RightDrag
    } else {
        Motion::Move
    }
}

/// One call into the native input subsystem.
#[derive(Clone, Copy, Debug, PartialEq, Eq, Structural)]
pub enum NativeCall {
    Key { code: u32, pressed: bool },
    Button { code: u32, pressed: bool },
    /// A button event at a position, for a backend whose button events carry
    /// one.
    ButtonAt { code: u32, pressed: bool, x: i32, y: i32 },
    AbsoluteMove { x: i32, y: i32, motion: Motion },
    RelativeMove { dx: i32, dy: i32 },
    Scroll { delta_x: i32, delta_y: i32 },
}

/// Why a request was not carried out.
#[derive(Clone, Copy, Debug, PartialEq, Eq, Structural)]
pub enum Failure {
    /// No session with the native input subsystem could be opened.
    SessionUnavailable,
    /// The backend has no code for the key.
    UnsupportedKey,
    /// The button's raw code does not fit the backend's width.
    UnsupportedButton,
    /// A native call reported failure, or could not be made with the values
    /// given.
    NativeCallFailed,
}

/// The one error that a caller of the public entry point sees.
#[derive(Clone, Copy, Debug, PartialEq, Eq, Structural)]
pub struct SimulateError;

/// Hides the reason of a failure, keeping only whether there was one.
pub fn coarse_result(result: Result<(), Failure>) -> (r: Result<(), SimulateError>)
    ensures
        r is Ok <==> result is Ok,
{
    match result {
        Ok(()) => Ok(()),
        Err(_) => Err(SimulateError),
    }
}

} // verus!
