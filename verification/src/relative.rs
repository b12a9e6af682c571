use vstd::prelude::*;
use crate::coords::{clamp_native, NATIVE_MAX, NATIVE_MIN};
use crate::event::{motion_for, motion_from_pressed, Motion, NativeCall, PointerState};
use crate::keys::Backend;

verus! {

/// Whether the pointer has to be read before a move by an offset: when the
/// caller wants the starting position back, and whenever the backend can only
/// move to an absolute position.
pub open spec fn reads_start(backend: Backend, return_start_position: bool) -> bool {
    return_start_position || !backend.native_relative_move()
}

/// A coordinate moved by an offset, kept within the native range.
pub open spec fn shifted(start: i32, delta: i32) -> i32 {
    clamp_native(start + delta) as i32
}

/// The native call that moves the pointer by `(dx, dy)`, given the pointer as
/// read before the move, or `None` where it was not read or could not be.
///
/// A backend with a relative move takes the offset as it is. Any other is
/// told the absolute target, as a drag where it knows dragging and a button
/// is held. Without a starting position such a backend is told nothing.
pub open spec fn relative_move(backend: Backend, dx: i32, dy: i32, start: Option<PointerState>) -> Option<
    NativeCall,
> {
    if backend.native_relative_move() {
        Some(NativeCall::RelativeMove { dx, dy })
    } else {
        match start {
            Some(state) => Some(
                NativeCall::AbsoluteMove {
                    x: shifted(state.x, dx),
                    y: shifted(state.y, dy),
                    motion: if backend.distinguishes_drag() {
                        motion_for(state.pressed)
                    } else {
                        Motion::Move
                    },
                },
            ),
            None => None,
        }
    }
}

/// The position to report for a move by an offset: where the pointer was
/// before the move, or the origin where that is not known.
pub open spec fn reported_start(start: Option<PointerState>) -> (i32, i32) {
    match start {
        Some(state) => (state.x, state.y),
        None => (0, 0),
    }
}

/// What a move by an offset comes to: the call to make, if any, and the
/// position to hand back to the caller.
#[derive(Clone, Copy, Debug, PartialEq, Eq)]
pub struct RelativeMove {
    pub call: Option<NativeCall>,
    pub start: (i32, i32),
}

/// Whether the pointer has to be read before a move by an offset.
pub fn needs_start_position(backend: Backend, return_start_position: bool) -> (r: bool)
    ensures
        r == reads_start(backend, return_start_position),
{
    return_start_position || !backend.has_native_relative_move()
}

fn shift(start: i32, delta: i32) -> (r: i32)
    ensures
        r == shifted(start, delta),
{
    let sum: i64 = start as i64 + delta as i64;
    if sum < NATIVE_MIN as i64 {
        NATIVE_MIN
    } else if sum > NATIVE_MAX as i64 {
        NATIVE_MAX
    } else {
        sum as i32
    }
}

/// Plans a move of the pointer by `(dx, dy)`. `start` is the pointer as read
/// just before, or `None` where it was not read or the backend did not answer.
pub fn plan_relative_move(backend: Backend, dx: i32, dy: i32, start: Option<PointerState>) -> (r:
    RelativeMove)
    ensures
        r.call == relative_move(backend, dx, dy, start),
        r.start == reported_start(start),
{
    let position: (i32, i32) = match start {
        Some(state) => (state.x, state.y),
        None => (0, 0),
    };
    if backend.has_native_relative_move() {
        RelativeMove { call: Some(NativeCall::RelativeMove { dx, dy }), start: position }
    } else {
        match start {
            Some(state) => {
                let motion = if backend.has_drag_events() {
                    motion_from_pressed(state.pressed)
                } else {
                    Motion::Move
                };
                RelativeMove {
                    call: Some(
                        NativeCall::AbsoluteMove {
                            x: shift(state.x, dx),
                            y: shift(state.y, dy),
                            motion,
                        },
                    ),
                    start: position,
                }
            },
            None => RelativeMove { call: None, start: position },
        }
    }
}

} // verus!
