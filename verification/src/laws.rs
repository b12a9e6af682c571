use vstd::prelude::*;
use crate::event::{EventType, Failure, NativeCall, PointerState};
use crate::keycodes::{button_code, key_code};
use crate::keys::{Backend, Button, Key};
use crate::session::{all_succeeded, next_action, planned, ready_after, Action, Reply};
use crate::translate::{clicks, horizontal_button, magnitude, needs_pointer, translation, vertical_button};

verus! {

/// Pressing and then releasing a key that the backend knows makes exactly two
/// native calls: both are key calls with the key's code, the first pressing
/// and the second releasing.
pub proof fn lemma_press_then_release(backend: Backend, key: Key, pointer: PointerState)
    requires
        key_code(backend, key) is Some,
    ensures
        translation(backend, EventType::KeyPress(key), pointer) is Ok,
        translation(backend, EventType::KeyRelease(key), pointer) is Ok,
        translation(backend, EventType::KeyPress(key), pointer)->Ok_0 + translation(
            backend,
            EventType::KeyRelease(key),
            pointer,
        )->Ok_0 == seq![
            NativeCall::Key { code: key_code(backend, key)->Some_0, pressed: true },
            NativeCall::Key { code: key_code(backend, key)->Some_0, pressed: false },
        ],
{
    let code = key_code(backend, key)->Some_0;
    assert(seq![NativeCall::Key { code, pressed: true }] + seq![
        NativeCall::Key { code, pressed: false },
    ] =~= seq![NativeCall::Key { code, pressed: true }, NativeCall::Key { code, pressed: false }]);
}

/// A request for a key that the backend knows runs through five actions: open
/// the session, make the one key call, synchronize, release the session,
/// report. It succeeds exactly if the key call did.
pub proof fn lemma_key_request_script(backend: Backend, key: Key, pressed: bool, replies: Seq<Reply>)
    requires
        key_code(backend, key) is Some,
        replies.len() >= 4,
        replies[0].success,
    ensures
        ({
            let event = if pressed {
                EventType::KeyPress(key)
            } else {
                EventType::KeyRelease(key)
            };
            let code = key_code(backend, key)->Some_0;
            &&& next_action(backend, event, replies.take(0)) == Action::OpenSession
            &&& next_action(backend, event, replies.take(1)) == Action::Inject(
                NativeCall::Key { code, pressed },
            )
            &&& next_action(backend, event, replies.take(2)) == Action::Synchronize
            &&& next_action(backend, event, replies.take(3)) == Action::CloseSession
            &&& next_action(backend, event, replies) == Action::Finish(
                if replies[1].success {
                    Ok(())
                } else {
                    Err(Failure::NativeCallFailed)
                },
            )
        }),
{
    let event = if pressed {
        EventType::KeyPress(key)
    } else {
        EventType::KeyRelease(key)
    };
    assert(all_succeeded(replies, 1, 2) == replies[1].success) by {
        if replies[1].success {
            assert forall|i: int| 1 <= i < 2 implies (#[trigger] replies[i]).success by {}
        }
    }
    assert(planned(backend, event, replies.take(1)) == planned(backend, event, replies));
    assert(planned(backend, event, replies.take(2)) == planned(backend, event, replies));
    assert(planned(backend, event, replies.take(3)) == planned(backend, event, replies));
    assert(all_succeeded(replies.take(2), 1, 2) == all_succeeded(replies, 1, 2)) by {
        assert(replies.take(2)[1] == replies[1]);
    }
    assert(all_succeeded(replies.take(3), 1, 2) == all_succeeded(replies, 1, 2)) by {
        assert(replies.take(3)[1] == replies[1]);
    }
}

/// A request for a key that the backend does not know makes no native call,
/// whatever the replies, and cannot end in success.
pub proof fn lemma_unsupported_key_makes_no_call(
    backend: Backend,
    key: Key,
    pressed: bool,
    replies: Seq<Reply>,
)
    requires
        key_code(backend, key) is None,
    ensures
        ({
            let event = if pressed {
                EventType::KeyPress(key)
            } else {
                EventType::KeyRelease(key)
            };
            &&& !(next_action(backend, event, replies) is Inject)
            &&& next_action(backend, event, replies) matches Action::Finish(result) ==> result
                is Err
        }),
{
}

/// Translating a key does not depend on anything but the backend and the key:
/// two translations of the same key press, whenever and with whatever pointer
/// they are made, yield the same single call, and each request makes it anew.
pub proof fn lemma_key_translation_repeats(
    backend: Backend,
    key: Key,
    first: Seq<Reply>,
    second: Seq<Reply>,
    pointer_first: PointerState,
    pointer_second: PointerState,
)
    requires
        key_code(backend, key) is Some,
        first.len() == 1,
        second.len() == 1,
        first[0].success,
        second[0].success,
    ensures
        translation(backend, EventType::KeyPress(key), pointer_first) == translation(
            backend,
            EventType::KeyPress(key),
            pointer_second,
        ),
        next_action(backend, EventType::KeyPress(key), first) == next_action(
            backend,
            EventType::KeyPress(key),
            second,
        ),
        next_action(backend, EventType::KeyPress(key), first) == Action::Inject(
            NativeCall::Key { code: key_code(backend, key)->Some_0, pressed: true },
        ),
{
}

/// Where the pointer is not read, it has no part in translation.
pub proof fn lemma_translation_ignores_unread_pointer(
    backend: Backend,
    event: EventType,
    first: PointerState,
    second: PointerState,
)
    requires
        !needs_pointer(backend, event),
    ensures
        translation(backend, event, first) == translation(backend, event, second),
{
}

/// Every backend has a code for the left, the middle and the right button,
/// each its own, and passes a raw code through unchanged. Only a raw code that
/// does not fit 32 bits has none.
pub proof fn lemma_button_codes(backend: Backend, raw: u64)
    ensures
        button_code(backend, Button::Left) is Some,
        button_code(backend, Button::Middle) is Some,
        button_code(backend, Button::Right) is Some,
        button_code(backend, Button::Left) != button_code(backend, Button::Middle),
        button_code(backend, Button::Left) != button_code(backend, Button::Right),
        button_code(backend, Button::Middle) != button_code(backend, Button::Right),
        raw <= u32::MAX ==> button_code(backend, Button::Unknown(raw)) == Some(raw as u32),
        raw > u32::MAX ==> button_code(backend, Button::Unknown(raw)) is None,
{
}

/// A button that has a code is pressed or released by exactly one call. Where
/// the backend's button events carry a position, the pointer is read first,
/// right after the session is opened, and the call names the position that
/// was read, so that the event happens where the pointer is. Elsewhere the
/// call follows the opening at once.
pub proof fn lemma_button_event_lands_at_the_pointer(
    backend: Backend,
    button: Button,
    pressed: bool,
    replies: Seq<Reply>,
)
    requires
        button_code(backend, button) is Some,
        replies.len() == 2,
        replies[0].success,
        replies[1].success,
    ensures
        ({
            let event = if pressed {
                EventType::ButtonPress(button)
            } else {
                EventType::ButtonRelease(button)
            };
            let code = button_code(backend, button)->Some_0;
            if backend.positions_buttons() {
                &&& next_action(backend, event, replies.take(1)) == Action::QueryPointer
                &&& next_action(backend, event, replies) == Action::Inject(
                    NativeCall::ButtonAt {
                        code,
                        pressed,
                        x: replies[1].pointer.x,
                        y: replies[1].pointer.y,
                    },
                )
            } else {
                &&& next_action(backend, event, replies.take(1)) == Action::Inject(
                    NativeCall::Button { code, pressed },
                )
                &&& next_action(backend, event, replies) == Action::Synchronize
            }
        }),
{
    let event = if pressed {
        EventType::ButtonPress(button)
    } else {
        EventType::ButtonRelease(button)
    };
    assert(replies.take(1)[0] == replies[0]);
    if !backend.positions_buttons() {
        assert(planned(backend, event, replies.take(1)) == planned(backend, event, replies));
    }
}

/// Where the pointer has to be read and the backend does not answer, no
/// native call is made, whatever the replies that follow, and the request
/// ends in failure: nothing is injected at a made-up position.
pub proof fn lemma_unread_pointer_makes_no_call(
    backend: Backend,
    event: EventType,
    replies: Seq<Reply>,
)
    requires
        needs_pointer(backend, event),
        replies.len() >= 2,
        replies[0].success,
        !replies[1].success,
    ensures
        !(next_action(backend, event, replies) is Inject),
        next_action(backend, event, replies) matches Action::Finish(result) ==> result == Err::<
            (),
            Failure,
        >(Failure::NativeCallFailed),
{
}

/// On a backend without a scroll call, a wheel event becomes one press and
/// one release of a pseudo-button for each notch: first all horizontal
/// notches, then all vertical ones.
pub proof fn lemma_wheel_decomposition(
    backend: Backend,
    delta_x: i64,
    delta_y: i64,
    pointer: PointerState,
)
    requires
        !backend.native_scroll(),
    ensures
        translation(backend, EventType::Wheel { delta_x, delta_y }, pointer) matches Ok(calls)
            && {
            let across = 2 * magnitude(delta_x);
            let along = 2 * magnitude(delta_y);
            &&& calls.len() == across + along
            &&& forall|i: int|
                0 <= i < across ==> #[trigger] calls[i] == (NativeCall::Button {
                    code: horizontal_button(delta_x),
                    pressed: i % 2 == 0,
                })
            &&& forall|i: int|
                across <= i < across + along ==> #[trigger] calls[i] == (NativeCall::Button {
                    code: vertical_button(delta_y),
                    pressed: (i - across) % 2 == 0,
                })
        },
{
    let first = clicks(horizontal_button(delta_x), magnitude(delta_x));
    let second = clicks(vertical_button(delta_y), magnitude(delta_y));
    let calls = first + second;
    assert forall|i: int| first.len() <= i < first.len() + second.len() implies #[trigger] calls[i]
        == second[i - first.len()] by {}
}

/// The number of session handles that are open once the caller has carried
/// out, in turn, the action that follows each prefix of `replies`: opening
/// adds one where it succeeds, releasing takes one away.
pub open spec fn open_handles(backend: Backend, event: EventType, replies: Seq<Reply>) -> int
    decreases replies.len(),
{
    if replies.len() == 0 {
        0
    } else {
        let earlier = replies.drop_last();
        let action = next_action(backend, event, earlier);
        open_handles(backend, event, earlier) + (if action is OpenSession && replies.last().success {
            1int
        } else {
            0int
        }) - (if action is CloseSession {
            1int
        } else {
            0int
        })
    }
}

/// At every point of a request at most one session handle is open. The
/// session is opened only when none is open; the pointer is read, calls are
/// made, and the session is synchronized and released only while exactly one
/// is open; and when the outcome is reported none is left open.
pub proof fn lemma_session_discipline(backend: Backend, event: EventType, replies: Seq<Reply>)
    ensures
        0 <= open_handles(backend, event, replies) <= 1,
        match next_action(backend, event, replies) {
            Action::OpenSession | Action::Finish(_) => open_handles(backend, event, replies) == 0,
            Action::QueryPointer
            | Action::Inject(_)
            | Action::Synchronize
            | Action::CloseSession => open_handles(backend, event, replies) == 1,
        },
    decreases replies.len(),
{
    if replies.len() > 0 {
        let earlier = replies.drop_last();
        let ready = ready_after(backend, event) as int;
        lemma_session_discipline(backend, event, earlier);
        assert forall|i: int| 0 <= i < earlier.len() implies earlier[i] == replies[i] by {}
        if earlier.len() >= ready {
            assert(planned(backend, event, earlier) == planned(backend, event, replies));
            match planned(backend, event, replies) {
                Ok(calls) => {
                    if earlier.len() >= ready + calls.len() {
                        assert(all_succeeded(earlier, ready, ready + calls.len()) == all_succeeded(
                            replies,
                            ready,
                            ready + calls.len(),
                        ));
                    }
                },
                Err(_) => {},
            }
        }
    }
}

/// A session that could not be opened ends the request: whatever replies
/// follow, nothing is injected and nothing is released.
pub proof fn lemma_failed_acquisition_ends_request(
    backend: Backend,
    event: EventType,
    replies: Seq<Reply>,
)
    requires
        replies.len() >= 1,
        !replies[0].success,
    ensures
        next_action(backend, event, replies) == Action::Finish(Err(Failure::SessionUnavailable)),
        open_handles(backend, event, replies) == 0,
{
    lemma_session_discipline(backend, event, replies);
}

/// The session handles that are open while a caller works through `events`
/// one after another, `histories[i]` being the replies given so far to the
/// request for `events[i]`.
pub open spec fn handles_across(
    backend: Backend,
    events: Seq<EventType>,
    histories: Seq<Seq<Reply>>,
) -> int
    decreases events.len(),
{
    if events.len() == 0 {
        0
    } else {
        handles_across(backend, events.drop_last(), histories.drop_last()) + open_handles(
            backend,
            events.last(),
            histories.last(),
        )
    }
}

/// Whether each of the first `count` requests has been driven to its end.
pub open spec fn all_finished(
    backend: Backend,
    events: Seq<EventType>,
    histories: Seq<Seq<Reply>>,
    count: int,
) -> bool {
    forall|i: int|
        0 <= i < count ==> (#[trigger] next_action(backend, events[i], histories[i])) is Finish
}

/// Requests that have been driven to their end hold no session handle.
pub proof fn lemma_finished_requests_hold_nothing(
    backend: Backend,
    events: Seq<EventType>,
    histories: Seq<Seq<Reply>>,
)
    requires
        histories.len() == events.len(),
        all_finished(backend, events, histories, events.len() as int),
    ensures
        handles_across(backend, events, histories) == 0,
    decreases events.len(),
{
    if events.len() > 0 {
        let last = events.len() - 1;
        assert(next_action(backend, events[last], histories[last]) is Finish);
        lemma_session_discipline(backend, events.last(), histories.last());
        assert forall|i: int| 0 <= i < last implies (#[trigger] next_action(
            backend,
            events.drop_last()[i],
            histories.drop_last()[i],
        )) is Finish by {
            assert(next_action(backend, events[i], histories[i]) is Finish);
        }
        lemma_finished_requests_hold_nothing(backend, events.drop_last(), histories.drop_last());
    }
}

/// However many events are simulated one after another, each driven to its end
/// before the next is begun, at most one session handle is open at any time.
pub proof fn lemma_one_session_at_a_time(
    backend: Backend,
    events: Seq<EventType>,
    histories: Seq<Seq<Reply>>,
)
    requires
        histories.len() == events.len(),
        all_finished(backend, events, histories, events.len() - 1),
    ensures
        0 <= handles_across(backend, events, histories) <= 1,
{
    if events.len() > 0 {
        let last = events.len() - 1;
        assert forall|i: int| 0 <= i < last implies (#[trigger] next_action(
            backend,
            events.drop_last()[i],
            histories.drop_last()[i],
        )) is Finish by {
            assert(next_action(backend, events[i], histories[i]) is Finish);
        }
        lemma_finished_requests_hold_nothing(backend, events.drop_last(), histories.drop_last());
        lemma_session_discipline(backend, events.last(), histories.last());
    }
}

/// The most native calls that one event can take.
pub open spec fn call_bound(event: EventType) -> nat {
    match event {
        EventType::Wheel { delta_x, delta_y } => 1 + 2 * (magnitude(delta_x) + magnitude(delta_y)),
        _ => 1,
    }
}

/// Every request comes to its end: once the caller has answered as many
/// actions as the event's calls and four more, the outcome is reported.
pub proof fn lemma_request_ends(backend: Backend, event: EventType, replies: Seq<Reply>)
    requires
        replies.len() >= call_bound(event) + 4,
    ensures
        next_action(backend, event, replies) is Finish,
{
}

/// Once the outcome is reported it stands: further replies change neither
/// the action nor the result.
pub proof fn lemma_outcome_is_final(backend: Backend, event: EventType, replies: Seq<Reply>, more: Reply)
    requires
        next_action(backend, event, replies) is Finish,
    ensures
        next_action(backend, event, replies.push(more)) == next_action(backend, event, replies),
{
    let later = replies.push(more);
    let ready = ready_after(backend, event) as int;
    assert forall|i: int| 0 <= i < replies.len() implies later[i] == replies[i] by {}
    if replies[0].success {
        assert(planned(backend, event, later) == planned(backend, event, replies));
        match planned(backend, event, replies) {
            Ok(calls) => {
                assert(all_succeeded(later, ready, ready + calls.len()) == all_succeeded(
                    replies,
                    ready,
                    ready + calls.len(),
                ));
            },
            Err(_) => {},
        }
    }
}

} // verus!
