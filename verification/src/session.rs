use vstd::prelude::*;
use crate::event::{EventType, Failure, NativeCall, PointerState};
use crate::keys::Backend;
use crate::translate::{needs_pointer, requires_pointer, translate, translation, Plan};

verus! {

/// What the caller reports after carrying out an action.
#[derive(Clone, Copy, Debug, PartialEq, Eq, Structural)]
pub struct Reply {
    /// Whether the native subsystem reported success.
    pub success: bool,
    /// The pointer as read; meaningful only in a successful reply to
    /// `Action::QueryPointer`.
    pub pointer: PointerState,
}

impl Reply {
    /// The reply to an action that reports nothing but success or failure.
    pub fn status(success: bool) -> (r: Reply)
        ensures
            r == (Reply { success, pointer: PointerState::zeroed() }),
    {
        Reply { success, pointer: PointerState::zero() }
    }

    /// The reply to a pointer query that was answered.
    pub fn pointer(state: PointerState) -> (r: Reply)
        ensures
            r == (Reply { success: true, pointer: state }),
    {
        Reply { success: true, pointer: state }
    }

    /// The reply to a pointer query that could not be answered.
    pub fn pointer_unavailable() -> (r: Reply)
        ensures
            r == (Reply { success: false, pointer: PointerState::zeroed() }),
    {
        Reply { success: false, pointer: PointerState::zero() }
    }
}

/// What the caller is asked to do next.
#[derive(Clone, Copy, Debug, PartialEq, Eq)]
pub enum Action {
    /// Open a session with the native input subsystem.
    OpenSession,
    /// Read the pointer's position and held buttons.
    QueryPointer,
    /// Make one native call on the open session.
    Inject(NativeCall),
    /// Flush what is buffered on the open session and wait for it.
    Synchronize,
    /// Release the open session.
    CloseSession,
    /// Nothing is left to do; this is the outcome of the request.
    Finish(Result<(), Failure>),
}

/// Whether every reply with an index from `from` up to, not including, `to`
/// reports success.
pub open spec fn all_succeeded(replies: Seq<Reply>, from: int, to: int) -> bool {
    forall|i: int| from <= i < to ==> (#[trigger] replies[i]).success
}

/// The number of replies after which the session is open and everything that
/// translation reads is known.
pub open spec fn ready_after(backend: Backend, event: EventType) -> nat {
    if needs_pointer(backend, event) {
        2
    } else {
        1
    }
}

/// The calls to make on the open session, given the replies up to the point
/// where it is ready. A pointer that could not be read leaves no call to make.
pub open spec fn planned(backend: Backend, event: EventType, replies: Seq<Reply>) -> Result<
    Seq<NativeCall>,
    Failure,
> {
    if needs_pointer(backend, event) {
        if replies[1].success {
            translation(backend, event, replies[1].pointer)
        } else {
            Err(Failure::NativeCallFailed)
        }
    } else {
        translation(backend, event, PointerState::zeroed())
    }
}

/// The end of every request whose session was opened: synchronize, release,
/// report.
pub open spec fn closing(step: int, result: Result<(), Failure>) -> Action {
    if step == 0 {
        Action::Synchronize
    } else if step == 1 {
        Action::CloseSession
    } else {
        Action::Finish(result)
    }
}

/// The action that follows the replies received so far, the first of them
/// answering `Action::OpenSession`.
///
/// A session that cannot be opened ends the request at once. An opened one is
/// always synchronized and released, whatever happened in between. All calls
/// of a translated event are made even when one of them fails, and the
/// request succeeds only if every one of them did.
pub open spec fn next_action(backend: Backend, event: EventType, replies: Seq<Reply>) -> Action {
    let ready = ready_after(backend, event) as int;
    if replies.len() == 0 {
        Action::OpenSession
    } else if !replies[0].success {
        Action::Finish(Err(Failure::SessionUnavailable))
    } else if replies.len() < ready {
        Action::QueryPointer
    } else {
        let done = replies.len() - ready;
        match planned(backend, event, replies) {
            Err(failure) => closing(done, Err(failure)),
            Ok(calls) => if done < calls.len() {
                Action::Inject(calls[done])
            } else {
                closing(
                    done - calls.len(),
                    if all_succeeded(replies, ready, ready + calls.len()) {
                        Ok(())
                    } else {
                        Err(Failure::NativeCallFailed)
                    },
                )
            },
        }
    }
}

/// Whether the session was opened and every call of the event, if it has
/// any, has been answered, with `trailing` replies come in since; `result` is
/// then the outcome of the request.
spec fn settled(
    backend: Backend,
    event: EventType,
    result: Result<(), Failure>,
    replies: Seq<Reply>,
    trailing: int,
) -> bool {
    let ready = ready_after(backend, event) as int;
    &&& replies.len() >= ready
    &&& replies[0].success
    &&& match planned(backend, event, replies) {
        Err(failure) => {
            &&& result == Err::<(), Failure>(failure)
            &&& replies.len() - ready == trailing
        },
        Ok(calls) => {
            &&& replies.len() - ready - calls.len() == trailing
            &&& result == if all_succeeded(replies, ready, ready + calls.len()) {
                Ok::<(), Failure>(())
            } else {
                Err::<(), Failure>(Failure::NativeCallFailed)
            }
        },
    }
}

#[derive(Clone, Copy, Debug, PartialEq, Eq, Structural)]
enum Stage {
    Opening,
    Querying,
    Injecting,
    Synchronizing,
    Closing,
    Finished,
}

/// One request to synthesize an event, from before its session is opened
/// until its outcome is known.
///
/// The caller asks for the next action, carries it out, and hands back the
/// reply, until the action is `Action::Finish`.
pub struct Simulation {
    backend: Backend,
    event: EventType,
    stage: Stage,
    plan: Plan,
    issued: u128,
    result: Result<(), Failure>,
    replies: Ghost<Seq<Reply>>,
}

impl Simulation {
    /// The backend that the request is for.
    pub closed spec fn backend(self) -> Backend {
        self.backend
    }

    /// The event to synthesize.
    pub closed spec fn event(self) -> EventType {
        self.event
    }

    /// The replies received so far, oldest first.
    pub closed spec fn replies(self) -> Seq<Reply> {
        self.replies@
    }

    /// The invariant that ties the few fields kept to the replies received.
    #[verifier::type_invariant]
    spec fn wf(self) -> bool {
        let ready = ready_after(self.backend, self.event) as int;
        let replies = self.replies@;
        match self.stage {
            Stage::Opening => replies.len() == 0,
            Stage::Querying => {
                &&& replies.len() == 1
                &&& replies[0].success
                &&& needs_pointer(self.backend, self.event)
            },
            Stage::Injecting => {
                &&& replies.len() == ready + self.issued
                &&& replies[0].success
                &&& planned(self.backend, self.event, replies) == Ok::<Seq<NativeCall>, Failure>(
                    self.plan.calls(),
                )
                &&& self.issued < self.plan.calls().len()
                &&& self.result == if all_succeeded(replies, ready, ready + self.issued) {
                    Ok::<(), Failure>(())
                } else {
                    Err::<(), Failure>(Failure::NativeCallFailed)
                }
            },
            Stage::Synchronizing => settled(self.backend, self.event, self.result, replies, 0),
            Stage::Closing => settled(self.backend, self.event, self.result, replies, 1),
            Stage::Finished => {
                ||| replies.len() >= 1 && !replies[0].success && self.result == Err::<(), Failure>(
                    Failure::SessionUnavailable,
                )
                ||| exists|trailing: int|
                    trailing >= 2 && settled(self.backend, self.event, self.result, replies, trailing)
            },
        }
    }

    /// Starts a request. Nothing has been done yet: the first action is to
    /// open the session.
    pub fn new(backend: Backend, event: EventType) -> (s: Simulation)
        ensures
            s.backend() == backend,
            s.event() == event,
            s.replies() == Seq::<Reply>::empty(),
    {
        Simulation {
            backend,
            event,
            stage: Stage::Opening,
            plan: Plan::Clicks { first: 0, first_count: 0, second: 0, second_count: 0 },
            issued: 0,
            result: Ok(()),
            replies: Ghost(Seq::empty()),
        }
    }

    /// The action to carry out next.
    pub fn action(&self) -> (a: Action)
        ensures
            a == next_action(self.backend(), self.event(), self.replies()),
    {
        proof {
            use_type_invariant(self);
        }
        match self.stage {
            Stage::Opening => Action::OpenSession,
            Stage::Querying => Action::QueryPointer,
            Stage::Injecting => match self.plan.call(self.issued) {
                Some(call) => Action::Inject(call),
                // Not reached: in this stage a call is always left to make.
                None => Action::Synchronize,
            },
            Stage::Synchronizing => Action::Synchronize,
            Stage::Closing => Action::CloseSession,
            Stage::Finished => Action::Finish(self.result),
        }
    }

    /// Whether the request has come to its end, so that the next action is
    /// `Action::Finish`.
    pub fn is_finished(&self) -> (r: bool)
        ensures
            r == (next_action(self.backend(), self.event(), self.replies()) is Finish),
    {
        proof {
            use_type_invariant(self);
        }
        match self.stage {
            Stage::Finished => true,
            _ => false,
        }
    }

    /// Takes the reply to the action that `action` returned last.
    pub fn advance(&mut self, reply: Reply)
        ensures
            final(self).backend() == old(self).backend(),
            final(self).event() == old(self).event(),
            final(self).replies() == old(self).replies().push(reply),
    {
        proof {
            use_type_invariant(&*self);
        }
        let ghost before = self.replies@;
        let ghost after = before.push(reply);
        let ghost ready = ready_after(self.backend, self.event) as int;
        assert(forall|i: int| 0 <= i < before.len() ==> after[i] == before[i]);
        assert(after[before.len() as int] == reply);
        let backend = self.backend;
        let event = self.event;
        let next = match self.stage {
            Stage::Opening => {
                if !reply.success {
                    Simulation {
                        backend,
                        event,
                        stage: Stage::Finished,
                        plan: self.plan,
                        issued: self.issued,
                        result: Err(Failure::SessionUnavailable),
                        replies: Ghost(after),
                    }
                } else if requires_pointer(backend, &event) {
                    Simulation {
                        backend,
                        event,
                        stage: Stage::Querying,
                        plan: self.plan,
                        issued: self.issued,
                        result: self.result,
                        replies: Ghost(after),
                    }
                } else {
                    Simulation::begin(backend, event, PointerState::zero(), Ghost(after))
                }
            },
            Stage::Querying => {
                if reply.success {
                    Simulation::begin(backend, event, reply.pointer, Ghost(after))
                } else {
                    Simulation {
                        backend,
                        event,
                        stage: Stage::Synchronizing,
                        plan: self.plan,
                        issued: self.issued,
                        result: Err(Failure::NativeCallFailed),
                        replies: Ghost(after),
                    }
                }
            },
            Stage::Injecting => {
                assert(planned(backend, event, after) == planned(backend, event, before));
                assert(all_succeeded(after, ready, ready + self.issued + 1) <==> all_succeeded(
                    before,
                    ready,
                    ready + self.issued,
                ) && reply.success) by {
                    assert(after[ready + self.issued] == reply);
                }
                let issued: u128 = self.issued + 1;
                Simulation {
                    backend,
                    event,
                    stage: if issued == self.plan.len() {
                        Stage::Synchronizing
                    } else {
                        Stage::Injecting
                    },
                    plan: self.plan,
                    issued,
                    result: if reply.success {
                        self.result
                    } else {
                        Err(Failure::NativeCallFailed)
                    },
                    replies: Ghost(after),
                }
            },
            Stage::Synchronizing => {
                proof {
                    lemma_settled_extends(backend, event, self.result, before, after, 0);
                }
                Simulation {
                    backend,
                    event,
                    stage: Stage::Closing,
                    plan: self.plan,
                    issued: self.issued,
                    result: self.result,
                    replies: Ghost(after),
                }
            },
            Stage::Closing => {
                proof {
                    lemma_settled_extends(backend, event, self.result, before, after, 1);
                }
                Simulation {
                    backend,
                    event,
                    stage: Stage::Finished,
                    plan: self.plan,
                    issued: self.issued,
                    result: self.result,
                    replies: Ghost(after),
                }
            },
            Stage::Finished => {
                proof {
                    if before.len() >= 1 && !before[0].success {
                    } else {
                        let trailing = choose|trailing: int|
                            trailing >= 2 && settled(backend, event, self.result, before, trailing);
                        lemma_settled_extends(backend, event, self.result, before, after, trailing);
                    }
                }
                Simulation {
                    backend,
                    event,
                    stage: Stage::Finished,
                    plan: self.plan,
                    issued: self.issued,
                    result: self.result,
                    replies: Ghost(after),
                }
            },
        };
        *self = next;
    }

    /// Translates the event once the session is open and the pointer, where
    /// it is needed, has been read.
    fn begin(backend: Backend, event: EventType, pointer: PointerState, replies: Ghost<Seq<Reply>>) -> (s:
        Simulation)
        requires
            replies@.len() == ready_after(backend, event),
            replies@[0].success,
            needs_pointer(backend, event) ==> replies@[1].success && replies@[1].pointer == pointer,
            !needs_pointer(backend, event) ==> pointer == PointerState::zeroed(),
        ensures
            s.backend == backend,
            s.event == event,
            s.replies@ == replies@,
    {
        match translate(backend, &event, pointer) {
            Err(failure) => Simulation {
                backend,
                event,
                stage: Stage::Synchronizing,
                plan: Plan::Clicks { first: 0, first_count: 0, second: 0, second_count: 0 },
                issued: 0,
                result: Err(failure),
                replies,
            },
            Ok(plan) => Simulation {
                backend,
                event,
                stage: if plan.len() == 0 {
                    Stage::Synchronizing
                } else {
                    Stage::Injecting
                },
                plan,
                issued: 0,
                result: Ok(()),
                replies,
            },
        }
    }
}

/// A settled request stays settled when one more reply comes in.
proof fn lemma_settled_extends(
    backend: Backend,
    event: EventType,
    result: Result<(), Failure>,
    before: Seq<Reply>,
    after: Seq<Reply>,
    trailing: int,
)
    requires
        settled(backend, event, result, before, trailing),
        trailing >= 0,
        after.len() == before.len() + 1,
        forall|i: int| 0 <= i < before.len() ==> after[i] == before[i],
    ensures
        settled(backend, event, result, after, trailing + 1),
{
    let ready = ready_after(backend, event) as int;
    assert(planned(backend, event, after) == planned(backend, event, before));
    match planned(backend, event, before) {
        Err(_) => {},
        Ok(calls) => {
            assert(all_succeeded(after, ready, ready + calls.len()) == all_succeeded(
                before,
                ready,
                ready + calls.len(),
            ));
        },
    }
}

} // verus!
