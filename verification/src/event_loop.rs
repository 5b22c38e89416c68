//! The loop that waits for events of a handle and has them handled
use vstd::prelude::*;

verus! {

/// What came through the channel that tells the loop to close.
#[derive(Debug, Clone, Copy, PartialEq, Eq, Structural)]
pub enum CloseSignal {
    Requested,
    /// Nobody is left to request it.
    Disconnected,
    Empty,
}

/// What the loop does next.
#[derive(Debug, Clone, Copy, PartialEq, Eq, Structural)]
pub enum LoopAction {
    /// Look whether the loop is to close.
    CheckClose,
    /// Wait until the handle is ready, but not too long to look again whether to close.
    Poll,
    /// Have the events that are there handled.
    HandleEvents,
    Stop,
}

/// How an action of the loop ended.
#[derive(Debug, Clone, Copy, PartialEq, Eq, Structural)]
pub enum LoopAnswer {
    Close(CloseSignal),
    /// `ret` is what `poll` returned, `revents` what it says of the handle's file descriptor.
    Polled { ret: i32, revents: i16 },
    Handled,
}

/// How long [`LoopAction::Poll`] waits, in milliseconds.
pub const POLL_TIMEOUT_MS: i32 = 100;

/// There is data to read.
pub const POLLIN: i16 = 0x1;

/// An error happened.
pub const POLLERR: i16 = 0x8;

/// The other side hung up.
pub const POLLHUP: i16 = 0x10;

/// The file descriptor is not open.
pub const POLLNVAL: i16 = 0x20;

/// Reads `libc::POLLIN`, and claims the value that it has on Linux.
#[verifier::external_body]
fn poll_in() -> (bits: i16)
    ensures
        bits == POLLIN,
{
    libc::POLLIN
}

/// Reads `libc::POLLERR`, and claims the value that it has on Linux.
#[verifier::external_body]
fn poll_err() -> (bits: i16)
    ensures
        bits == POLLERR,
{
    libc::POLLERR
}

/// Reads `libc::POLLHUP`, and claims the value that it has on Linux.
#[verifier::external_body]
fn poll_hup() -> (bits: i16)
    ensures
        bits == POLLHUP,
{
    libc::POLLHUP
}

/// Reads `libc::POLLNVAL`, and claims the value that it has on Linux.
#[verifier::external_body]
fn poll_nval() -> (bits: i16)
    ensures
        bits == POLLNVAL,
{
    libc::POLLNVAL
}

/// The receiving side of the channel that tells the loop to close.
#[verifier::external_type_specification]
#[verifier::external_body]
#[verifier::reject_recursive_types(T)]
pub struct ExReceiver<T>(crossbeam_channel::Receiver<T>);

/// Calls `crossbeam_channel::Receiver::try_recv`. Nothing is claimed of the outcome: it depends on
/// what other threads do.
#[verifier::external_body]
fn try_recv(close: &crossbeam_channel::Receiver<()>) -> CloseSignal {
    match close.try_recv() {
        Ok(()) => CloseSignal::Requested,
        Err(crossbeam_channel::TryRecvError::Disconnected) => CloseSignal::Disconnected,
        Err(crossbeam_channel::TryRecvError::Empty) => CloseSignal::Empty,
    }
}

/// What the loop does once it knows how its action ended. An answer to another action changes
/// nothing.
pub open spec fn next_action(action: LoopAction, answer: LoopAnswer) -> LoopAction {
    match (action, answer) {
        (LoopAction::CheckClose, LoopAnswer::Close(signal)) => if signal is Empty {
            LoopAction::Poll
        } else {
            LoopAction::Stop
        },
        (LoopAction::Poll, LoopAnswer::Polled { ret, revents }) => if ret < 0 {
            LoopAction::CheckClose
        } else if revents == POLLHUP || revents == POLLNVAL || revents == POLLERR {
            LoopAction::Stop
        } else if revents == POLLIN {
            LoopAction::HandleEvents
        } else {
            LoopAction::CheckClose
        },
        (LoopAction::HandleEvents, LoopAnswer::Handled) => LoopAction::CheckClose,
        _ => action,
    }
}

/// What the loop does after some answers.
pub open spec fn action_after(answers: Seq<LoopAnswer>) -> LoopAction
    decreases answers.len(),
{
    if answers.len() == 0 {
        LoopAction::CheckClose
    } else {
        next_action(action_after(answers.drop_last()), answers.last())
    }
}

impl LoopAction {
    /// What the loop does first.
    pub fn first() -> (action: Self)
        ensures
            action == action_after(Seq::empty()),
    {
        LoopAction::CheckClose
    }

    /// What the loop does once it knows how its action ended.
    pub fn next(self, answer: LoopAnswer) -> (action: Self)
        ensures
            action == next_action(self, answer),
    {
        match (self, answer) {
            (LoopAction::CheckClose, LoopAnswer::Close(signal)) => match signal {
                CloseSignal::Requested | CloseSignal::Disconnected => LoopAction::Stop,
                CloseSignal::Empty => LoopAction::Poll,
            },
            (LoopAction::Poll, LoopAnswer::Polled { ret, revents }) => {
                if ret < 0 {
                    LoopAction::CheckClose
                } else if revents == poll_hup() || revents == poll_nval() || revents == poll_err() {
                    LoopAction::Stop
                } else if revents == poll_in() {
                    LoopAction::HandleEvents
                } else {
                    LoopAction::CheckClose
                }
            },
            (LoopAction::HandleEvents, LoopAnswer::Handled) => LoopAction::CheckClose,
            _ => self,
        }
    }

    /// Looks whether the loop is to close, and goes on accordingly.
    pub fn check_close(self, close: &crossbeam_channel::Receiver<()>) -> (action: Self)
        ensures
            exists|signal: CloseSignal|
                action == #[trigger] next_action(self, LoopAnswer::Close(signal)),
    {
        self.next(LoopAnswer::Close(try_recv(close)))
    }
}

/// Events are only handled when a poll just said that there are some.
pub proof fn events_are_handled_when_ready(action: LoopAction, answer: LoopAnswer)
    requires
        action !is HandleEvents,
    ensures
        next_action(action, answer) is HandleEvents <==> action is Poll && (answer matches
            LoopAnswer::Polled { ret, revents } && ret >= 0 && revents == POLLIN),
{
}

/// The loop only waits after it found that nobody asked it to close.
pub proof fn close_is_checked_before_poll(action: LoopAction, answer: LoopAnswer)
    requires
        action !is Poll,
    ensures
        next_action(action, answer) is Poll <==> action is CheckClose && answer
            == LoopAnswer::Close(CloseSignal::Empty),
{
}

/// The loop stops when it is asked to close or nobody is left to ask, when the handle's file
/// descriptor hung up, is invalid or failed, and for no other reason.
pub proof fn loop_stops_when_told(action: LoopAction, answer: LoopAnswer)
    requires
        action !is Stop,
    ensures
        next_action(action, answer) is Stop <==> match action {
            LoopAction::CheckClose => answer == LoopAnswer::Close(CloseSignal::Requested) || answer
                == LoopAnswer::Close(CloseSignal::Disconnected),
            LoopAction::Poll => answer matches LoopAnswer::Polled { ret, revents } && ret >= 0 && (
            revents == POLLHUP || revents == POLLNVAL || revents == POLLERR),
            _ => false,
        },
{
}

/// After every poll that neither found events nor ended the loop, whether it failed, timed out or
/// said something unexpected, and after events were handled, the loop looks again whether to close.
pub proof fn close_is_checked_again(ret: i32, revents: i16)
    ensures
        next_action(LoopAction::HandleEvents, LoopAnswer::Handled) is CheckClose,
        next_action(LoopAction::Poll, LoopAnswer::Polled { ret, revents }) is CheckClose <==> ret
            < 0 || !(revents == 1 || revents == 8 || revents == 16 || revents == 32),
        next_action(LoopAction::Poll, LoopAnswer::Polled { ret, revents }) is HandleEvents <==> ret
            >= 0 && revents == 1,
{
}

/// An answer that is not to the action at hand changes nothing.
pub proof fn other_answers_change_nothing(action: LoopAction, answer: LoopAnswer)
    requires
        match action {
            LoopAction::CheckClose => answer !is Close,
            LoopAction::Poll => answer !is Polled,
            LoopAction::HandleEvents => answer !is Handled,
            LoopAction::Stop => true,
        },
    ensures
        next_action(action, answer) == action,
{
}

/// The loop looks first whether it is to close.
pub proof fn loop_starts_with_close_check(signal: CloseSignal)
    ensures
        action_after(Seq::empty()) is CheckClose,
        action_after(seq![LoopAnswer::Close(signal)]) is Poll <==> signal is Empty,
        action_after(seq![LoopAnswer::Close(signal)]) is Stop <==> signal !is Empty,
{
    reveal_with_fuel(action_after, 2);
    assert(seq![LoopAnswer::Close(signal)].drop_last() =~= Seq::<LoopAnswer>::empty());
}

/// A loop that stopped does nothing more.
pub proof fn stopped_loop_stays_stopped(answers: Seq<LoopAnswer>, more: Seq<LoopAnswer>)
    requires
        action_after(answers) is Stop,
    ensures
        action_after(answers + more) is Stop,
    decreases more.len(),
{
    if more.len() == 0 {
        assert(answers + more =~= answers);
    } else {
        stopped_loop_stays_stopped(answers, more.drop_last());
        assert((answers + more).drop_last() =~= answers + more.drop_last());
    }
}

} // verus!
