use evdi::event_loop::{
    CloseSignal, LoopAction, LoopAnswer, POLLERR, POLLHUP, POLLIN, POLLNVAL, POLL_TIMEOUT_MS,
};

fn polled(ret: i32, revents: i16) -> LoopAction {
    LoopAction::Poll.next(LoopAnswer::Polled { ret, revents })
}

#[test]
fn loop_polls_while_nobody_closes_it() {
    let first = LoopAction::first();
    assert_eq!(first, LoopAction::CheckClose);
    let next = first.next(LoopAnswer::Close(CloseSignal::Empty));
    assert_eq!(next, LoopAction::Poll);
    assert_eq!(POLL_TIMEOUT_MS, 100);
}

#[test]
fn loop_stops_when_closed() {
    let first = LoopAction::first();
    assert_eq!(first.next(LoopAnswer::Close(CloseSignal::Requested)), LoopAction::Stop);
    assert_eq!(first.next(LoopAnswer::Close(CloseSignal::Disconnected)), LoopAction::Stop);
}

#[test]
fn poll_decides() {
    assert_eq!(polled(1, libc::POLLIN), LoopAction::HandleEvents);
    assert_eq!(polled(1, libc::POLLHUP), LoopAction::Stop);
    assert_eq!(polled(1, libc::POLLNVAL), LoopAction::Stop);
    assert_eq!(polled(1, libc::POLLERR), LoopAction::Stop);
    assert_eq!(polled(0, 0), LoopAction::CheckClose);
    assert_eq!(polled(1, libc::POLLIN | libc::POLLHUP), LoopAction::CheckClose);
    assert_eq!(polled(1, libc::POLLPRI), LoopAction::CheckClose);
    assert_eq!(polled(-1, libc::POLLIN), LoopAction::CheckClose);
    assert_eq!(polled(-1, libc::POLLHUP), LoopAction::CheckClose);
}

#[test]
fn poll_bits_are_those_of_libc() {
    assert_eq!(
        (POLLIN, POLLERR, POLLHUP, POLLNVAL),
        (libc::POLLIN, libc::POLLERR, libc::POLLHUP, libc::POLLNVAL)
    );
}

#[test]
fn loop_goes_on_after_events() {
    assert_eq!(LoopAction::HandleEvents.next(LoopAnswer::Handled), LoopAction::CheckClose);
}

#[test]
fn stopped_loop_stays_stopped() {
    assert_eq!(
        LoopAction::Stop.next(LoopAnswer::Polled { ret: 1, revents: POLLIN }),
        LoopAction::Stop
    );
    assert_eq!(
        LoopAction::Stop.next(LoopAnswer::Close(CloseSignal::Empty)),
        LoopAction::Stop
    );
    assert_eq!(LoopAction::Poll.next(LoopAnswer::Handled), LoopAction::Poll);
}

#[test]
fn close_comes_through_a_channel() {
    let (close, receiver) = crossbeam_channel::bounded(1);
    assert_eq!(LoopAction::first().check_close(&receiver), LoopAction::Poll);
    close.send(()).unwrap();
    assert_eq!(LoopAction::first().check_close(&receiver), LoopAction::Stop);
    assert_eq!(LoopAction::first().check_close(&receiver), LoopAction::Poll);
    drop(close);
    assert_eq!(LoopAction::first().check_close(&receiver), LoopAction::Stop);
}
