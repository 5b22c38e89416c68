use evdi::buffer::BufferId;
use evdi::events::{
    AwaitEventError, CrtcState, CursorChange, CursorMove, DdcCiData, DpmsMode, EvdiCursorMove,
    EvdiCursorSet, EvdiDdcciData, EvdiEvent, Event, HandleEvents, Mode, ModeWake, MonitorAction,
    UpdateRecv, UpdateWake,
};
use evdi::mode::{DrmFormat, EvdiMode, UnrecognizedFourcc, XRGB8888};

fn sys_mode(width: i32) -> EvdiMode {
    EvdiMode { width, height: 800, refresh_rate: 60, bits_per_pixel: 32, pixel_format: XRGB8888 }
}

fn cursor_set() -> EvdiCursorSet {
    EvdiCursorSet {
        hot_x: -1,
        hot_y: 2,
        width: 3,
        height: 4,
        enabled: 5,
        buffer: vec![6, 7],
        pixel_format: 8,
        stride: 9,
    }
}

#[test]
fn can_receive_mode() {
    let mut events = HandleEvents::new();
    assert!(events.current_mode().is_none());
    assert!(events.await_mode(ModeWake::Start).is_none());

    match events.on_event(Some(Event::from(EvdiEvent::ModeChanged(sys_mode(1280))))) {
        MonitorAction::PublishMode(mode) => assert_eq!(mode.width, 1280),
        _ => panic!(),
    }
    let mode = events.await_mode(ModeWake::Changed).unwrap().unwrap();
    assert!(mode.height > 100);
    assert_eq!(events.await_mode(ModeWake::Start).unwrap().unwrap().width, 1280);
}

#[test]
fn current_mode_is_the_latest() {
    let mut events = HandleEvents::new();
    events.on_event(Some(Event::ModeChanged(Mode::from(sys_mode(640)))));
    events.on_event(Some(Event::CursorMove(CursorMove { x: 1, y: 2 })));
    events.on_event(Some(Event::ModeChanged(Mode::from(sys_mode(1024)))));
    events.on_event(Some(Event::UpdateReady(BufferId::new(3))));
    events.on_event(None);
    assert_eq!(events.current_mode().unwrap().width, 1024);
}

#[test]
fn events_are_told_apart() {
    let mut events = HandleEvents::new();
    match events.on_event(Some(Event::from(EvdiEvent::UpdateReady(-5)))) {
        MonitorAction::BroadcastUpdate(id) => assert_eq!(id, BufferId::new(-5)),
        _ => panic!(),
    }
    assert!(matches!(
        events.on_event(Some(Event::from(EvdiEvent::Dpms(3)))),
        MonitorAction::Ignore
    ));
    assert!(matches!(
        events.on_event(Some(Event::from(EvdiEvent::CrtcState(1)))),
        MonitorAction::Ignore
    ));
    assert!(matches!(events.on_event(None), MonitorAction::Stop));
    assert!(events.current_mode().is_none());
}

#[test]
fn await_mode_fails() {
    let events = HandleEvents::new();
    assert_eq!(
        events.await_mode(ModeWake::TimedOut).unwrap().unwrap_err(),
        AwaitEventError::Timeout
    );
    assert_eq!(
        events.await_mode(ModeWake::Closed).unwrap().unwrap_err(),
        AwaitEventError::ChannelClosed
    );
}

#[test]
fn await_buffer_update_waits_for_its_buffer() {
    let id = BufferId::new(4);
    let other = UpdateWake::Received(UpdateRecv::Update(BufferId::new(5)));
    let lagged = UpdateWake::Received(UpdateRecv::Lagged(17));
    assert_eq!(HandleEvents::await_buffer_update(id, other), None);
    assert_eq!(HandleEvents::await_buffer_update(id, lagged), None);
    assert_eq!(
        HandleEvents::await_buffer_update(id, UpdateWake::Received(UpdateRecv::Update(id))),
        Some(Ok(()))
    );
    assert_eq!(
        HandleEvents::await_buffer_update(id, UpdateWake::Received(UpdateRecv::Closed)),
        Some(Err(AwaitEventError::ChannelClosed))
    );
    assert_eq!(
        HandleEvents::await_buffer_update(id, UpdateWake::TimedOut),
        Some(Err(AwaitEventError::Timeout))
    );
}

#[test]
fn await_errors_have_messages() {
    assert_eq!(AwaitEventError::Timeout.message(), "Timeout");
    assert_eq!(AwaitEventError::ChannelClosed.message(), "Event channel closed");
}

#[test]
fn dpms_modes_round_trip() {
    let modes = [DpmsMode::On, DpmsMode::Standby, DpmsMode::Suspend, DpmsMode::Off];
    for (value, mode) in modes.iter().enumerate() {
        assert_eq!(mode.value(), value as i32);
        assert_eq!(DpmsMode::from(value as i32), *mode);
    }
}

#[test]
fn events_hold_what_the_handlers_received() {
    assert!(matches!(
        Event::from(EvdiEvent::Dpms(1)),
        Event::DpmsModeChanged(DpmsMode::Standby)
    ));
    assert!(matches!(
        Event::from(EvdiEvent::CrtcState(-2)),
        Event::CrtcStateChanged(CrtcState(-2))
    ));
    match Event::from(EvdiEvent::CursorMove(EvdiCursorMove { x: -3, y: 4 })) {
        Event::CursorMove(cursor_move) => assert_eq!(cursor_move, CursorMove { x: -3, y: 4 }),
        _ => panic!(),
    }
    match Event::from(EvdiEvent::CursorSet(cursor_set())) {
        Event::CursorChange(change) => assert_eq!(change.buffer(), &[6, 7]),
        _ => panic!(),
    }
    let data = EvdiDdcciData { address: 0x37, flags: 1, buffer: vec![5, 6] };
    match Event::from(EvdiEvent::DdcciData(data)) {
        Event::I2CRequest(data) => {
            assert_eq!(data.buffer(), &[5, 6]);
            assert!(data.flag_read_request());
        }
        _ => panic!(),
    }
}

#[test]
fn cursor_change_holds_the_cursor() {
    let change = CursorChange::from(cursor_set());
    assert!(change.enabled);
    assert_eq!((change.hotspot_x, change.hotspot_y), (-1, 2));
    assert_eq!((change.width, change.height, change.stride), (3, 4, 9));
    assert_eq!(change.pixel_format, Err(UnrecognizedFourcc(8)));
    assert_eq!(change.buffer(), &[6, 7]);

    let mut sys = cursor_set();
    sys.enabled = 0;
    sys.pixel_format = XRGB8888;
    let change = CursorChange::from(sys);
    assert!(!change.enabled);
    assert_eq!(change.pixel_format, Ok(DrmFormat { code: XRGB8888 }));

    let given = Ok(DrmFormat { code: 1 });
    assert_eq!(CursorChange::with_format(cursor_set(), given).pixel_format, given);
}

#[test]
fn cloned_events_hold_the_same() {
    let event = Event::CursorChange(CursorChange::from(cursor_set()));
    assert_eq!(format!("{:?}", event.clone()), format!("{:?}", event));
    let event = Event::I2CRequest(DdcCiData { flags: 3, buffer: vec![1, 2] });
    assert_eq!(format!("{:?}", event.clone()), format!("{:?}", event));
    let event = Event::UpdateReady(BufferId::new(8));
    assert_eq!(format!("{:?}", event.clone()), format!("{:?}", event));
}

#[test]
fn ddcci_flags() {
    let request = |flags: u16| DdcCiData { flags, buffer: vec![] };
    assert!(request(1).flag_read_request());
    assert!(!request(1).flag_write_request());
    assert!(!request(0).flag_read_request());
    assert!(request(0).flag_write_request());
    assert!(request(3).flag_read_request());
    assert!(!request(2).flag_read_request());
    assert!(!request(2).flag_write_request());
    assert!(request(0xffff).flag_read_request());
}

#[test]
fn ready_updates_are_broadcast_in_order() {
    let mut events = HandleEvents::new();
    let received = vec![
        Event::UpdateReady(BufferId::new(2)),
        Event::ModeChanged(Mode::from(sys_mode(640))),
        Event::UpdateReady(BufferId::new(1)),
        Event::CrtcStateChanged(CrtcState(1)),
        Event::UpdateReady(BufferId::new(2)),
    ];
    let mut ids = vec![];
    for event in received {
        if let MonitorAction::BroadcastUpdate(id) = events.on_event(Some(event)) {
            ids.push(id.sys());
        }
    }
    assert_eq!(ids, vec![2, 1, 2]);
}

#[test]
fn known_pixel_format_is_recognized_in_events() {
    let format = Ok(DrmFormat { code: XRGB8888 });
    match Event::from(EvdiEvent::ModeChanged(sys_mode(640))) {
        Event::ModeChanged(mode) => assert_eq!(mode.pixel_format, format),
        _ => panic!(),
    }
    let mut sys = cursor_set();
    sys.pixel_format = XRGB8888;
    match Event::from(EvdiEvent::CursorSet(sys)) {
        Event::CursorChange(change) => assert_eq!(change.pixel_format, format),
        _ => panic!(),
    }
}
