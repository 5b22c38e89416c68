use evdi::buffer::{Buffer, BufferId, Rect};
use evdi::device_config::DeviceConfig;
use evdi::device_node::DeviceNode;
use evdi::events::AwaitEventError;
use evdi::handle::{Handle, RequestUpdateError, UnconnectedHandle, UpdateAnswer, UpdateStep};
use evdi::mode::{DrmFormat, Mode, XRGB8888};

fn handle_fixture() -> Handle {
    UnconnectedHandle::new(DeviceNode::new(1), 0x4000).connect(&DeviceConfig::sample()).0
}

fn mode() -> Mode {
    Mode {
        width: 2,
        height: 1,
        refresh_rate: 60,
        bits_per_pixel: 32,
        pixel_format: Ok(DrmFormat { code: XRGB8888 }),
    }
}

fn grabbed(byte: u8) -> UpdateAnswer {
    UpdateAnswer::Grabbed {
        pixels: vec![byte; 8],
        rects: vec![Rect { x1: 0, y1: 0, x2: 1, y2: 1 }],
    }
}

/// Updates a buffer that the kernel has ready at once.
fn update(handle: &mut Handle, id: BufferId, byte: u8) -> Result<(), RequestUpdateError> {
    let mut step = UpdateStep::Begin(id);
    loop {
        let answer = match step {
            UpdateStep::Begin(_) => UpdateAnswer::Go,
            UpdateStep::CallRequestUpdate(_) => UpdateAnswer::Ready(true),
            UpdateStep::AwaitUpdate(_) => UpdateAnswer::Awaited(Ok(())),
            UpdateStep::GrabPixels(_) => grabbed(byte),
            UpdateStep::Done(result) => return result,
        };
        step = handle.request_update(step, answer);
    }
}

#[test]
fn can_connect() {
    let config = DeviceConfig::new(&[1, 2, 3], 640, 480);
    let (handle, request) = UnconnectedHandle::new(DeviceNode::new(1), 0x4000).connect(&config);
    assert_eq!(handle.device, DeviceNode::new(1));
    assert_eq!(handle.sys, 0x4000);
    assert_eq!(handle.device_config.edid(), &[1, 2, 3]);
    assert_eq!(handle.device_config.width_pixels, 640);
    assert!(handle.buffers.is_empty());
    assert!(handle.events.current_mode().is_none());

    assert_eq!(request.sys, 0x4000);
    assert_eq!(request.edid, vec![1, 2, 3]);
    assert_eq!(request.edid_length, 3);
    assert_eq!(request.sku_area_limit, 640 * 480);
}

#[test]
fn can_disconnect() {
    let mut handle = handle_fixture();

    for _ in 0..10 {
        let unconnected = handle.disconnect();
        assert_eq!(unconnected.device, DeviceNode::new(1));
        assert_eq!(unconnected.sys, 0x4000);
        handle = unconnected.connect(&DeviceConfig::sample()).0
    }
}

#[test]
fn update_can_be_called_multiple_times() {
    let mut handle = handle_fixture();
    let buf_id = handle.new_buffer(&mode());

    for _ in 0..5 {
        update(&mut handle, buf_id, 7).unwrap();
    }
    assert_eq!(handle.get_buffer(buf_id).unwrap().version, Some(4));
}

#[test]
fn version_increases_with_every_update() {
    let mut handle = handle_fixture();
    let buf_id = handle.new_buffer(&mode());
    assert!(handle.get_buffer(buf_id).expect("Buffer exists").version.is_none());

    update(&mut handle, buf_id, 1).unwrap();
    let after_first = handle.get_buffer(buf_id).unwrap().version.unwrap();

    update(&mut handle, buf_id, 2).unwrap();
    let after_second = handle.get_buffer(buf_id).unwrap().version.unwrap();

    assert!(after_second > after_first);
}

#[test]
fn bytes_is_non_empty() {
    let mut handle = handle_fixture();
    let buf_id = handle.new_buffer(&mode());
    update(&mut handle, buf_id, 200).unwrap();
    let buf = handle.get_buffer(buf_id).unwrap();

    let mut total: u32 = 0;
    let mut len: u32 = 0;
    for byte in buf.bytes().iter() {
        total += *byte as u32;
        len += 1;
    }

    let avg = total / len;
    assert!(avg > 10);
    assert_eq!(buf.bytes(), &[200; 8]);
    assert_eq!(buf.num_rects, 1);
}

#[test]
fn cannot_get_buffer_after_unregister() {
    let mut handle = handle_fixture();

    let buf = handle.new_buffer(&mode());
    assert!(handle.unregister_buffer(buf));
    assert!(handle.get_buffer(buf).is_none());
    let res = update(&mut handle, buf, 1);
    assert!(matches!(res.unwrap_err(), RequestUpdateError::UnregisteredBuffer));
    assert!(!handle.unregister_buffer(buf));
}

#[test]
fn buffer_can_be_unregistered_during_an_update() {
    let mut handle = handle_fixture();
    let buf = handle.new_buffer(&mode());
    handle.unregister_buffer(buf);
    let step = handle.request_update(UpdateStep::GrabPixels(buf), grabbed(1));
    assert_eq!(step, UpdateStep::Done(Err(RequestUpdateError::UnregisteredBuffer)));
}

#[test]
fn update_is_awaited_when_it_is_not_ready() {
    let mut handle = handle_fixture();
    let id = handle.new_buffer(&mode());

    let step = handle.request_update(UpdateStep::Begin(id), UpdateAnswer::Go);
    assert_eq!(step, UpdateStep::CallRequestUpdate(id));
    let step = handle.request_update(step, UpdateAnswer::Ready(false));
    assert_eq!(step, UpdateStep::AwaitUpdate(id));
    let step = handle.request_update(step, UpdateAnswer::Awaited(Ok(())));
    assert_eq!(step, UpdateStep::GrabPixels(id));
    assert!(handle.get_buffer(id).unwrap().version.is_none());
    let step = handle.request_update(step, grabbed(3));
    assert_eq!(step, UpdateStep::Done(Ok(())));
    assert_eq!(handle.get_buffer(id).unwrap().bytes(), &[3; 8]);
}

#[test]
fn failed_update_changes_nothing() {
    for error in [AwaitEventError::Timeout, AwaitEventError::ChannelClosed] {
        let mut handle = handle_fixture();
        let id = handle.new_buffer(&mode());
        let step = handle.request_update(
            UpdateStep::AwaitUpdate(id),
            UpdateAnswer::Awaited(Err(error)),
        );
        assert_eq!(step, UpdateStep::Done(Err(RequestUpdateError::AwaitUpdate(error))));
        assert!(handle.get_buffer(id).unwrap().version.is_none());
        assert_eq!(handle.get_buffer(id).unwrap().bytes(), &[0; 8]);
        assert_eq!(handle.request_update(step, grabbed(1)), step);
    }
}

#[test]
fn update_leaves_other_buffers_alone() {
    let mut handle = handle_fixture();
    let one = handle.add_buffer(Buffer::with_id(&mode(), BufferId::new(1)));
    let two = handle.add_buffer(Buffer::with_id(&mode(), BufferId::new(2)));
    update(&mut handle, one, 5).unwrap();
    assert_eq!(handle.get_buffer(one).unwrap().bytes(), &[5; 8]);
    assert_eq!(handle.get_buffer(two).unwrap().bytes(), &[0; 8]);
    assert!(handle.get_buffer(two).unwrap().version.is_none());
    handle.unregister_buffer(one);
    assert!(handle.get_buffer(two).is_some());
}

#[test]
fn handles_are_equal_by_their_device_context() {
    let config = DeviceConfig::sample();
    let other = UnconnectedHandle::new(DeviceNode::new(1), 0x5000).connect(&config).0;
    let same = UnconnectedHandle::new(DeviceNode::new(2), 0x4000).connect(&config).0;
    assert!(handle_fixture() == same);
    assert!(handle_fixture() != other);
}

#[test]
fn update_errors_have_messages() {
    let error = RequestUpdateError::from(AwaitEventError::Timeout);
    assert_eq!(error, RequestUpdateError::AwaitUpdate(AwaitEventError::Timeout));
    assert_eq!(error.message(), "Kernel chose to update async, failed to await response");
    assert_eq!(
        RequestUpdateError::UnregisteredBuffer.message(),
        "The buffer provided does not exist or is attached to a different handle"
    );
}
