use evdi::array::PreallocatedArray;
use evdi::buffer::{Buffer, BufferId, EvdiBuffer, Rect, BGRA_DEPTH, MAX_RECTS_BUFFER_LEN};
use evdi::mode::{DrmFormat, Mode, UnrecognizedFourcc, XRGB8888};

fn mode(width: u32, height: u32, bits_per_pixel: u32) -> Mode {
    Mode {
        width,
        height,
        refresh_rate: 60,
        bits_per_pixel,
        pixel_format: Ok(DrmFormat { code: XRGB8888 }),
    }
}

fn rect(x: i32) -> Rect {
    Rect { x1: x, y1: x + 1, x2: x + 2, y2: x + 3 }
}

#[test]
fn can_create_buffer() {
    let buffer = Buffer::new(&mode(1280, 800, 32));
    assert_eq!(buffer.version, None);
    assert_eq!((buffer.width, buffer.height, buffer.stride), (1280, 800, 5120));
    assert_eq!(buffer.bytes().len(), 800 * 5120);
    assert!(buffer.bytes().iter().all(|byte| *byte == 0));
    assert_eq!(buffer.num_rects, -1);
    assert!(buffer.rects.as_ref().is_empty());
    assert_eq!(buffer.rects.max_len, MAX_RECTS_BUFFER_LEN);
    assert_eq!(buffer.pixel_format, Ok(DrmFormat { code: XRGB8888 }));
}

#[test]
fn can_access_buffer_sys() {
    let buffer = Buffer::with_id(&mode(1280, 800, 32), BufferId::new(-7));
    assert_eq!(
        buffer.sys(),
        EvdiBuffer { id: -7, width: 1280, height: 800, stride: 5120, rect_count: 0 }
    );
}

#[test]
fn buffer_keeps_the_pixel_format() {
    let mut mode = mode(1, 1, 32);
    mode.pixel_format = Err(UnrecognizedFourcc(9));
    assert_eq!(Buffer::new(&mode).pixel_format, Err(UnrecognizedFourcc(9)));
}

#[test]
fn stride_is_in_whole_bytes_per_pixel() {
    assert_eq!(Buffer::new(&mode(10, 2, 24)).stride, 30);
    assert_eq!(Buffer::new(&mode(10, 2, 15)).stride, 10);
    assert_eq!(Buffer::new(&mode(10, 2, 7)).stride, 0);
    assert_eq!(Buffer::new(&mode(10, 2, 7)).bytes().len(), 0);
    assert_eq!(Buffer::new(&mode(0, 2, 32)).bytes().len(), 0);
    assert_eq!(Buffer::new(&mode(10, 0, 32)).bytes().len(), 0);
}

#[test]
fn ids_are_chosen_by_chance() {
    let first = BufferId::generate();
    assert!((0..16).any(|_| BufferId::generate() != first));
    assert_eq!(BufferId::new(12).sys(), 12);
}

#[test]
fn version_counts_updates() {
    let mut buffer = Buffer::with_id(&mode(2, 1, 32), BufferId::new(1));
    assert_eq!(buffer.version, None);
    buffer.mark_updated();
    assert_eq!(buffer.version, Some(0));
    buffer.mark_updated();
    assert_eq!(buffer.version, Some(1));
    buffer.version = Some(u32::MAX - 1);
    buffer.mark_updated();
    assert_eq!(buffer.version, Some(u32::MAX));
}

#[test]
fn update_brings_pixels_and_rects() {
    let mut buffer = Buffer::with_id(&mode(2, 1, 32), BufferId::new(1));
    buffer.update(vec![1, 2, 3, 4, 5, 6, 7, 8], &[rect(1), rect(2)]);
    assert_eq!(buffer.bytes(), &[1, 2, 3, 4, 5, 6, 7, 8]);
    assert_eq!(buffer.rects.as_ref(), &[rect(1), rect(2)]);
    assert_eq!(buffer.num_rects, 2);
    assert_eq!(buffer.version, Some(0));

    buffer.update(vec![0; 8], &[]);
    assert_eq!(buffer.rects.as_ref(), &[]);
    assert_eq!(buffer.num_rects, 0);
    assert_eq!(buffer.version, Some(1));

    buffer.update(vec![9; 8], &[rect(5); MAX_RECTS_BUFFER_LEN]);
    assert_eq!(buffer.rects.as_ref().len(), 16);
    assert_eq!(buffer.id, BufferId::new(1));
    assert_eq!((buffer.width, buffer.height, buffer.stride), (2, 1, 8));
}

#[test]
fn can_output_debug() {
    let mut buffer = Buffer::with_id(&mode(2, 3, 32), BufferId::new(1));
    buffer.update((1..25).collect(), &[]);
    let mut file = vec![];
    buffer.debug_write_to_ppm(&mut file);

    let mut expected = b"P6\n2\n3\n255\n".to_vec();
    expected.extend_from_slice(&[
        3, 2, 1, 7, 6, 5, 11, 10, 9, 15, 14, 13, 19, 18, 17, 23, 22, 21,
    ]);
    assert_eq!(file, expected);
}

#[test]
fn ppm_is_appended() {
    let mut file = vec![42];
    Buffer::with_id(&mode(1, 0, 32), BufferId::new(1)).debug_write_to_ppm(&mut file);
    assert_eq!(file, b"*P6\n1\n0\n255\n");
}

#[test]
fn ppm_has_three_bytes_for_each_pixel() {
    let buffer = Buffer::new(&mode(1280, 800, 32));
    let mut file = vec![];
    buffer.debug_write_to_ppm(&mut file);
    let head = b"P6\n1280\n800\n255\n";
    assert_eq!(&file[..head.len()], head);
    assert_eq!(file.len(), head.len() + 3 * 1280 * 800);
}

#[test]
fn ppm_skips_what_lies_between_lines() {
    let mut buffer = Buffer::with_id(&mode(1, 2, 64), BufferId::new(1));
    buffer.update((1..17).collect(), &[]);
    assert_eq!(buffer.stride, 2 * BGRA_DEPTH);
    let mut file = vec![];
    buffer.debug_write_to_ppm(&mut file);
    assert_eq!(file, b"P6\n1\n2\n255\n\x03\x02\x01\x0b\x0a\x09");
}

#[test]
fn preallocated_array_shows_what_is_populated() {
    let mut array = PreallocatedArray::new(vec![1u8, 2, 3], 2);
    assert_eq!(array.as_ref(), &[1, 2]);
    assert_eq!(array.max_len, 3);
    array.data_mut()[0] = 9;
    *array.len_mut() = 3;
    assert_eq!(array.as_ref(), &[9, 2, 3]);
    array.fill(&[7]);
    assert_eq!(array.as_ref(), &[7]);
    assert_eq!(array.data, vec![7, 2, 3]);
}
