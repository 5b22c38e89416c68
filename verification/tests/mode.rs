use evdi::mode::{DrmFormat, EvdiMode, Mode, UnrecognizedFourcc, XRGB8888};

fn sample() -> EvdiMode {
    EvdiMode {
        width: 1280,
        height: 800,
        refresh_rate: 60,
        bits_per_pixel: 32,
        pixel_format: 875713112,
    }
}

fn expected_of_sample() -> Mode {
    Mode {
        width: 1280,
        height: 800,
        refresh_rate: 60,
        bits_per_pixel: 32,
        pixel_format: Ok(DrmFormat { code: XRGB8888 }),
    }
}

#[test]
fn from_sample() {
    let expected = expected_of_sample();
    let actual: Mode = sample().into();

    assert_eq!(format!("{:?}", actual), format!("{:?}", expected));
}

#[test]
fn mode_from_sample() {
    let expected = expected_of_sample();
    let actual = Mode::from(sample());

    assert_eq!(format!("{:?}", actual), format!("{:?}", expected));
}

#[test]
fn xrgb8888_is_the_format_of_drm() {
    assert_eq!(drm_fourcc::DrmFourcc::Xrgb8888 as u32, XRGB8888);
}

#[test]
fn unrecognized_format_is_handed_back() {
    assert_eq!(DrmFormat::recognize(0), Err(UnrecognizedFourcc(0)));
    assert_eq!(DrmFormat::recognize(828601953), Err(UnrecognizedFourcc(828601953)));
    assert_eq!(DrmFormat::recognize(875710274), Ok(DrmFormat { code: 875710274 }));

    let mut sys = sample();
    sys.pixel_format = 1;
    assert_eq!(Mode::from(sys).pixel_format, Err(UnrecognizedFourcc(1)));
}

#[test]
fn mode_with_given_format() {
    let format = Err(UnrecognizedFourcc(3));
    let mode = Mode::with_format(sample(), format);
    assert_eq!(mode.pixel_format, format);
    assert_eq!((mode.width, mode.height), (1280, 800));
    assert_eq!((mode.refresh_rate, mode.bits_per_pixel), (60, 32));
}

#[test]
fn negative_numbers_wrap() {
    let mut sys = sample();
    sys.width = -1;
    assert_eq!(Mode::from(sys).width, u32::MAX);
}
