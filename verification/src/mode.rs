//! Video modes and the pixel formats that they name.
use vstd::prelude::*;

verus! {

/// The fourcc of the pixel format of 32 bits that hold, from the highest byte down, nothing, red,
/// green and blue.
pub const XRGB8888: u32 = 875713112;

/// A pixel format that DRM knows, by its [fourcc](https://en.wikipedia.org/wiki/FourCC).
#[derive(Debug, Copy, Clone, PartialEq, Eq, Structural)]
pub struct DrmFormat {
    pub code: u32,
}

/// Wraps some u32 that isn't a DRM fourcc we recognize
#[derive(Debug, Copy, Clone, PartialEq, Eq, Structural)]
pub struct UnrecognizedFourcc(pub u32);

/// `drm_fourcc` has a pixel format of this code: `DrmFourcc::try_from` succeeds on it.
pub uninterp spec fn fourcc_recognized(code: u32) -> bool;

/// The pixel format of a code.
pub open spec fn pixel_format_of(code: u32) -> Result<DrmFormat, UnrecognizedFourcc> {
    if fourcc_recognized(code) {
        Ok(DrmFormat { code })
    } else {
        Err(UnrecognizedFourcc(code))
    }
}

/// Calls `drm_fourcc::DrmFourcc::try_from`.
///
/// The contract claims that the result depends on the code alone, that a recognised format is the
/// one of that code, that an unrecognised code is handed back, and that [`XRGB8888`] is
/// recognised. It does not say which other codes are.
#[verifier::external_body]
fn try_fourcc(code: u32) -> (format: Result<u32, u32>)
    ensures
        format == (if fourcc_recognized(code) {
            Ok::<u32, u32>(code)
        } else {
            Err::<u32, u32>(code)
        }),
        code == XRGB8888 ==> format is Ok,
{
    match drm_fourcc::DrmFourcc::try_from(code) {
        Ok(format) => Ok(format as u32),
        Err(unrecognized) => Err(unrecognized.0),
    }
}

impl DrmFormat {
    /// The pixel format that `code` stands for.
    pub fn recognize(code: u32) -> (format: Result<DrmFormat, UnrecognizedFourcc>)
        ensures
            format == pixel_format_of(code),
            code == XRGB8888 ==> format == Ok::<DrmFormat, UnrecognizedFourcc>(DrmFormat { code }),
    {
        match try_fourcc(code) {
            Ok(code) => Ok(DrmFormat { code }),
            Err(code) => Err(UnrecognizedFourcc(code)),
        }
    }
}

/// A mode as libevdi hands it out.
#[derive(Debug, Copy, Clone, PartialEq, Eq, Structural)]
pub struct EvdiMode {
    pub width: i32,
    pub height: i32,
    pub refresh_rate: i32,
    pub bits_per_pixel: i32,
    pub pixel_format: u32,
}

#[derive(Debug, Copy, Clone)]
pub struct Mode {
    pub width: u32,
    pub height: u32,
    /// Max updates per second. You shouldn't request updates of a buffer faster than this.
    pub refresh_rate: u32,
    pub bits_per_pixel: u32,
    pub pixel_format: Result<DrmFormat, UnrecognizedFourcc>,
}

/// The mode that libevdi describes, where its pixel format code is found to stand for
/// `pixel_format`.
pub open spec fn mode_of(
    sys: EvdiMode,
    pixel_format: Result<DrmFormat, UnrecognizedFourcc>,
) -> Mode {
    Mode {
        width: sys.width as u32,
        height: sys.height as u32,
        refresh_rate: sys.refresh_rate as u32,
        bits_per_pixel: sys.bits_per_pixel as u32,
        pixel_format,
    }
}

impl Mode {
    /// The mode that libevdi describes, with its pixel format looked up already.
    pub fn with_format(
        sys: EvdiMode,
        pixel_format: Result<DrmFormat, UnrecognizedFourcc>,
    ) -> (mode: Self)
        ensures
            mode == mode_of(sys, pixel_format),
    {
        Self {
            width: sys.width as u32,
            height: sys.height as u32,
            refresh_rate: sys.refresh_rate as u32,
            bits_per_pixel: sys.bits_per_pixel as u32,
            pixel_format,
        }
    }
}

/// The numbers of a mode that libevdi describes are kept, unless they are negative.
pub proof fn mode_keeps_numbers(
    sys: EvdiMode,
    pixel_format: Result<DrmFormat, UnrecognizedFourcc>,
)
    ensures
        sys.width >= 0 ==> mode_of(sys, pixel_format).width == sys.width,
        sys.height >= 0 ==> mode_of(sys, pixel_format).height == sys.height,
        sys.refresh_rate >= 0 ==> mode_of(sys, pixel_format).refresh_rate == sys.refresh_rate,
        sys.bits_per_pixel >= 0 ==> mode_of(sys, pixel_format).bits_per_pixel
            == sys.bits_per_pixel,
{
}

/// The numbers of a mode that libevdi describes wrap around where they are negative, and its pixel
/// format is the one that was found.
pub proof fn mode_wraps_negative_numbers(
    sys: EvdiMode,
    pixel_format: Result<DrmFormat, UnrecognizedFourcc>,
)
    ensures
        sys.width < 0 ==> mode_of(sys, pixel_format).width == sys.width + 0x1_0000_0000,
        sys.height < 0 ==> mode_of(sys, pixel_format).height == sys.height + 0x1_0000_0000,
        sys.refresh_rate < 0 ==> mode_of(sys, pixel_format).refresh_rate == sys.refresh_rate
            + 0x1_0000_0000,
        sys.bits_per_pixel < 0 ==> mode_of(sys, pixel_format).bits_per_pixel == sys.bits_per_pixel
            + 0x1_0000_0000,
        mode_of(sys, pixel_format).pixel_format == pixel_format,
{
    let (w, h, r, b) = (sys.width, sys.height, sys.refresh_rate, sys.bits_per_pixel);
    assert(w < 0 ==> w as u32 == w + 0x1_0000_0000) by (bit_vector);
    assert(h < 0 ==> h as u32 == h + 0x1_0000_0000) by (bit_vector);
    assert(r < 0 ==> r as u32 == r + 0x1_0000_0000) by (bit_vector);
    assert(b < 0 ==> b as u32 == b + 0x1_0000_0000) by (bit_vector);
}

/// A pixel format that is recognised is the one of the code, and a code that is not is handed back.
pub proof fn format_is_that_of_its_code(code: u32)
    ensures
        fourcc_recognized(code) <==> pixel_format_of(code) is Ok,
        match pixel_format_of(code) {
            Ok(format) => format.code == code,
            Err(unrecognized) => unrecognized.0 == code,
        },
{
}

impl vstd::std_specs::convert::FromSpecImpl<EvdiMode> for Mode {
    open spec fn obeys_from_spec() -> bool {
        true
    }

    open spec fn from_spec(sys: EvdiMode) -> Self {
        mode_of(sys, pixel_format_of(sys.pixel_format))
    }
}

impl From<EvdiMode> for Mode {
    fn from(sys: EvdiMode) -> (mode: Self)
        ensures
            sys.width >= 0 ==> mode.width == sys.width,
            sys.height >= 0 ==> mode.height == sys.height,
            sys.refresh_rate >= 0 ==> mode.refresh_rate == sys.refresh_rate,
            sys.bits_per_pixel >= 0 ==> mode.bits_per_pixel == sys.bits_per_pixel,
            sys.pixel_format == XRGB8888 ==> mode.pixel_format == Ok::<
                DrmFormat,
                UnrecognizedFourcc,
            >(DrmFormat { code: XRGB8888 }),
    {
        Self::with_format(sys, DrmFormat::recognize(sys.pixel_format))
    }
}

} // verus!
