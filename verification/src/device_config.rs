//! Config of virtual output display
use vstd::prelude::*;

use crate::device_config::edid::SAMPLE_EDID;

pub mod edid;

verus! {

/// Describes a virtual display to output to. The EDID must match width_pixels and height_pixels.
pub struct DeviceConfig {
    pub edid: Vec<u8>,
    pub width_pixels: u32,
    pub height_pixels: u32,
}

/// What a [`DeviceConfig`] holds.
#[verifier::ext_equal]
pub struct DeviceConfigView {
    pub edid: Seq<u8>,
    pub width_pixels: u32,
    pub height_pixels: u32,
}

impl View for DeviceConfig {
    type V = DeviceConfigView;

    open spec fn view(&self) -> DeviceConfigView {
        DeviceConfigView {
            edid: self.edid@,
            width_pixels: self.width_pixels,
            height_pixels: self.height_pixels,
        }
    }
}

impl DeviceConfigView {
    /// How many pixels the display has.
    pub open spec fn area(self) -> int {
        self.width_pixels * self.height_pixels
    }
}

/// The config that [`DeviceConfig::sample`] makes.
pub open spec fn sample_config() -> DeviceConfigView {
    DeviceConfigView { edid: SAMPLE_EDID@, width_pixels: 1920, height_pixels: 1080 }
}

impl Clone for DeviceConfig {
    fn clone(&self) -> (config: Self)
        ensures
            config@ == self@,
    {
        Self::new(self.edid(), self.width_pixels, self.height_pixels)
    }
}

impl DeviceConfig {
    /// A valid config that can be used in testing.
    pub fn sample() -> (config: Self)
        ensures
            config@ == sample_config(),
    {
        Self::new(&SAMPLE_EDID, 1920, 1080)
    }

    /// Create a config.
    ///
    /// `edid` is the bytes of an [Extended Display Identification Data][edid_wiki]
    ///
    /// [edid_wiki]: https://en.wikipedia.org/wiki/Extended_Display_Identification_Data
    pub fn new(edid: &[u8], width_pixels: u32, height_pixels: u32) -> (config: Self)
        ensures
            config@ == (DeviceConfigView { edid: edid@, width_pixels, height_pixels }),
    {
        Self { edid: vstd::slice::slice_to_vec(edid), width_pixels, height_pixels }
    }

    pub fn edid(&self) -> (edid: &[u8])
        ensures
            edid@ == self@.edid,
    {
        self.edid.as_slice()
    }

    /// The most pixels that the display can show.
    pub fn sku_area_limit(&self) -> (area: u32)
        requires
            self@.area() <= u32::MAX,
        ensures
            area == self@.area(),
    {
        self.width_pixels * self.height_pixels
    }
}

/// A display has one more column of pixels for each pixel that it is wider, and none where it has no
/// width.
pub proof fn area_counts_pixels(narrow: DeviceConfigView, wide: DeviceConfigView)
    requires
        wide.width_pixels == narrow.width_pixels + 1,
        wide.height_pixels == narrow.height_pixels,
    ensures
        wide.area() == narrow.area() + narrow.height_pixels,
        narrow.width_pixels == 0 ==> narrow.area() == 0,
{
    let (w, h) = (narrow.width_pixels as int, narrow.height_pixels as int);
    assert((w + 1) * h == w * h + h) by (nonlinear_arith);
    assert(w == 0 ==> w * h == 0) by (nonlinear_arith);
}

/// The sample config is valid: its EDID is a valid block, and matches its width and its height.
pub proof fn sample_config_is_valid()
    ensures
        edid::is_edid(sample_config().edid),
        edid::edid_width(sample_config().edid) == sample_config().width_pixels,
        edid::edid_height(sample_config().edid) == sample_config().height_pixels,
        sample_config().area() <= u32::MAX,
{
    edid::sample_edid_is_valid();
}

} // verus!
