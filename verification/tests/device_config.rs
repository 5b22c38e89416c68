use evdi::device_config::edid::{
    basic_display_params, bin_frac, chromaticity_coords, header, ChromaticityCoord,
    ChromaticityCoords, ScreenSizeCm, SAMPLE_EDID,
};
use evdi::device_config::DeviceConfig;

/// A fraction in 1024ths.
fn rounded(f: f32) -> u16 {
    (f * 1024_f32).round() as u16
}

#[test]
fn bin_frac_correctly_converts_examples_in_spec() {
    assert_eq!(bin_frac(rounded(0.610)), [0b10011100, 0b01]);
    assert_eq!(bin_frac(rounded(0.307)), [0b01001110, 0b10]);
    assert_eq!(bin_frac(rounded(0.150)), [0b00100110, 0b10]);
}

#[test]
fn bin_frac_round_trips() {
    for n in 0..1024u16 {
        let bytes = bin_frac(n);
        assert_eq!(4 * bytes[0] as u16 + bytes[1] as u16, n);
    }
    assert_eq!(bin_frac(1024), [0, 0]);
    assert_eq!(bin_frac(u16::MAX), [0xff, 0b11]);
}

#[test]
fn chromaticity_coords_are_packed() {
    let coords = ChromaticityCoords {
        red: ChromaticityCoord { x: 0b10011100_01, y: 0b01010101_10 },
        green: ChromaticityCoord { x: 0b01001110_11, y: 0b10011001_00 },
        blue: ChromaticityCoord { x: 0b00100110_10, y: 0b00001111_11 },
        default_white_point: ChromaticityCoord { x: 0b01010000_00, y: 0b01010100_01 },
    };
    assert_eq!(
        chromaticity_coords(coords),
        [
            0b00_11_10_01,
            0b01_00_11_10,
            0b10011100,
            0b01010101,
            0b01001110,
            0b10011001,
            0b00100110,
            0b00001111,
            0b01010000,
            0b01010100,
        ]
    );
}

#[test]
fn basic_display_params_are_in_order() {
    let size = ScreenSizeCm { horizontal: 34, vertical: 19 };
    assert_eq!(basic_display_params(size, 120), [0b1_111_0101, 34, 19, 120, 0b000_00_0_1_0]);
}

#[test]
fn header_is_blank() {
    assert_eq!(header(), [0; 19]);
}

#[test]
fn sample_is_a_valid_config() {
    let config = DeviceConfig::sample();
    assert_eq!(config.width_pixels, 1920);
    assert_eq!(config.height_pixels, 1080);
    let edid = config.edid();
    assert_eq!(edid, &SAMPLE_EDID);
    assert_eq!(edid.len(), 128);
    assert_eq!(edid[..8], [0x00, 0xff, 0xff, 0xff, 0xff, 0xff, 0xff, 0x00]);
    assert_eq!(edid.iter().fold(0u8, |sum, byte| sum.wrapping_add(*byte)), 0);
    assert_eq!(edid[56] as u32 + 256 * (edid[58] as u32 >> 4), config.width_pixels);
    assert_eq!(edid[59] as u32 + 256 * (edid[61] as u32 >> 4), config.height_pixels);
}

#[test]
fn config_keeps_what_it_is_made_of() {
    let config = DeviceConfig::new(&[1, 2, 3], 640, 480);
    assert_eq!(config.edid(), &[1, 2, 3]);
    assert_eq!(config.sku_area_limit(), 307200);
    let copy = config.clone();
    assert_eq!(copy.edid(), &[1, 2, 3]);
    assert_eq!((copy.width_pixels, copy.height_pixels), (640, 480));
}

#[test]
fn largest_area_fits() {
    let config = DeviceConfig::new(&[], 65535, 65537);
    assert_eq!(config.sku_area_limit(), u32::MAX);
    assert_eq!(DeviceConfig::new(&[], 0, u32::MAX).sku_area_limit(), 0);
}
