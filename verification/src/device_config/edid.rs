//! Parts of an EDID block.
//!
//! See Wikipedia <https://en.wikipedia.org/wiki/Extended_Display_Identification_Data#EDID_1.4_data_format>
//! and the standard <https://glenwing.github.io/docs/VESA-EEDID-A2.pdf>
use vstd::prelude::*;

verus! {

/// Bitmask. This indicates digital=true, bit depth=reserved, video interface=DisplayPort
pub const VIDEO_PARAMS: u8 = 0xf5;

/// Bitmask. This indicates dpms standby=false,dpms suspend=false,dpms active-off=false,
/// display type=RGB 4:4:4 + YCrCb 4:2:2,standard sRGB=false, timing mode includes native pixel
/// format and refresh rate=true, continuous timings with GTF or CVT=false
pub const SUPPORTED_FEATURES: u8 = 0x02;

/// An EDID 1.4 block of an LG panel of 1920 by 1080 pixels.
pub const SAMPLE_EDID: [u8; 128] = [
    0x00, 0xff, 0xff, 0xff, 0xff, 0xff, 0xff, 0x00, 0x30, 0xe4, 0xe5, 0x05, 0x00, 0x00, 0x00, 0x00,
    0x00, 0x1c, 0x01, 0x04, 0xf5, 0x22, 0x13, 0x78, 0x02, 0x38, 0xd5, 0x97, 0x5e, 0x59, 0x8e, 0x27,
    0x1c, 0x50, 0x54, 0x00, 0x00, 0x00, 0x01, 0x01, 0x01, 0x01, 0x01, 0x01, 0x01, 0x01, 0x01, 0x01,
    0x01, 0x01, 0x01, 0x01, 0x01, 0x01, 0x24, 0x36, 0x80, 0xa0, 0x70, 0x38, 0x1f, 0x40, 0x30, 0x20,
    0x35, 0x00, 0x58, 0xc2, 0x10, 0x00, 0x00, 0x19, 0x00, 0x00, 0x00, 0x10, 0x00, 0x00, 0x00, 0x00,
    0x00, 0x00, 0x00, 0x00, 0x00, 0x00, 0x00, 0x00, 0x00, 0x00, 0x00, 0x00, 0x00, 0x10, 0x00, 0x00,
    0x00, 0x00, 0x00, 0x00, 0x00, 0x00, 0x00, 0x00, 0x00, 0x00, 0x00, 0x00, 0x00, 0x00, 0x00, 0x10,
    0x00, 0x00, 0x00, 0x00, 0x00, 0x00, 0x00, 0x00, 0x00, 0x00, 0x00, 0x00, 0x00, 0x00, 0x00, 0xea,
];

/// The sum of the first `n` bytes.
pub open spec fn byte_sum(bytes: Seq<u8>, n: nat) -> nat
    decreases n,
{
    if n == 0 {
        0
    } else {
        byte_sum(bytes, (n - 1) as nat) + bytes[n - 1] as nat
    }
}

/// An EDID block without extensions: 128 bytes that begin with the magic number and whose sum is a
/// multiple of 256.
pub open spec fn is_edid(bytes: Seq<u8>) -> bool {
    &&& bytes.len() == 128
    &&& bytes.take(8) == seq![0u8, 0xff, 0xff, 0xff, 0xff, 0xff, 0xff, 0]
    &&& bytes[126] == 0
    &&& byte_sum(bytes, 128) % 256 == 0
}

/// The width that the first detailed timing of an EDID block gives: eight bits in one byte, and
/// above them the upper half of another.
pub open spec fn edid_width(bytes: Seq<u8>) -> int {
    bytes[56] + 256 * (bytes[58] / 16)
}

/// The height that the first detailed timing of an EDID block gives.
pub open spec fn edid_height(bytes: Seq<u8>) -> int {
    bytes[59] + 256 * (bytes[61] / 16)
}

/// The sample is a valid EDID block, of a screen of 1920 by 1080 pixels.
pub proof fn sample_edid_is_valid()
    ensures
        is_edid(SAMPLE_EDID@),
        edid_width(SAMPLE_EDID@) == 1920,
        edid_height(SAMPLE_EDID@) == 1080,
{
    let bytes = SAMPLE_EDID@;
    assert(bytes.take(8) =~= seq![0u8, 0xff, 0xff, 0xff, 0xff, 0xff, 0xff, 0]);
    reveal_with_fuel(byte_sum, 9);
    assert(byte_sum(bytes, 8) == 1530);
    assert(byte_sum(bytes, 16) == 2040);
    assert(byte_sum(bytes, 24) == 2491);
    assert(byte_sum(bytes, 32) == 3277);
    assert(byte_sum(bytes, 40) == 3471);
    assert(byte_sum(bytes, 48) == 3479);
    assert(byte_sum(bytes, 56) == 3575);
    assert(byte_sum(bytes, 64) == 4206);
    assert(byte_sum(bytes, 72) == 4582);
    assert(byte_sum(bytes, 80) == 4598);
    assert(byte_sum(bytes, 88) == 4598);
    assert(byte_sum(bytes, 96) == 4614);
    assert(byte_sum(bytes, 104) == 4614);
    assert(byte_sum(bytes, 112) == 4630);
    assert(byte_sum(bytes, 120) == 4630);
    assert(byte_sum(bytes, 128) == 4864);
}

/// The first bytes of an EDID block, all of them left at zero.
pub fn header() -> (bytes: [u8; 19])
    ensures
        forall|i: int| 0 <= i < 19 ==> bytes@[i] == 0,
{
    [0u8; 19]
}

#[derive(Debug, Clone, Copy, PartialEq, Eq, Structural)]
pub struct ScreenSizeCm {
    pub horizontal: u8,
    pub vertical: u8,
}

/// The bytes that describe a display: its interface, its size, its gamma and what it supports.
pub fn basic_display_params(size: ScreenSizeCm, gamma: u8) -> (bytes: [u8; 5])
    ensures
        bytes@ == seq![VIDEO_PARAMS, size.horizontal, size.vertical, gamma, SUPPORTED_FEATURES],
{
    [VIDEO_PARAMS, size.horizontal, size.vertical, gamma, SUPPORTED_FEATURES]
}

/// CIE 1931 xy coordinates for red, green, blue, and white point.
///
/// On Windows, get with <https://docs.microsoft.com/en-us/windows/win32/wmicoreprov/wmimonitorcolorcharacteristics>
#[derive(Debug, Clone, Copy, PartialEq, Eq, Structural)]
pub struct ChromaticityCoords {
    pub red: ChromaticityCoord,
    pub green: ChromaticityCoord,
    pub blue: ChromaticityCoord,
    pub default_white_point: ChromaticityCoord,
}

/// A point of the plane of colors, in 1024ths, rounded.
#[derive(Debug, Clone, Copy, PartialEq, Eq, Structural)]
pub struct ChromaticityCoord {
    pub x: u16,
    pub y: u16,
}

/// The most significant 8 of the lowest 10 bits of a number.
pub open spec fn frac_msb(n: u16) -> u8 {
    (n / 4 % 256) as u8
}

/// The least significant 2 bits of a number.
pub open spec fn frac_lsb(n: u16) -> u8 {
    (n % 4) as u8
}

/// Four numbers of 2 bits in a byte, the first of them lowest.
pub open spec fn packed(a: u8, b: u8, c: u8, d: u8) -> u8 {
    (a + 4 * b + 16 * c + 64 * d) as u8
}

/// The bytes of the chromaticity coordinates: the low bits of all of them in two bytes, then the
/// high bits of each.
pub open spec fn chromaticity_bytes(data: ChromaticityCoords) -> Seq<u8> {
    seq![
        packed(
            frac_lsb(data.red.x),
            frac_lsb(data.red.y),
            frac_lsb(data.green.x),
            frac_lsb(data.green.y),
        ),
        packed(
            frac_lsb(data.blue.x),
            frac_lsb(data.blue.y),
            frac_lsb(data.default_white_point.x),
            frac_lsb(data.default_white_point.y),
        ),
        frac_msb(data.red.x),
        frac_msb(data.red.y),
        frac_msb(data.green.x),
        frac_msb(data.green.y),
        frac_msb(data.blue.x),
        frac_msb(data.blue.y),
        frac_msb(data.default_white_point.x),
        frac_msb(data.default_white_point.y),
    ]
}

/// The chromaticity coordinates as they stand in an EDID block.
pub fn chromaticity_coords(data: ChromaticityCoords) -> (bytes: [u8; 10])
    ensures
        bytes@ == chromaticity_bytes(data),
{
    let rx = bin_frac(data.red.x);
    let ry = bin_frac(data.red.y);
    let gx = bin_frac(data.green.x);
    let gy = bin_frac(data.green.y);
    let bx = bin_frac(data.blue.x);
    let by = bin_frac(data.blue.y);
    let wx = bin_frac(data.default_white_point.x);
    let wy = bin_frac(data.default_white_point.y);

    [
        pack(rx[1], ry[1], gx[1], gy[1]),
        pack(bx[1], by[1], wx[1], wy[1]),
        rx[0],
        ry[0],
        gx[0],
        gy[0],
        bx[0],
        by[0],
        wx[0],
        wy[0],
    ]
}

fn pack(a: u8, b: u8, c: u8, d: u8) -> (byte: u8)
    requires
        a < 4,
        b < 4,
        c < 4,
        d < 4,
    ensures
        byte == packed(a, b, c, d),
{
    assert(a | b << 2 | c << 4 | d << 6 == a + 4 * b + 16 * c + 64 * d) by (bit_vector)
        requires
            a < 4,
            b < 4,
            c < 4,
            d < 4,
    ;
    a | b << 2 | c << 4 | d << 6
}

/// Computes 10-bit binary fraction representation per section 3.7 of the standard
///
/// * `n` - the fraction in 1024ths, rounded.
pub fn bin_frac(n: u16) -> (bytes: [u8; 2])
    ensures
        bytes@ == seq![frac_msb(n), frac_lsb(n)],
{
    assert((n >> 2) as u8 == n / 4 % 256 && (n & 3) as u8 == n % 4) by (bit_vector);
    let msb: u8 = (n >> 2) as u8;
    let lsb: u8 = (n & 3) as u8;
    [msb, lsb]
}

/// The two bytes of a fraction of 10 bits give the fraction back.
pub proof fn bin_frac_round_trip(n: u16)
    requires
        n < 1024,
    ensures
        4 * frac_msb(n) + frac_lsb(n) == n,
{
}

/// The two bytes of a number give its lowest 10 bits back, the lowest 2 of them in the second byte.
pub proof fn bin_frac_keeps_ten_bits(n: u16)
    ensures
        4 * frac_msb(n) + frac_lsb(n) == n % 1024,
        frac_lsb(n) < 4,
{
}

/// Each of the eight chromaticity coordinates can be read back from its bytes: its high bits from a
/// byte of its own, its low bits from the byte that it shares with three others.
pub proof fn chromaticity_round_trip(data: ChromaticityCoords)
    ensures
        ({
            let bytes = chromaticity_bytes(data);
            &&& bytes.len() == 10
            &&& 4 * bytes[2] + bytes[0] % 4 == data.red.x % 1024
            &&& 4 * bytes[3] + bytes[0] / 4 % 4 == data.red.y % 1024
            &&& 4 * bytes[4] + bytes[0] / 16 % 4 == data.green.x % 1024
            &&& 4 * bytes[5] + bytes[0] / 64 == data.green.y % 1024
            &&& 4 * bytes[6] + bytes[1] % 4 == data.blue.x % 1024
            &&& 4 * bytes[7] + bytes[1] / 4 % 4 == data.blue.y % 1024
            &&& 4 * bytes[8] + bytes[1] / 16 % 4 == data.default_white_point.x % 1024
            &&& 4 * bytes[9] + bytes[1] / 64 == data.default_white_point.y % 1024
        }),
{
    bin_frac_keeps_ten_bits(data.red.x);
    bin_frac_keeps_ten_bits(data.red.y);
    bin_frac_keeps_ten_bits(data.green.x);
    bin_frac_keeps_ten_bits(data.green.y);
    bin_frac_keeps_ten_bits(data.blue.x);
    bin_frac_keeps_ten_bits(data.blue.y);
    bin_frac_keeps_ten_bits(data.default_white_point.x);
    bin_frac_keeps_ten_bits(data.default_white_point.y);
    packed_round_trip(
        frac_lsb(data.red.x),
        frac_lsb(data.red.y),
        frac_lsb(data.green.x),
        frac_lsb(data.green.y),
    );
    packed_round_trip(
        frac_lsb(data.blue.x),
        frac_lsb(data.blue.y),
        frac_lsb(data.default_white_point.x),
        frac_lsb(data.default_white_point.y),
    );
}

/// Four numbers of 2 bits that were packed into a byte can be taken out of it again.
pub proof fn packed_round_trip(a: u8, b: u8, c: u8, d: u8)
    requires
        a < 4,
        b < 4,
        c < 4,
        d < 4,
    ensures
        packed(a, b, c, d) % 4 == a,
        packed(a, b, c, d) / 4 % 4 == b,
        packed(a, b, c, d) / 16 % 4 == c,
        packed(a, b, c, d) / 64 == d,
{
}

} // verus!
