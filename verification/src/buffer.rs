//! Buffer to receive virtual screen pixels
use vstd::prelude::*;

use crate::array::PreallocatedArray;
use crate::mode::{DrmFormat, Mode, UnrecognizedFourcc, XRGB8888};
use crate::text::push_decimal;

verus! {

#[derive(Debug, Copy, Clone, Eq, PartialEq, Hash, Ord, PartialOrd, Structural)]
pub struct BufferId(pub i32);

/// Calls `rand::thread_rng` and `rand::Rng::gen`. Nothing is claimed of the number: it may be any.
#[verifier::external_body]
fn random_id() -> i32 {
    rand::Rng::gen(&mut rand::thread_rng())
}

impl BufferId {
    /// An id by chance. Whatever it is, it can be given to a buffer.
    pub fn generate() -> BufferId {
        Self::new(random_id())
    }

    pub fn new(id: i32) -> (buffer_id: BufferId)
        ensures
            buffer_id == BufferId(id),
    {
        BufferId(id)
    }

    /// The id as libevdi knows it.
    pub fn sys(&self) -> (id: i32)
        ensures
            id == self.0,
    {
        self.0
    }
}

/// An area of the screen that an update changed.
#[derive(Debug, Copy, Clone, Eq, PartialEq, Structural)]
pub struct Rect {
    pub x1: i32,
    pub y1: i32,
    pub x2: i32,
    pub y2: i32,
}

/// Can't have more than 16
/// see <https://displaylink.github.io/evdi/details/#grabbing-pixels>
pub const MAX_RECTS_BUFFER_LEN: usize = 16;

/// Bytes of a pixel of a format of 32 bits.
pub const BGRA_DEPTH: usize = 4;

/// A buffer used to store the virtual screen pixels.
pub struct Buffer {
    /// None if the buffer never been written to, otherwise Some(n) where n increases by some amount
    /// every time the buffer is written to.
    pub version: Option<u32>,
    pub id: BufferId,
    pub buffer: Vec<u8>,
    pub rects: PreallocatedArray<Rect>,
    /// How many areas the latest update changed, -1 before the first.
    pub num_rects: i32,
    pub width: usize,
    pub height: usize,
    pub stride: usize,
    pub pixel_format: Result<DrmFormat, UnrecognizedFourcc>,
}

/// What a [`Buffer`] holds.
#[verifier::ext_equal]
pub struct BufferView {
    pub version: Option<u32>,
    pub id: BufferId,
    pub bytes: Seq<u8>,
    pub rects: Seq<Rect>,
    pub num_rects: int,
    pub width: nat,
    pub height: nat,
    pub stride: nat,
    pub pixel_format: Result<DrmFormat, UnrecognizedFourcc>,
}

/// A buffer as libevdi wants it described when it is registered, but for the places of its bytes
/// and its rects in memory.
#[derive(Debug, Copy, Clone, Eq, PartialEq, Structural)]
pub struct EvdiBuffer {
    pub id: i32,
    pub width: i32,
    pub height: i32,
    pub stride: i32,
    pub rect_count: i32,
}

/// Bytes from the beginning of a line to that of the next.
pub open spec fn stride_of(mode: Mode) -> int {
    (mode.bits_per_pixel / 8) * mode.width
}

/// A buffer for the mode can be allocated.
pub open spec fn buffer_fits(mode: Mode) -> bool {
    stride_of(mode) <= usize::MAX && mode.height * stride_of(mode) <= isize::MAX
}

/// A buffer for the mode that has never been written to: black all over.
pub open spec fn fresh_buffer(mode: Mode, id: BufferId) -> BufferView {
    BufferView {
        version: None,
        id,
        bytes: Seq::new((mode.height * stride_of(mode)) as nat, |i: int| 0u8),
        rects: Seq::empty(),
        num_rects: -1,
        width: mode.width as nat,
        height: mode.height as nat,
        stride: stride_of(mode) as nat,
        pixel_format: mode.pixel_format,
    }
}

/// The version of a buffer after one more update.
pub open spec fn next_version(version: Option<u32>) -> Option<u32> {
    match version {
        None => Some(0),
        Some(n) => Some((n + 1) as u32),
    }
}

/// A buffer has not been updated as often as its version can count.
pub open spec fn can_be_updated(version: Option<u32>) -> bool {
    version != Some(u32::MAX)
}

impl BufferView {
    /// The buffer after an update brought these bytes and changed these areas.
    pub open spec fn updated(self, pixels: Seq<u8>, rects: Seq<Rect>) -> BufferView {
        BufferView {
            version: next_version(self.version),
            bytes: pixels,
            rects,
            num_rects: rects.len() as int,
            ..self
        }
    }
}

/// The head of a PPM file: the magic number, the width, the height and the highest value of a
/// color.
pub open spec fn ppm_header(width: nat, height: nat) -> Seq<u8> {
    crate::text::ascii(
        seq!['P', '6', '\n'] + crate::text::decimal(width) + seq!['\n'] + crate::text::decimal(
            height,
        ) + seq!['\n', '2', '5', '5', '\n'],
    )
}

/// Pixels of a line that a buffer of this width and stride holds.
pub open spec fn pixels_in_line(width: nat, stride: nat) -> nat {
    if width <= stride / 4 {
        width
    } else {
        stride / 4
    }
}

/// `count` pixels in a row, of which the first stands at `start`, as red, green and blue each.
pub open spec fn ppm_line(bytes: Seq<u8>, start: int, count: nat) -> Seq<u8> {
    Seq::new(3 * count, |i: int| bytes[start + 4 * (i / 3) + (2 - i % 3)])
}

/// The first `lines` lines of an image.
pub open spec fn ppm_lines(bytes: Seq<u8>, stride: nat, count: nat, lines: nat) -> Seq<u8>
    decreases lines,
{
    if lines == 0 {
        Seq::empty()
    } else {
        ppm_lines(bytes, stride, count, (lines - 1) as nat) + ppm_line(
            bytes,
            (lines - 1) * stride,
            count,
        )
    }
}

/// A buffer as a PPM file.
pub open spec fn ppm_of(buffer: BufferView) -> Seq<u8> {
    ppm_header(buffer.width, buffer.height) + ppm_lines(
        buffer.bytes,
        buffer.stride,
        pixels_in_line(buffer.width, buffer.stride),
        buffer.height,
    )
}

/// A buffer that was written to has a version, and it is greater than the one before.
pub proof fn version_increases(version: Option<u32>)
    requires
        can_be_updated(version),
    ensures
        next_version(version) is Some,
        version is Some ==> next_version(version).unwrap() > version.unwrap(),
{
}

/// A buffer holds a whole number of lines: as many as the mode is high, each of its stride.
pub proof fn fresh_buffer_holds_lines(mode: Mode, id: BufferId)
    ensures
        fresh_buffer(mode, id).bytes.len() == fresh_buffer(mode, id).height * fresh_buffer(
            mode,
            id,
        ).stride,
        forall|i: int|
            0 <= i < fresh_buffer(mode, id).bytes.len() ==> fresh_buffer(mode, id).bytes[i] == 0,
{
    assert(0 <= (mode.bits_per_pixel / 8) * mode.width) by (nonlinear_arith)
        requires
            mode.bits_per_pixel >= 0,
            mode.width >= 0,
    ;
    assert(0 <= mode.height * stride_of(mode)) by (nonlinear_arith)
        requires
            mode.height >= 0,
            stride_of(mode) >= 0,
    ;
}

proof fn ppm_lines_len(bytes: Seq<u8>, stride: nat, count: nat, lines: nat)
    ensures
        ppm_lines(bytes, stride, count, lines).len() == lines * (3 * count),
    decreases lines,
{
    if lines > 0 {
        ppm_lines_len(bytes, stride, count, (lines - 1) as nat);
        assert(lines * (3 * count) == (lines - 1) * (3 * count) + 3 * count) by (nonlinear_arith);
    } else {
        assert(lines * (3 * count) == 0) by (nonlinear_arith)
            requires
                lines == 0,
        ;
    }
}

proof fn ppm_lines_hold(bytes: Seq<u8>, stride: nat, count: nat, lines: nat, x: int, y: int, c: int)
    requires
        0 <= x < count,
        0 <= y < lines,
        0 <= c < 3,
    ensures
        0 <= 3 * (y * count + x) + c < ppm_lines(bytes, stride, count, lines).len(),
        ppm_lines(bytes, stride, count, lines)[3 * (y * count + x) + c] == bytes[y * stride + 4 * x
            + 2 - c],
    decreases lines,
{
    let above = (lines - 1) as nat;
    ppm_lines_len(bytes, stride, count, lines);
    ppm_lines_len(bytes, stride, count, above);
    let at = 3 * (y * count + x) + c;
    assert(0 <= y * count) by (nonlinear_arith)
        requires
            y >= 0,
            count >= 0,
    ;
    assert(3 * (y * count) == y * (3 * count)) by (nonlinear_arith);
    assert(lines * (3 * count) == above * (3 * count) + 3 * count) by (nonlinear_arith)
        requires
            lines == above + 1,
    ;
    if y == above {
        assert((3 * x + c) / 3 == x && (3 * x + c) % 3 == c);
        assert(ppm_line(bytes, y * stride, count)[3 * x + c] == bytes[y * stride + 4 * x + 2 - c]);
    } else {
        ppm_lines_hold(bytes, stride, count, above, x, y, c);
    }
}

/// The PPM file of a buffer whose lines hold all their pixels has three bytes for each pixel that
/// its head announces, line by line: the red, the green and the blue of that pixel.
pub proof fn ppm_is_complete(buffer: BufferView, x: int, y: int)
    requires
        buffer.stride >= 4 * buffer.width,
        0 <= x < buffer.width,
        0 <= y < buffer.height,
    ensures
        ({
            let head = ppm_header(buffer.width, buffer.height);
            let pixel = y * buffer.stride + 4 * x;
            let at = head.len() + 3 * (y * buffer.width + x);
            &&& ppm_of(buffer).take(head.len() as int) == head
            &&& ppm_of(buffer).len() == head.len() + 3 * (buffer.height * buffer.width)
            &&& ppm_of(buffer)[at] == buffer.bytes[pixel + 2]
            &&& ppm_of(buffer)[at + 1] == buffer.bytes[pixel + 1]
            &&& ppm_of(buffer)[at + 2] == buffer.bytes[pixel]
        }),
{
    let head = ppm_header(buffer.width, buffer.height);
    let (bytes, stride, width, height) = (
        buffer.bytes,
        buffer.stride,
        buffer.width,
        buffer.height,
    );
    assert(ppm_of(buffer).take(head.len() as int) =~= head);
    ppm_lines_len(bytes, stride, width, height);
    assert(height * (3 * width) == 3 * (height * width)) by (nonlinear_arith);
    ppm_lines_hold(bytes, stride, width, height, x, y, 0);
    ppm_lines_hold(bytes, stride, width, height, x, y, 1);
    ppm_lines_hold(bytes, stride, width, height, x, y, 2);
}

/// In a buffer for a mode of 32 bits per pixel or more, the lines hold all their pixels.
pub proof fn lines_hold_all_pixels(mode: Mode, id: BufferId)
    requires
        mode.bits_per_pixel >= 32,
    ensures
        fresh_buffer(mode, id).stride >= 4 * fresh_buffer(mode, id).width,
{
    assert((mode.bits_per_pixel / 8) * mode.width >= 4 * mode.width) by (nonlinear_arith)
        requires
            mode.bits_per_pixel >= 32,
            mode.width >= 0,
    ;
}

/// A buffer for a mode is as wide and as high as the mode, is of its pixel format, has never been
/// written to, and has as many whole bytes for each pixel of a line as the mode has bits for it.
pub proof fn fresh_buffer_is_of_mode(mode: Mode, id: BufferId) -> (pixel_bytes: int)
    ensures
        8 * pixel_bytes <= mode.bits_per_pixel < 8 * pixel_bytes + 8,
        ({
            let buffer = fresh_buffer(mode, id);
            &&& buffer.id == id
            &&& buffer.width == mode.width
            &&& buffer.height == mode.height
            &&& buffer.stride == pixel_bytes * mode.width
            &&& buffer.bytes.len() == buffer.stride * mode.height
            &&& buffer.pixel_format == mode.pixel_format
            &&& buffer.version is None
            &&& buffer.rects.len() == 0
            &&& buffer.num_rects == -1
        }),
{
    let (height, stride) = (mode.height as int, stride_of(mode));
    fresh_buffer_holds_lines(mode, id);
    assert(0 <= (mode.bits_per_pixel / 8) * mode.width) by (nonlinear_arith)
        requires
            mode.bits_per_pixel >= 0,
            mode.width >= 0,
    ;
    assert(height * stride == stride * height) by (nonlinear_arith);
    (mode.bits_per_pixel / 8) as int
}

/// A buffer for a mode can be allocated exactly if its lines, and all of them together, are not
/// longer than memory can be.
pub proof fn modes_of_any_size_fit(mode: Mode, pixel_bytes: int)
    requires
        8 * pixel_bytes <= mode.bits_per_pixel < 8 * pixel_bytes + 8,
    ensures
        buffer_fits(mode) <==> pixel_bytes * mode.width <= usize::MAX && mode.height * (pixel_bytes
            * mode.width) <= isize::MAX,
{
    assert(mode.bits_per_pixel / 8 == pixel_bytes);
}

/// An update brings all bytes and areas that were grabbed, says how many areas there are, and
/// leaves the rest of the buffer as it was.
pub proof fn update_takes_over(buffer: BufferView, pixels: Seq<u8>, rects: Seq<Rect>)
    ensures
        ({
            let after = buffer.updated(pixels, rects);
            &&& after.bytes == pixels
            &&& after.rects == rects
            &&& after.num_rects == rects.len()
            &&& after.id == buffer.id
            &&& after.width == buffer.width
            &&& after.height == buffer.height
            &&& after.stride == buffer.stride
            &&& after.pixel_format == buffer.pixel_format
            &&& after.version is Some
            &&& buffer.version is None ==> after.version == Some(0u32)
        }),
{
}

/// The version of a buffer after some more updates.
pub open spec fn version_after(version: Option<u32>, updates: nat) -> Option<u32>
    decreases updates,
{
    if updates == 0 {
        version
    } else {
        next_version(version_after(version, (updates - 1) as nat))
    }
}

/// The version of a buffer counts its updates from 0: it is one less than how many there were.
pub proof fn version_counts_updates(updates: nat)
    requires
        0 < updates <= 0x1_0000_0000,
    ensures
        version_after(None, updates) == Some((updates - 1) as u32),
    decreases updates,
{
    reveal_with_fuel(version_after, 2);
    if updates > 1 {
        version_counts_updates((updates - 1) as nat);
    }
}

/// A buffer can be updated until its version is the greatest that there is.
pub proof fn buffers_can_be_updated(version: Option<u32>)
    ensures
        !can_be_updated(version) <==> (version matches Some(n) && n == 0xffff_ffff),
{
}

/// The head of a PPM file is four lines: the magic number, the width, the height, and the highest
/// value of a color.
pub proof fn ppm_header_has_four_lines(width: nat, height: nat)
    ensures
        ({
            let head = ppm_header(width, height);
            let w = crate::text::decimal(width);
            let h = crate::text::decimal(height);
            let second = 4 + w.len();
            let third = second + h.len();
            &&& head.len() == third + 5
            &&& head.take(3) == seq![80u8, 54, 10]
            &&& head.subrange(3, (3 + w.len()) as int) == crate::text::ascii(w)
            &&& head[second - 1] == 10
            &&& head.subrange(second as int, third as int) == crate::text::ascii(h)
            &&& head.skip(third as int) == seq![10u8, 50, 53, 53, 10]
        }),
{
    let head = ppm_header(width, height);
    let w = crate::text::decimal(width);
    let h = crate::text::decimal(height);
    let second = 4 + w.len();
    let third = second + h.len();
    assert(head.take(3) =~= seq![80u8, 54, 10]);
    assert(head.subrange(3, (3 + w.len()) as int) =~= crate::text::ascii(w));
    assert(head.subrange(second as int, third as int) =~= crate::text::ascii(h));
    assert(head.skip(third as int) =~= seq![10u8, 50, 53, 53, 10]);
}

/// Of a line as many pixels are written as the buffer is wide, or as many whole ones as the line
/// has bytes for, if those are fewer.
pub proof fn lines_are_written_as_far_as_they_go(width: nat, stride: nat)
    ensures
        pixels_in_line(width, stride) <= width,
        4 * pixels_in_line(width, stride) <= stride,
        pixels_in_line(width, stride) == width || 4 * (pixels_in_line(width, stride) + 1) > stride,
{
}

/// The PPM file of a buffer has three bytes for each pixel that its lines hold, behind its head and
/// line by line: the red, the green and the blue of that pixel.
pub proof fn ppm_holds_all_pixels(buffer: BufferView, x: int, y: int)
    requires
        0 <= x < pixels_in_line(buffer.width, buffer.stride),
        0 <= y < buffer.height,
    ensures
        ({
            let head = ppm_header(buffer.width, buffer.height);
            let count = pixels_in_line(buffer.width, buffer.stride);
            let pixel = y * buffer.stride + 4 * x;
            let at = head.len() + 3 * (y * count + x);
            &&& ppm_of(buffer).take(head.len() as int) == head
            &&& ppm_of(buffer).len() == head.len() + 3 * (buffer.height * count)
            &&& ppm_of(buffer)[at] == buffer.bytes[pixel + 2]
            &&& ppm_of(buffer)[at + 1] == buffer.bytes[pixel + 1]
            &&& ppm_of(buffer)[at + 2] == buffer.bytes[pixel]
        }),
{
    let head = ppm_header(buffer.width, buffer.height);
    let count = pixels_in_line(buffer.width, buffer.stride);
    let (bytes, stride, height) = (buffer.bytes, buffer.stride, buffer.height);
    assert(ppm_of(buffer).take(head.len() as int) =~= head);
    ppm_lines_len(bytes, stride, count, height);
    assert(height * (3 * count) == 3 * (height * count)) by (nonlinear_arith);
    ppm_lines_hold(bytes, stride, count, height, x, y, 0);
    ppm_lines_hold(bytes, stride, count, height, x, y, 1);
    ppm_lines_hold(bytes, stride, count, height, x, y, 2);
}

/// The PPM file of a buffer without lines, or whose lines hold no pixel, is its head alone.
pub proof fn empty_ppm_is_its_head(buffer: BufferView)
    requires
        buffer.height == 0 || pixels_in_line(buffer.width, buffer.stride) == 0,
    ensures
        ppm_of(buffer) == ppm_header(buffer.width, buffer.height),
{
    let count = pixels_in_line(buffer.width, buffer.stride);
    ppm_lines_len(buffer.bytes, buffer.stride, count, buffer.height);
    assert(buffer.height * (3 * count) == 0) by (nonlinear_arith)
        requires
            buffer.height == 0 || count == 0,
    ;
    assert(ppm_of(buffer) =~= ppm_header(buffer.width, buffer.height));
}

impl View for Buffer {
    type V = BufferView;

    open spec fn view(&self) -> BufferView {
        BufferView {
            version: self.version,
            id: self.id,
            bytes: self.buffer@,
            rects: self.rects@,
            num_rects: self.num_rects as int,
            width: self.width as nat,
            height: self.height as nat,
            stride: self.stride as nat,
            pixel_format: self.pixel_format,
        }
    }
}

impl Buffer {
    /// There are as many bytes as the lines take, and as many slots for rects as there may be.
    pub open spec fn wf(&self) -> bool {
        self.buffer@.len() == self.height * self.stride && self.rects.wf() && self.rects.max_len
            == MAX_RECTS_BUFFER_LEN
    }

    /// Get a reference to the underlying bytes of this buffer.
    ///
    /// Use [`Buffer::width`], [`Buffer::height`], [`Buffer::stride`], and [`Buffer::pixel_format`]
    /// to interpret this.
    pub fn bytes(&self) -> (bytes: &[u8])
        ensures
            bytes@ == self@.bytes,
    {
        self.buffer.as_slice()
    }

    /// Append the pixels in the unoptimized image format [PPM].
    ///
    /// This is useful when debugging, as you can open a file of these bytes in an image viewer and
    /// see if the buffer is processed correctly.
    ///
    /// Only for the pixel format Xrgb8888, to simplify the implementation. This function should
    /// therefore only be used as a debug helper where you can guarantee that your kernel won't
    /// output in a different format.
    ///
    /// [PPM]: http://netpbm.sourceforge.net/doc/ppm.html
    pub fn debug_write_to_ppm(&self, f: &mut Vec<u8>)
        requires
            self.wf(),
            self.stride > 0,
            self.pixel_format == Ok::<DrmFormat, UnrecognizedFourcc>(DrmFormat { code: XRGB8888 }),
        ensures
            final(f)@ == old(f)@ + ppm_of(self@),
    {
        let ghost before = f@;
        Self::write_header(f, self.width, self.height);
        let ghost header = f@;
        let line_pixels: usize = self.stride / BGRA_DEPTH;
        let count: usize = if self.width <= line_pixels {
            self.width
        } else {
            line_pixels
        };
        let len: usize = self.buffer.len();
        let mut y: usize = 0;
        let mut start: usize = 0;
        while y < self.height
            invariant
                self.wf(),
                len == self.buffer@.len(),
                y <= self.height,
                start == y * self.stride,
                count == pixels_in_line(self.width as nat, self.stride as nat),
                f@ == header + ppm_lines(self.buffer@, self.stride as nat, count as nat, y as nat),
            decreases self.height - y,
        {
            proof {
                let (y, stride, height) = (y as int, self.stride as int, self.height as int);
                assert((y + 1) * stride <= height * stride) by (nonlinear_arith)
                    requires
                        y + 1 <= height,
                        stride >= 0,
                ;
                assert((y + 1) * stride == y * stride + stride) by (nonlinear_arith);
            }
            Self::write_line(f, &self.buffer, start, count);
            y += 1;
            start += self.stride;
            proof {
                assert(f@ =~= header + ppm_lines(
                    self.buffer@,
                    self.stride as nat,
                    count as nat,
                    y as nat,
                ));
            }
        }
        proof {
            assert(f@ =~= before + ppm_of(self@));
        }
    }

    fn write_header(f: &mut Vec<u8>, width: usize, height: usize)
        ensures
            final(f)@ == old(f)@ + ppm_header(width as nat, height as nat),
    {
        f.push('P' as u8);
        f.push('6' as u8);
        f.push('\n' as u8);
        push_decimal(f, width);
        f.push('\n' as u8);
        push_decimal(f, height);
        f.push('\n' as u8);
        f.push('2' as u8);
        f.push('5' as u8);
        f.push('5' as u8);
        f.push('\n' as u8);
        proof {
            assert(f@ =~= old(f)@ + ppm_header(width as nat, height as nat));
        }
    }

    /// Appends a line of `count` pixels of which the first stands at `start`.
    fn write_line(f: &mut Vec<u8>, bytes: &Vec<u8>, start: usize, count: usize)
        requires
            start + 4 * count <= bytes@.len(),
        ensures
            final(f)@ == old(f)@ + ppm_line(bytes@, start as int, count as nat),
    {
        let ghost before = f@;
        let len: usize = bytes.len();
        let mut x: usize = 0;
        while x < count
            invariant
                x <= count,
                start + 4 * count <= len,
                len == bytes@.len(),
                f@ == before + ppm_line(bytes@, start as int, x as nat),
            decreases count - x,
        {
            let pixel: usize = start + BGRA_DEPTH * x;
            let b: u8 = bytes[pixel];
            let g: u8 = bytes[pixel + 1];
            let r: u8 = bytes[pixel + 2];
            f.push(r);
            f.push(g);
            f.push(b);
            x += 1;
            proof {
                assert(f@ =~= before + ppm_line(bytes@, start as int, x as nat));
            }
        }
    }

    /// The description with which the buffer is registered.
    pub fn sys(&self) -> (sys: EvdiBuffer)
        ensures
            sys == (EvdiBuffer {
                id: self.id.0,
                width: self.width as i32,
                height: self.height as i32,
                stride: self.stride as i32,
                rect_count: 0,
            }),
            sys.id == self.id.0,
            sys.rect_count == 0,
            self.width <= i32::MAX ==> sys.width == self.width,
            self.height <= i32::MAX ==> sys.height == self.height,
            self.stride <= i32::MAX ==> sys.stride == self.stride,
    {
        EvdiBuffer {
            id: self.id.sys(),
            width: self.width as i32,
            height: self.height as i32,
            stride: self.stride as i32,
            rect_count: 0,
        }
    }

    /// Counts an update.
    pub fn mark_updated(&mut self)
        requires
            can_be_updated(old(self).version),
        ensures
            final(self)@ == (BufferView {
                version: next_version(old(self).version),
                ..old(self)@
            }),
            old(self).wf() ==> final(self).wf(),
    {
        self.version = if let Some(prev) = self.version {
            Some(prev + 1)
        } else {
            Some(0)
        }
    }

    /// Takes over what a grab of the screen brought, and counts the update.
    pub fn update(&mut self, pixels: Vec<u8>, rects: &[Rect])
        requires
            old(self).wf(),
            can_be_updated(old(self).version),
            pixels@.len() == old(self)@.bytes.len(),
            rects@.len() <= MAX_RECTS_BUFFER_LEN,
        ensures
            final(self).wf(),
            final(self)@ == old(self)@.updated(pixels@, rects@),
    {
        self.buffer = pixels;
        self.rects.fill(rects);
        self.num_rects = rects.len() as i32;
        self.mark_updated();
    }

    /// Allocate a buffer to store the screen of a device with a specific mode.
    pub fn new(mode: &Mode) -> (buffer: Self)
        requires
            buffer_fits(*mode),
        ensures
            buffer.wf(),
            buffer@ == fresh_buffer(*mode, buffer.id),
    {
        Self::with_id(mode, BufferId::generate())
    }

    /// Allocate a buffer that is known by `id`.
    pub fn with_id(mode: &Mode, id: BufferId) -> (buffer: Self)
        requires
            buffer_fits(*mode),
        ensures
            buffer.wf(),
            buffer@ == fresh_buffer(*mode, id),
    {
        let width: usize = mode.width as usize;
        let height: usize = mode.height as usize;
        let bits_per_pixel: usize = mode.bits_per_pixel as usize;
        let stride: usize = bits_per_pixel / 8 * width;
        let buffer: Vec<u8> = vec![0u8; height * stride];
        let rects: Vec<Rect> = vec![Rect { x1: 0, y1: 0, x2: 0, y2: 0 }; MAX_RECTS_BUFFER_LEN];
        let buffer = Buffer {
            version: None,
            id,
            buffer,
            rects: PreallocatedArray::new(rects, 0),
            num_rects: -1,
            width,
            height,
            stride,
            pixel_format: mode.pixel_format,
        };
        proof {
            assert(buffer@ =~= fresh_buffer(*mode, id));
        }
        buffer
    }
}

} // verus!
