//! The raster image: bit-packed lines of 720 dots, one per print line.
//!
//! Dot `x` of a line lies in byte `89 - x / 8`, at bit `x % 8`: the columns
//! run against the bytes, as the print head does against the feed.
use vstd::prelude::*;

verus! {

/// Dots in one raster line.
pub const LINE_DOTS: u32 = 720;

/// Bytes in one raster line.
pub const LINE_BYTES: usize = 90;

/// The byte of a line that holds dot `x`.
pub open spec fn dot_byte(x: int) -> int {
    89 - x / 8
}

/// The bit, as a mask within its byte, that stands for dot `x`.
pub open spec fn dot_mask(x: int) -> u8 {
    1u8 << ((x % 8) as u8)
}

/// Whether dot `x` is set in the line `line`.
pub open spec fn line_dot(line: Seq<u8>, x: int) -> bool {
    line[dot_byte(x)] & dot_mask(x) != 0
}

/// The line `line` with dot `x` set as well.
pub open spec fn line_with_dot(line: Seq<u8>, x: int) -> Seq<u8> {
    line.update(dot_byte(x), line[dot_byte(x)] | dot_mask(x))
}

/// Setting a bit of a byte sets that bit and leaves the other seven.
proof fn lemma_or_bit(b: u8, i: u8, j: u8)
    by (bit_vector)
    requires
        i < 8,
        j < 8,
    ensures
        ((b | (1u8 << i)) & (1u8 << j) != 0) == ((b & (1u8 << j) != 0) || i == j),
{
}

/// Setting dot `x` of a line sets that dot and changes no other.
pub proof fn lemma_line_with_dot(line: Seq<u8>, x: int, other: int)
    requires
        line.len() == 90,
        0 <= x < 720,
        0 <= other < 720,
    ensures
        line_dot(line_with_dot(line, x), other) == (line_dot(line, other) || other == x),
{
    if dot_byte(x) == dot_byte(other) {
        lemma_or_bit(line[dot_byte(x)], (x % 8) as u8, (other % 8) as u8);
    }
}

/// Setting a dot that is set changes nothing.
pub proof fn lemma_line_with_dot_twice(line: Seq<u8>, x: int)
    requires
        line.len() == 90,
        0 <= x < 720,
    ensures
        line_with_dot(line_with_dot(line, x), x) == line_with_dot(line, x),
{
    let b = line[dot_byte(x)];
    let m = dot_mask(x);
    assert((b | m) | m == b | m) by (bit_vector);
    assert(line_with_dot(line_with_dot(line, x), x) =~= line_with_dot(line, x));
}

/// Raster lines for the printers that are 720 dots wide.
pub struct RasterBuffer(Vec<[u8; 90]>);

/// The lines in print order, for one transfer each. Reading them leaves
/// the buffer as it is, so they can be gone through again.
impl std::ops::Deref for RasterBuffer {
    type Target = Vec<[u8; 90]>;

    fn deref(&self) -> (lines: &Vec<[u8; 90]>)
        ensures
            lines@.len() == self@.len(),
            forall|y: int| 0 <= y < lines@.len() ==> (#[trigger] lines@[y])@ == self@[y],
    {
        &self.0
    }
}

impl RasterBuffer {
    /// The lines, first print line first, each as its 90 bytes.
    pub closed spec fn view(&self) -> Seq<Seq<u8>> {
        self.0@.map_values(|line: [u8; 90]| line@)
    }

    /// Whether dot `x` of line `y` is set.
    pub open spec fn dot(&self, x: int, y: int) -> bool {
        line_dot(self@[y], x)
    }

    /// Every line is 90 bytes long.
    pub proof fn lemma_line_len(&self, y: int)
        requires
            0 <= y < self@.len(),
        ensures
            self@[y].len() == 90,
    {
    }

    /// Setting dot `x` of line `y` sets that dot, and changes no other dot
    /// of any line.
    pub proof fn lemma_dot_set(before: RasterBuffer, after: RasterBuffer, x: int, y: int)
        requires
            0 <= x < 720,
            0 <= y < before@.len(),
            after@ == before@.update(y, line_with_dot(before@[y], x)),
        ensures
            forall|c: int, v: int|
                0 <= c < 720 && 0 <= v < before@.len() ==> #[trigger] after.dot(c, v) == (
                before.dot(c, v) || (c == x && v == y)),
    {
        assert forall|c: int, v: int|
            0 <= c < 720 && 0 <= v < before@.len() implies #[trigger] after.dot(c, v) == (
            before.dot(c, v) || (c == x && v == y)) by {
            if v == y {
                lemma_line_with_dot(before@[y], x, c);
            }
        }
    }

    /// A buffer of `height` blank lines.
    pub fn new(height: u32) -> (buffer: RasterBuffer)
        ensures
            buffer@ == Seq::new(height as nat, |y: int| Seq::new(90, |i: int| 0u8)),
    {
        let mut pbuf: Vec<[u8; 90]> = Vec::new();
        let mut line: u32 = 0;
        while line < height
            invariant
                line <= height,
                pbuf@.len() == line,
                forall|y: int, i: int| 0 <= y < line && 0 <= i < 90 ==> pbuf@[y]@[i] == 0u8,
            decreases height - line,
        {
            pbuf.push([0u8; 90]);
            line += 1;
        }
        let buffer = RasterBuffer(pbuf);
        assert(buffer@ =~~= Seq::new(height as nat, |y: int| Seq::new(90, |i: int| 0u8)));
        buffer
    }

    /// Number of lines.
    pub fn len(&self) -> (n: usize)
        ensures
            n == self@.len(),
    {
        self.0.len()
    }

    /// Line `y`.
    pub fn line(&self, y: usize) -> (line: &[u8; 90])
        requires
            y < self@.len(),
        ensures
            line@ == self@[y as int],
    {
        &self.0[y]
    }

    /// Sets dot `x` of line `y`. A column off the line, 720 or beyond, is
    /// dropped: the buffer stays as it is. Dots are only ever set, so setting
    /// one twice is setting it once.
    pub fn set_pixel(&mut self, x: u32, y: u32)
        requires
            y < old(self)@.len(),
        ensures
            x >= 720 ==> final(self)@ == old(self)@,
            x < 720 ==> final(self)@ == old(self)@.update(
                y as int,
                line_with_dot(old(self)@[y as int], x as int),
            ),
    {
        if x < 720 {
            let idx = (89 - x / 8) as usize;
            let bit = x % 8;
            let mut line = self.0[y as usize];
            line[idx] = line[idx] | (1u8 << bit);
            self.0[y as usize] = line;
            assert(self@ =~~= old(self)@.update(
                y as int,
                line_with_dot(old(self)@[y as int], x as int),
            ));
        }
    }

    /// Takes one pixel of a source image into the buffer: the pixel in
    /// column `x` and row `y`, shifted `hshift` dots along the line, becomes
    /// a set dot if it is dark, that is if `luma` is at most `threshold`.
    /// A light pixel changes nothing, and neither does one that the shift
    /// moves off the line.
    pub fn plot(&mut self, x: u32, y: u32, hshift: u32, luma: u8, threshold: u8)
        requires
            y < old(self)@.len(),
        ensures
            final(self)@ == if luma <= threshold && x + hshift < 720 {
                old(self)@.update(y as int, line_with_dot(old(self)@[y as int], x + hshift))
            } else {
                old(self)@
            },
    {
        let column: u64 = x as u64 + hshift as u64;
        if column < 720 && luma <= threshold {
            self.set_pixel(column as u32, y);
        }
    }

    /// The raster image of a source image given by its brightness, row by
    /// row: `luma[y * width + x]` is the pixel in column `x` of row `y`. The
    /// image has one line for each row, and in it exactly the dots of the
    /// dark pixels that the shift leaves on the line.
    pub fn from_luma(width: u32, height: u32, luma: &[u8], hshift: u32, threshold: u8) -> (buffer:
        RasterBuffer)
        requires
            luma@.len() == width * height,
        ensures
            buffer@.len() == height,
            forall|x: int, y: int|
                0 <= x < 720 && 0 <= y < height ==> #[trigger] buffer.dot(x, y) == inked(
                    luma@,
                    width as int,
                    hshift as int,
                    threshold,
                    x,
                    y,
                ),
    {
        let total = luma.len();
        let mut buffer = RasterBuffer::new(height);
        assert forall|x: int, y: int| 0 <= x < 720 && 0 <= y < height implies !#[trigger] line_dot(
            buffer@[y],
            x,
        ) by {
            lemma_blank_has_no_dot((x % 8) as u8);
        }
        let mut row_start: usize = 0;
        let mut y: u32 = 0;
        while y < height
            invariant
                y <= height,
                total == luma@.len() == width * height,
                row_start == y * width,
                buffer@.len() == height,
                forall|x: int, v: int|
                    0 <= x < 720 && 0 <= v < y ==> #[trigger] line_dot(buffer@[v], x) == inked(
                        luma@,
                        width as int,
                        hshift as int,
                        threshold,
                        x,
                        v,
                    ),
                forall|x: int, v: int|
                    0 <= x < 720 && y <= v < height ==> !#[trigger] line_dot(buffer@[v], x),
            decreases height - y,
        {
            assert((y + 1) * width <= height * width && (y + 1) * width == y * width + width)
                by (nonlinear_arith)
                requires
                    y < height,
            ;
            let mut x: u32 = 0;
            while x < width
                invariant
                    x <= width,
                    y < height,
                    total == luma@.len() == width * height,
                    row_start == y * width,
                    row_start + width <= total,
                    buffer@.len() == height,
                    forall|c: int, v: int|
                        0 <= c < 720 && 0 <= v < y ==> #[trigger] line_dot(buffer@[v], c) == inked(
                            luma@,
                            width as int,
                            hshift as int,
                            threshold,
                            c,
                            v,
                        ),
                    forall|c: int, v: int|
                        0 <= c < 720 && y < v < height ==> !#[trigger] line_dot(buffer@[v], c),
                    forall|c: int|
                        0 <= c < 720 ==> #[trigger] line_dot(buffer@[y as int], c) == (c - hshift
                            < x && inked(
                            luma@,
                            width as int,
                            hshift as int,
                            threshold,
                            c,
                            y as int,
                        )),
                decreases width - x,
            {
                let ghost before = buffer@;
                let value = luma[row_start + x as usize];
                buffer.plot(x, y, hshift, value, threshold);
                proof {
                    buffer.lemma_line_len(y as int);
                    assert forall|c: int| 0 <= c < 720 implies #[trigger] line_dot(
                        buffer@[y as int],
                        c,
                    ) == (c - hshift < x + 1 && inked(
                        luma@,
                        width as int,
                        hshift as int,
                        threshold,
                        c,
                        y as int,
                    )) by {
                        assert(line_dot(before[y as int], c) == (c - hshift < x && inked(
                            luma@,
                            width as int,
                            hshift as int,
                            threshold,
                            c,
                            y as int,
                        )));
                        if value <= threshold && x + hshift < 720 {
                            assert(before[y as int].len() == 90);
                            lemma_line_with_dot(before[y as int], x + hshift, c);
                        }
                    }
                }
                x += 1;
            }
            row_start += width as usize;
            y += 1;
        }
        buffer
    }
}

/// Whether the raster image of a source image has dot `x` of line `y` set:
/// the dot must be the place of a source column after the shift, and the
/// pixel there must be dark.
pub open spec fn inked(
    luma: Seq<u8>,
    width: int,
    hshift: int,
    threshold: u8,
    x: int,
    y: int,
) -> bool {
    &&& hshift <= x < hshift + width
    &&& luma[y * width + (x - hshift)] <= threshold
}

/// The shift that sets a source image of `width` dots against the right
/// end of the line; an image wider than the line is not shifted, and loses
/// its columns from 720 on.
pub fn right_aligned_shift(width: u32) -> (hshift: u32)
    ensures
        hshift == if width <= 720 {
            720 - width
        } else {
            0
        },
{
    if width <= LINE_DOTS {
        LINE_DOTS - width
    } else {
        0
    }
}

/// A zero byte has no bit set.
proof fn lemma_blank_has_no_dot(i: u8)
    by (bit_vector)
    requires
        i < 8,
    ensures
        0u8 & (1u8 << i) == 0,
{
}

} // verus!
