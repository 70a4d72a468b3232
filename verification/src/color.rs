//! Display-side encodings of a finished frame buffer: quantizing the
//! exact shading rationals to 8-bit channels, web hex color strings,
//! and the plain-text pixel-file encoding.

use vstd::prelude::*;
use vstd::string::StringExecFns;
use crate::math::SCALE;
use crate::raster::Depthpixel;
use crate::raster::PixM;
use crate::raster::NUM_LIMIT;
use crate::raster::DEN_LIMIT;
use crate::camera::Display;

verus! {

/// An 8-bit RGB color.
#[derive(Clone, Copy, Debug, PartialEq, Eq, Structural)]
pub struct Color(pub u8, pub u8, pub u8);

impl Default for Color {
    fn default() -> (r: Color)
        ensures
            r == (Color(0, 0, 0)),
    {
        Color(0, 0, 0)
    }
}

/// The hexadecimal digit character of a value in [0, 16).
pub open spec fn hex_digit(d: int) -> char {
    if d == 0 {
        '0'
    } else if d == 1 {
        '1'
    } else if d == 2 {
        '2'
    } else if d == 3 {
        '3'
    } else if d == 4 {
        '4'
    } else if d == 5 {
        '5'
    } else if d == 6 {
        '6'
    } else if d == 7 {
        '7'
    } else if d == 8 {
        '8'
    } else if d == 9 {
        '9'
    } else if d == 10 {
        'A'
    } else if d == 11 {
        'B'
    } else if d == 12 {
        'C'
    } else if d == 13 {
        'D'
    } else if d == 14 {
        'E'
    } else {
        'F'
    }
}

/// The decimal digit character of a value in [0, 10).
pub open spec fn dec_digit(d: int) -> char {
    if d == 0 {
        '0'
    } else if d == 1 {
        '1'
    } else if d == 2 {
        '2'
    } else if d == 3 {
        '3'
    } else if d == 4 {
        '4'
    } else if d == 5 {
        '5'
    } else if d == 6 {
        '6'
    } else if d == 7 {
        '7'
    } else if d == 8 {
        '8'
    } else {
        '9'
    }
}

/// The decimal digit string of a non-negative value, most significant
/// digit first, without leading zeros (a lone zero for 0).
pub open spec fn dec_chars(n: int) -> Seq<char>
    decreases n,
{
    if n < 10 {
        seq![dec_digit(n)]
    } else {
        dec_chars(n / 10).push(dec_digit(n % 10))
    }
}

/// The "#RRGGBB" character sequence of an 8-bit RGB triple.
pub open spec fn web_color_chars(r: int, g: int, b: int) -> Seq<char> {
    seq![
        '#',
        hex_digit(r / 16),
        hex_digit(r % 16),
        hex_digit(g / 16),
        hex_digit(g % 16),
        hex_digit(b / 16),
        hex_digit(b % 16),
    ]
}

impl Color {
    /// The "#RRGGBB" web form of the color, upper-case hex digits.
    pub fn to_web_colors(self) -> (r: String)
        ensures
            r@ == web_color_chars(self.0 as int, self.1 as int, self.2 as int),
    {
        proof {
            reveal_strlit("#");
        }
        let mut s = String::new();
        s.append("#");
        let h0 = hex_str(self.0 / 16);
        s.append(h0);
        let h1 = hex_str(self.0 % 16);
        s.append(h1);
        let h2 = hex_str(self.1 / 16);
        s.append(h2);
        let h3 = hex_str(self.1 % 16);
        s.append(h3);
        let h4 = hex_str(self.2 / 16);
        s.append(h4);
        let h5 = hex_str(self.2 % 16);
        s.append(h5);
        proof {
            assert("#"@ =~= seq!['#']);
            assert(s@ =~= web_color_chars(self.0 as int, self.1 as int, self.2 as int));
        }
        s
    }
}

/// The one-character string of a hexadecimal digit.
pub fn hex_str(d: u8) -> (r: &'static str)
    requires
        d < 16,
    ensures
        r@ == seq![hex_digit(d as int)],
{
    proof {
        reveal_strlit("0");
        reveal_strlit("1");
        reveal_strlit("2");
        reveal_strlit("3");
        reveal_strlit("4");
        reveal_strlit("5");
        reveal_strlit("6");
        reveal_strlit("7");
        reveal_strlit("8");
        reveal_strlit("9");
        reveal_strlit("A");
        reveal_strlit("B");
        reveal_strlit("C");
        reveal_strlit("D");
        reveal_strlit("E");
        reveal_strlit("F");
    }
    let r: &'static str = if d == 0 {
        "0"
    } else if d == 1 {
        "1"
    } else if d == 2 {
        "2"
    } else if d == 3 {
        "3"
    } else if d == 4 {
        "4"
    } else if d == 5 {
        "5"
    } else if d == 6 {
        "6"
    } else if d == 7 {
        "7"
    } else if d == 8 {
        "8"
    } else if d == 9 {
        "9"
    } else if d == 10 {
        "A"
    } else if d == 11 {
        "B"
    } else if d == 12 {
        "C"
    } else if d == 13 {
        "D"
    } else if d == 14 {
        "E"
    } else {
        "F"
    };
    proof {
        assert(r@ =~= seq![hex_digit(d as int)]);
    }
    r
}

/// The one-character string of a decimal digit.
pub fn dec_digit_str(d: u64) -> (r: &'static str)
    requires
        d < 10,
    ensures
        r@ == seq![dec_digit(d as int)],
{
    proof {
        reveal_strlit("0");
        reveal_strlit("1");
        reveal_strlit("2");
        reveal_strlit("3");
        reveal_strlit("4");
        reveal_strlit("5");
        reveal_strlit("6");
        reveal_strlit("7");
        reveal_strlit("8");
        reveal_strlit("9");
    }
    let r: &'static str = if d == 0 {
        "0"
    } else if d == 1 {
        "1"
    } else if d == 2 {
        "2"
    } else if d == 3 {
        "3"
    } else if d == 4 {
        "4"
    } else if d == 5 {
        "5"
    } else if d == 6 {
        "6"
    } else if d == 7 {
        "7"
    } else if d == 8 {
        "8"
    } else {
        "9"
    };
    proof {
        assert(r@ =~= seq![dec_digit(d as int)]);
    }
    r
}

/// The decimal string of a non-negative value.
pub fn dec_str(n: u64) -> (r: String)
    ensures
        r@ == dec_chars(n as int),
    decreases n,
{
    if n < 10 {
        let d = dec_digit_str(n);
        let mut s = String::new();
        s.append(d);
        proof {
            assert(s@ =~= dec_chars(n as int));
        }
        s
    } else {
        let mut s = dec_str(n / 10);
        let d = dec_digit_str(n % 10);
        s.append(d);
        proof {
            assert(s@ =~= dec_chars(n as int));
        }
        s
    }
}

/// The darkened 8-bit channel a shading rational is displayed as:
/// `(1 - value) * 256 * 0.4` truncated and clamped to [0, 255], where
/// `value` is `vn / (d * SCALE)` world units.  With `SCALE` at 1024
/// that is `(d * SCALE - vn) / (10 * d)`.
pub open spec fn shade_channel(vn: int, d: int) -> int {
    let num = d * SCALE - vn;
    if num <= 0 {
        0
    } else if num / (10 * d) > 255 {
        255
    } else {
        num / (10 * d)
    }
}

/// The plain 8-bit channel of the pixel-file encoding:
/// `value * 256` truncated and clamped to [0, 255], where `value` is
/// `vn / (d * SCALE)` world units.  With `SCALE` at 1024 that is
/// `vn / (4 * d)`.
pub open spec fn ppm_channel(vn: int, d: int) -> int {
    if vn <= 0 {
        0
    } else if vn / (4 * d) > 255 {
        255
    } else {
        vn / (4 * d)
    }
}

/// Quotient of two non-negative `i128` values within range.
fn udiv_i128(a: i128, b: i128) -> (r: i128)
    requires
        0 <= a,
        0 < b,
    ensures
        r == a as int / b as int,
{
    proof {
        vstd::arithmetic::div_mod::lemma_div_nonincreasing(a as int, b as int);
        vstd::arithmetic::div_mod::lemma_div_pos_is_pos(a as int, b as int);
    }
    ((a as u128) / (b as u128)) as i128
}

/// The darkened display channel of one shading numerator over the
/// cell's denominator.
pub fn shade_channel_u8(vn: i128, d: i128) -> (r: u8)
    requires
        1 <= d <= DEN_LIMIT,
        -NUM_LIMIT <= vn <= NUM_LIMIT,
    ensures
        r as int == shade_channel(vn as int, d as int),
{
    proof {
        crate::math::lemma_mul_bound(d as int, SCALE as int, DEN_LIMIT as int, SCALE as int);
    }
    let num: i128 = d * (SCALE as i128) - vn;
    if num <= 0 {
        return 0;
    }
    let q: i128 = udiv_i128(num, 10 * d);
    if q > 255 {
        255
    } else {
        q as u8
    }
}

/// The pixel-file channel of one shading numerator over the cell's
/// denominator.
pub fn ppm_channel_u8(vn: i128, d: i128) -> (r: u8)
    requires
        1 <= d <= DEN_LIMIT,
        -NUM_LIMIT <= vn <= NUM_LIMIT,
    ensures
        r as int == ppm_channel(vn as int, d as int),
{
    if vn <= 0 {
        return 0;
    }
    let q: i128 = udiv_i128(vn, 4 * d);
    if q > 255 {
        255
    } else {
        q as u8
    }
}

/// The darkened display color of one frame-buffer cell, as painted to
/// the terminal and as listed in the web-color frame.
pub fn pixel_color(p: &Depthpixel) -> (c: Color)
    requires
        p@.wf(),
    ensures
        c.0 as int == shade_channel(p@.v0_num, p@.den),
        c.1 as int == shade_channel(p@.v1_num, p@.den),
        c.2 as int == shade_channel(p@.v2_num, p@.den),
{
    Color(
        shade_channel_u8(p.v0_num, p.den),
        shade_channel_u8(p.v1_num, p.den),
        shade_channel_u8(p.v2_num, p.den),
    )
}

/// The web color string of one frame-buffer cell.
pub open spec fn cell_web_chars(p: PixM) -> Seq<char> {
    web_color_chars(
        shade_channel(p.v0_num, p.den),
        shade_channel(p.v1_num, p.den),
        shade_channel(p.v2_num, p.den),
    )
}

/// Every cell of the buffer is well-formed.
pub open spec fn buffer_wf(buf: Seq<Vec<Depthpixel>>) -> bool {
    forall|i: int, j: int|
        0 <= i < buf.len() && 0 <= j < buf[i]@.len() ==> (#[trigger] buf[i]@[j])@.wf()
}

/// Turns a frame buffer into the grid of web color strings its cells
/// are displayed as.
pub fn flatten_buffer_to_color_frame(zbuffer: Vec<Vec<Depthpixel>>) -> (r: Vec<Vec<String>>)
    requires
        buffer_wf(zbuffer@),
    ensures
        r@.len() == zbuffer@.len(),
        forall|i: int| 0 <= i < r@.len() ==> (#[trigger] r@[i])@.len() == zbuffer@[i]@.len(),
        forall|i: int, j: int|
            0 <= i < r@.len() && 0 <= j < r@[i]@.len() ==> (#[trigger] r@[i]@[j])@
                == cell_web_chars(zbuffer@[i]@[j]@),
{
    let mut out: Vec<Vec<String>> = Vec::new();
    let mut i: usize = 0;
    while i < zbuffer.len()
        invariant
            i <= zbuffer@.len(),
            buffer_wf(zbuffer@),
            out@.len() == i,
            forall|a: int| 0 <= a < i ==> (#[trigger] out@[a])@.len() == zbuffer@[a]@.len(),
            forall|a: int, b: int|
                0 <= a < i && 0 <= b < out@[a]@.len() ==> (#[trigger] out@[a]@[b])@
                    == cell_web_chars(zbuffer@[a]@[b]@),
        decreases zbuffer@.len() - i,
    {
        let line = &zbuffer[i];
        let mut row: Vec<String> = Vec::new();
        let mut j: usize = 0;
        while j < line.len()
            invariant
                j <= line@.len(),
                i < zbuffer@.len(),
                line@ == zbuffer@[i as int]@,
                buffer_wf(zbuffer@),
                row@.len() == j,
                forall|b: int|
                    0 <= b < j ==> (#[trigger] row@[b])@ == cell_web_chars(zbuffer@[i as int]@[b]@),
            decreases line@.len() - j,
        {
            let c = pixel_color(&line[j]);
            row.push(c.to_web_colors());
            j = j + 1;
        }
        out.push(row);
        i = i + 1;
    }
    out
}

/// The pixel-file text of one cell: three decimal channels separated by
/// one space, closed by three spaces.
pub open spec fn ppm_pixel_chars(p: PixM) -> Seq<char> {
    dec_chars(ppm_channel(p.v0_num, p.den)) + " "@ + dec_chars(ppm_channel(p.v1_num, p.den)) + " "@
        + dec_chars(ppm_channel(p.v2_num, p.den)) + "   "@
}

/// The pixel-file text of one buffer row, in cell order.
pub open spec fn ppm_row_chars(row: Seq<Depthpixel>) -> Seq<char>
    decreases row.len(),
{
    if row.len() == 0 {
        Seq::empty()
    } else {
        ppm_row_chars(row.drop_last()) + ppm_pixel_chars(row.last()@)
    }
}

/// The pixel-file text of all buffer rows, one line per row.
pub open spec fn ppm_body_chars(rows: Seq<Vec<Depthpixel>>) -> Seq<char>
    decreases rows.len(),
{
    if rows.len() == 0 {
        Seq::empty()
    } else {
        ppm_body_chars(rows.drop_last()) + ppm_row_chars(rows.last()@) + "\n"@
    }
}

/// The whole pixel-file text: the format tag, the raster dimensions,
/// the channel maximum, then the pixel grid.
pub open spec fn ppm_chars(disp: Display, rows: Seq<Vec<Depthpixel>>) -> Seq<char> {
    "P3\n"@ + dec_chars(disp.xdim as int) + " "@ + dec_chars(disp.ydim as int) + "\n"@
        + "255 #max value for each color\n"@ + ppm_body_chars(rows)
}

/// Encodes a finished frame buffer as a plain-text pixel file: a
/// two-line header (format tag; dimensions and channel maximum) and one
/// whitespace-separated RGB line per buffer row.
pub fn ppm_encode(display: &Display, zbuffer: &Vec<Vec<Depthpixel>>) -> (r: String)
    requires
        buffer_wf(zbuffer@),
    ensures
        r@ == ppm_chars(*display, zbuffer@),
{
    let mut s = String::new();
    s.append("P3\n");
    let dx = dec_str(display.xdim as u64);
    s.append(dx.as_str());
    s.append(" ");
    let dy = dec_str(display.ydim as u64);
    s.append(dy.as_str());
    s.append("\n");
    s.append("255 #max value for each color\n");
    let ghost header: Seq<char> = s@;
    let mut i: usize = 0;
    while i < zbuffer.len()
        invariant
            i <= zbuffer@.len(),
            buffer_wf(zbuffer@),
            s@ == header + ppm_body_chars(zbuffer@.take(i as int)),
            header == "P3\n"@ + dec_chars(display.xdim as int) + " "@ + dec_chars(
                display.ydim as int,
            ) + "\n"@ + "255 #max value for each color\n"@,
        decreases zbuffer@.len() - i,
    {
        let line = &zbuffer[i];
        let ghost row_start: Seq<char> = s@;
        let mut j: usize = 0;
        proof {
            assert(line@.take(0) =~= Seq::<Depthpixel>::empty());
        }
        while j < line.len()
            invariant
                j <= line@.len(),
                i < zbuffer@.len(),
                line@ == zbuffer@[i as int]@,
                buffer_wf(zbuffer@),
                s@ == row_start + ppm_row_chars(line@.take(j as int)),
            decreases line@.len() - j,
        {
            let p = &line[j];
            let c0 = ppm_channel_u8(p.v0_num, p.den);
            let c1 = ppm_channel_u8(p.v1_num, p.den);
            let c2 = ppm_channel_u8(p.v2_num, p.den);
            let d0 = dec_str(c0 as u64);
            s.append(d0.as_str());
            s.append(" ");
            let d1 = dec_str(c1 as u64);
            s.append(d1.as_str());
            s.append(" ");
            let d2 = dec_str(c2 as u64);
            s.append(d2.as_str());
            s.append("   ");
            proof {
                assert(line@.take(j as int + 1).drop_last() =~= line@.take(j as int));
                assert(line@.take(j as int + 1).last() == line@[j as int]);
                assert(s@ =~= row_start + ppm_row_chars(line@.take(j as int + 1)));
            }
            j = j + 1;
        }
        s.append("\n");
        proof {
            assert(line@.take(line@.len() as int) =~= line@);
            assert(zbuffer@.take(i as int + 1).drop_last() =~= zbuffer@.take(i as int));
            assert(zbuffer@.take(i as int + 1).last() == zbuffer@[i as int]);
            assert(s@ =~= header + ppm_body_chars(zbuffer@.take(i as int + 1)));
        }
        i = i + 1;
    }
    proof {
        assert(zbuffer@.take(zbuffer@.len() as int) =~= zbuffer@);
    }
    s
}

} // verus!
