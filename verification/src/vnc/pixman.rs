//! Pixel formats in the encoding of the pixman library, the colours of the
//! text console, and glyph bitmaps.

use bitintr::Popcnt;
use vstd::prelude::*;

verus! {

/// Format code of 32-bit pixels with eight bits each of red, green and blue
/// and eight unused bits.
pub const PIXMAN_X8R8G8B8: u32 = 0x2002_0888;

/// Format code of 8-bit pixels that hold alpha only.
pub const PIXMAN_A8: u32 = 0x0801_8000;

/// Number of set bits in `n`.
pub open spec fn popcount(n: nat) -> nat
    decreases n,
{
    if n == 0 {
        0
    } else {
        n % 2 + popcount(n / 2)
    }
}

/// `bitintr::Popcnt::popcnt` on a `u16`: the number of bits that are set.
#[verifier::external_body]
fn popcnt_u16(n: u16) -> (r: u16)
    ensures
        r == popcount(n as nat),
{
    n.popcnt()
}

/// Bits per pixel of a format code.
pub fn pixman_format_bpp(val: u32) -> (r: u8)
    ensures
        r == val / 0x100_0000,
{
    assert(val >> 24 == val / 0x100_0000) by (bit_vector);
    (val >> 24) as u8
}

/// Bits of alpha of a format code.
pub fn pixman_format_a(val: u32) -> (r: u8)
    ensures
        r == val / 0x1000 % 0x10,
{
    assert((val >> 12) & 0xf == val / 0x1000 % 0x10) by (bit_vector);
    ((val >> 12) & 0xf) as u8
}

/// Bits of red of a format code.
pub fn pixman_format_r(val: u32) -> (r: u8)
    ensures
        r == val / 0x100 % 0x10,
{
    assert((val >> 8) & 0xf == val / 0x100 % 0x10) by (bit_vector);
    ((val >> 8) & 0xf) as u8
}

/// Bits of green of a format code.
pub fn pixman_format_g(val: u32) -> (r: u8)
    ensures
        r == val / 0x10 % 0x10,
{
    assert((val >> 4) & 0xf == val / 0x10 % 0x10) by (bit_vector);
    ((val >> 4) & 0xf) as u8
}

/// Bits of blue of a format code.
pub fn pixman_format_b(val: u32) -> (r: u8)
    ensures
        r == val % 0x10,
{
    assert(val & 0xf == val % 0x10) by (bit_vector);
    (val & 0xf) as u8
}

/// Colour depth of a format code: the bits of its four channels together.
pub fn pixman_format_depth(val: u32) -> (r: u8)
    ensures
        r == val / 0x1000 % 0x10 + val / 0x100 % 0x10 + val / 0x10 % 0x10 + val % 0x10,
{
    pixman_format_a(val) + pixman_format_r(val) + pixman_format_g(val) + pixman_format_b(val)
}

/// One colour channel of a pixel format.
#[derive(Clone, Copy, Debug, PartialEq, Eq, Structural)]
pub struct ColorInfo {
    /// The bits of the channel in a pixel.
    pub mask: u32,
    /// Position of the lowest bit of the channel.
    pub shift: u8,
    /// Largest value of the channel.
    pub max: u8,
    /// Number of bits of the channel.
    pub bits: u8,
}

impl Default for ColorInfo {
    fn default() -> (r: ColorInfo)
        ensures
            r == (ColorInfo { mask: 0, shift: 0, max: 0, bits: 0 }),
    {
        ColorInfo { mask: 0, shift: 0, max: 0, bits: 0 }
    }
}

impl ColorInfo {
    /// Sets the channel to the largest value `max` at bit `shift`: the mask
    /// is `max` moved up by `shift`, the number of bits is that of the set
    /// bits of `max`, and a `max` of 0 stands for 255.
    pub fn set_color_info(&mut self, shift: u8, max: u16)
        requires
            shift < 32,
        ensures
            final(self).mask == (max as u32) << (shift as u32),
            final(self).shift == shift,
            final(self).max == if max == 0 {
                0xFFu8
            } else {
                (max % 0x100) as u8
            },
            final(self).bits == popcount(max as nat),
    {
        assert(popcount(max as nat) <= 16) by {
            vstd::arithmetic::power2::lemma2_to64();
            lemma_popcount_bound(max as nat, 16);
        }
        assert(max & 0xff == max % 0x100) by (bit_vector);
        self.mask = (max as u32) << (shift as u32);
        self.shift = shift;
        self.max = if max == 0 {
            0xFF
        } else {
            (max & 0xff) as u8
        };
        self.bits = popcnt_u16(max) as u8;
    }
}

/// A number below `2^width` has `width` set bits at most.
pub proof fn lemma_popcount_bound(n: nat, width: nat)
    requires
        n < vstd::arithmetic::power2::pow2(width),
    ensures
        popcount(n) <= width,
    decreases n,
{
    vstd::arithmetic::power2::lemma2_to64();
    if n > 0 {
        if width == 0 {
            assert(vstd::arithmetic::power2::pow2(0) == 1);
        } else {
            vstd::arithmetic::power2::lemma_pow2_unfold(width);
            lemma_popcount_bound(n / 2, (width - 1) as nat);
        }
    }
}

/// A pixel format.
#[derive(Clone, Copy, Debug, PartialEq, Eq, Structural)]
pub struct PixelFormat {
    /// Bits per pixel.
    pub pixel_bits: u8,
    /// Bytes per pixel.
    pub pixel_bytes: u8,
    /// Colour depth.
    pub depth: u8,
    /// Red channel.
    pub red: ColorInfo,
    /// Green channel.
    pub green: ColorInfo,
    /// Blue channel.
    pub blue: ColorInfo,
    /// Alpha channel.
    pub alpha_chl: ColorInfo,
}

impl Default for PixelFormat {
    fn default() -> (r: PixelFormat)
        ensures
            r == (PixelFormat {
                pixel_bits: 0,
                pixel_bytes: 0,
                depth: 0,
                red: ColorInfo { mask: 0, shift: 0, max: 0, bits: 0 },
                green: ColorInfo { mask: 0, shift: 0, max: 0, bits: 0 },
                blue: ColorInfo { mask: 0, shift: 0, max: 0, bits: 0 },
                alpha_chl: ColorInfo { mask: 0, shift: 0, max: 0, bits: 0 },
            }),
    {
        PixelFormat {
            pixel_bits: 0,
            pixel_bytes: 0,
            depth: 0,
            red: ColorInfo::default(),
            green: ColorInfo::default(),
            blue: ColorInfo::default(),
            alpha_chl: ColorInfo::default(),
        }
    }
}

/// The format of 32-bit pixels with eight bits each of red, green and blue,
/// blue lowest. Each mask is the largest value of its channel, moved to the
/// place of the channel.
pub open spec fn x8r8g8b8_format() -> PixelFormat {
    PixelFormat {
        pixel_bits: 32,
        pixel_bytes: 4,
        depth: 24,
        red: ColorInfo { mask: 0xff_0000, shift: 16, max: 0xff, bits: 8 },
        green: ColorInfo { mask: 0xff00, shift: 8, max: 0xff, bits: 8 },
        blue: ColorInfo { mask: 0xff, shift: 0, max: 0xff, bits: 8 },
        alpha_chl: ColorInfo { mask: 0, shift: 24, max: 0, bits: 0 },
    }
}

/// Whether the channels lie red over green over blue, blue at bit 0, and
/// the format has 32 bits per pixel, eight for each colour and none of
/// alpha.
pub open spec fn is_default_format(format: PixelFormat) -> bool {
    &&& format.red.shift > format.green.shift
    &&& format.green.shift > format.blue.shift
    &&& format.blue.shift == 0
    &&& format.pixel_bits == 32
    &&& format.alpha_chl.bits == 0
    &&& format.red.bits == 8
    &&& format.green.bits == 8
    &&& format.blue.bits == 8
}

fn channel_max(bits: u8) -> (r: u8)
    requires
        bits <= 8,
    ensures
        bits == 0 ==> r == 0,
        bits == 8 ==> r == 0xff,
        r == (1u32 << bits) - 1,
{
    assert(bits <= 8 ==> 1 <= (1u32 << bits) <= 256) by (bit_vector);
    assert(1u32 << 0u8 == 1 && 1u32 << 8u8 == 256) by (bit_vector);
    ((1u32 << bits) - 1) as u8
}

impl PixelFormat {
    /// Sets the format to that of `PIXMAN_X8R8G8B8`.
    pub fn init_pixelformat(&mut self)
        ensures
            *final(self) == x8r8g8b8_format(),
            is_default_format(*final(self)),
    {
        let fmt: u32 = PIXMAN_X8R8G8B8;
        self.pixel_bits = pixman_format_bpp(fmt);
        self.pixel_bytes = self.pixel_bits / 8;
        self.depth = pixman_format_depth(fmt);

        self.alpha_chl.bits = pixman_format_a(fmt);
        self.red.bits = pixman_format_r(fmt);
        self.green.bits = pixman_format_g(fmt);
        self.blue.bits = pixman_format_b(fmt);

        self.alpha_chl.shift = self.blue.bits + self.green.bits + self.red.bits;
        self.red.shift = self.blue.bits + self.green.bits;
        self.green.shift = self.blue.bits;
        self.blue.shift = 0;

        self.alpha_chl.max = channel_max(self.alpha_chl.bits);
        self.red.max = channel_max(self.red.bits);
        self.green.max = channel_max(self.green.bits);
        self.blue.max = channel_max(self.blue.bits);

        assert(0u32 << 24u32 == 0 && 0xffu32 << 16u32 == 0xff_0000 && 0xffu32 << 8u32 == 0xff00
            && 0xffu32 << 0u32 == 0xff) by (bit_vector);
        self.alpha_chl.mask = (self.alpha_chl.max as u32) << (self.alpha_chl.shift as u32);
        self.red.mask = (self.red.max as u32) << (self.red.shift as u32);
        self.green.mask = (self.green.max as u32) << (self.green.shift as u32);
        self.blue.mask = (self.blue.max as u32) << (self.blue.shift as u32);
    }

    /// Whether the format is that of `PIXMAN_X8R8G8B8` in its layout.
    pub fn is_default_pixel_format(&self) -> (b: bool)
        ensures
            b == is_default_format(*self),
    {
        if self.red.shift <= self.green.shift || self.green.shift <= self.blue.shift
            || self.blue.shift != 0 {
            return false;
        }
        if self.pixel_bits != 32 || self.alpha_chl.bits != 0 || self.red.bits != 8
            || self.green.bits != 8 || self.blue.bits != 8 {
            return false;
        }
        true
    }
}

/// Bytes per pixel of the default format.
pub fn bytes_per_pixel() -> (r: usize)
    ensures
        r == 4,
{
    ((pixman_format_bpp(PIXMAN_X8R8G8B8) + 7) / 8) as usize
}

/// The eight colours of the text console.
#[derive(Clone, Copy, Debug, PartialEq, Eq, Structural)]
pub enum ColorNames {
    ColorBlack,
    ColorBlue,
    ColorGreen,
    ColorCyan,
    ColorRed,
    ColorMagenta,
    ColorYellow,
    ColorWhite,
}

/// A colour with 16 bits to the channel.
#[derive(Clone, Copy, Debug, PartialEq, Eq, Structural)]
pub struct PixmanColor {
    pub red: u16,
    pub green: u16,
    pub blue: u16,
    pub alpha: u16,
}

impl ColorNames {
    /// Number of the colour: bit 0 is blue, bit 1 green, bit 2 red.
    pub open spec fn number(self) -> int {
        match self {
            ColorNames::ColorBlack => 0,
            ColorNames::ColorBlue => 1,
            ColorNames::ColorGreen => 2,
            ColorNames::ColorCyan => 3,
            ColorNames::ColorRed => 4,
            ColorNames::ColorMagenta => 5,
            ColorNames::ColorYellow => 6,
            ColorNames::ColorWhite => 7,
        }
    }

    /// Number of the colour: bit 0 is blue, bit 1 green, bit 2 red.
    pub fn index(self) -> (r: usize)
        ensures
            r == self.number(),
    {
        match self {
            ColorNames::ColorBlack => 0,
            ColorNames::ColorBlue => 1,
            ColorNames::ColorGreen => 2,
            ColorNames::ColorCyan => 3,
            ColorNames::ColorRed => 4,
            ColorNames::ColorMagenta => 5,
            ColorNames::ColorYellow => 6,
            ColorNames::ColorWhite => 7,
        }
    }
}

/// The colour `name` of the text console, opaque: a channel that the colour
/// has is 0xaa in its high byte, or 0xff where `bright`.
pub open spec fn console_color(bright: bool, name: ColorNames) -> PixmanColor {
    let on: u16 = if bright {
        0xff00u16
    } else {
        0xaa00u16
    };
    let n = name.number();
    PixmanColor {
        red: if n / 4 % 2 == 1 {
            on
        } else {
            0u16
        },
        green: if n / 2 % 2 == 1 {
            on
        } else {
            0u16
        },
        blue: if n % 2 == 1 {
            on
        } else {
            0u16
        },
        alpha: 0xffffu16,
    }
}

/// The colour `name` of the text console.
pub fn color_table_rgb(bright: bool, name: ColorNames) -> (c: PixmanColor)
    ensures
        c == console_color(bright, name),
{
    let on: u16 = if bright {
        0xff00
    } else {
        0xaa00
    };
    let n: usize = name.index();
    PixmanColor {
        red: if n / 4 % 2 == 1 {
            on
        } else {
            0
        },
        green: if n / 2 % 2 == 1 {
            on
        } else {
            0
        },
        blue: if n % 2 == 1 {
            on
        } else {
            0
        },
        alpha: 0xffff,
    }
}

/// The bitmap of a glyph of `height` rows in a font that holds one row of
/// eight pixels to the entry: eight bytes to the row, 0xff for a pixel that
/// is set and 0 for one that is not, the leftmost pixel in the highest bit.
pub open spec fn glyph_bitmap(font: Seq<u16>, height: int, ch: int) -> Seq<u8> {
    Seq::new(
        (height * 8) as nat,
        |i: int|
            if font[height * ch + i / 8] & (1u16 << ((7 - i % 8) as u16)) > 0 {
                0xffu8
            } else {
                0x00u8
            },
    )
}

/// The bitmap of glyph `ch` of `height` rows in `font`.
pub fn glyph_from_font(font: &[u16], height: u32, ch: u32) -> (bitmap: Vec<u8>)
    requires
        height * ch + height <= font@.len(),
        height * 8 <= usize::MAX,
    ensures
        bitmap@ == glyph_bitmap(font@, height as int, ch as int),
{
    let len: usize = font.len();
    assert(0 <= height * ch <= len) by (nonlinear_arith)
        requires
            height * ch + height <= len,
    ;
    let first: usize = (height as u64 * ch as u64) as usize;
    let mut bitmap: Vec<u8> = Vec::new();
    let mut y: usize = 0;
    while y < height as usize
        invariant
            y <= height,
            first == height * ch,
            len == font@.len(),
            first + height <= font@.len(),
            height * 8 <= usize::MAX,
            bitmap@.len() == y * 8,
            forall|i: int|
                0 <= i < y * 8 ==> bitmap@[i] == glyph_bitmap(font@, height as int, ch as int)[i],
        decreases height - y,
    {
        let row: u16 = font[first + y];
        let mut x: u16 = 0;
        while x < 8
            invariant
                x <= 8,
                y < height,
                first == height * ch,
                first + height <= font@.len(),
                row == font@[first + y],
                bitmap@.len() == y * 8 + x,
                forall|i: int|
                    0 <= i < y * 8 + x ==> bitmap@[i] == glyph_bitmap(
                        font@,
                        height as int,
                        ch as int,
                    )[i],
            decreases 8 - x,
        {
            let ghost i = y * 8 + x;
            assert(i / 8 == y && i % 8 == x);
            if row & (1u16 << (7 - x)) > 0 {
                bitmap.push(0xff);
            } else {
                bitmap.push(0x00);
            }
            x = x + 1;
        }
        y = y + 1;
    }
    assert(bitmap@ =~= glyph_bitmap(font@, height as int, ch as int));
    bitmap
}

/// Where a glyph is drawn: the left and the top edge of cell `rec` of a
/// surface whose cells are `cw` pixels wide and `ch` pixels high, then
/// width and height of the cell, each cut to the 16 bits that the drawing
/// takes.
pub open spec fn glyph_cell(rec: (i32, i32), cw: i32, ch: i32) -> (i16, i16, u16, u16) {
    ((cw * rec.0) as i32 as i16, (ch * rec.1) as i32 as i16, cw as u16, ch as u16)
}

/// Where a glyph is drawn.
pub fn pixman_glyph_cell(rec: (i32, i32), cw: i32, ch: i32) -> (r: (i16, i16, u16, u16))
    requires
        i32::MIN <= cw * rec.0 <= i32::MAX,
        i32::MIN <= ch * rec.1 <= i32::MAX,
    ensures
        r == glyph_cell(rec, cw, ch),
{
    let (x, y) = rec;
    let left: i32 = cw * x;
    let top: i32 = ch * y;
    (
        #[verifier::truncate]
        (left as i16),
        #[verifier::truncate]
        (top as i16),
        #[verifier::truncate]
        (cw as u16),
        #[verifier::truncate]
        (ch as u16),
    )
}

} // verus!
