use vstd::prelude::*;
use embedded_graphics::pixelcolor::raw::RawData;
use embedded_graphics::pixelcolor::raw::RawU16;
use embedded_graphics::pixelcolor::Rgb565;

verus! {

/// One color of a 16-bit RGB 5/6/5 surface, held as its three channels.
#[derive(Clone, Copy, Debug, PartialEq, Eq, Structural)]
pub struct Color565 {
    pub r: u8,
    pub g: u8,
    pub b: u8,
}

impl Color565 {
    /// Every channel fits its bit width: 5 bits of red, 6 of green, 5 of blue.
    pub open spec fn wf(self) -> bool {
        self.r < 32 && self.g < 64 && self.b < 32
    }

    /// The 16-bit word of this color: red in the top five bits, blue in the low five.
    pub open spec fn raw(self) -> int {
        self.r * 2048 + self.g * 32 + self.b
    }

    /// Builds a color, dropping the bits of each channel above its width.
    pub fn new(r: u8, g: u8, b: u8) -> (c: Color565)
        ensures
            c.wf(),
            c.r == r % 32,
            c.g == g % 64,
            c.b == b % 32,
    {
        Color565 { r: r % 32, g: g % 64, b: b % 32 }
    }
}

/// The two bytes of a color on the wire: the low byte of its word, then the high byte.
pub open spec fn packed(c: Color565) -> (u8, u8) {
    ((c.raw() % 256) as u8, (c.raw() / 256) as u8)
}

/// The color whose word has low byte `lo` and high byte `hi`.
pub open spec fn unpacked(lo: u8, hi: u8) -> Color565 {
    let v = hi * 256 + lo;
    Color565 { r: (v / 2048) as u8, g: ((v / 32) % 64) as u8, b: (v % 32) as u8 }
}

/// Relies on embedded_graphics' `Rgb565::new`, which masks each channel to its width and
/// places red at bit 11, green at bit 5 and blue at bit 0, and on `RawU16::from(Rgb565)`
/// with `into_inner`, which hand that word back unchanged.
#[verifier::external_body]
fn rgb565_word(r: u8, g: u8, b: u8) -> (v: u16)
    ensures
        v == (r % 32) * 2048 + (g % 64) * 32 + (b % 32),
{
    RawU16::from(Rgb565::new(r, g, b)).into_inner()
}

/// Packs one color into its two wire bytes, low byte first.
pub fn pack(c: Color565) -> (r: [u8; 2])
    requires
        c.wf(),
    ensures
        r[0] == packed(c).0,
        r[1] == packed(c).1,
{
    let v = rgb565_word(c.r, c.g, c.b);
    assert(v == c.raw());
    let lo = (v & 0xff) as u8;
    let hi = (v >> 8) as u8;
    assert(v & 0xff == v % 256) by (bit_vector);
    assert(v >> 8 == v / 256) by (bit_vector);
    [lo, hi]
}

/// Reads back the color that `pack` wrote as `lo`, `hi`.
pub fn unpack(lo: u8, hi: u8) -> (c: Color565)
    ensures
        c == unpacked(lo, hi),
        c.wf(),
{
    let v: u16 = (hi as u16) * 256 + (lo as u16);
    Color565 { r: (v / 2048) as u8, g: ((v / 32) % 64) as u8, b: (v % 32) as u8 }
}

/// Decoding the bytes of a packed color gives that color back.
pub proof fn lemma_unpack_pack(c: Color565)
    requires
        c.wf(),
    ensures
        unpacked(packed(c).0, packed(c).1) == c,
{
    let v = c.raw();
    assert(0 <= v < 65536) by (nonlinear_arith)
        requires v == c.r * 2048 + c.g * 32 + c.b, c.r < 32, c.g < 64, c.b < 32;
    assert((v % 256) + (v / 256) * 256 == v) by (nonlinear_arith) requires 0 <= v;
    assert(v / 2048 == c.r) by (nonlinear_arith)
        requires v == c.r * 2048 + c.g * 32 + c.b, c.g < 64, c.b < 32;
    assert((v / 32) % 64 == c.g) by (nonlinear_arith)
        requires v == c.r * 2048 + c.g * 32 + c.b, c.g < 64, c.b < 32;
    assert(v % 32 == c.b) by (nonlinear_arith)
        requires v == c.r * 2048 + c.g * 32 + c.b, c.b < 32;
}

/// Packing is a function of the color alone, and two colors share their bytes only
/// when they are the same color.
pub proof fn lemma_pack_deterministic(a: Color565, b: Color565)
    requires
        a.wf(),
        b.wf(),
    ensures
        packed(a) == packed(b) <==> a == b,
{
    lemma_unpack_pack(a);
    lemma_unpack_pack(b);
}

} // verus!
