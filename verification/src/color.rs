//! Color values with 8-bit or generic components.

use vstd::prelude::*;

verus! {

/// The lowest and highest value a color component can take.
pub trait OpacityBounds: Copy + Sized {
    /// The fully transparent (or fully dark) component value.
    spec fn spec_min_opacity() -> Self;

    /// The fully opaque (or fully bright) component value.
    spec fn spec_max_opacity() -> Self;

    fn min_opacity() -> (r: Self)
        ensures
            r == Self::spec_min_opacity(),
    ;

    fn max_opacity() -> (r: Self)
        ensures
            r == Self::spec_max_opacity(),
    ;
}

impl OpacityBounds for u8 {
    open spec fn spec_min_opacity() -> u8 {
        0
    }

    open spec fn spec_max_opacity() -> u8 {
        255
    }

    fn min_opacity() -> (r: u8) {
        0
    }

    fn max_opacity() -> (r: u8) {
        255
    }
}

/// The red, green and blue components of a color, without alpha.
#[derive(Clone, Copy, Default, Debug, PartialEq, Eq, Structural)]
pub struct Rgb<T> {
    pub r: T,
    pub g: T,
    pub b: T,
}

/// A color with red, green, blue and alpha components.
#[derive(Clone, Copy, Debug, PartialEq, Eq, Structural)]
pub struct Rgba<T> {
    pub rgb: Rgb<T>,
    pub a: T,
}

impl<T> Rgb<T> {
    pub fn new(r: T, g: T, b: T) -> (c: Self)
        ensures
            c.r == r,
            c.g == g,
            c.b == b,
    {
        Rgb { r, g, b }
    }
}

impl<T: OpacityBounds> Rgb<T> {
    pub fn black() -> (c: Self)
        ensures
            c == Rgb::new_spec(T::spec_min_opacity(), T::spec_min_opacity(), T::spec_min_opacity()),
    {
        Rgb::new(T::min_opacity(), T::min_opacity(), T::min_opacity())
    }

    pub fn red() -> (c: Self)
        ensures
            c == Rgb::new_spec(T::spec_max_opacity(), T::spec_min_opacity(), T::spec_min_opacity()),
    {
        Rgb::new(T::max_opacity(), T::min_opacity(), T::min_opacity())
    }

    pub fn green() -> (c: Self)
        ensures
            c == Rgb::new_spec(T::spec_min_opacity(), T::spec_max_opacity(), T::spec_min_opacity()),
    {
        Rgb::new(T::min_opacity(), T::max_opacity(), T::min_opacity())
    }

    pub fn blue() -> (c: Self)
        ensures
            c == Rgb::new_spec(T::spec_min_opacity(), T::spec_min_opacity(), T::spec_max_opacity()),
    {
        Rgb::new(T::min_opacity(), T::min_opacity(), T::max_opacity())
    }

    pub fn cyan() -> (c: Self)
        ensures
            c == Rgb::new_spec(T::spec_min_opacity(), T::spec_max_opacity(), T::spec_max_opacity()),
    {
        Rgb::new(T::min_opacity(), T::max_opacity(), T::max_opacity())
    }

    pub fn white() -> (c: Self)
        ensures
            c == Rgb::new_spec(T::spec_max_opacity(), T::spec_max_opacity(), T::spec_max_opacity()),
    {
        Rgb::new(T::max_opacity(), T::max_opacity(), T::max_opacity())
    }

    /// This color, fully opaque.
    pub fn to_rgba(&self) -> (c: Rgba<T>)
        ensures
            c.rgb == *self,
            c.a == T::spec_max_opacity(),
    {
        Rgba { rgb: *self, a: T::max_opacity() }
    }

    /// This color with the alpha component `a`.
    pub fn with_alpha(&self, a: T) -> (c: Rgba<T>)
        ensures
            c.rgb == *self,
            c.a == a,
    {
        Rgba { rgb: *self, a }
    }
}

impl<T> Rgb<T> {
    pub open spec fn new_spec(r: T, g: T, b: T) -> Self {
        Rgb { r, g, b }
    }
}

impl<T> Rgba<T> {
    pub open spec fn new_spec(r: T, g: T, b: T, a: T) -> Self {
        Rgba { rgb: Rgb { r, g, b }, a }
    }
}

impl<T: OpacityBounds> Rgba<T> {
    pub fn new(r: T, g: T, b: T, a: T) -> (c: Self)
        ensures
            c == Rgba::new_spec(r, g, b, a),
    {
        Rgba { rgb: Rgb::new(r, g, b), a }
    }

    /// An opaque color from its red, green and blue components.
    pub fn rgb(r: T, g: T, b: T) -> (c: Self)
        ensures
            c == Rgba::new_spec(r, g, b, T::spec_max_opacity()),
    {
        Rgba::new(r, g, b, T::max_opacity())
    }

    pub fn black() -> (c: Self)
        ensures
            c == Rgba::new_spec(T::spec_min_opacity(), T::spec_min_opacity(), T::spec_min_opacity(), T::spec_max_opacity()),
    {
        Rgb::black().to_rgba()
    }

    pub fn red() -> (c: Self)
        ensures
            c == Rgba::new_spec(T::spec_max_opacity(), T::spec_min_opacity(), T::spec_min_opacity(), T::spec_max_opacity()),
    {
        Rgb::red().to_rgba()
    }

    pub fn green() -> (c: Self)
        ensures
            c == Rgba::new_spec(T::spec_min_opacity(), T::spec_max_opacity(), T::spec_min_opacity(), T::spec_max_opacity()),
    {
        Rgb::green().to_rgba()
    }

    pub fn blue() -> (c: Self)
        ensures
            c == Rgba::new_spec(T::spec_min_opacity(), T::spec_min_opacity(), T::spec_max_opacity(), T::spec_max_opacity()),
    {
        Rgb::blue().to_rgba()
    }

    pub fn cyan() -> (c: Self)
        ensures
            c == Rgba::new_spec(T::spec_min_opacity(), T::spec_max_opacity(), T::spec_max_opacity(), T::spec_max_opacity()),
    {
        Rgb::cyan().to_rgba()
    }

    pub fn white() -> (c: Self)
        ensures
            c == Rgba::new_spec(T::spec_max_opacity(), T::spec_max_opacity(), T::spec_max_opacity(), T::spec_max_opacity()),
    {
        Rgb::white().to_rgba()
    }

    /// Black with the lowest alpha: nothing shows through.
    pub fn transparent() -> (c: Self)
        ensures
            c == Rgba::new_spec(T::spec_min_opacity(), T::spec_min_opacity(), T::spec_min_opacity(), T::spec_min_opacity()),
    {
        Rgb::black().with_alpha(T::min_opacity())
    }
}

impl<T: OpacityBounds> From<Rgb<T>> for Rgba<T> {
    /// The color, fully opaque.
    fn from(value: Rgb<T>) -> (c: Rgba<T>) {
        value.to_rgba()
    }
}

impl<T: OpacityBounds> vstd::std_specs::convert::FromSpecImpl<Rgb<T>> for Rgba<T> {
    open spec fn obeys_from_spec() -> bool {
        true
    }

    open spec fn from_spec(v: Rgb<T>) -> Rgba<T> {
        v.to_rgba_spec()
    }
}

impl<T: OpacityBounds> Rgb<T> {
    /// This color, fully opaque.
    pub open spec fn to_rgba_spec(self) -> Rgba<T> {
        Rgba { rgb: self, a: T::spec_max_opacity() }
    }
}


/// The color whose components are the bytes of `val`, most significant
/// first: `0xRRGGBBAA`.
pub open spec fn rgba_of_hex(val: u32) -> Rgba<u8> {
    Rgba {
        rgb: Rgb {
            r: (val / 0x1000000) as u8,
            g: ((val / 0x10000) % 0x100) as u8,
            b: ((val / 0x100) % 0x100) as u8,
        },
        a: (val % 0x100) as u8,
    }
}

/// The opaque color whose red, green and blue components are the low three
/// bytes of `val`, most significant first: `0x??RRGGBB`.
pub open spec fn rgb_of_hex(val: u32) -> Rgba<u8> {
    Rgba {
        rgb: Rgb {
            r: ((val / 0x10000) % 0x100) as u8,
            g: ((val / 0x100) % 0x100) as u8,
            b: (val % 0x100) as u8,
        },
        a: 255,
    }
}

/// The `0xRRGGBBAA` encoding of a color.
pub open spec fn hex_of_rgba(c: Rgba<u8>) -> int {
    c.rgb.r * 0x1000000 + c.rgb.g * 0x10000 + c.rgb.b * 0x100 + c.a
}

impl Rgba<u8> {
    /// Build an opaque color from its `0xRRGGBB` encoding; the top byte of
    /// `val` is ignored.
    pub fn rgb_hex(val: u32) -> (c: Self)
        ensures
            c == rgb_of_hex(val),
    {
        let r = (val >> 16) as u8;
        let g = (val >> 8) as u8;
        let b = val as u8;
        assert(r == (val / 0x10000) % 0x100) by (bit_vector)
            requires r == (val >> 16) as u8;
        assert(g == (val / 0x100) % 0x100) by (bit_vector)
            requires g == (val >> 8) as u8;
        assert(b == val % 0x100) by (bit_vector)
            requires b == val as u8;
        Rgba::rgb(r, g, b)
    }

    /// Build a color from its `0xRRGGBBAA` encoding.
    pub fn rgba_hex(val: u32) -> (c: Self)
        ensures
            c == rgba_of_hex(val),
    {
        let r = (val >> 24) as u8;
        let g = (val >> 16) as u8;
        let b = (val >> 8) as u8;
        let a = val as u8;
        assert(r == val / 0x1000000) by (bit_vector)
            requires r == (val >> 24) as u8;
        assert(g == (val / 0x10000) % 0x100) by (bit_vector)
            requires g == (val >> 16) as u8;
        assert(b == (val / 0x100) % 0x100) by (bit_vector)
            requires b == (val >> 8) as u8;
        assert(a == val % 0x100) by (bit_vector)
            requires a == val as u8;
        Rgba::new(r, g, b, a)
    }
}

/// Decoding `0xRRGGBBAA` and encoding again gives back the same number, and
/// encoding a color and decoding it gives back the same color: the hex form
/// and the color determine each other.
pub proof fn lemma_rgba_hex_roundtrip(val: u32, c: Rgba<u8>)
    ensures
        hex_of_rgba(rgba_of_hex(val)) == val,
        0 <= hex_of_rgba(c) <= u32::MAX,
        rgba_of_hex(hex_of_rgba(c) as u32) == c,
{
    let h = hex_of_rgba(c);
    assert(0 <= h <= u32::MAX);
    assert(h / 0x1000000 == c.rgb.r);
    assert((h / 0x10000) % 0x100 == c.rgb.g);
    assert((h / 0x100) % 0x100 == c.rgb.b);
    assert(h % 0x100 == c.a);
    assert(hex_of_rgba(rgba_of_hex(val)) == val);
}

/// In `0xRRGGBBAA` the bytes are red, green, blue and alpha, most
/// significant first, and in `0xRRGGBB` red, green and blue: the number
/// made of four (or three) bytes decodes to the color with those
/// components, in that order.
pub proof fn lemma_hex_bytes_are_components_in_order(r: u8, g: u8, b: u8, a: u8)
    ensures
        rgba_of_hex((r * 0x1000000 + g * 0x10000 + b * 0x100 + a) as u32)
            == (Rgba { rgb: Rgb { r, g, b }, a }),
        rgb_of_hex((r * 0x10000 + g * 0x100 + b) as u32) == (Rgba { rgb: Rgb { r, g, b }, a: 255u8 }),
{
    let c = Rgba { rgb: Rgb { r, g, b }, a };
    lemma_rgba_hex_roundtrip(0, c);
    let k: int = r * 0x10000 + g * 0x100 + b;
    let c0 = Rgba { rgb: Rgb { r, g, b }, a: 0u8 };
    lemma_rgba_hex_roundtrip(0, c0);
    assert(k * 0x100 == hex_of_rgba(c0));
    assert(0 <= k <= 0xffffff);
    lemma_rgb_hex_is_shifted_rgba_hex(k as u32);
}

/// `rgb_hex` reads the same three bytes that `rgba_hex` reads one byte
/// further up, and makes the color opaque.
pub proof fn lemma_rgb_hex_is_shifted_rgba_hex(val: u32)
    requires
        val <= 0xffffff,
    ensures
        rgb_of_hex(val) == Rgba::new_spec(
            rgba_of_hex((val * 0x100) as u32).rgb.r,
            rgba_of_hex((val * 0x100) as u32).rgb.g,
            rgba_of_hex((val * 0x100) as u32).rgb.b,
            255u8,
        ),
{
}

} // verus!
