//! Blits: how a blit flips the image, and the parameters of a blit.

use vstd::prelude::*;
use crate::gpu::render_pass::LoadOp;
use crate::gpu::sampler::Filter;
use crate::gpu::texture::BlitRegion;

verus! {

/// How a blit flips the image.
///
/// The values are those of `SDL_FlipMode`.
#[derive(Clone, Copy, Debug, PartialEq, Eq, Hash, Structural)]
pub enum FlipMode {
    /// Do not flip.
    NoFlip,
    /// Flip horizontally.
    Horizontal,
    /// Flip vertically.
    Vertical,
    /// Flip both ways.
    HorizontalAndVertical,
}

impl FlipMode {
    /// The SDL code of this value.
    pub open spec fn code(self) -> i32 {
        match self {
            FlipMode::NoFlip => 0i32,
            FlipMode::Horizontal => 1i32,
            FlipMode::Vertical => 2i32,
            FlipMode::HorizontalAndVertical => 3i32,
        }
    }

    /// The value whose SDL code is `code`, if any.
    pub open spec fn from_code(code: i32) -> Option<FlipMode> {
        if code == 0i32 {
            Some(FlipMode::NoFlip)
        } else if code == 1i32 {
            Some(FlipMode::Horizontal)
        } else if code == 2i32 {
            Some(FlipMode::Vertical)
        } else if code == 3i32 {
            Some(FlipMode::HorizontalAndVertical)
        } else {
            None
        }
    }

    /// The SDL code of this value.
    pub fn to_sdl(self) -> (c: i32)
        ensures
            c == self.code(),
    {
        match self {
            FlipMode::NoFlip => 0i32,
            FlipMode::Horizontal => 1i32,
            FlipMode::Vertical => 2i32,
            FlipMode::HorizontalAndVertical => 3i32,
        }
    }

    /// The value whose SDL code is `code`; `None` for a code that names
    /// no value of this type.
    pub fn from_sdl(code: i32) -> (r: Option<Self>)
        ensures
            r == Self::from_code(code),
    {
        if code == 0i32 {
            Some(FlipMode::NoFlip)
        } else if code == 1i32 {
            Some(FlipMode::Horizontal)
        } else if code == 2i32 {
            Some(FlipMode::Vertical)
        } else if code == 3i32 {
            Some(FlipMode::HorizontalAndVertical)
        } else {
            None
        }
    }
}

/// Every FlipMode has its own SDL code: the code of a value reads back as
/// that value, and a code that reads back as a value is that value's code.
pub proof fn lemma_flip_mode_code_roundtrip(v: FlipMode, code: i32)
    ensures
        FlipMode::from_code(v.code()) == Some(v),
        FlipMode::from_code(code) == Some(v) ==> v.code() == code,
{
}

/// The code of each FlipMode is the number SDL's headers give the `SDL_FlipMode`
/// constant of the same name, value by value.
pub proof fn lemma_flip_mode_sdl_codes()
    ensures
        FlipMode::NoFlip.code() == 0i32,
        FlipMode::Horizontal.code() == 1i32,
        FlipMode::Vertical.code() == 2i32,
        FlipMode::HorizontalAndVertical.code() == 3i32,
{
}

/// A blit from one texture region to another: the two regions, what happens
/// to the destination first, the color it is cleared to, how the source is
/// flipped, the filter used, and whether SDL cycles the destination when it
/// is in use. `H` is how a texture is referred to and `C` holds the clear
/// color.
#[derive(Clone, Copy, Debug)]
pub struct BlitInfo<H, C> {
    pub source: BlitRegion<H>,
    pub destination: BlitRegion<H>,
    pub load_op: LoadOp,
    pub clear_color: C,
    pub flip_mode: FlipMode,
    pub filter: Filter,
    pub cycle: bool,
}

impl<H: Copy, C: Copy> BlitInfo<H, C> {
    /// Describe a blit; each argument becomes the field of the same name.
    pub fn new(
        source: BlitRegion<H>,
        destination: BlitRegion<H>,
        load_op: LoadOp,
        clear_color: C,
        flip_mode: FlipMode,
        filter: Filter,
        cycle: bool,
    ) -> (b: Self)
        ensures
            b.source == source,
            b.destination == destination,
            b.load_op == load_op,
            b.clear_color == clear_color,
            b.flip_mode == flip_mode,
            b.filter == filter,
            b.cycle == cycle,
    {
        BlitInfo { source, destination, load_op, clear_color, flip_mode, filter, cycle }
    }
}

} // verus!
