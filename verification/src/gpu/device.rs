//! Swapchain presentation modes and compositions.

use vstd::prelude::*;

verus! {

/// How a swapchain presents images.
///
/// The values are those of `SDL_GPUPresentMode`.
#[derive(Clone, Copy, Debug, PartialEq, Eq, Hash, Structural)]
pub enum PresentMode {
    /// Wait for vertical blank; always supported.
    Vsync,
    /// Present at once, possibly tearing.
    Immediate,
    /// Replace the pending image at each present.
    Mailbox,
}

impl PresentMode {
    /// The SDL code of this value.
    pub open spec fn code(self) -> i32 {
        match self {
            PresentMode::Vsync => 0i32,
            PresentMode::Immediate => 1i32,
            PresentMode::Mailbox => 2i32,
        }
    }

    /// The value whose SDL code is `code`, if any.
    pub open spec fn from_code(code: i32) -> Option<PresentMode> {
        if code == 0i32 {
            Some(PresentMode::Vsync)
        } else if code == 1i32 {
            Some(PresentMode::Immediate)
        } else if code == 2i32 {
            Some(PresentMode::Mailbox)
        } else {
            None
        }
    }

    /// The SDL code of this value.
    pub fn to_sdl(self) -> (c: i32)
        ensures
            c == self.code(),
    {
        match self {
            PresentMode::Vsync => 0i32,
            PresentMode::Immediate => 1i32,
            PresentMode::Mailbox => 2i32,
        }
    }

    /// The value whose SDL code is `code`; `None` for a code that names
    /// no value of this type.
    pub fn from_sdl(code: i32) -> (r: Option<Self>)
        ensures
            r == Self::from_code(code),
    {
        if code == 0i32 {
            Some(PresentMode::Vsync)
        } else if code == 1i32 {
            Some(PresentMode::Immediate)
        } else if code == 2i32 {
            Some(PresentMode::Mailbox)
        } else {
            None
        }
    }
}

/// Every PresentMode has its own SDL code: the code of a value reads back as
/// that value, and a code that reads back as a value is that value's code.
pub proof fn lemma_present_mode_code_roundtrip(v: PresentMode, code: i32)
    ensures
        PresentMode::from_code(v.code()) == Some(v),
        PresentMode::from_code(code) == Some(v) ==> v.code() == code,
{
}

/// The code of each PresentMode is the number SDL's headers give the `SDL_GPUPresentMode`
/// constant of the same name, value by value.
pub proof fn lemma_present_mode_sdl_codes()
    ensures
        PresentMode::Vsync.code() == 0i32,
        PresentMode::Immediate.code() == 1i32,
        PresentMode::Mailbox.code() == 2i32,
{
}

/// The color composition of a swapchain.
///
/// The values are those of `SDL_GPUSwapchainComposition`.
#[derive(Clone, Copy, Debug, PartialEq, Eq, Hash, Structural)]
pub enum SwapchainComposition {
    /// 8-bit sRGB; always supported.
    Sdr,
    /// 8-bit linear, sampled as sRGB.
    SdrLinear,
    /// 16-bit float extended linear.
    HdrExtendedLinear,
    /// 10-bit HDR10 ST2084.
    Hdr10St2084,
}

impl SwapchainComposition {
    /// The SDL code of this value.
    pub open spec fn code(self) -> i32 {
        match self {
            SwapchainComposition::Sdr => 0i32,
            SwapchainComposition::SdrLinear => 1i32,
            SwapchainComposition::HdrExtendedLinear => 2i32,
            SwapchainComposition::Hdr10St2084 => 3i32,
        }
    }

    /// The value whose SDL code is `code`, if any.
    pub open spec fn from_code(code: i32) -> Option<SwapchainComposition> {
        if code == 0i32 {
            Some(SwapchainComposition::Sdr)
        } else if code == 1i32 {
            Some(SwapchainComposition::SdrLinear)
        } else if code == 2i32 {
            Some(SwapchainComposition::HdrExtendedLinear)
        } else if code == 3i32 {
            Some(SwapchainComposition::Hdr10St2084)
        } else {
            None
        }
    }

    /// The SDL code of this value.
    pub fn to_sdl(self) -> (c: i32)
        ensures
            c == self.code(),
    {
        match self {
            SwapchainComposition::Sdr => 0i32,
            SwapchainComposition::SdrLinear => 1i32,
            SwapchainComposition::HdrExtendedLinear => 2i32,
            SwapchainComposition::Hdr10St2084 => 3i32,
        }
    }

    /// The value whose SDL code is `code`; `None` for a code that names
    /// no value of this type.
    pub fn from_sdl(code: i32) -> (r: Option<Self>)
        ensures
            r == Self::from_code(code),
    {
        if code == 0i32 {
            Some(SwapchainComposition::Sdr)
        } else if code == 1i32 {
            Some(SwapchainComposition::SdrLinear)
        } else if code == 2i32 {
            Some(SwapchainComposition::HdrExtendedLinear)
        } else if code == 3i32 {
            Some(SwapchainComposition::Hdr10St2084)
        } else {
            None
        }
    }
}

/// Every SwapchainComposition has its own SDL code: the code of a value reads back as
/// that value, and a code that reads back as a value is that value's code.
pub proof fn lemma_swapchain_composition_code_roundtrip(v: SwapchainComposition, code: i32)
    ensures
        SwapchainComposition::from_code(v.code()) == Some(v),
        SwapchainComposition::from_code(code) == Some(v) ==> v.code() == code,
{
}

/// The code of each SwapchainComposition is the number SDL's headers give the `SDL_GPUSwapchainComposition`
/// constant of the same name, value by value.
pub proof fn lemma_swapchain_composition_sdl_codes()
    ensures
        SwapchainComposition::Sdr.code() == 0i32,
        SwapchainComposition::SdrLinear.code() == 1i32,
        SwapchainComposition::HdrExtendedLinear.code() == 2i32,
        SwapchainComposition::Hdr10St2084.code() == 3i32,
{
}

} // verus!
