//! Displays and their orientation.

use vstd::prelude::*;

verus! {

/// The orientation of a display. SDL reports an unknown orientation as code 0, which names no value here.
///
/// The values are those of `SDL_DisplayOrientation`.
#[derive(Clone, Copy, Debug, PartialEq, Eq, Hash, Structural)]
pub enum DisplayOrientation {
    /// The display is in landscape mode, with the right side up.
    Landscape,
    /// The display is in landscape mode, with the left side up.
    LandscapeFlipped,
    /// The display is in portrait mode.
    Portrait,
    /// The display is in portrait mode, upside down.
    PortraitFlipped,
}

impl DisplayOrientation {
    /// The SDL code of this value.
    pub open spec fn code(self) -> i32 {
        match self {
            DisplayOrientation::Landscape => 1i32,
            DisplayOrientation::LandscapeFlipped => 2i32,
            DisplayOrientation::Portrait => 3i32,
            DisplayOrientation::PortraitFlipped => 4i32,
        }
    }

    /// The value whose SDL code is `code`, if any.
    pub open spec fn from_code(code: i32) -> Option<DisplayOrientation> {
        if code == 1i32 {
            Some(DisplayOrientation::Landscape)
        } else if code == 2i32 {
            Some(DisplayOrientation::LandscapeFlipped)
        } else if code == 3i32 {
            Some(DisplayOrientation::Portrait)
        } else if code == 4i32 {
            Some(DisplayOrientation::PortraitFlipped)
        } else {
            None
        }
    }

    /// The SDL code of this value.
    pub fn to_sdl(self) -> (c: i32)
        ensures
            c == self.code(),
    {
        match self {
            DisplayOrientation::Landscape => 1i32,
            DisplayOrientation::LandscapeFlipped => 2i32,
            DisplayOrientation::Portrait => 3i32,
            DisplayOrientation::PortraitFlipped => 4i32,
        }
    }

    /// The value whose SDL code is `code`; `None` for a code that names
    /// no value of this type.
    pub fn from_sdl(code: i32) -> (r: Option<Self>)
        ensures
            r == Self::from_code(code),
    {
        if code == 1i32 {
            Some(DisplayOrientation::Landscape)
        } else if code == 2i32 {
            Some(DisplayOrientation::LandscapeFlipped)
        } else if code == 3i32 {
            Some(DisplayOrientation::Portrait)
        } else if code == 4i32 {
            Some(DisplayOrientation::PortraitFlipped)
        } else {
            None
        }
    }
}

/// Every DisplayOrientation has its own SDL code: the code of a value reads back as
/// that value, and a code that reads back as a value is that value's code.
pub proof fn lemma_display_orientation_code_roundtrip(v: DisplayOrientation, code: i32)
    ensures
        DisplayOrientation::from_code(v.code()) == Some(v),
        DisplayOrientation::from_code(code) == Some(v) ==> v.code() == code,
{
}

/// The code of each DisplayOrientation is the number SDL's headers give the `SDL_DisplayOrientation`
/// constant of the same name, value by value.
pub proof fn lemma_display_orientation_sdl_codes()
    ensures
        DisplayOrientation::Landscape.code() == 1i32,
        DisplayOrientation::LandscapeFlipped.code() == 2i32,
        DisplayOrientation::Portrait.code() == 3i32,
        DisplayOrientation::PortraitFlipped.code() == 4i32,
{
}

/// A display, named by its SDL display ID, which is never zero.
#[derive(Clone, Copy, Debug, PartialEq, Eq, Structural)]
pub struct Display {
    id: u32,
}

impl View for Display {
    type V = u32;

    closed spec fn view(&self) -> u32 {
        self.id
    }
}

impl Display {
    #[verifier::type_invariant]
    spec fn id_nonzero(self) -> bool {
        self.id != 0
    }

    /// The display with ID `id`.
    pub fn new(id: u32) -> (d: Self)
        requires
            id != 0,
        ensures
            d@ == id,
    {
        Display { id }
    }

    /// The display with ID `id`; `None` for the ID 0, which SDL returns on
    /// failure.
    pub fn from_sdl(id: u32) -> (r: Option<Self>)
        ensures
            r is None <==> id == 0,
            r matches Some(d) ==> d@ == id,
    {
        if id == 0 {
            None
        } else {
            Some(Display { id })
        }
    }

    /// The SDL display ID.
    pub fn id(&self) -> (id: u32)
        ensures
            id == self@,
            id != 0,
    {
        proof {
            use_type_invariant(self);
        }
        self.id
    }
}

/// The value SDL returns for the KMSDRM panel orientation property when it
/// is not set.
pub open spec fn panel_orientation_unset() -> i64 {
    i64::MAX
}

/// The KMSDRM panel orientation, from the number read with
/// `panel_orientation_unset()` as the default: `None` when that default came
/// back.
pub fn kmsdrm_panel_orientation_from_raw(val: i64) -> (r: Option<i64>)
    ensures
        r == (if val == panel_orientation_unset() { None } else { Some(val) }),
{
    if val != i64::MAX {
        Some(val)
    } else {
        None
    }
}

} // verus!
