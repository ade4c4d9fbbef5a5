//! The flags of a simple message box: its severity and the order of its
//! buttons.

use vstd::prelude::*;

verus! {

/// The kind of message a message box shows.
///
/// The values are those of `SDL_MessageBoxFlags`.
#[derive(Clone, Copy, Debug, PartialEq, Eq, Hash, Structural)]
pub enum Severity {
    /// An error dialog.
    Error,
    /// A warning dialog.
    Warning,
    /// An informational dialog.
    Info,
}

impl Severity {
    /// The SDL code of this value.
    pub open spec fn code(self) -> u32 {
        match self {
            Severity::Error => 0x10u32,
            Severity::Warning => 0x20u32,
            Severity::Info => 0x40u32,
        }
    }

    /// The value whose SDL code is `code`, if any.
    pub open spec fn from_code(code: u32) -> Option<Severity> {
        if code == 0x10u32 {
            Some(Severity::Error)
        } else if code == 0x20u32 {
            Some(Severity::Warning)
        } else if code == 0x40u32 {
            Some(Severity::Info)
        } else {
            None
        }
    }

    /// The SDL code of this value.
    pub fn to_sdl(self) -> (c: u32)
        ensures
            c == self.code(),
    {
        match self {
            Severity::Error => 0x10u32,
            Severity::Warning => 0x20u32,
            Severity::Info => 0x40u32,
        }
    }

    /// The value whose SDL code is `code`; `None` for a code that names
    /// no value of this type.
    pub fn from_sdl(code: u32) -> (r: Option<Self>)
        ensures
            r == Self::from_code(code),
    {
        if code == 0x10u32 {
            Some(Severity::Error)
        } else if code == 0x20u32 {
            Some(Severity::Warning)
        } else if code == 0x40u32 {
            Some(Severity::Info)
        } else {
            None
        }
    }
}

/// Every Severity has its own SDL code: the code of a value reads back as
/// that value, and a code that reads back as a value is that value's code.
pub proof fn lemma_severity_code_roundtrip(v: Severity, code: u32)
    ensures
        Severity::from_code(v.code()) == Some(v),
        Severity::from_code(code) == Some(v) ==> v.code() == code,
{
}

/// The code of each Severity is the number SDL's headers give the `SDL_MessageBoxFlags`
/// constant of the same name, value by value.
pub proof fn lemma_severity_sdl_codes()
    ensures
        Severity::Error.code() == 0x10u32,
        Severity::Warning.code() == 0x20u32,
        Severity::Info.code() == 0x40u32,
{
}

/// The order in which a message box lays out its buttons.
///
/// The values are those of `SDL_MessageBoxFlags`.
#[derive(Clone, Copy, Debug, PartialEq, Eq, Hash, Structural)]
pub enum ButtonLayout {
    /// Buttons placed left to right.
    LeftToRight,
    /// Buttons placed right to left.
    RightToLeft,
}

impl ButtonLayout {
    /// The SDL code of this value.
    pub open spec fn code(self) -> u32 {
        match self {
            ButtonLayout::LeftToRight => 0x80u32,
            ButtonLayout::RightToLeft => 0x100u32,
        }
    }

    /// The value whose SDL code is `code`, if any.
    pub open spec fn from_code(code: u32) -> Option<ButtonLayout> {
        if code == 0x80u32 {
            Some(ButtonLayout::LeftToRight)
        } else if code == 0x100u32 {
            Some(ButtonLayout::RightToLeft)
        } else {
            None
        }
    }

    /// The SDL code of this value.
    pub fn to_sdl(self) -> (c: u32)
        ensures
            c == self.code(),
    {
        match self {
            ButtonLayout::LeftToRight => 0x80u32,
            ButtonLayout::RightToLeft => 0x100u32,
        }
    }

    /// The value whose SDL code is `code`; `None` for a code that names
    /// no value of this type.
    pub fn from_sdl(code: u32) -> (r: Option<Self>)
        ensures
            r == Self::from_code(code),
    {
        if code == 0x80u32 {
            Some(ButtonLayout::LeftToRight)
        } else if code == 0x100u32 {
            Some(ButtonLayout::RightToLeft)
        } else {
            None
        }
    }
}

/// Every ButtonLayout has its own SDL code: the code of a value reads back as
/// that value, and a code that reads back as a value is that value's code.
pub proof fn lemma_button_layout_code_roundtrip(v: ButtonLayout, code: u32)
    ensures
        ButtonLayout::from_code(v.code()) == Some(v),
        ButtonLayout::from_code(code) == Some(v) ==> v.code() == code,
{
}

/// The code of each ButtonLayout is the number SDL's headers give the `SDL_MessageBoxFlags`
/// constant of the same name, value by value.
pub proof fn lemma_button_layout_sdl_codes()
    ensures
        ButtonLayout::LeftToRight.code() == 0x80u32,
        ButtonLayout::RightToLeft.code() == 0x100u32,
{
}

/// The message box flags for a severity and a button layout: the two flag
/// bits together.
pub open spec fn flags_of(sev: Severity, bl: ButtonLayout) -> u32 {
    sev.code() | bl.code()
}

/// The SDL flags of a message box with severity `sev` and button layout `bl`.
pub fn show_flags(sev: Severity, bl: ButtonLayout) -> (flags: u32)
    ensures
        flags == flags_of(sev, bl),
{
    sev.to_sdl() | bl.to_sdl()
}

/// The flags of a message box name its severity and its button layout
/// alone: each can be read back from them, and different choices give
/// different flags.
pub proof fn lemma_show_flags_determine_choice(sev: Severity, bl: ButtonLayout, sev2: Severity, bl2: ButtonLayout)
    ensures
        flags_of(sev, bl) & 0x70 == sev.code(),
        flags_of(sev, bl) & 0x180 == bl.code(),
        flags_of(sev, bl) == flags_of(sev2, bl2) ==> sev == sev2 && bl == bl2,
{
    let s = sev.code();
    let b = bl.code();
    assert(flags_of(sev, bl) & 0x70 == s && flags_of(sev, bl) & 0x180 == b) by {
        crate::bits::lemma_disjoint_fields_u32(s, b);
    }
    assert(flags_of(sev2, bl2) & 0x70 == sev2.code() && flags_of(sev2, bl2) & 0x180 == bl2.code()) by {
        crate::bits::lemma_disjoint_fields_u32(sev2.code(), bl2.code());
    }
}

} // verus!
