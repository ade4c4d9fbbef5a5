//! Filesystem enumerations and the description of a path.

use vstd::prelude::*;

verus! {

/// A well-known user folder.
///
/// The values are those of `SDL_Folder`.
#[derive(Clone, Copy, Debug, PartialEq, Eq, Hash, Structural)]
pub enum Folder {
    Home,
    Desktop,
    Documents,
    Downloads,
    Music,
    Pictures,
    PublicShare,
    SavedGames,
    Screenshots,
    Templates,
    Videos,
}

impl Folder {
    /// The SDL code of this value.
    pub open spec fn code(self) -> i32 {
        match self {
            Folder::Home => 0i32,
            Folder::Desktop => 1i32,
            Folder::Documents => 2i32,
            Folder::Downloads => 3i32,
            Folder::Music => 4i32,
            Folder::Pictures => 5i32,
            Folder::PublicShare => 6i32,
            Folder::SavedGames => 7i32,
            Folder::Screenshots => 8i32,
            Folder::Templates => 9i32,
            Folder::Videos => 10i32,
        }
    }

    /// The value whose SDL code is `code`, if any.
    pub open spec fn from_code(code: i32) -> Option<Folder> {
        if code == 0i32 {
            Some(Folder::Home)
        } else if code == 1i32 {
            Some(Folder::Desktop)
        } else if code == 2i32 {
            Some(Folder::Documents)
        } else if code == 3i32 {
            Some(Folder::Downloads)
        } else if code == 4i32 {
            Some(Folder::Music)
        } else if code == 5i32 {
            Some(Folder::Pictures)
        } else if code == 6i32 {
            Some(Folder::PublicShare)
        } else if code == 7i32 {
            Some(Folder::SavedGames)
        } else if code == 8i32 {
            Some(Folder::Screenshots)
        } else if code == 9i32 {
            Some(Folder::Templates)
        } else if code == 10i32 {
            Some(Folder::Videos)
        } else {
            None
        }
    }

    /// The SDL code of this value.
    pub fn to_sdl(self) -> (c: i32)
        ensures
            c == self.code(),
    {
        match self {
            Folder::Home => 0i32,
            Folder::Desktop => 1i32,
            Folder::Documents => 2i32,
            Folder::Downloads => 3i32,
            Folder::Music => 4i32,
            Folder::Pictures => 5i32,
            Folder::PublicShare => 6i32,
            Folder::SavedGames => 7i32,
            Folder::Screenshots => 8i32,
            Folder::Templates => 9i32,
            Folder::Videos => 10i32,
        }
    }

    /// The value whose SDL code is `code`; `None` for a code that names
    /// no value of this type.
    pub fn from_sdl(code: i32) -> (r: Option<Self>)
        ensures
            r == Self::from_code(code),
    {
        if code == 0i32 {
            Some(Folder::Home)
        } else if code == 1i32 {
            Some(Folder::Desktop)
        } else if code == 2i32 {
            Some(Folder::Documents)
        } else if code == 3i32 {
            Some(Folder::Downloads)
        } else if code == 4i32 {
            Some(Folder::Music)
        } else if code == 5i32 {
            Some(Folder::Pictures)
        } else if code == 6i32 {
            Some(Folder::PublicShare)
        } else if code == 7i32 {
            Some(Folder::SavedGames)
        } else if code == 8i32 {
            Some(Folder::Screenshots)
        } else if code == 9i32 {
            Some(Folder::Templates)
        } else if code == 10i32 {
            Some(Folder::Videos)
        } else {
            None
        }
    }
}

/// Every Folder has its own SDL code: the code of a value reads back as
/// that value, and a code that reads back as a value is that value's code.
pub proof fn lemma_folder_code_roundtrip(v: Folder, code: i32)
    ensures
        Folder::from_code(v.code()) == Some(v),
        Folder::from_code(code) == Some(v) ==> v.code() == code,
{
}

/// The code of each Folder is the number SDL's headers give the `SDL_Folder`
/// constant of the same name, value by value.
pub proof fn lemma_folder_sdl_codes()
    ensures
        Folder::Home.code() == 0i32,
        Folder::Desktop.code() == 1i32,
        Folder::Documents.code() == 2i32,
        Folder::Downloads.code() == 3i32,
        Folder::Music.code() == 4i32,
        Folder::Pictures.code() == 5i32,
        Folder::PublicShare.code() == 6i32,
        Folder::SavedGames.code() == 7i32,
        Folder::Screenshots.code() == 8i32,
        Folder::Templates.code() == 9i32,
        Folder::Videos.code() == 10i32,
{
}

/// What a path refers to.
///
/// The values are those of `SDL_PathType`.
#[derive(Clone, Copy, Debug, PartialEq, Eq, Hash, Structural)]
pub enum PathType {
    /// The path does not exist.
    Missing,
    /// A regular file.
    File,
    /// A directory.
    Directory,
    /// Something else, such as a device node.
    Other,
}

impl PathType {
    /// The SDL code of this value.
    pub open spec fn code(self) -> i32 {
        match self {
            PathType::Missing => 0i32,
            PathType::File => 1i32,
            PathType::Directory => 2i32,
            PathType::Other => 3i32,
        }
    }

    /// The value whose SDL code is `code`, if any.
    pub open spec fn from_code(code: i32) -> Option<PathType> {
        if code == 0i32 {
            Some(PathType::Missing)
        } else if code == 1i32 {
            Some(PathType::File)
        } else if code == 2i32 {
            Some(PathType::Directory)
        } else if code == 3i32 {
            Some(PathType::Other)
        } else {
            None
        }
    }

    /// The SDL code of this value.
    pub fn to_sdl(self) -> (c: i32)
        ensures
            c == self.code(),
    {
        match self {
            PathType::Missing => 0i32,
            PathType::File => 1i32,
            PathType::Directory => 2i32,
            PathType::Other => 3i32,
        }
    }

    /// The value whose SDL code is `code`; `None` for a code that names
    /// no value of this type.
    pub fn from_sdl(code: i32) -> (r: Option<Self>)
        ensures
            r == Self::from_code(code),
    {
        if code == 0i32 {
            Some(PathType::Missing)
        } else if code == 1i32 {
            Some(PathType::File)
        } else if code == 2i32 {
            Some(PathType::Directory)
        } else if code == 3i32 {
            Some(PathType::Other)
        } else {
            None
        }
    }
}

impl Default for PathType {
    fn default() -> (r: Self)
        ensures
            r == PathType::Missing,
    {
        PathType::Missing
    }
}

/// Every PathType has its own SDL code: the code of a value reads back as
/// that value, and a code that reads back as a value is that value's code.
pub proof fn lemma_path_type_code_roundtrip(v: PathType, code: i32)
    ensures
        PathType::from_code(v.code()) == Some(v),
        PathType::from_code(code) == Some(v) ==> v.code() == code,
{
}

/// The code of each PathType is the number SDL's headers give the `SDL_PathType`
/// constant of the same name, value by value.
pub proof fn lemma_path_type_sdl_codes()
    ensures
        PathType::Missing.code() == 0i32,
        PathType::File.code() == 1i32,
        PathType::Directory.code() == 2i32,
        PathType::Other.code() == 3i32,
{
}

/// Information about a path: what it is, its size and its timestamps.
#[derive(Clone, Copy, Debug, PartialEq, Eq, Structural)]
pub struct PathInfo {
    pub path_type: PathType,
    pub size: u64,
    pub create_time: i64,
    pub modify_time: i64,
    pub access_time: i64,
}

/// Options for matching names against a pattern.
///
/// The bits are those of `SDL_GlobFlags`.
#[derive(Clone, Copy, Debug, PartialEq, Eq, Hash, Structural)]
pub struct GlobFlags {
    bits: u32,
}

impl View for GlobFlags {
    type V = u32;

    closed spec fn view(&self) -> u32 {
        self.bits
    }
}

impl GlobFlags {
    /// The bits of all the named flags.
    pub open spec fn all_bits() -> u32 {
        0x1u32
    }

    /// No flag set.
    pub fn empty() -> (f: Self)
        ensures
            f@ == 0,
    {
        GlobFlags { bits: 0 }
    }

    /// Every named flag set.
    pub fn all() -> (f: Self)
        ensures
            f@ == Self::all_bits(),
    {
        GlobFlags { bits: 0x1u32 }
    }

    /// Match names regardless of case.
    pub fn case_insensitive() -> (f: Self)
        ensures
            f@ == 0x1u32,
    {
        GlobFlags { bits: 0x1u32 }
    }

    /// The raw bits.
    pub fn bits(&self) -> (b: u32)
        ensures
            b == self@,
    {
        self.bits
    }

    /// The flag set with exactly these bits, named or not.
    pub fn from_bits_retain(bits: u32) -> (f: Self)
        ensures
            f@ == bits,
    {
        GlobFlags { bits }
    }

    /// The flag set with these bits, if every set bit is a named flag.
    pub fn from_bits(bits: u32) -> (r: Option<Self>)
        ensures
            r is Some <==> bits & Self::all_bits() == bits,
            r matches Some(f) ==> f@ == bits,
    {
        if bits & 0x1u32 == bits {
            Some(GlobFlags { bits })
        } else {
            None
        }
    }

    /// Whether no bit is set.
    pub fn is_empty(&self) -> (r: bool)
        ensures
            r == (self@ == 0),
    {
        self.bits == 0
    }

    /// Whether every bit of `other` is set here.
    pub fn contains(&self, other: Self) -> (r: bool)
        ensures
            r == (self@ & other@ == other@),
    {
        self.bits & other.bits == other.bits
    }

    /// Whether some bit of `other` is set here.
    pub fn intersects(&self, other: Self) -> (r: bool)
        ensures
            r == (self@ & other@ != 0),
    {
        self.bits & other.bits != 0
    }

    /// The bits set here or in `other`.
    pub fn union(self, other: Self) -> (f: Self)
        ensures
            f@ == self@ | other@,
    {
        GlobFlags { bits: self.bits | other.bits }
    }

    /// The bits set both here and in `other`.
    pub fn intersection(self, other: Self) -> (f: Self)
        ensures
            f@ == self@ & other@,
    {
        GlobFlags { bits: self.bits & other.bits }
    }

    /// Set the bits of `other`.
    pub fn insert(&mut self, other: Self)
        ensures
            final(self)@ == old(self)@ | other@,
    {
        self.bits = self.bits | other.bits;
    }

    /// Clear the bits of `other`.
    pub fn remove(&mut self, other: Self)
        ensures
            final(self)@ == old(self)@ & !other@,
    {
        self.bits = self.bits & !other.bits;
    }
}

/// Flag sets behave as sets: a union holds both sides and does not depend
/// on their order, an intersection lies within both sides, inserted flags
/// are then contained, removed flags no longer intersect, and the empty set
/// contains nothing but itself.
pub proof fn lemma_glob_flags_set_algebra(a: GlobFlags, b: GlobFlags)
    ensures
        (a@ | b@) & a@ == a@,
        (a@ | b@) & b@ == b@,
        a@ | b@ == b@ | a@,
        (a@ & b@) & a@ == a@ & b@,
        (a@ & b@) & b@ == a@ & b@,
        (a@ & !b@) & b@ == 0,
        a@ | 0 == a@,
        a@ & 0 == 0,
{
    crate::bits::lemma_mask_algebra_u32(a@, b@);
}

/// What a directory enumeration callback asks for next.
///
/// The values are those of `SDL_EnumerationResult`.
#[derive(Clone, Copy, Debug, PartialEq, Eq, Hash, Structural)]
pub enum EnumerationResult {
    /// Keep enumerating.
    Continue,
    /// Stop, reporting success.
    Success,
    /// Stop, reporting failure.
    Failure,
}

impl EnumerationResult {
    /// The SDL code of this value.
    pub open spec fn code(self) -> i32 {
        match self {
            EnumerationResult::Continue => 0i32,
            EnumerationResult::Success => 1i32,
            EnumerationResult::Failure => 2i32,
        }
    }

    /// The value whose SDL code is `code`, if any.
    pub open spec fn from_code(code: i32) -> Option<EnumerationResult> {
        if code == 0i32 {
            Some(EnumerationResult::Continue)
        } else if code == 1i32 {
            Some(EnumerationResult::Success)
        } else if code == 2i32 {
            Some(EnumerationResult::Failure)
        } else {
            None
        }
    }

    /// The SDL code of this value.
    pub fn to_sdl(self) -> (c: i32)
        ensures
            c == self.code(),
    {
        match self {
            EnumerationResult::Continue => 0i32,
            EnumerationResult::Success => 1i32,
            EnumerationResult::Failure => 2i32,
        }
    }

    /// The value whose SDL code is `code`; `None` for a code that names
    /// no value of this type.
    pub fn from_sdl(code: i32) -> (r: Option<Self>)
        ensures
            r == Self::from_code(code),
    {
        if code == 0i32 {
            Some(EnumerationResult::Continue)
        } else if code == 1i32 {
            Some(EnumerationResult::Success)
        } else if code == 2i32 {
            Some(EnumerationResult::Failure)
        } else {
            None
        }
    }
}

/// Every EnumerationResult has its own SDL code: the code of a value reads back as
/// that value, and a code that reads back as a value is that value's code.
pub proof fn lemma_enumeration_result_code_roundtrip(v: EnumerationResult, code: i32)
    ensures
        EnumerationResult::from_code(v.code()) == Some(v),
        EnumerationResult::from_code(code) == Some(v) ==> v.code() == code,
{
}

/// The code of each EnumerationResult is the number SDL's headers give the `SDL_EnumerationResult`
/// constant of the same name, value by value.
pub proof fn lemma_enumeration_result_sdl_codes()
    ensures
        EnumerationResult::Continue.code() == 0i32,
        EnumerationResult::Success.code() == 1i32,
        EnumerationResult::Failure.code() == 2i32,
{
}

} // verus!
