//! Log priorities and categories.

use vstd::prelude::*;

verus! {

/// How important a log message is.
///
/// The values are those of `SDL_LogPriority`.
#[derive(Clone, Copy, Debug, PartialEq, Eq, Hash, Structural)]
pub enum Priority {
    Trace,
    Verbose,
    Debug,
    Info,
    Warn,
    Error,
    Critical,
}

impl Priority {
    /// The SDL code of this value.
    pub open spec fn code(self) -> i32 {
        match self {
            Priority::Trace => 1i32,
            Priority::Verbose => 2i32,
            Priority::Debug => 3i32,
            Priority::Info => 4i32,
            Priority::Warn => 5i32,
            Priority::Error => 6i32,
            Priority::Critical => 7i32,
        }
    }

    /// The value whose SDL code is `code`, if any.
    pub open spec fn from_code(code: i32) -> Option<Priority> {
        if code == 1i32 {
            Some(Priority::Trace)
        } else if code == 2i32 {
            Some(Priority::Verbose)
        } else if code == 3i32 {
            Some(Priority::Debug)
        } else if code == 4i32 {
            Some(Priority::Info)
        } else if code == 5i32 {
            Some(Priority::Warn)
        } else if code == 6i32 {
            Some(Priority::Error)
        } else if code == 7i32 {
            Some(Priority::Critical)
        } else {
            None
        }
    }

    /// The SDL code of this value.
    pub fn to_sdl(self) -> (c: i32)
        ensures
            c == self.code(),
    {
        match self {
            Priority::Trace => 1i32,
            Priority::Verbose => 2i32,
            Priority::Debug => 3i32,
            Priority::Info => 4i32,
            Priority::Warn => 5i32,
            Priority::Error => 6i32,
            Priority::Critical => 7i32,
        }
    }

    /// The value whose SDL code is `code`; `None` for a code that names
    /// no value of this type.
    pub fn from_sdl(code: i32) -> (r: Option<Self>)
        ensures
            r == Self::from_code(code),
    {
        if code == 1i32 {
            Some(Priority::Trace)
        } else if code == 2i32 {
            Some(Priority::Verbose)
        } else if code == 3i32 {
            Some(Priority::Debug)
        } else if code == 4i32 {
            Some(Priority::Info)
        } else if code == 5i32 {
            Some(Priority::Warn)
        } else if code == 6i32 {
            Some(Priority::Error)
        } else if code == 7i32 {
            Some(Priority::Critical)
        } else {
            None
        }
    }
}

/// Every Priority has its own SDL code: the code of a value reads back as
/// that value, and a code that reads back as a value is that value's code.
pub proof fn lemma_priority_code_roundtrip(v: Priority, code: i32)
    ensures
        Priority::from_code(v.code()) == Some(v),
        Priority::from_code(code) == Some(v) ==> v.code() == code,
{
}

/// The code of each Priority is the number SDL's headers give the `SDL_LogPriority`
/// constant of the same name, value by value.
pub proof fn lemma_priority_sdl_codes()
    ensures
        Priority::Trace.code() == 1i32,
        Priority::Verbose.code() == 2i32,
        Priority::Debug.code() == 3i32,
        Priority::Info.code() == 4i32,
        Priority::Warn.code() == 5i32,
        Priority::Error.code() == 6i32,
        Priority::Critical.code() == 7i32,
{
}

/// The domain a log message belongs to.
///
/// The values are those of `SDL_LogCategory`.
#[derive(Clone, Copy, Debug, PartialEq, Eq, Hash, Structural)]
pub enum Category {
    Application,
    Error,
    Assert,
    System,
    Audio,
    Video,
    Render,
    Input,
    Test,
    Gpu,
}

impl Category {
    /// The SDL code of this value.
    pub open spec fn code(self) -> i32 {
        match self {
            Category::Application => 0i32,
            Category::Error => 1i32,
            Category::Assert => 2i32,
            Category::System => 3i32,
            Category::Audio => 4i32,
            Category::Video => 5i32,
            Category::Render => 6i32,
            Category::Input => 7i32,
            Category::Test => 8i32,
            Category::Gpu => 9i32,
        }
    }

    /// The value whose SDL code is `code`, if any.
    pub open spec fn from_code(code: i32) -> Option<Category> {
        if code == 0i32 {
            Some(Category::Application)
        } else if code == 1i32 {
            Some(Category::Error)
        } else if code == 2i32 {
            Some(Category::Assert)
        } else if code == 3i32 {
            Some(Category::System)
        } else if code == 4i32 {
            Some(Category::Audio)
        } else if code == 5i32 {
            Some(Category::Video)
        } else if code == 6i32 {
            Some(Category::Render)
        } else if code == 7i32 {
            Some(Category::Input)
        } else if code == 8i32 {
            Some(Category::Test)
        } else if code == 9i32 {
            Some(Category::Gpu)
        } else {
            None
        }
    }

    /// The SDL code of this value.
    pub fn to_sdl(self) -> (c: i32)
        ensures
            c == self.code(),
    {
        match self {
            Category::Application => 0i32,
            Category::Error => 1i32,
            Category::Assert => 2i32,
            Category::System => 3i32,
            Category::Audio => 4i32,
            Category::Video => 5i32,
            Category::Render => 6i32,
            Category::Input => 7i32,
            Category::Test => 8i32,
            Category::Gpu => 9i32,
        }
    }

    /// The value whose SDL code is `code`; `None` for a code that names
    /// no value of this type.
    pub fn from_sdl(code: i32) -> (r: Option<Self>)
        ensures
            r == Self::from_code(code),
    {
        if code == 0i32 {
            Some(Category::Application)
        } else if code == 1i32 {
            Some(Category::Error)
        } else if code == 2i32 {
            Some(Category::Assert)
        } else if code == 3i32 {
            Some(Category::System)
        } else if code == 4i32 {
            Some(Category::Audio)
        } else if code == 5i32 {
            Some(Category::Video)
        } else if code == 6i32 {
            Some(Category::Render)
        } else if code == 7i32 {
            Some(Category::Input)
        } else if code == 8i32 {
            Some(Category::Test)
        } else if code == 9i32 {
            Some(Category::Gpu)
        } else {
            None
        }
    }
}

/// Every Category has its own SDL code: the code of a value reads back as
/// that value, and a code that reads back as a value is that value's code.
pub proof fn lemma_category_code_roundtrip(v: Category, code: i32)
    ensures
        Category::from_code(v.code()) == Some(v),
        Category::from_code(code) == Some(v) ==> v.code() == code,
{
}

/// The code of each Category is the number SDL's headers give the `SDL_LogCategory`
/// constant of the same name, value by value.
pub proof fn lemma_category_sdl_codes()
    ensures
        Category::Application.code() == 0i32,
        Category::Error.code() == 1i32,
        Category::Assert.code() == 2i32,
        Category::System.code() == 3i32,
        Category::Audio.code() == 4i32,
        Category::Video.code() == 5i32,
        Category::Render.code() == 6i32,
        Category::Input.code() == 7i32,
        Category::Test.code() == 8i32,
        Category::Gpu.code() == 9i32,
{
}

} // verus!
