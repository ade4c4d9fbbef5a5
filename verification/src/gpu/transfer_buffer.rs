//! Transfer buffer directions and creation parameters.

use vstd::prelude::*;

verus! {

/// Whether a transfer buffer uploads to or downloads from GPU resources.
///
/// The values are those of `SDL_GPUTransferBufferUsage`.
#[derive(Clone, Copy, Debug, PartialEq, Eq, Hash, Structural)]
pub enum TransferBufferUsage {
    Upload,
    Download,
}

impl TransferBufferUsage {
    /// The SDL code of this value.
    pub open spec fn code(self) -> i32 {
        match self {
            TransferBufferUsage::Upload => 0i32,
            TransferBufferUsage::Download => 1i32,
        }
    }

    /// The value whose SDL code is `code`, if any.
    pub open spec fn from_code(code: i32) -> Option<TransferBufferUsage> {
        if code == 0i32 {
            Some(TransferBufferUsage::Upload)
        } else if code == 1i32 {
            Some(TransferBufferUsage::Download)
        } else {
            None
        }
    }

    /// The SDL code of this value.
    pub fn to_sdl(self) -> (c: i32)
        ensures
            c == self.code(),
    {
        match self {
            TransferBufferUsage::Upload => 0i32,
            TransferBufferUsage::Download => 1i32,
        }
    }

    /// The value whose SDL code is `code`; `None` for a code that names
    /// no value of this type.
    pub fn from_sdl(code: i32) -> (r: Option<Self>)
        ensures
            r == Self::from_code(code),
    {
        if code == 0i32 {
            Some(TransferBufferUsage::Upload)
        } else if code == 1i32 {
            Some(TransferBufferUsage::Download)
        } else {
            None
        }
    }
}

/// Every TransferBufferUsage has its own SDL code: the code of a value reads back as
/// that value, and a code that reads back as a value is that value's code.
pub proof fn lemma_transfer_buffer_usage_code_roundtrip(v: TransferBufferUsage, code: i32)
    ensures
        TransferBufferUsage::from_code(v.code()) == Some(v),
        TransferBufferUsage::from_code(code) == Some(v) ==> v.code() == code,
{
}

/// The code of each TransferBufferUsage is the number SDL's headers give the `SDL_GPUTransferBufferUsage`
/// constant of the same name, value by value.
pub proof fn lemma_transfer_buffer_usage_sdl_codes()
    ensures
        TransferBufferUsage::Upload.code() == 0i32,
        TransferBufferUsage::Download.code() == 1i32,
{
}

/// The parameters of a new transfer buffer: its direction and its size in
/// bytes. The extension properties are left out: they are always zero.
#[derive(Clone, Copy, Debug, PartialEq, Eq, Structural)]
pub struct TransferBufferCreateInfo {
    pub usage: TransferBufferUsage,
    pub size: u32,
}

impl TransferBufferCreateInfo {
    pub fn new(usage: TransferBufferUsage, size: u32) -> (ci: Self)
        ensures
            ci == (TransferBufferCreateInfo { usage, size }),
    {
        TransferBufferCreateInfo { usage, size }
    }
}

/// A byte position in a transfer buffer.
#[derive(Clone, Copy, Debug, PartialEq, Eq)]
pub struct TransferBufferLocation<B> {
    pub transfer_buffer: B,
    pub offset: u32,
}

impl<B: Copy> TransferBufferLocation<B> {
    pub fn new(transfer_buffer: B, offset: u32) -> (l: Self)
        ensures
            l == (TransferBufferLocation { transfer_buffer, offset }),
    {
        TransferBufferLocation { transfer_buffer, offset }
    }

    /// The start of `transfer_buffer`.
    pub fn whole(transfer_buffer: B) -> (l: Self)
        ensures
            l == (TransferBufferLocation { transfer_buffer, offset: 0 }),
    {
        Self::new(transfer_buffer, 0)
    }
}

} // verus!
