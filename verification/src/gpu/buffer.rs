//! GPU buffer usages and creation parameters.

use vstd::prelude::*;

verus! {

/// How a buffer is going to be used.
///
/// The bits are those of `SDL_GPUBufferUsageFlags`.
#[derive(Clone, Copy, Debug, PartialEq, Eq, Hash, Structural)]
pub struct BufferUsageFlags {
    bits: u32,
}

impl View for BufferUsageFlags {
    type V = u32;

    closed spec fn view(&self) -> u32 {
        self.bits
    }
}

impl BufferUsageFlags {
    /// The bits of all the named flags.
    pub open spec fn all_bits() -> u32 {
        0x3fu32
    }

    /// No flag set.
    pub fn empty() -> (f: Self)
        ensures
            f@ == 0,
    {
        BufferUsageFlags { bits: 0 }
    }

    /// Every named flag set.
    pub fn all() -> (f: Self)
        ensures
            f@ == Self::all_bits(),
    {
        BufferUsageFlags { bits: 0x3fu32 }
    }

    /// Vertex data.
    pub fn vertex() -> (f: Self)
        ensures
            f@ == 0x1u32,
    {
        BufferUsageFlags { bits: 0x1u32 }
    }

    /// Index data.
    pub fn index() -> (f: Self)
        ensures
            f@ == 0x2u32,
    {
        BufferUsageFlags { bits: 0x2u32 }
    }

    /// Indirect draw or dispatch commands.
    pub fn indirect() -> (f: Self)
        ensures
            f@ == 0x4u32,
    {
        BufferUsageFlags { bits: 0x4u32 }
    }

    /// Read as storage by graphics stages.
    pub fn graphics_storage_read() -> (f: Self)
        ensures
            f@ == 0x8u32,
    {
        BufferUsageFlags { bits: 0x8u32 }
    }

    /// Read as storage by compute stages.
    pub fn compute_storage_read() -> (f: Self)
        ensures
            f@ == 0x10u32,
    {
        BufferUsageFlags { bits: 0x10u32 }
    }

    /// Written as storage by compute stages.
    pub fn compute_storage_write() -> (f: Self)
        ensures
            f@ == 0x20u32,
    {
        BufferUsageFlags { bits: 0x20u32 }
    }

    /// The raw bits.
    pub fn bits(&self) -> (b: u32)
        ensures
            b == self@,
    {
        self.bits
    }

    /// The flag set with exactly these bits, named or not.
    pub fn from_bits_retain(bits: u32) -> (f: Self)
        ensures
            f@ == bits,
    {
        BufferUsageFlags { bits }
    }

    /// The flag set with these bits, if every set bit is a named flag.
    pub fn from_bits(bits: u32) -> (r: Option<Self>)
        ensures
            r is Some <==> bits & Self::all_bits() == bits,
            r matches Some(f) ==> f@ == bits,
    {
        if bits & 0x3fu32 == bits {
            Some(BufferUsageFlags { bits })
        } else {
            None
        }
    }

    /// Whether no bit is set.
    pub fn is_empty(&self) -> (r: bool)
        ensures
            r == (self@ == 0),
    {
        self.bits == 0
    }

    /// Whether every bit of `other` is set here.
    pub fn contains(&self, other: Self) -> (r: bool)
        ensures
            r == (self@ & other@ == other@),
    {
        self.bits & other.bits == other.bits
    }

    /// Whether some bit of `other` is set here.
    pub fn intersects(&self, other: Self) -> (r: bool)
        ensures
            r == (self@ & other@ != 0),
    {
        self.bits & other.bits != 0
    }

    /// The bits set here or in `other`.
    pub fn union(self, other: Self) -> (f: Self)
        ensures
            f@ == self@ | other@,
    {
        BufferUsageFlags { bits: self.bits | other.bits }
    }

    /// The bits set both here and in `other`.
    pub fn intersection(self, other: Self) -> (f: Self)
        ensures
            f@ == self@ & other@,
    {
        BufferUsageFlags { bits: self.bits & other.bits }
    }

    /// Set the bits of `other`.
    pub fn insert(&mut self, other: Self)
        ensures
            final(self)@ == old(self)@ | other@,
    {
        self.bits = self.bits | other.bits;
    }

    /// Clear the bits of `other`.
    pub fn remove(&mut self, other: Self)
        ensures
            final(self)@ == old(self)@ & !other@,
    {
        self.bits = self.bits & !other.bits;
    }
}

/// Flag sets behave as sets: a union holds both sides and does not depend
/// on their order, an intersection lies within both sides, inserted flags
/// are then contained, removed flags no longer intersect, and the empty set
/// contains nothing but itself.
pub proof fn lemma_buffer_usage_flags_set_algebra(a: BufferUsageFlags, b: BufferUsageFlags)
    ensures
        (a@ | b@) & a@ == a@,
        (a@ | b@) & b@ == b@,
        a@ | b@ == b@ | a@,
        (a@ & b@) & a@ == a@ & b@,
        (a@ & b@) & b@ == a@ & b@,
        (a@ & !b@) & b@ == 0,
        a@ | 0 == a@,
        a@ & 0 == 0,
{
    crate::bits::lemma_mask_algebra_u32(a@, b@);
}

/// The parameters of a new buffer: its usage and its size in bytes. The
/// extension properties are left out: they are always zero.
#[derive(Clone, Copy, Debug, PartialEq, Eq, Structural)]
pub struct BufferCreateInfo {
    pub usage: BufferUsageFlags,
    pub size: u32,
}

impl BufferCreateInfo {
    pub fn new(usage: BufferUsageFlags, size: u32) -> (ci: Self)
        ensures
            ci == (BufferCreateInfo { usage, size }),
    {
        BufferCreateInfo { usage, size }
    }
}

/// A byte range of a buffer: the buffer, the offset and the size.
#[derive(Clone, Copy, Debug, PartialEq, Eq)]
pub struct BufferRegion<B> {
    pub buffer: B,
    pub offset: u32,
    pub size: u32,
}

impl<B: Copy> BufferRegion<B> {
    pub fn new(buffer: B, offset: u32, size: u32) -> (r: Self)
        ensures
            r == (BufferRegion { buffer, offset, size }),
    {
        BufferRegion { buffer, offset, size }
    }

    /// The first `size` bytes of `buffer`.
    pub fn whole(buffer: B, size: u32) -> (r: Self)
        ensures
            r == (BufferRegion { buffer, offset: 0, size }),
    {
        Self::new(buffer, 0, size)
    }
}

/// A buffer bound at a byte offset.
#[derive(Clone, Copy, Debug, PartialEq, Eq)]
pub struct BufferBinding<B> {
    pub buffer: B,
    pub offset: u32,
}

impl<B: Copy> BufferBinding<B> {
    pub fn new(buffer: B, offset: u32) -> (b: Self)
        ensures
            b == (BufferBinding { buffer, offset }),
    {
        BufferBinding { buffer, offset }
    }
}

/// A byte position in a buffer.
#[derive(Clone, Copy, Debug, PartialEq, Eq)]
pub struct BufferLocation<B> {
    pub buffer: B,
    pub offset: u32,
}

impl<B: Copy> BufferLocation<B> {
    pub fn new(buffer: B, offset: u32) -> (l: Self)
        ensures
            l == (BufferLocation { buffer, offset }),
    {
        BufferLocation { buffer, offset }
    }

    /// The start of `buffer`.
    pub fn at_start(buffer: B) -> (l: Self)
        ensures
            l == (BufferLocation { buffer, offset: 0 }),
    {
        Self::new(buffer, 0)
    }
}

/// A storage buffer bound for reading and writing, and whether it is cycled
/// if it is in use.
#[derive(Clone, Copy, Debug, PartialEq, Eq)]
pub struct StorageBufferReadWriteBinding<B> {
    pub buffer: B,
    pub cycle: bool,
}

impl<B: Copy> StorageBufferReadWriteBinding<B> {
    pub fn new(buffer: B, cycle: bool) -> (b: Self)
        ensures
            b == (StorageBufferReadWriteBinding { buffer, cycle }),
    {
        StorageBufferReadWriteBinding { buffer, cycle }
    }
}

} // verus!
