//! Vulkan-backend handle types and value shapes.
//!
//! Vulkan dispatchable and non-dispatchable handles all share a 64-bit
//! representation, yet handing an image where a buffer is owed must not
//! compile. Each handle therefore gets a distinct wrapper type around
//! the raw word; the wrappers are deliberately non-interconvertible and
//! expose the word only through [`from_raw`](VkDevice::from_raw) and
//! [`as_raw`](VkDevice::as_raw), which are proved to be mutual
//! inverses.

use vstd::prelude::*;

verus! {

/// A Vulkan physical-device handle.
#[derive(Copy, Clone)]
pub struct VkPhysicalDevice(u64);

impl VkPhysicalDevice {
    /// The raw 64-bit word of the handle.
    pub closed spec fn spec_raw(self) -> u64 {
        self.0
    }

    /// Wraps a raw Vulkan handle word.
    pub fn from_raw(value: u64) -> (r: Self)
        ensures
            r.spec_raw() == value,
    {
        Self(value)
    }

    /// Returns the raw handle word this wrapper carries.
    pub fn as_raw(self) -> (r: u64)
        ensures
            r == self.spec_raw(),
    {
        self.0
    }
}

/// A Vulkan instance handle.
#[derive(Copy, Clone)]
pub struct VkInstance(u64);

impl VkInstance {
    /// The raw 64-bit word of the handle.
    pub closed spec fn spec_raw(self) -> u64 {
        self.0
    }

    /// Wraps a raw Vulkan handle word.
    pub fn from_raw(value: u64) -> (r: Self)
        ensures
            r.spec_raw() == value,
    {
        Self(value)
    }

    /// Returns the raw handle word this wrapper carries.
    pub fn as_raw(self) -> (r: u64)
        ensures
            r == self.spec_raw(),
    {
        self.0
    }
}

/// A Vulkan logical-device handle.
#[derive(Copy, Clone)]
pub struct VkDevice(u64);

impl VkDevice {
    /// The raw 64-bit word of the handle.
    pub closed spec fn spec_raw(self) -> u64 {
        self.0
    }

    /// Wraps a raw Vulkan handle word.
    pub fn from_raw(value: u64) -> (r: Self)
        ensures
            r.spec_raw() == value,
    {
        Self(value)
    }

    /// Returns the raw handle word this wrapper carries.
    pub fn as_raw(self) -> (r: u64)
        ensures
            r == self.spec_raw(),
    {
        self.0
    }
}

/// A Vulkan command-buffer handle.
#[derive(Copy, Clone)]
pub struct VkCommandBuffer(u64);

impl VkCommandBuffer {
    /// The raw 64-bit word of the handle.
    pub closed spec fn spec_raw(self) -> u64 {
        self.0
    }

    /// Wraps a raw Vulkan handle word.
    pub fn from_raw(value: u64) -> (r: Self)
        ensures
            r.spec_raw() == value,
    {
        Self(value)
    }

    /// Returns the raw handle word this wrapper carries.
    pub fn as_raw(self) -> (r: u64)
        ensures
            r == self.spec_raw(),
    {
        self.0
    }
}

/// A Vulkan image handle.
#[derive(Copy, Clone)]
pub struct VkImage(u64);

impl VkImage {
    /// The raw 64-bit word of the handle.
    pub closed spec fn spec_raw(self) -> u64 {
        self.0
    }

    /// Wraps a raw Vulkan handle word.
    pub fn from_raw(value: u64) -> (r: Self)
        ensures
            r.spec_raw() == value,
    {
        Self(value)
    }

    /// Returns the raw handle word this wrapper carries.
    pub fn as_raw(self) -> (r: u64)
        ensures
            r == self.spec_raw(),
    {
        self.0
    }
}

/// A Vulkan image-view handle.
#[derive(Copy, Clone)]
pub struct VkImageView(u64);

impl VkImageView {
    /// The raw 64-bit word of the handle.
    pub closed spec fn spec_raw(self) -> u64 {
        self.0
    }

    /// Wraps a raw Vulkan handle word.
    pub fn from_raw(value: u64) -> (r: Self)
        ensures
            r.spec_raw() == value,
    {
        Self(value)
    }

    /// Returns the raw handle word this wrapper carries.
    pub fn as_raw(self) -> (r: u64)
        ensures
            r == self.spec_raw(),
    {
        self.0
    }
}

/// A Vulkan buffer handle.
#[derive(Copy, Clone)]
pub struct VkBuffer(u64);

impl VkBuffer {
    /// The raw 64-bit word of the handle.
    pub closed spec fn spec_raw(self) -> u64 {
        self.0
    }

    /// Wraps a raw Vulkan handle word.
    pub fn from_raw(value: u64) -> (r: Self)
        ensures
            r.spec_raw() == value,
    {
        Self(value)
    }

    /// Returns the raw handle word this wrapper carries.
    pub fn as_raw(self) -> (r: u64)
        ensures
            r == self.spec_raw(),
    {
        self.0
    }
}

/// Number of entries in the fixed memory-type table.
pub const VK_MAX_MEMORY_TYPES: usize = 32;
/// Number of entries in the fixed memory-heap table.
pub const VK_MAX_MEMORY_HEAPS: usize = 32;

/// One memory type a Vulkan physical device offers.
#[derive(Copy, Clone, Debug, Eq, PartialEq, Hash, Structural)]
pub struct VkMemoryType {
    /// Property bits of memory allocated from this type.
    pub property_flags: u32,
    /// Index into the heap table this type allocates from.
    pub heap_index: u32,
}

/// One memory heap a Vulkan physical device offers.
#[derive(Copy, Clone, Debug, Eq, PartialEq, Hash, Structural)]
pub struct VkMemoryHeap {
    /// Byte size of the heap.
    pub size: u64,
    /// Property bits of the heap.
    pub flags: u32,
}

/// The memory-type and memory-heap tables of a Vulkan physical device,
/// with their fixed native capacities.
#[derive(Copy, Clone, Debug)]
pub struct VkPhysicalDeviceMemoryProperties {
    /// Number of meaningful entries in `memory_types`.
    pub memory_type_count: u32,
    /// Fixed memory-type table.
    pub memory_types: [VkMemoryType; VK_MAX_MEMORY_TYPES],
    /// Number of meaningful entries in `memory_heaps`.
    pub memory_heap_count: u32,
    /// Fixed memory-heap table.
    pub memory_heaps: [VkMemoryHeap; VK_MAX_MEMORY_HEAPS],
}

} // verus!
