//! Hand-off blocks in a form fit for text: GUIDs are held as text, and the
//! descriptors of memory and of resources are ranges that can be merged.

use crate::efi::Guid;
use crate::serializable::format_guid;
use crate::serializable::guid_text;
use crate::serializable::interval::Interval;
use vstd::prelude::*;

verus! {

/// A hand-off block, reduced to what is written out.
#[derive(Debug, Clone, PartialEq, Eq)]
pub enum HobSerDe {
    /// The block that opens the list.
    Handoff {
        version: u32,
        memory_top: u64,
        memory_bottom: u64,
        free_memory_top: u64,
        free_memory_bottom: u64,
        end_of_hob_list: u64,
    },
    /// A memory allocation.
    MemoryAllocation { alloc_descriptor: MemAllocDescriptorSerDe },
    /// A resource.
    ResourceDescriptor(ResourceDescriptorSerDe),
    /// A resource with the attributes of the second version.
    ResourceDescriptorV2 { v1: ResourceDescriptorSerDe, attributes: u64 },
    /// An extension, named by a GUID.
    GuidExtension { name: String },
    /// A firmware volume.
    FirmwareVolume { base_address: u64, length: u64 },
    /// The address widths of the processor.
    Cpu { size_of_memory_space: u8, size_of_io_space: u8 },
    /// Any other block.
    UnknownHob,
}

/// The descriptor of a memory allocation.
#[derive(Debug, Clone, PartialEq, Eq, PartialOrd, Ord)]
pub struct MemAllocDescriptorSerDe {
    /// The name, a GUID as text.
    pub name: String,
    /// The first address of the memory.
    pub memory_base_address: u64,
    /// The length of the memory in bytes.
    pub memory_length: u64,
    /// The type of the memory.
    pub memory_type: u32,
}

/// The descriptor of a resource.
#[derive(Debug, Clone, PartialEq, Eq)]
pub struct ResourceDescriptorSerDe {
    /// The owner, a GUID as text.
    pub owner: String,
    /// The type of the resource.
    pub resource_type: u32,
    /// The attributes of the resource.
    pub resource_attribute: u32,
    /// The first address of the resource.
    pub physical_start: u64,
    /// The length of the resource in bytes.
    pub resource_length: u64,
}

/// The first text comes before the second when texts are compared
/// character by character, a shorter text before each of its extensions.
pub open spec fn text_precedes(a: Seq<char>, b: Seq<char>) -> bool
    decreases a.len(),
{
    if b.len() == 0 {
        false
    } else if a.len() == 0 {
        true
    } else if a[0] != b[0] {
        (a[0] as u32) < (b[0] as u32)
    } else {
        text_precedes(a.skip(1), b.skip(1))
    }
}

/// Compares two texts with `<` on `str`, which orders texts by their
/// bytes and thereby by their characters' code points.
#[verifier::external_body]
fn text_sorts_before(a: &str, b: &str) -> (before: bool)
    ensures
        before == text_precedes(a@, b@),
{
    a < b
}

impl MemAllocDescriptorSerDe {
    /// The descriptor of the memory named `name`.
    pub fn new(
        name: Guid,
        memory_base_address: u64,
        memory_length: u64,
        memory_type: u32,
    ) -> (descriptor: MemAllocDescriptorSerDe)
        ensures
            descriptor.name@ == guid_text(name@),
            descriptor.memory_base_address == memory_base_address,
            descriptor.memory_length == memory_length,
            descriptor.memory_type == memory_type,
    {
        MemAllocDescriptorSerDe {
            name: format_guid(name),
            memory_base_address,
            memory_length,
            memory_type,
        }
    }
}

impl Interval for MemAllocDescriptorSerDe {
    open spec fn spec_start(&self) -> int {
        self.memory_base_address as int
    }

    open spec fn spec_end(&self) -> int {
        self.memory_base_address + self.memory_length
    }

    /// The merged descriptor keeps the name and the type of the first one.
    open spec fn spec_merge(&self, other: &Self) -> Self {
        let start = if self.spec_start() <= other.spec_start() {
            self.spec_start()
        } else {
            other.spec_start()
        };
        let end = if self.spec_end() >= other.spec_end() {
            self.spec_end()
        } else {
            other.spec_end()
        };
        MemAllocDescriptorSerDe {
            name: self.name,
            memory_type: self.memory_type,
            memory_base_address: start as u64,
            memory_length: (end - start) as u64,
        }
    }

    /// Descriptors are sorted by name, then by address, length and type.
    open spec fn spec_sorts_before(&self, other: &Self) -> bool {
        if self.name@ != other.name@ {
            text_precedes(self.name@, other.name@)
        } else if self.memory_base_address != other.memory_base_address {
            self.memory_base_address < other.memory_base_address
        } else if self.memory_length != other.memory_length {
            self.memory_length < other.memory_length
        } else {
            self.memory_type < other.memory_type
        }
    }

    fn start(&self) -> (start: u64) {
        self.memory_base_address
    }

    fn end(&self) -> (end: u64) {
        self.memory_base_address + self.memory_length
    }

    fn merge(&self, other: &Self) -> (merged: Self) {
        let start: u64 = if self.start() <= other.start() {
            self.start()
        } else {
            other.start()
        };
        let end: u64 = if self.end() >= other.end() {
            self.end()
        } else {
            other.end()
        };
        MemAllocDescriptorSerDe {
            name: self.name.clone(),
            memory_type: self.memory_type,
            memory_base_address: start,
            memory_length: end - start,
        }
    }

    fn sorts_before(&self, other: &Self) -> (before: bool) {
        if self.name != other.name {
            text_sorts_before(self.name.as_str(), other.name.as_str())
        } else if self.memory_base_address != other.memory_base_address {
            self.memory_base_address < other.memory_base_address
        } else if self.memory_length != other.memory_length {
            self.memory_length < other.memory_length
        } else {
            self.memory_type < other.memory_type
        }
    }

    fn duplicate(&self) -> (copy: Self) {
        MemAllocDescriptorSerDe {
            name: self.name.clone(),
            memory_base_address: self.memory_base_address,
            memory_length: self.memory_length,
            memory_type: self.memory_type,
        }
    }
}

impl ResourceDescriptorSerDe {
    /// The descriptor of the resource owned by `owner`.
    pub fn new(
        owner: Guid,
        resource_type: u32,
        resource_attribute: u32,
        physical_start: u64,
        resource_length: u64,
    ) -> (descriptor: ResourceDescriptorSerDe)
        ensures
            descriptor.owner@ == guid_text(owner@),
            descriptor.resource_type == resource_type,
            descriptor.resource_attribute == resource_attribute,
            descriptor.physical_start == physical_start,
            descriptor.resource_length == resource_length,
    {
        ResourceDescriptorSerDe {
            owner: format_guid(owner),
            resource_type,
            resource_attribute,
            physical_start,
            resource_length,
        }
    }
}

impl Interval for ResourceDescriptorSerDe {
    open spec fn spec_start(&self) -> int {
        self.physical_start as int
    }

    open spec fn spec_end(&self) -> int {
        self.physical_start + self.resource_length
    }

    /// The merged descriptor keeps the owner, the type and the attributes
    /// of the first one.
    open spec fn spec_merge(&self, other: &Self) -> Self {
        let start = if self.spec_start() <= other.spec_start() {
            self.spec_start()
        } else {
            other.spec_start()
        };
        let end = if self.spec_end() >= other.spec_end() {
            self.spec_end()
        } else {
            other.spec_end()
        };
        ResourceDescriptorSerDe {
            owner: self.owner,
            resource_type: self.resource_type,
            resource_attribute: self.resource_attribute,
            physical_start: start as u64,
            resource_length: (end - start) as u64,
        }
    }

    /// Descriptors are sorted by their first address, then by their
    /// length.
    open spec fn spec_sorts_before(&self, other: &Self) -> bool {
        if self.physical_start != other.physical_start {
            self.physical_start < other.physical_start
        } else {
            self.resource_length < other.resource_length
        }
    }

    fn start(&self) -> (start: u64) {
        self.physical_start
    }

    fn end(&self) -> (end: u64) {
        self.physical_start + self.resource_length
    }

    fn merge(&self, other: &Self) -> (merged: Self) {
        let start: u64 = if self.start() <= other.start() {
            self.start()
        } else {
            other.start()
        };
        let end: u64 = if self.end() >= other.end() {
            self.end()
        } else {
            other.end()
        };
        ResourceDescriptorSerDe {
            owner: self.owner.clone(),
            resource_type: self.resource_type,
            resource_attribute: self.resource_attribute,
            physical_start: start,
            resource_length: end - start,
        }
    }

    fn sorts_before(&self, other: &Self) -> (before: bool) {
        if self.physical_start != other.physical_start {
            self.physical_start < other.physical_start
        } else {
            self.resource_length < other.resource_length
        }
    }

    fn duplicate(&self) -> (copy: Self) {
        ResourceDescriptorSerDe {
            owner: self.owner.clone(),
            resource_type: self.resource_type,
            resource_attribute: self.resource_attribute,
            physical_start: self.physical_start,
            resource_length: self.resource_length,
        }
    }
}

} // verus!
