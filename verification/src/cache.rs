//! Cache geometry: the record of one cache and the four that discovery reports.

use vstd::prelude::*;

verus! {

/// Size and line size of one cache.
#[derive(Debug, PartialEq, Eq, Structural)]
pub struct PhysicalDeviceCacheProperties {
    /// Size of cache in bytes.
    ///
    /// For L1 & L2 caches the size is specified per physical core.
    /// For L3 caches the size is specified per physical package.
    ///
    /// May be `0` if information couldn't be retrieved.
    pub size: u32,
    /// Size of cache line in bytes.
    ///
    /// May be `0` if information couldn't be retrieved.
    pub line_size: u32,
}

impl PhysicalDeviceCacheProperties {
    /// The record that stands for "no information": both fields zero.
    pub open spec fn unavailable() -> Self {
        PhysicalDeviceCacheProperties { size: 0, line_size: 0 }
    }

    /// Both fields are known.
    pub open spec fn is_populated(&self) -> bool {
        self.size > 0 && self.line_size > 0
    }

    /// The record is either fully populated or the "no information" record.
    pub open spec fn is_consistent(&self) -> bool {
        self.is_populated() || *self == Self::unavailable()
    }
}

impl Clone for PhysicalDeviceCacheProperties {
    fn clone(&self) -> (r: Self)
        ensures
            r == *self,
    {
        PhysicalDeviceCacheProperties { size: self.size, line_size: self.line_size }
    }
}

impl Default for PhysicalDeviceCacheProperties {
    fn default() -> (r: Self)
        ensures
            r == Self::unavailable(),
    {
        PhysicalDeviceCacheProperties { size: 0, line_size: 0 }
    }
}

/// The four caches that discovery reports.
#[derive(Debug, PartialEq, Eq, Structural)]
pub struct CacheHierarchy {
    pub l1_data: PhysicalDeviceCacheProperties,
    pub l1_instruction: PhysicalDeviceCacheProperties,
    pub l2: PhysicalDeviceCacheProperties,
    pub l3: PhysicalDeviceCacheProperties,
}

/// The place of a cache in the hierarchy.
#[derive(Debug, Copy, Clone, PartialEq, Eq, Structural)]
pub enum CacheSlot {
    L1Data,
    L1Instruction,
    L2,
    L3,
}

impl CacheHierarchy {
    /// The record in `slot`.
    pub open spec fn at(&self, slot: CacheSlot) -> PhysicalDeviceCacheProperties {
        match slot {
            CacheSlot::L1Data => self.l1_data,
            CacheSlot::L1Instruction => self.l1_instruction,
            CacheSlot::L2 => self.l2,
            CacheSlot::L3 => self.l3,
        }
    }

    /// The hierarchy with the record in `slot` replaced by `cache`.
    pub open spec fn with(&self, slot: CacheSlot, cache: PhysicalDeviceCacheProperties) -> Self {
        match slot {
            CacheSlot::L1Data => CacheHierarchy { l1_data: cache, ..*self },
            CacheSlot::L1Instruction => CacheHierarchy { l1_instruction: cache, ..*self },
            CacheSlot::L2 => CacheHierarchy { l2: cache, ..*self },
            CacheSlot::L3 => CacheHierarchy { l3: cache, ..*self },
        }
    }

    /// Replaces the record in `slot` by `cache`; the other three stay.
    pub fn set(&mut self, slot: CacheSlot, cache: PhysicalDeviceCacheProperties)
        ensures
            *final(self) == old(self).with(slot, cache),
    {
        match slot {
            CacheSlot::L1Data => {
                self.l1_data = cache;
            },
            CacheSlot::L1Instruction => {
                self.l1_instruction = cache;
            },
            CacheSlot::L2 => {
                self.l2 = cache;
            },
            CacheSlot::L3 => {
                self.l3 = cache;
            },
        }
    }

    /// All four caches without information.
    pub open spec fn unavailable() -> Self {
        CacheHierarchy {
            l1_data: PhysicalDeviceCacheProperties::unavailable(),
            l1_instruction: PhysicalDeviceCacheProperties::unavailable(),
            l2: PhysicalDeviceCacheProperties::unavailable(),
            l3: PhysicalDeviceCacheProperties::unavailable(),
        }
    }

    /// Each of the four records is fully populated or without information.
    pub open spec fn is_consistent(&self) -> bool {
        &&& self.l1_data.is_consistent()
        &&& self.l1_instruction.is_consistent()
        &&& self.l2.is_consistent()
        &&& self.l3.is_consistent()
    }
}

impl Clone for CacheHierarchy {
    fn clone(&self) -> (r: Self)
        ensures
            r == *self,
    {
        CacheHierarchy {
            l1_data: self.l1_data.clone(),
            l1_instruction: self.l1_instruction.clone(),
            l2: self.l2.clone(),
            l3: self.l3.clone(),
        }
    }
}

impl Default for CacheHierarchy {
    fn default() -> (r: Self)
        ensures
            r == Self::unavailable(),
    {
        CacheHierarchy {
            l1_data: PhysicalDeviceCacheProperties { size: 0, line_size: 0 },
            l1_instruction: PhysicalDeviceCacheProperties { size: 0, line_size: 0 },
            l2: PhysicalDeviceCacheProperties { size: 0, line_size: 0 },
            l3: PhysicalDeviceCacheProperties { size: 0, line_size: 0 },
        }
    }
}

} // verus!
