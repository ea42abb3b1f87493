//! The physical device: the machine's processor, with its properties.

use vstd::prelude::*;
use crate::properties::PhysicalDeviceProperties;
use crate::topology::normalizable;
use crate::topology::TopologyRecord;

verus! {

/// A physical machine instance with a CPU, whose properties were discovered
/// when it was enumerated.
pub struct PhysicalDevice {
    properties: PhysicalDeviceProperties,
}

impl View for PhysicalDevice {
    type V = PhysicalDeviceProperties;

    closed spec fn view(&self) -> PhysicalDeviceProperties {
        self.properties
    }
}

/// The properties come from one of the two kinds of discovery: from
/// identification queries alone, or from some topology that the operating
/// system reported.
pub open spec fn is_either_discovery(properties: PhysicalDeviceProperties) -> bool {
    ||| properties.is_discovery()
    ||| exists|records: Seq<TopologyRecord>|
        normalizable(records) && #[trigger] properties.is_discovery_from(records)
}

impl PhysicalDevice {
    #[verifier::type_invariant]
    spec fn discovered(&self) -> bool {
        is_either_discovery(self.properties)
    }

    /// Enumerate all available physical devices.
    ///
    /// Currently, this will only return the default CPU adapter.
    pub fn enumerate() -> (device: Self)
        ensures
            device@.is_discovery(),
    {
        let properties = PhysicalDeviceProperties::system();
        PhysicalDevice { properties }
    }

    /// Enumerates the default CPU adapter where the operating system has
    /// reported the processor topology: core counts and caches come from
    /// `records`, vendor and device name from identification queries.
    pub fn enumerate_from_topology(records: &[TopologyRecord]) -> (device: Self)
        requires
            normalizable(records@),
        ensures
            device@.is_discovery_from(records@),
    {
        let properties = PhysicalDeviceProperties::system_from_topology(records);
        PhysicalDevice { properties }
    }

    /// The properties that discovery found for this device.
    pub fn properties(&self) -> (properties: &PhysicalDeviceProperties)
        ensures
            *properties == self@,
            is_either_discovery(*properties),
    {
        proof {
            use_type_invariant(self);
        }
        &self.properties
    }
}

} // verus!
