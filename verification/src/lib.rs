//! Physical Device
//!
//! A `PhysicalDevice` represents a (usually) physical machine instance with a CPU.
//! It can be used to query feature support and available resources for the device.

pub mod amd;
pub mod bits;
pub mod cache;
pub mod cores;
pub mod cpuid;
pub mod device;
pub mod intel;
pub mod name;
pub mod properties;
pub mod topology;
pub mod vendor;

pub use crate::cache::PhysicalDeviceCacheProperties;
pub use crate::device::PhysicalDevice;
pub use crate::properties::PhysicalDeviceProperties;
pub use crate::vendor::Vendor;
