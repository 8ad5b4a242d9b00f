//! Discovery and classification engine for FreeWili USB-attached devices.
//!
//! The engine enumerates devices reported by a platform scan, classifies
//! their native type codes into closed enumerations, builds immutable
//! snapshots of each USB node in a device's sub-topology, and enforces the
//! ownership discipline of the native device resources.  The platform
//! backend itself (the OS device-tree walker) is an external collaborator;
//! its answers enter the library as plain raw query outcomes, and every
//! decision taken on those answers is verified.

pub mod device;
pub mod error;
pub mod text;
pub mod types;
pub mod usb;

pub use device::FreeWiliDevice;
pub use device::RawDeviceInfo;
pub use device::ScanResult;
pub use device::StringKind;
pub use error::FreeWiliError;
pub use types::DeviceType;
pub use types::UsbDeviceType;
pub use usb::USBDevice;
