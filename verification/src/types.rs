//! Classification of native type codes into closed enumerations.
//!
//! The native backend reports the role of a USB node and the product
//! variant of a device as small integer codes.  Both classifications are
//! total: a code outside the known set falls back to a catch-all variant
//! instead of failing.

use vstd::prelude::*;

verus! {

/// Native code for a USB hub node.
pub const USB_TYPE_CODE_HUB: u32 = 0;
/// Native code for a legacy serial node.
pub const USB_TYPE_CODE_SERIAL: u32 = 1;
/// Native code for the main CPU serial node.
pub const USB_TYPE_CODE_SERIAL_MAIN: u32 = 2;
/// Native code for the display CPU serial node.
pub const USB_TYPE_CODE_SERIAL_DISPLAY: u32 = 3;
/// Native code for a mass-storage node.
pub const USB_TYPE_CODE_MASS_STORAGE: u32 = 4;
/// Native code for an ESP32 node.
pub const USB_TYPE_CODE_ESP32: u32 = 5;
/// Native code for an FTDI (FPGA/JTAG) node.
pub const USB_TYPE_CODE_FTDI: u32 = 6;
/// Native code for a USB node of no special role.
pub const USB_TYPE_CODE_OTHER: u32 = 7;
/// Native end-of-range marker for USB role codes.
pub const USB_TYPE_CODE_MAX_VALUE: u32 = 8;

/// Native code for a device of unknown product variant.
pub const DEVICE_TYPE_CODE_UNKNOWN: u32 = 0;
/// Native code for a FreeWili device.
pub const DEVICE_TYPE_CODE_FREEWILI: u32 = 1;
/// Native code for a DEFCON 2024 badge.
pub const DEVICE_TYPE_CODE_DEFCON_2024_BADGE: u32 = 2;
/// Native code for a DEFCON 2025 FW badge.
pub const DEVICE_TYPE_CODE_DEFCON_2025_FW_BADGE: u32 = 3;
/// Native code for a device in UF2 bootloader mode.
pub const DEVICE_TYPE_CODE_UF2: u32 = 4;
/// Native code for a Winky device.
pub const DEVICE_TYPE_CODE_WINKY: u32 = 5;

/// Semantic role of one USB node in a device's sub-topology.
#[derive(Debug, Clone, Copy, PartialEq, Eq, Structural)]
pub enum UsbDeviceType {
    /// USB Hub
    Hub,
    /// Legacy Serial device
    Serial,
    /// Main CPU Serial
    SerialMain,
    /// Display CPU Serial
    SerialDisplay,
    /// Mass Storage Device
    MassStorage,
    /// ESP32 device
    Esp32,
    /// FTDI device (typically connected to FPGA)
    Ftdi,
    /// Other/Unknown USB device
    Other,
    /// Maximum value marker (internal use)
    _MaxValue,
}

/// Product variant of a discovered device.
#[derive(Debug, Clone, Copy, PartialEq, Eq, Structural)]
pub enum DeviceType {
    /// Unknown product variant
    Unknown,
    /// FreeWili device
    Freewili,
    /// DEFCON 2024 badge
    Defcon2024Badge,
    /// DEFCON 2025 FW badge
    Defcon2025FwBadge,
    /// Device in UF2 bootloader mode
    Uf2,
    /// Winky device
    Winky,
}

/// Whether a USB role code is one the native protocol defines.
pub open spec fn is_known_usb_type_code(code: u32) -> bool {
    code == USB_TYPE_CODE_HUB || code == USB_TYPE_CODE_SERIAL || code == USB_TYPE_CODE_SERIAL_MAIN
        || code == USB_TYPE_CODE_SERIAL_DISPLAY || code == USB_TYPE_CODE_MASS_STORAGE
        || code == USB_TYPE_CODE_ESP32 || code == USB_TYPE_CODE_FTDI || code == USB_TYPE_CODE_OTHER
        || code == USB_TYPE_CODE_MAX_VALUE
}

/// The role a native USB role code classifies to.
pub open spec fn usb_type_of_code(code: u32) -> UsbDeviceType {
    if code == USB_TYPE_CODE_HUB {
        UsbDeviceType::Hub
    } else if code == USB_TYPE_CODE_SERIAL {
        UsbDeviceType::Serial
    } else if code == USB_TYPE_CODE_SERIAL_MAIN {
        UsbDeviceType::SerialMain
    } else if code == USB_TYPE_CODE_SERIAL_DISPLAY {
        UsbDeviceType::SerialDisplay
    } else if code == USB_TYPE_CODE_MASS_STORAGE {
        UsbDeviceType::MassStorage
    } else if code == USB_TYPE_CODE_ESP32 {
        UsbDeviceType::Esp32
    } else if code == USB_TYPE_CODE_FTDI {
        UsbDeviceType::Ftdi
    } else if code == USB_TYPE_CODE_MAX_VALUE {
        UsbDeviceType::_MaxValue
    } else {
        UsbDeviceType::Other
    }
}

/// Whether a device type code is one the native protocol defines.
pub open spec fn is_known_device_type_code(code: u32) -> bool {
    code == DEVICE_TYPE_CODE_UNKNOWN || code == DEVICE_TYPE_CODE_FREEWILI
        || code == DEVICE_TYPE_CODE_DEFCON_2024_BADGE || code == DEVICE_TYPE_CODE_DEFCON_2025_FW_BADGE
        || code == DEVICE_TYPE_CODE_UF2 || code == DEVICE_TYPE_CODE_WINKY
}

/// The product variant a native device type code classifies to.
pub open spec fn device_type_of_code(code: u32) -> DeviceType {
    if code == DEVICE_TYPE_CODE_FREEWILI {
        DeviceType::Freewili
    } else if code == DEVICE_TYPE_CODE_DEFCON_2024_BADGE {
        DeviceType::Defcon2024Badge
    } else if code == DEVICE_TYPE_CODE_DEFCON_2025_FW_BADGE {
        DeviceType::Defcon2025FwBadge
    } else if code == DEVICE_TYPE_CODE_UF2 {
        DeviceType::Uf2
    } else if code == DEVICE_TYPE_CODE_WINKY {
        DeviceType::Winky
    } else {
        DeviceType::Unknown
    }
}

/// Display name of a USB role.
pub open spec fn usb_type_name_spec(t: UsbDeviceType) -> Seq<char> {
    match t {
        UsbDeviceType::Hub => "Hub"@,
        UsbDeviceType::Serial => "Serial"@,
        UsbDeviceType::SerialMain => "Main"@,
        UsbDeviceType::SerialDisplay => "Display"@,
        UsbDeviceType::MassStorage => "Storage"@,
        UsbDeviceType::Esp32 => "ESP32"@,
        UsbDeviceType::Ftdi => "FPGA"@,
        UsbDeviceType::Other => "Other"@,
        UsbDeviceType::_MaxValue => "Unknown"@,
    }
}

/// Display name of a product variant.
pub open spec fn device_type_name_spec(t: DeviceType) -> Seq<char> {
    match t {
        DeviceType::Unknown => "Unknown"@,
        DeviceType::Freewili => "FreeWili"@,
        DeviceType::Defcon2024Badge => "DEFCON 2024 Badge"@,
        DeviceType::Defcon2025FwBadge => "DEFCON 2025 FW Badge"@,
        DeviceType::Uf2 => "UF2"@,
        DeviceType::Winky => "Winky"@,
    }
}

impl UsbDeviceType {
    /// Classifies a native USB role code.  Total: codes outside the known
    /// set classify to `Other`.
    pub fn from_code(code: u32) -> (r: UsbDeviceType)
        ensures
            r == usb_type_of_code(code),
    {
        if code == USB_TYPE_CODE_HUB {
            UsbDeviceType::Hub
        } else if code == USB_TYPE_CODE_SERIAL {
            UsbDeviceType::Serial
        } else if code == USB_TYPE_CODE_SERIAL_MAIN {
            UsbDeviceType::SerialMain
        } else if code == USB_TYPE_CODE_SERIAL_DISPLAY {
            UsbDeviceType::SerialDisplay
        } else if code == USB_TYPE_CODE_MASS_STORAGE {
            UsbDeviceType::MassStorage
        } else if code == USB_TYPE_CODE_ESP32 {
            UsbDeviceType::Esp32
        } else if code == USB_TYPE_CODE_FTDI {
            UsbDeviceType::Ftdi
        } else if code == USB_TYPE_CODE_MAX_VALUE {
            UsbDeviceType::_MaxValue
        } else {
            UsbDeviceType::Other
        }
    }

    /// Display name of this role.
    pub fn name(self) -> (r: String)
        ensures
            r@ == usb_type_name_spec(self),
    {
        match self {
            UsbDeviceType::Hub => "Hub".to_owned(),
            UsbDeviceType::Serial => "Serial".to_owned(),
            UsbDeviceType::SerialMain => "Main".to_owned(),
            UsbDeviceType::SerialDisplay => "Display".to_owned(),
            UsbDeviceType::MassStorage => "Storage".to_owned(),
            UsbDeviceType::Esp32 => "ESP32".to_owned(),
            UsbDeviceType::Ftdi => "FPGA".to_owned(),
            UsbDeviceType::Other => "Other".to_owned(),
            UsbDeviceType::_MaxValue => "Unknown".to_owned(),
        }
    }
}

impl DeviceType {
    /// Classifies a native device type code.  Total: codes outside the
    /// known set classify to `Unknown`.
    pub fn from_code(code: u32) -> (r: DeviceType)
        ensures
            r == device_type_of_code(code),
    {
        if code == DEVICE_TYPE_CODE_FREEWILI {
            DeviceType::Freewili
        } else if code == DEVICE_TYPE_CODE_DEFCON_2024_BADGE {
            DeviceType::Defcon2024Badge
        } else if code == DEVICE_TYPE_CODE_DEFCON_2025_FW_BADGE {
            DeviceType::Defcon2025FwBadge
        } else if code == DEVICE_TYPE_CODE_UF2 {
            DeviceType::Uf2
        } else if code == DEVICE_TYPE_CODE_WINKY {
            DeviceType::Winky
        } else {
            DeviceType::Unknown
        }
    }

    /// Display name of this product variant.
    pub fn name(self) -> (r: String)
        ensures
            r@ == device_type_name_spec(self),
    {
        match self {
            DeviceType::Unknown => "Unknown".to_owned(),
            DeviceType::Freewili => "FreeWili".to_owned(),
            DeviceType::Defcon2024Badge => "DEFCON 2024 Badge".to_owned(),
            DeviceType::Defcon2025FwBadge => "DEFCON 2025 FW Badge".to_owned(),
            DeviceType::Uf2 => "UF2".to_owned(),
            DeviceType::Winky => "Winky".to_owned(),
        }
    }
}

/// Law: a USB role code outside the known set always classifies to
/// `Other`; classification never fails.
pub proof fn lemma_unknown_usb_code_is_other(code: u32)
    requires
        !is_known_usb_type_code(code),
    ensures
        usb_type_of_code(code) is Other,
{
}

/// Law: a device type code outside the known set always classifies to
/// `Unknown`; classification never fails.
pub proof fn lemma_unknown_device_code_is_unknown(code: u32)
    requires
        !is_known_device_type_code(code),
    ensures
        device_type_of_code(code) is Unknown,
{
}

} // verus!
