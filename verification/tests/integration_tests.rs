//! Integration tests for the FreeWili device discovery library.

use freewili_finder_rs::FreeWiliDevice;
use freewili_finder_rs::FreeWiliError;
use freewili_finder_rs::USBDevice;
use freewili_finder_rs::UsbDeviceType;
use freewili_finder_rs::device::RawDeviceInfo;
use freewili_finder_rs::device::ScanResult;
use freewili_finder_rs::error::ERROR_CODE_INVALID_DEVICE;
use freewili_finder_rs::error::ERROR_CODE_SUCCESS;
use freewili_finder_rs::usb::RawBool;
use freewili_finder_rs::usb::RawPortChain;
use freewili_finder_rs::usb::RawString;
use freewili_finder_rs::usb::RawU32;
use freewili_finder_rs::usb::RawU64;
use freewili_finder_rs::usb::RawUsbNode;

fn ok_string(text: &str) -> RawString {
    RawString { status: ERROR_CODE_SUCCESS, text: text.to_string() }
}

fn ok_u32(value: u32) -> RawU32 {
    RawU32 { status: ERROR_CODE_SUCCESS, value }
}

fn node(role_code: u32, name: &str, serial: &str, port: &str, path: &str) -> RawUsbNode {
    RawUsbNode {
        role: ok_u32(role_code),
        vid: ok_u32(0x1234),
        pid: ok_u32(0x5678),
        location: ok_u32(2),
        name: ok_string(name),
        serial: ok_string(serial),
        port: ok_string(port),
        path: ok_string(path),
        port_chain: RawPortChain {
            status: ERROR_CODE_SUCCESS,
            entries: vec![1, 2, 0, 0, 0, 0, 0, 0, 0, 0],
            count: 2,
        },
    }
}

fn device_info(name: &str, serial: &str, nodes: Vec<RawUsbNode>) -> RawDeviceInfo {
    RawDeviceInfo {
        type_code: ok_u32(1),
        name: ok_string(name),
        serial: ok_string(serial),
        unique_id: RawU64 { status: ERROR_CODE_SUCCESS, value: 77 },
        standalone: RawBool { status: ERROR_CODE_SUCCESS, value: false },
        usb_nodes: nodes,
    }
}

#[test]
fn test_usb_device_type_basic() {
    // Test that the enum variants are properly defined
    assert_eq!(UsbDeviceType::Hub, UsbDeviceType::Hub);
    assert_ne!(UsbDeviceType::SerialMain, UsbDeviceType::SerialDisplay);
}

#[test]
fn test_usb_device_display() {
    // Test that display rendering works
    let usb_device = USBDevice {
        kind: UsbDeviceType::SerialMain,
        kind_name: "Main".to_string(),
        vid: 0x1234,
        pid: 0x5678,
        name: "Test Device".to_string(),
        serial: "TEST123".to_string(),
        location: 0,
        port_chain: vec![],
        port: Some("/dev/ttyUSB0".to_string()),
        paths: None,
    };

    let display_string = usb_device.display_string();
    assert_eq!(display_string, "Main: Test Device: /dev/ttyUSB0");
}

#[test]
fn test_usb_device_with_paths() {
    // Test USB device with paths instead of port
    let usb_device = USBDevice {
        kind: UsbDeviceType::MassStorage,
        kind_name: "Storage".to_string(),
        vid: 0x1234,
        pid: 0x5678,
        name: "Storage Device".to_string(),
        serial: "STORAGE123".to_string(),
        location: 0,
        port_chain: vec![],
        port: None,
        paths: Some(vec!["/dev/sda".to_string(), "/dev/sdb".to_string()]),
    };

    let display_string = usb_device.display_string();
    assert_eq!(display_string, "Storage: Storage Device: /dev/sda, /dev/sdb");
}

#[test]
fn test_error_conversion() {
    // Test error conversion from native error codes
    let ffi_error = ERROR_CODE_INVALID_DEVICE;
    let rust_error: FreeWiliError = FreeWiliError::from_code(ffi_error);

    match rust_error {
        FreeWiliError::InvalidDevice => {
            // This is expected
        }
        _ => panic!("Unexpected error type: {rust_error:?}"),
    }
}

#[test]
fn test_basic_functionality() {
    let scan = ScanResult {
        status: ERROR_CODE_SUCCESS,
        devices: vec![device_info(
            "FreeWili",
            "FW4607",
            vec![
                node(0, "USB2.1 Hub", "HUB001", "", ""),
                node(2, "Main CPU", "MAIN001", "/dev/ttyACM0", ""),
                node(3, "Display CPU", "DISP001", "/dev/ttyACM1", ""),
                node(6, "FTDI FPGA", "FPGA001", "", ""),
            ],
        )],
        error_message: vec![0],
    };
    let mut devices = FreeWiliDevice::find_all(scan).unwrap();

    for (i, device) in devices.iter_mut().enumerate() {
        let dev_type = device.device_type().unwrap();
        let family_name = device.device_type_name().unwrap();
        let name = device.name().unwrap();
        let serial = device.serial().unwrap();
        let unique_id = device.unique_id().unwrap();
        let standalone = device.standalone().unwrap();
        let usb_devices = device.get_usb_devices().unwrap();

        println!("{}. Found device: {}", i + 1, device.display_string());
        println!("\ttype: {:?}", dev_type);
        println!("\ttype name: {}", family_name);
        println!("\tname: {}", name);
        println!("\tserial: {}", serial);
        println!("\tunique ID: {}", unique_id);
        println!("\tstandalone: {}", standalone);
        println!("\tUSB devices ({}):", usb_devices.len());

        for (count, usb_device) in usb_devices.iter().enumerate() {
            println!("\t\t{}: {}", count + 1, usb_device.kind_name);
            println!("\t\t\tname: {}", usb_device.name);
            println!("\t\t\tserial: {}", usb_device.serial);
            println!("\t\t\tVID: {} PID: {}", usb_device.vid, usb_device.pid);
            println!("\t\t\tlocation: {}", usb_device.location);
            println!("\t\t\tport chain: {:?}", usb_device.port_chain);
            if let Some(paths) = &usb_device.paths {
                println!("\t\t\tpath: {}", paths.join(", "));
            }
            if let Some(port) = &usb_device.port {
                println!("\t\t\tport: {}", port);
            }
        }

        // Try to get specific USB devices - these may fail, so handle gracefully
        if let Ok(main_usb_device) = device.get_main_usb_device() {
            println!("\tMain USB device: {}", main_usb_device.kind_name);
        } else {
            println!("\tNo main USB device found");
        }

        if let Ok(display_usb_device) = device.get_display_usb_device() {
            println!("\tDisplay USB device: {}", display_usb_device.kind_name);
        } else {
            println!("\tNo display USB device found");
        }

        if let Ok(fpga_usb_device) = device.get_fpga_usb_device() {
            println!("\tFPGA USB device: {}", fpga_usb_device.kind_name);
        } else {
            println!("\tNo FPGA USB device found");
        }

        if let Ok(hub_usb_device) = device.get_hub_usb_device() {
            println!("\tHUB USB device: {}", hub_usb_device.kind_name);
        } else {
            println!("\tNo HUB USB device found");
        }
    }
}
