//! Peripheral records: the connected-hardware snapshot the surrounding
//! program assembles — displays, USB devices, cameras and Bluetooth
//! devices.  Plain data, filled by the platform probes and serialized by
//! the caller.

use vstd::prelude::*;

verus! {

/// One connected display.
#[derive(Debug, Clone)]
pub struct DisplayInfo {
    /// The display's name.
    pub name: String,
    /// Horizontal resolution in pixels.
    pub width: u32,
    /// Vertical resolution in pixels.
    pub height: u32,
    /// Whether this is the primary display.
    pub is_primary: bool,
}

/// One connected USB device.
#[derive(Debug, Clone)]
pub struct UsbDevice {
    /// Short device name.
    pub name: String,
    /// Vendor id, in hex.
    pub vendor_id: String,
    /// Product id, in hex.
    pub product_id: String,
    /// Manufacturer string, when the device reports one.
    pub manufacturer: Option<String>,
    /// Product string, when the device reports one.
    pub product: Option<String>,
}

/// One camera.
#[derive(Debug, Clone)]
pub struct CameraInfo {
    /// Ordinal index within the camera enumeration.
    pub index: u32,
    /// The camera's name.
    pub name: String,
}

/// One known Bluetooth device.
#[derive(Debug, Clone)]
pub struct BluetoothDevice {
    /// The device's name.
    pub name: String,
    /// The device's address.
    pub address: String,
    /// Whether the device is currently connected.
    pub connected: bool,
}

} // verus!
