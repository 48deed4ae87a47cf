//! The device inventory data model.
//!
//! A `Device` is the immutable record of one device as last fetched from the
//! upstream vendor API; a `Devices` value is the full directory, always read
//! and replaced as a whole.  `DeviceState` is the live, never-cached state of
//! one device.

use vstd::prelude::*;

verus! {

/// One device record: a stable identifier, a model tag, a human-readable
/// name, and the capability flags needed to validate commands against it.
#[derive(Debug)]
pub struct Device {
    pub device: String,
    pub model: String,
    pub name: String,
    pub controllable: bool,
    pub retrievable: bool,
}

/// The mathematical value of a `Device`: its fields as plain sequences.
pub struct DeviceView {
    pub device: Seq<char>,
    pub model: Seq<char>,
    pub name: Seq<char>,
    pub controllable: bool,
    pub retrievable: bool,
}

impl View for Device {
    type V = DeviceView;

    open spec fn view(&self) -> DeviceView {
        DeviceView {
            device: self.device@,
            model: self.model@,
            name: self.name@,
            controllable: self.controllable,
            retrievable: self.retrievable,
        }
    }
}

impl Clone for Device {
    fn clone(&self) -> (r: Self)
        ensures
            r@ == self@,
    {
        Device {
            device: self.device.clone(),
            model: self.model.clone(),
            name: self.name.clone(),
            controllable: self.controllable,
            retrievable: self.retrievable,
        }
    }
}

/// The value of a sequence of device records.
pub open spec fn records_view(s: Seq<Device>) -> Seq<DeviceView> {
    s.map_values(|d: Device| d@)
}

/// The full device directory: an ordered collection of device records,
/// semantically a value type.
#[derive(Debug)]
pub struct Devices {
    pub devices: Vec<Device>,
}

impl View for Devices {
    type V = Seq<DeviceView>;

    open spec fn view(&self) -> Seq<DeviceView> {
        records_view(self.devices@)
    }
}

/// Point-in-time state of one device, fetched live and never cached.
#[derive(Debug)]
pub struct DeviceState {
    pub device: String,
    pub model: String,
    pub powered: bool,
    pub brightness: u8,
}

} // verus!
