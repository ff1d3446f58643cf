//! What is known about one device.
use vstd::prelude::*;

verus! {

/// A device record: how the device is called, where it is mounted, what
/// file system it holds and how much room it has.
///
/// The record is filled by whoever enumerates the devices; the library keeps
/// the values and hands them out unchanged.
#[derive(Clone, Debug, PartialEq, Eq)]
pub struct Device {
    name: String,
    label: String,
    mount_point: String,
    file_system: String,
    total: usize,
    available: usize,
}

/// The contents of a [`Device`].
pub struct DeviceView {
    pub name: Seq<char>,
    pub label: Seq<char>,
    pub mount_point: Seq<char>,
    pub file_system: Seq<char>,
    pub total: usize,
    pub available: usize,
}

impl View for Device {
    type V = DeviceView;

    closed spec fn view(&self) -> DeviceView {
        DeviceView {
            name: self.name@,
            label: self.label@,
            mount_point: self.mount_point@,
            file_system: self.file_system@,
            total: self.total,
            available: self.available,
        }
    }
}

impl Device {
    /// A record with the given contents.
    pub fn new(
        name: &str,
        label: &str,
        mount_point: &str,
        file_system: &str,
        total: usize,
        available: usize,
    ) -> (device: Self)
        ensures
            device@ == (DeviceView {
                name: name@,
                label: label@,
                mount_point: mount_point@,
                file_system: file_system@,
                total,
                available,
            }),
    {
        Device {
            name: name.to_owned(),
            label: label.to_owned(),
            mount_point: mount_point.to_owned(),
            file_system: file_system.to_owned(),
            total,
            available,
        }
    }

    /// The name of the device.
    pub fn name(&self) -> (name: &str)
        ensures
            name@ == self@.name,
    {
        self.name.as_str()
    }

    /// The label of the volume on the device.
    pub fn label(&self) -> (label: &str)
        ensures
            label@ == self@.label,
    {
        self.label.as_str()
    }

    /// Where the device is mounted.
    pub fn mount_point(&self) -> (mount_point: &str)
        ensures
            mount_point@ == self@.mount_point,
    {
        self.mount_point.as_str()
    }

    /// The file system on the device.
    pub fn file_system(&self) -> (file_system: &str)
        ensures
            file_system@ == self@.file_system,
    {
        self.file_system.as_str()
    }

    /// The capacity of the device.
    pub fn total(&self) -> (total: usize)
        ensures
            total == self@.total,
    {
        self.total
    }

    /// How much of the capacity is free.
    pub fn available(&self) -> (available: usize)
        ensures
            available == self@.available,
    {
        self.available
    }
}

} // verus!
