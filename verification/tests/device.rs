use disket::device::Device;

#[test]
fn device_hands_out_what_it_was_given() {
    let device = Device::new("sda1", "root", "/", "ext4", 512_000_000_000, 128_000_000_000);
    assert_eq!(device.name(), "sda1");
    assert_eq!(device.label(), "root");
    assert_eq!(device.mount_point(), "/");
    assert_eq!(device.file_system(), "ext4");
    assert_eq!(device.total(), 512_000_000_000);
    assert_eq!(device.available(), 128_000_000_000);
}

#[test]
fn device_keeps_total_and_available_apart() {
    let device = Device::new("", "", "", "", 7, 3);
    assert_eq!(device.total(), 7);
    assert_eq!(device.available(), 3);
    let device = Device::new("", "", "", "", 0, usize::MAX);
    assert_eq!(device.total(), 0);
    assert_eq!(device.available(), usize::MAX);
}

#[test]
fn device_keeps_its_four_texts_apart() {
    let device = Device::new("name", "label", "mount point", "file system", 0, 0);
    assert_eq!(
        [device.name(), device.label(), device.mount_point(), device.file_system()],
        ["name", "label", "mount point", "file system"]
    );
    assert_eq!(device, device.clone());
    assert_ne!(device, Device::new("name", "label", "mount point", "file system", 0, 1));
}
