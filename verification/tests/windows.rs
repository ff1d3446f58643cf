use disket::common::windows::Wide;
use disket::mount::windows;
use disket::mount::windows::ApiCall;
use disket::mount::{mount, unmount, MountOptions, UnmountOptions};

type WinMount = MountOptions<windows::MountOptions>;
type WinUnmount = UnmountOptions<windows::UnmountOptions>;

fn expected_wide(s: &str) -> Vec<u16> {
    let mut units: Vec<u16> = s.encode_utf16().collect();
    units.push(0);
    units
}

#[test]
fn wide_of_the_empty_text_is_one_zero() {
    assert_eq!("".wide(), vec![0u16]);
    assert_eq!(String::new().wide(), vec![0u16]);
}

#[test]
fn wide_of_ascii_is_the_bytes_and_a_zero() {
    assert_eq!("A".wide(), vec![65u16, 0]);
    assert_eq!(
        "C:\\mnt\\".wide(),
        vec![0x43u16, 0x3A, 0x5C, 0x6D, 0x6E, 0x74, 0x5C, 0]
    );
    assert_eq!(String::from("C:\\mnt\\").wide(), "C:\\mnt\\".wide());
}

#[test]
fn wide_uses_surrogate_pairs_above_the_basic_plane() {
    assert_eq!("\u{1D11E}".wide(), vec![0xD834u16, 0xDD1E, 0]);
    assert_eq!("\u{10000}".wide(), vec![0xD800u16, 0xDC00, 0]);
    assert_eq!("\u{10FFFF}".wide(), vec![0xDBFFu16, 0xDFFF, 0]);
    assert_eq!("a\u{1F4BE}b".wide(), vec![0x61u16, 0xD83D, 0xDCBE, 0x62, 0]);
}

#[test]
fn wide_keeps_basic_plane_characters_as_one_unit() {
    assert_eq!("\u{D7FF}".wide(), vec![0xD7FFu16, 0]);
    assert_eq!("\u{E000}".wide(), vec![0xE000u16, 0]);
    assert_eq!("\u{FFFF}".wide(), vec![0xFFFFu16, 0]);
    assert_eq!("é€".wide(), vec![0xE9u16, 0x20AC, 0]);
}

#[test]
fn wide_keeps_a_zero_inside_the_text() {
    assert_eq!("a\0b".wide(), vec![0x61u16, 0, 0x62, 0]);
}

#[test]
fn wide_agrees_with_the_standard_encoder() {
    let samples = [
        "",
        "\\\\?\\Volume{4c1b02c1-d990-11dc-99ae-806e6f6e6963}\\",
        "D:\\données\\𝄞\\",
        "日本語のパス",
        "\u{0}\u{7F}\u{80}\u{7FF}\u{800}\u{D7FF}\u{E000}\u{FFFF}\u{10000}\u{10FFFF}",
    ];
    for sample in samples {
        assert_eq!(sample.wide(), expected_wide(sample));
        assert_eq!(String::from(sample).wide(), expected_wide(sample));
        assert_eq!(sample.wide().last(), Some(&0u16));
    }
}

#[test]
fn wide_is_not_the_text_handed_back() {
    let units = "mnt".wide();
    assert_eq!(units.len(), 4);
    assert_ne!(units.len(), "mnt".len());
    assert_eq!("𝄞".wide().len(), 3);
}

#[test]
fn windows_fresh_options_are_empty() {
    assert_eq!(
        windows::mount(&windows::MountOptions::new()),
        ApiCall::SetVolumeMountPointW { volume: vec![0], mount_point: vec![0] }
    );
    assert_eq!(
        WinMount::new().mount(),
        ApiCall::SetVolumeMountPointW { volume: vec![0], mount_point: vec![0] }
    );
    assert_eq!(
        windows::unmount(&windows::UnmountOptions::new()),
        ApiCall::DeleteVolumeMountPointW { mount_point: vec![0] }
    );
    assert_eq!(
        WinUnmount::default().unmount(),
        ApiCall::DeleteVolumeMountPointW { mount_point: vec![0] }
    );
}

#[test]
fn windows_mount_request_holds_both_wide_strings() {
    let volume = "\\\\?\\Volume{4c1b02c1-d990-11dc-99ae-806e6f6e6963}\\";
    let mount_point = "D:\\mnt\\";
    let mut options = WinMount::new();
    options.device(volume).mount_point(mount_point);
    assert_eq!(
        options.mount(),
        ApiCall::SetVolumeMountPointW {
            volume: expected_wide(volume),
            mount_point: expected_wide(mount_point),
        }
    );
    assert_eq!(mount::<windows::MountOptions>(volume, mount_point), options.mount());
}

#[test]
fn windows_mount_point_does_not_touch_the_volume() {
    let mut options = WinMount::new();
    options.device("V:\\").mount_point("D:\\mnt\\");
    assert_eq!(
        options.mount(),
        ApiCall::SetVolumeMountPointW {
            volume: expected_wide("V:\\"),
            mount_point: expected_wide("D:\\mnt\\"),
        }
    );
    let mut options = windows::MountOptions::new();
    options.mount_point(String::from("D:\\mnt\\"));
    assert_eq!(
        windows::mount(&options),
        ApiCall::SetVolumeMountPointW { volume: vec![0], mount_point: expected_wide("D:\\mnt\\") }
    );
    options.volume(String::from("V:\\"));
    assert_eq!(
        windows::mount(&options),
        ApiCall::SetVolumeMountPointW {
            volume: expected_wide("V:\\"),
            mount_point: expected_wide("D:\\mnt\\"),
        }
    );
}

#[test]
fn windows_setters_overwrite() {
    let mut options = WinMount::new();
    options.device("A:\\").device("B:\\").mount_point("C:\\a\\").mount_point("C:\\b\\");
    assert_eq!(
        options.mount(),
        ApiCall::SetVolumeMountPointW {
            volume: expected_wide("B:\\"),
            mount_point: expected_wide("C:\\b\\"),
        }
    );
    let mut options = WinUnmount::new();
    options.mount_point("C:\\a\\").mount_point("C:\\b\\");
    assert_eq!(
        options.unmount(),
        ApiCall::DeleteVolumeMountPointW { mount_point: expected_wide("C:\\b\\") }
    );
}

#[test]
fn windows_unmount_request_holds_the_mount_point() {
    assert_eq!(
        unmount::<windows::UnmountOptions>("D:\\mnt\\"),
        ApiCall::DeleteVolumeMountPointW { mount_point: expected_wide("D:\\mnt\\") }
    );
    let mut options = windows::UnmountOptions::new();
    options.mount_point(String::from("D:\\mnt\\"));
    assert_eq!(
        windows::unmount(&options),
        ApiCall::DeleteVolumeMountPointW { mount_point: expected_wide("D:\\mnt\\") }
    );
}
