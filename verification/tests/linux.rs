use disket::mount::unix::linux;
use disket::mount::unix::linux::{MntFlags, MsFlags, Syscall};
use disket::mount::{mount, unmount, MountOptions, UnmountOptions};
use disket::os::mount::linux::{umount, MountOptionsExt, UnmountOptionsExt};

type LinuxMount = MountOptions<linux::MountOptions>;
type LinuxUnmount = UnmountOptions<linux::UnmountOptions>;

fn text(s: &str) -> String {
    String::from(s)
}

fn mount_call(
    source: &str,
    target: &str,
    fs_type: Option<&str>,
    bits: u64,
    data: Option<&str>,
) -> Syscall {
    Syscall::Mount {
        source: Some(text(source)),
        target: text(target),
        fs_type: fs_type.map(text),
        flags: MsFlags::from_bits_retain(bits),
        data: data.map(text),
    }
}

#[test]
fn linux_fresh_mount_options_are_empty() {
    let empty = mount_call("", "", None, 0, None);
    assert_eq!(linux::mount(&linux::MountOptions::new()), empty);
    assert_eq!(LinuxMount::new().mount(), empty);
    assert_eq!(LinuxMount::default().mount(), empty);
    assert_eq!(LinuxMount::new(), LinuxMount::default());
}

#[test]
fn linux_fresh_unmount_options_are_empty() {
    let empty = Syscall::Umount2 { target: text(""), flags: MntFlags::empty() };
    assert_eq!(linux::unmount(&linux::UnmountOptions::new()), empty);
    assert_eq!(LinuxUnmount::new().unmount(), empty);
    assert_eq!(LinuxUnmount::default().unmount(), empty);
}

#[test]
fn linux_empty_flags_have_no_bits() {
    assert_eq!(MsFlags::empty().bits(), 0);
    assert_eq!(MntFlags::empty().bits(), 0);
    assert_eq!(MsFlags::empty(), MsFlags::from_bits_retain(0));
    assert_eq!(MntFlags::empty(), MntFlags::from_bits_retain(0));
    assert_eq!(MsFlags::empty().bits(), u64::from(nix::mount::MsFlags::empty().bits()));
    assert_eq!(MntFlags::empty().bits(), nix::mount::MntFlags::empty().bits());
}

#[test]
fn linux_mount_request_holds_every_field() {
    let mut options = LinuxMount::new();
    options
        .device("/dev/sda2")
        .mount_point("/mnt")
        .flags(MsFlags::from_bits_retain(1))
        .fs_type(Some("ext4"))
        .data(Some("noatime,errors=remount-ro"));
    assert_eq!(
        options.mount(),
        mount_call("/dev/sda2", "/mnt", Some("ext4"), 1, Some("noatime,errors=remount-ro"))
    );
}

#[test]
fn linux_mount_point_is_overwritten_not_accumulated() {
    let mut options = LinuxMount::new();
    options.device("/dev/sda2").mount_point("/mnt/a").mount_point("/mnt/b");
    assert_eq!(options.mount(), mount_call("/dev/sda2", "/mnt/b", None, 0, None));

    let mut options = LinuxUnmount::new();
    options.mount_point("/mnt/a").mount_point("/mnt/b");
    assert_eq!(
        options.unmount(),
        Syscall::Umount2 { target: text("/mnt/b"), flags: MntFlags::empty() }
    );
}

#[test]
fn linux_every_mount_setter_overwrites() {
    let mut twice = LinuxMount::new();
    twice
        .device("/dev/sda1")
        .device("/dev/sdb1")
        .flags(MsFlags::from_bits_retain(0b1010))
        .flags(MsFlags::from_bits_retain(0b0100))
        .fs_type(Some("ext4"))
        .fs_type(Some("xfs"))
        .data(Some("ro"))
        .data(Some("rw"));
    let mut once = LinuxMount::new();
    once.device("/dev/sdb1")
        .flags(MsFlags::from_bits_retain(0b0100))
        .fs_type(Some("xfs"))
        .data(Some("rw"));
    assert_eq!(twice, once);
    assert_eq!(twice.mount(), mount_call("/dev/sdb1", "", Some("xfs"), 0b0100, Some("rw")));
}

#[test]
fn linux_optional_fields_can_be_removed_again() {
    let mut options = LinuxMount::new();
    options.fs_type(Some("ext4")).data(Some("ro")).fs_type(None).data(None);
    assert_eq!(options, LinuxMount::new());
    assert_eq!(options.mount(), mount_call("", "", None, 0, None));
}

#[test]
fn linux_absent_is_not_empty() {
    let mut absent = LinuxMount::new();
    absent.fs_type(None).data(None);
    let mut empty = LinuxMount::new();
    empty.fs_type(Some("")).data(Some(""));
    assert_ne!(absent, empty);
    assert_eq!(absent.mount(), mount_call("", "", None, 0, None));
    assert_eq!(empty.mount(), mount_call("", "", Some(""), 0, Some("")));
}

#[test]
fn linux_mount_flags_pass_through_bit_for_bit() {
    for bit in 0..64 {
        let bits: u64 = 1 << bit;
        let mut options = LinuxMount::new();
        options.device("d").mount_point("m").flags(MsFlags::from_bits_retain(bits));
        match options.mount() {
            Syscall::Mount { flags, .. } => assert_eq!(flags.bits(), bits),
            other => panic!("not a mount: {:?}", other),
        }
    }
    let mut options = LinuxMount::new();
    options.flags(MsFlags::from_bits_retain(u64::MAX));
    assert_eq!(options.mount(), mount_call("", "", None, u64::MAX, None));
}

#[test]
fn linux_named_mount_flags_come_back_as_set() {
    let wanted = nix::mount::MsFlags::MS_RDONLY | nix::mount::MsFlags::MS_NOSUID;
    let mut options = LinuxMount::new();
    options.flags(MsFlags::from_bits_retain(u64::from(wanted.bits())));
    match options.mount() {
        Syscall::Mount { flags, .. } => {
            let passed = nix::mount::MsFlags::from_bits_retain(flags.bits() as _);
            assert_eq!(passed, wanted);
            assert!(passed.contains(nix::mount::MsFlags::MS_RDONLY));
            assert!(!passed.contains(nix::mount::MsFlags::MS_NOEXEC));
        }
        other => panic!("not a mount: {:?}", other),
    }
}

#[test]
fn linux_unmount_flags_pass_through_bit_for_bit() {
    for bits in [0, 1, 2, 4, 8, 3, 0x4000_0000, i32::MAX, i32::MIN, -1] {
        let mut options = LinuxUnmount::new();
        options.mount_point("/mnt").flags(MntFlags::from_bits_retain(bits));
        assert_eq!(
            options.unmount(),
            Syscall::Umount2 { target: text("/mnt"), flags: MntFlags::from_bits_retain(bits) }
        );
    }
    let wanted = nix::mount::MntFlags::MNT_FORCE | nix::mount::MntFlags::MNT_DETACH;
    let mut options = LinuxUnmount::new();
    options.flags(MntFlags::from_bits_retain(wanted.bits()));
    match options.unmount() {
        Syscall::Umount2 { flags, .. } => {
            assert_eq!(nix::mount::MntFlags::from_bits_retain(flags.bits()), wanted)
        }
        other => panic!("not umount2: {:?}", other),
    }
}

#[test]
fn linux_unmount_setters_overwrite_and_commute() {
    let mut a = LinuxUnmount::new();
    a.mount_point("/x").flags(MntFlags::from_bits_retain(1)).flags(MntFlags::from_bits_retain(2));
    let mut b = LinuxUnmount::new();
    b.flags(MntFlags::from_bits_retain(2)).mount_point("/y").mount_point("/x");
    assert_eq!(a, b);
    assert_eq!(
        a.unmount(),
        Syscall::Umount2 { target: text("/x"), flags: MntFlags::from_bits_retain(2) }
    );
}

#[test]
fn linux_bare_umount_has_no_flags() {
    assert_eq!(umount("/mnt"), Syscall::Umount { target: text("/mnt") });
    assert_eq!(linux::umount("/mnt"), Syscall::Umount { target: text("/mnt") });
    assert_eq!(umount(""), Syscall::Umount { target: text("") });
    let flagged = unmount::<linux::UnmountOptions>("/mnt");
    assert_eq!(flagged, Syscall::Umount2 { target: text("/mnt"), flags: MntFlags::empty() });
    assert_ne!(umount("/mnt"), flagged);
    assert!(matches!(umount("/mnt"), Syscall::Umount { .. }));
    assert!(matches!(flagged, Syscall::Umount2 { .. }));
}

#[test]
fn linux_extension_and_common_setters_share_the_options() {
    let mut first = LinuxMount::new();
    first.fs_type(Some("ext4")).data(Some("ro")).device("/dev/sda2").mount_point("/mnt");
    let mut second = LinuxMount::new();
    second.device("/dev/sda2").fs_type(Some("ext4")).mount_point("/mnt").data(Some("ro"));
    assert_eq!(first, second);
    let expected = mount_call("/dev/sda2", "/mnt", Some("ext4"), 0, Some("ro"));
    assert_eq!(first.mount(), expected);
    assert_eq!(second.mount(), expected);

    second.device("/dev/sdb1");
    assert_eq!(second.mount(), mount_call("/dev/sdb1", "/mnt", Some("ext4"), 0, Some("ro")));
    second.fs_type(Some("xfs"));
    assert_eq!(second.mount(), mount_call("/dev/sdb1", "/mnt", Some("xfs"), 0, Some("ro")));
}

#[test]
fn linux_free_functions_set_only_the_common_fields() {
    assert_eq!(
        mount::<linux::MountOptions>("/dev/sdc1", "/mnt"),
        mount_call("/dev/sdc1", "/mnt", None, 0, None)
    );
    let mut by_hand = LinuxMount::new();
    by_hand.device("/dev/sdc1").mount_point("/mnt");
    assert_eq!(mount::<linux::MountOptions>("/dev/sdc1", "/mnt"), by_hand.mount());

    let mut by_hand = LinuxUnmount::new();
    by_hand.mount_point("/mnt");
    assert_eq!(unmount::<linux::UnmountOptions>("/mnt"), by_hand.unmount());
}

#[test]
fn linux_source_is_always_given() {
    for volume in ["", "/dev/sda", "none", "tmpfs"] {
        let mut options = LinuxMount::new();
        options.device(volume);
        match options.mount() {
            Syscall::Mount { source, .. } => assert_eq!(source, Some(text(volume))),
            other => panic!("not a mount: {:?}", other),
        }
    }
}

#[test]
fn linux_backend_setters_chain() {
    let mut options = linux::MountOptions::new();
    options
        .volume(text("/dev/sda2"))
        .mount_point(text("/mnt"))
        .flags(MsFlags::from_bits_retain(32))
        .fs_type(Some(text("btrfs")))
        .data(Some(text("subvol=@")));
    assert_eq!(
        linux::mount(&options),
        mount_call("/dev/sda2", "/mnt", Some("btrfs"), 32, Some("subvol=@"))
    );
    let mut options = linux::UnmountOptions::new();
    options.mount_point(text("/mnt")).flags(MntFlags::from_bits_retain(2));
    assert_eq!(
        linux::unmount(&options),
        Syscall::Umount2 { target: text("/mnt"), flags: MntFlags::from_bits_retain(2) }
    );
}

#[test]
fn linux_requests_leave_the_options_alone() {
    let mut options = LinuxMount::new();
    options.device("/dev/sda2").mount_point("/mnt");
    let before = options.clone();
    let first = options.mount();
    let second = options.mount();
    assert_eq!(first, second);
    assert_eq!(options, before);
}

#[test]
fn linux_text_is_passed_character_for_character() {
    let mut options = LinuxMount::new();
    options.device("//server/share with space").mount_point("/mnt/données/𝄞");
    assert_eq!(
        options.mount(),
        mount_call("//server/share with space", "/mnt/données/𝄞", None, 0, None)
    );
}
