use disket::error::into_result;
use disket::mount::unix::linux::{MntFlags, Syscall};
use disket::mount::{MountOptions, UnmountOptions};
use disket::os::mount::linux::UnmountOptionsExt;
use disket::Error;
use nix::errno::Errno;

#[test]
fn success_stays_success() {
    assert_eq!(into_result(Ok(())), Ok(()));
}

#[test]
fn a_native_error_is_handed_on_unchanged() {
    for errno in [
        Errno::EPERM,
        Errno::ENOENT,
        Errno::EBUSY,
        Errno::EINVAL,
        Errno::ENODEV,
        Errno::EACCES,
        Errno::ENOTBLK,
    ] {
        assert_eq!(into_result(Err(errno)), Err(Error::Platform(errno)));
    }
    assert_ne!(into_result(Err(Errno::EBUSY)), into_result(Err(Errno::EINVAL)));
}

#[test]
fn an_error_holds_the_errno_it_was_made_from() {
    let error = Error::from(Errno::EBUSY);
    assert_eq!(error, Error::Platform(Errno::EBUSY));
    assert_eq!(error.errno(), Errno::EBUSY);
    assert_eq!(Error::Platform(Errno::ENODEV).errno(), Errno::ENODEV);
    let converted: Error = Errno::EACCES.into();
    assert_eq!(converted.errno(), Errno::EACCES);
}

#[test]
fn mounting_what_is_mounted_already_surfaces_ebusy() {
    let mut options = MountOptions::<disket::mount::unix::linux::MountOptions>::new();
    options.device("/dev/sda2").mount_point("/mnt");
    let _request = options.mount();
    // What the kernel answers to a second mount of the same device.
    let outcome: Result<(), Errno> = Err(Errno::EBUSY);
    assert_eq!(into_result(outcome), Err(Error::Platform(Errno::EBUSY)));
}

#[test]
fn unmounting_where_nothing_is_mounted_surfaces_the_native_error() {
    let mut options = UnmountOptions::<disket::mount::unix::linux::UnmountOptions>::new();
    options.mount_point("/disket-test/no such mount point").flags(MntFlags::empty());
    let outcome = match options.unmount() {
        Syscall::Umount2 { target, flags } => nix::mount::umount2(
            target.as_str(),
            nix::mount::MntFlags::from_bits_retain(flags.bits()),
        ),
        other => panic!("not umount2: {:?}", other),
    };
    let native = outcome.expect_err("nothing is mounted there");
    assert_eq!(into_result(outcome), Err(Error::Platform(native)));
}
