//! Linux and Android.
use crate::common::owned;
use crate::mount::unix::linux;
pub use crate::mount::unix::linux::{MntFlags, MsFlags};
use crate::mount::{MountOptions, UnmountOptions};
use vstd::prelude::*;

verus! {

/// Linux specific extensions for [`crate::mount::MountOptions`].
///
/// The setters work on the options that `device` and `mount_point` work on.
pub trait MountOptionsExt: View<V = linux::MountOptionsView> + Sized {
    /// Sets flags to modify the behaviour of `mount`.
    fn flags(&mut self, flags: MsFlags) -> (ret: &mut Self)
        ensures
            ret@ == old(self)@.with_flags(flags@),
            *final(self) == *final(ret),
    ;

    /// Sets the filesystem type, or with `None` leaves the choice to the
    /// kernel.
    ///
    /// This is typically a member of a set of filesystems the OS supports.
    fn fs_type(&mut self, fs_type: Option<&str>) -> (ret: &mut Self)
        ensures
            ret@ == old(self)@.with_fs_type(fs_type.deep_view()),
            *final(self) == *final(ret),
    ;

    /// Sets filesystem specific data, or with `None` passes none.
    ///
    /// This is usually a comma-separated list.
    fn data(&mut self, data: Option<&str>) -> (ret: &mut Self)
        ensures
            ret@ == old(self)@.with_data(data.deep_view()),
            *final(self) == *final(ret),
    ;
}

impl MountOptionsExt for MountOptions<linux::MountOptions> {
    fn flags(&mut self, flags: MsFlags) -> (ret: &mut Self) {
        self.inner.flags(flags);
        self
    }

    fn fs_type(&mut self, fs_type: Option<&str>) -> (ret: &mut Self) {
        self.inner.fs_type(owned(fs_type));
        self
    }

    fn data(&mut self, data: Option<&str>) -> (ret: &mut Self) {
        self.inner.data(owned(data));
        self
    }
}

/// Linux specific extensions for [`crate::mount::UnmountOptions`].
pub trait UnmountOptionsExt: View<V = linux::UnmountOptionsView> + Sized {
    /// Sets flags to modify the behaviour of `unmount`.
    fn flags(&mut self, flags: MntFlags) -> (ret: &mut Self)
        ensures
            ret@ == old(self)@.with_flags(flags@),
            *final(self) == *final(ret),
    ;
}

impl UnmountOptionsExt for UnmountOptions<linux::UnmountOptions> {
    fn flags(&mut self, flags: MntFlags) -> (ret: &mut Self) {
        self.inner.flags(flags);
        self
    }
}

/// The request for the `umount` system call.
///
/// Unlike [`crate::mount::unmount`], which stands for `umount2`, this one
/// takes no flags.
pub fn umount(target: &str) -> (call: linux::Syscall)
    ensures
        call@ == linux::umount_request(target@),
{
    linux::umount(target)
}

} // verus!
