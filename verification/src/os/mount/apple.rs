//! macOS and iOS.
use crate::common::owned;
use crate::mount::unix::apple;
pub use crate::mount::unix::apple::MntFlags;
use crate::mount::{MountOptions, UnmountOptions};
use vstd::prelude::*;

verus! {

/// macOS/iOS specific extensions for [`crate::mount::MountOptions`].
///
/// The setters work on the options that `device` and `mount_point` work on.
pub trait MountOptionsExt: View<V = apple::MountOptionsView> + Sized {
    /// Sets flags to modify the behaviour of `mount`.
    fn flags(&mut self, flags: MntFlags) -> (ret: &mut Self)
        ensures
            ret@ == old(self)@.with_flags(flags@),
            *final(self) == *final(ret),
    ;

    /// Sets filesystem specific data, or with `None` passes none.
    ///
    /// This is usually a comma-separated list.
    fn data(&mut self, data: Option<&str>) -> (ret: &mut Self)
        ensures
            ret@ == old(self)@.with_data(data.deep_view()),
            *final(self) == *final(ret),
    ;
}

impl MountOptionsExt for MountOptions<apple::MountOptions> {
    fn flags(&mut self, flags: MntFlags) -> (ret: &mut Self) {
        self.inner.flags(flags);
        self
    }

    fn data(&mut self, data: Option<&str>) -> (ret: &mut Self) {
        self.inner.data(owned(data));
        self
    }
}

/// macOS/iOS specific extensions for [`crate::mount::UnmountOptions`].
pub trait UnmountOptionsExt: View<V = apple::UnmountOptionsView> + Sized {
    /// Sets flags to modify the behaviour of `unmount`.
    fn flags(&mut self, flags: MntFlags) -> (ret: &mut Self)
        ensures
            ret@ == old(self)@.with_flags(flags@),
            *final(self) == *final(ret),
    ;
}

impl UnmountOptionsExt for UnmountOptions<apple::UnmountOptions> {
    fn flags(&mut self, flags: MntFlags) -> (ret: &mut Self) {
        self.inner.flags(flags);
        self
    }
}

} // verus!
