//! Mount and unmount operations.
//!
//! [`MountOptions`] and [`UnmountOptions`] are the builders that every
//! platform offers. Each holds the options of one platform backend and
//! passes every call on to it. The backend is the type parameter, so it is
//! fixed when the program is compiled: `MountOptions<unix::linux::MountOptions>`
//! are the options of Linux and Android, and the extension trait of another
//! platform does not apply to them. The fields that only one platform knows
//! are set through the traits of [`crate::os`].
//!
//! [`MountOptions::mount`] and [`UnmountOptions::unmount`] yield the native
//! request of the backend; [`mount`] and [`unmount`] do the same for a
//! device and a mount point alone.
use vstd::prelude::*;

pub mod unix;
pub mod windows;

verus! {

/// The mount options of one platform, as far as all platforms agree.
///
/// The view of the options is their mathematical content. A platform says
/// what fresh options hold, how the two common fields are read and replaced,
/// and which native request the options stand for.
pub trait PlatformMountOptions: View + Sized {
    /// The native request of one mount attempt.
    type Call: View;

    /// The options in which nothing has been set.
    spec fn fresh() -> Self::V;

    /// The volume or device to be mounted.
    spec fn device_of(options: Self::V) -> Seq<char>;

    /// Where the volume is to be mounted.
    spec fn mount_point_of(options: Self::V) -> Seq<char>;

    /// The options with another device.
    spec fn with_device(options: Self::V, device: Seq<char>) -> Self::V;

    /// The options with another mount point.
    spec fn with_mount_point(options: Self::V, mount_point: Seq<char>) -> Self::V;

    /// The native request that mounts with the options.
    spec fn request(options: Self::V) -> <Self::Call as View>::V;

    /// Fresh options.
    fn create() -> (options: Self)
        ensures
            options@ == Self::fresh(),
    ;

    /// Replaces the device.
    fn set_device(&mut self, device: String)
        ensures
            final(self)@ == Self::with_device(old(self)@, device@),
    ;

    /// Replaces the mount point.
    fn set_mount_point(&mut self, mount_point: String)
        ensures
            final(self)@ == Self::with_mount_point(old(self)@, mount_point@),
    ;

    /// The native request for the options as they are.
    fn prepare(&self) -> (call: Self::Call)
        ensures
            call@ == Self::request(self@),
    ;

    /// Fresh options name no device and no mount point.
    proof fn lemma_fresh_is_empty()
        ensures
            Self::device_of(Self::fresh()) == Seq::<char>::empty(),
            Self::mount_point_of(Self::fresh()) == Seq::<char>::empty(),
    ;

    /// Setting the device replaces it and leaves the mount point alone;
    /// of two devices set in a row only the second remains.
    proof fn lemma_device_is_replaced(options: Self::V, first: Seq<char>, second: Seq<char>)
        ensures
            Self::device_of(Self::with_device(options, first)) == first,
            Self::mount_point_of(Self::with_device(options, first)) == Self::mount_point_of(
                options,
            ),
            Self::with_device(Self::with_device(options, first), second) == Self::with_device(
                options,
                second,
            ),
    ;

    /// Setting the mount point replaces it and leaves the device alone;
    /// of two mount points set in a row only the second remains.
    proof fn lemma_mount_point_is_replaced(
        options: Self::V,
        first: Seq<char>,
        second: Seq<char>,
    )
        ensures
            Self::mount_point_of(Self::with_mount_point(options, first)) == first,
            Self::device_of(Self::with_mount_point(options, first)) == Self::device_of(options),
            Self::with_mount_point(Self::with_mount_point(options, first), second)
                == Self::with_mount_point(options, second),
    ;

    /// The order in which device and mount point are set does not matter.
    proof fn lemma_common_setters_commute(
        options: Self::V,
        device: Seq<char>,
        mount_point: Seq<char>,
    )
        ensures
            Self::with_mount_point(Self::with_device(options, device), mount_point)
                == Self::with_device(Self::with_mount_point(options, mount_point), device),
    ;
}

/// The unmount options of one platform, as far as all platforms agree.
pub trait PlatformUnmountOptions: View + Sized {
    /// The native request of one unmount attempt.
    type Call: View;

    /// The options in which nothing has been set.
    spec fn fresh() -> Self::V;

    /// The mount point to be released.
    spec fn mount_point_of(options: Self::V) -> Seq<char>;

    /// The options with another mount point.
    spec fn with_mount_point(options: Self::V, mount_point: Seq<char>) -> Self::V;

    /// The native request that unmounts with the options.
    spec fn request(options: Self::V) -> <Self::Call as View>::V;

    /// Fresh options.
    fn create() -> (options: Self)
        ensures
            options@ == Self::fresh(),
    ;

    /// Replaces the mount point.
    fn set_mount_point(&mut self, mount_point: String)
        ensures
            final(self)@ == Self::with_mount_point(old(self)@, mount_point@),
    ;

    /// The native request for the options as they are.
    fn prepare(&self) -> (call: Self::Call)
        ensures
            call@ == Self::request(self@),
    ;

    /// Fresh options name no mount point.
    proof fn lemma_fresh_is_empty()
        ensures
            Self::mount_point_of(Self::fresh()) == Seq::<char>::empty(),
    ;

    /// Setting the mount point replaces it; of two mount points set in a row
    /// only the second remains.
    proof fn lemma_mount_point_is_replaced(
        options: Self::V,
        first: Seq<char>,
        second: Seq<char>,
    )
        ensures
            Self::mount_point_of(Self::with_mount_point(options, first)) == first,
            Self::with_mount_point(Self::with_mount_point(options, first), second)
                == Self::with_mount_point(options, second),
    ;
}

/// Options used to configure how the volume is mounted.
///
/// Start with [`MountOptions::new`], in which nothing is set, chain calls to
/// set the options and end with [`MountOptions::mount`]. Nothing is checked
/// when a field is set: options without a device or a mount point yield a
/// request with empty texts, and it is the platform that turns it down.
///
/// Only `device` and `mount_point` exist on all platforms. The others are
/// set through an extension trait such as
/// [`crate::os::mount::linux::MountOptionsExt`].
#[derive(Clone, Debug, PartialEq, Eq)]
pub struct MountOptions<S: PlatformMountOptions> {
    pub(crate) inner: S,
}

impl<S: PlatformMountOptions> View for MountOptions<S> {
    type V = S::V;

    open(crate) spec fn view(&self) -> S::V {
        self.inner@
    }
}

impl<S: PlatformMountOptions> Default for MountOptions<S> {
    fn default() -> (options: Self)
        ensures
            options@ == S::fresh(),
    {
        Self { inner: S::create() }
    }
}

impl<S: PlatformMountOptions> MountOptions<S> {
    /// Creates a new set of options with default values.
    pub fn new() -> (options: Self)
        ensures
            options@ == S::fresh(),
    {
        MountOptions::default()
    }

    /// Sets the volume identifier to be mounted.
    pub fn device(&mut self, device: &str) -> (ret: &mut Self)
        ensures
            ret@ == S::with_device(old(self)@, device@),
            *final(self) == *final(ret),
    {
        self.inner.set_device(device.to_owned());
        self
    }

    /// Sets the mount point of the volume to be mounted.
    pub fn mount_point(&mut self, mount_point: &str) -> (ret: &mut Self)
        ensures
            ret@ == S::with_mount_point(old(self)@, mount_point@),
            *final(self) == *final(ret),
    {
        self.inner.set_mount_point(mount_point.to_owned());
        self
    }

    /// The native request that mounts a volume with the options specified
    /// by `self`: exactly the request of the backend.
    pub fn mount(&self) -> (call: S::Call)
        ensures
            call@ == S::request(self@),
    {
        self.inner.prepare()
    }
}

/// Options used to configure how the volume is unmounted.
///
/// Used like [`MountOptions`]. `mount_point` is the only option that exists
/// on all platforms.
#[derive(Clone, Debug, PartialEq, Eq)]
pub struct UnmountOptions<S: PlatformUnmountOptions> {
    pub(crate) inner: S,
}

impl<S: PlatformUnmountOptions> View for UnmountOptions<S> {
    type V = S::V;

    open(crate) spec fn view(&self) -> S::V {
        self.inner@
    }
}

impl<S: PlatformUnmountOptions> Default for UnmountOptions<S> {
    fn default() -> (options: Self)
        ensures
            options@ == S::fresh(),
    {
        Self { inner: S::create() }
    }
}

impl<S: PlatformUnmountOptions> UnmountOptions<S> {
    /// Creates a new set of options with default values.
    pub fn new() -> (options: Self)
        ensures
            options@ == S::fresh(),
    {
        UnmountOptions::default()
    }

    /// Sets the mount point of the volume to be unmounted.
    pub fn mount_point(&mut self, mount_point: &str) -> (ret: &mut Self)
        ensures
            ret@ == S::with_mount_point(old(self)@, mount_point@),
            *final(self) == *final(ret),
    {
        self.inner.set_mount_point(mount_point.to_owned());
        self
    }

    /// The native request that unmounts a volume with the options specified
    /// by `self`: exactly the request of the backend.
    pub fn unmount(&self) -> (call: S::Call)
        ensures
            call@ == S::request(self@),
    {
        self.inner.prepare()
    }
}

/// The native request that mounts the file system `device` at `mount_point`.
///
/// It is the request of fresh [`MountOptions`] in which `device` and
/// `mount_point` have been set and nothing else: no flag, no file system
/// type, no data.
///
/// The request is `SetVolumeMountPointW` on Windows, the `mount` system call
/// on Linux, Android, macOS and iOS, and `nmount` on FreeBSD.
pub fn mount<S: PlatformMountOptions>(device: &str, mount_point: &str) -> (call: S::Call)
    ensures
        call@ == S::request(
            S::with_mount_point(S::with_device(S::fresh(), device@), mount_point@),
        ),
{
    MountOptions::<S>::new().device(device).mount_point(mount_point).mount()
}

/// The native request that unmounts the file system at `mount_point`.
///
/// It is the request of fresh [`UnmountOptions`] in which `mount_point` has
/// been set and nothing else.
///
/// The request is `DeleteVolumeMountPointW` on Windows, the `umount2` system
/// call on Linux and Android, and `unmount` on FreeBSD, macOS and iOS.
pub fn unmount<S: PlatformUnmountOptions>(mount_point: &str) -> (call: S::Call)
    ensures
        call@ == S::request(S::with_mount_point(S::fresh(), mount_point@)),
{
    UnmountOptions::<S>::new().mount_point(mount_point).unmount()
}

} // verus!
