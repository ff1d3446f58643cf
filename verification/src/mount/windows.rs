//! The backend for Windows.
//!
//! Mounting is `SetVolumeMountPointW`, unmounting is
//! `DeleteVolumeMountPointW`. Both take their texts as wide strings.
use crate::common::windows::{
    lemma_wide_string_is_injective, lemma_wide_string_shape, wide_string, Wide,
};
use crate::mount::{PlatformMountOptions, PlatformUnmountOptions};
use vstd::prelude::*;

verus! {

/// What `SetVolumeMountPointW` is called with.
#[derive(Clone, Debug, PartialEq, Eq)]
pub struct MountOptions {
    volume: String,
    mount_point: String,
}

/// The contents of [`MountOptions`]: two texts that have nothing to do with
/// each other.
pub struct MountOptionsView {
    pub volume: Seq<char>,
    pub mount_point: Seq<char>,
}

impl MountOptionsView {
    /// Nothing set: two empty texts.
    pub open spec fn fresh() -> Self {
        MountOptionsView { volume: Seq::empty(), mount_point: Seq::empty() }
    }

    /// The same options with another volume.
    pub open spec fn with_volume(self, volume: Seq<char>) -> Self {
        MountOptionsView { volume, ..self }
    }

    /// The same options with another mount point.
    pub open spec fn with_mount_point(self, mount_point: Seq<char>) -> Self {
        MountOptionsView { mount_point, ..self }
    }
}

impl View for MountOptions {
    type V = MountOptionsView;

    closed spec fn view(&self) -> MountOptionsView {
        MountOptionsView { volume: self.volume@, mount_point: self.mount_point@ }
    }
}

impl MountOptions {
    /// Options in which nothing is set.
    pub fn new() -> (options: Self)
        ensures
            options@ == MountOptionsView::fresh(),
    {
        Self { volume: String::new(), mount_point: String::new() }
    }

    /// Replaces the volume.
    pub fn volume(&mut self, device: String) -> (ret: &mut Self)
        ensures
            ret@ == old(self)@.with_volume(device@),
            *final(self) == *final(ret),
    {
        self.volume = device;
        self
    }

    /// Replaces the mount point. The volume stays as it is.
    pub fn mount_point(&mut self, mount_point: String) -> (ret: &mut Self)
        ensures
            ret@ == old(self)@.with_mount_point(mount_point@),
            *final(self) == *final(ret),
    {
        self.mount_point = mount_point;
        self
    }
}

/// What `DeleteVolumeMountPointW` is called with.
#[derive(Clone, Debug, PartialEq, Eq)]
pub struct UnmountOptions {
    mount_point: String,
}

/// The contents of [`UnmountOptions`].
pub struct UnmountOptionsView {
    pub mount_point: Seq<char>,
}

impl UnmountOptionsView {
    /// Nothing set: an empty mount point.
    pub open spec fn fresh() -> Self {
        UnmountOptionsView { mount_point: Seq::empty() }
    }

    /// The same options with another mount point.
    pub open spec fn with_mount_point(self, mount_point: Seq<char>) -> Self {
        UnmountOptionsView { mount_point }
    }
}

impl View for UnmountOptions {
    type V = UnmountOptionsView;

    closed spec fn view(&self) -> UnmountOptionsView {
        UnmountOptionsView { mount_point: self.mount_point@ }
    }
}

impl UnmountOptions {
    /// Options in which nothing is set.
    pub fn new() -> (options: Self)
        ensures
            options@ == UnmountOptionsView::fresh(),
    {
        Self { mount_point: String::new() }
    }

    /// Replaces the mount point.
    pub fn mount_point(&mut self, mount_point: String) -> (ret: &mut Self)
        ensures
            ret@ == old(self)@.with_mount_point(mount_point@),
            *final(self) == *final(ret),
    {
        self.mount_point = mount_point;
        self
    }
}

/// One call of the Windows API, with its arguments as zero-terminated wide
/// strings.
#[derive(Clone, Debug, PartialEq, Eq)]
pub enum ApiCall {
    /// `SetVolumeMountPointW`, given the volume and then the mount point.
    SetVolumeMountPointW { volume: Vec<u16>, mount_point: Vec<u16> },
    /// `DeleteVolumeMountPointW`, given the mount point.
    DeleteVolumeMountPointW { mount_point: Vec<u16> },
}

/// The contents of an [`ApiCall`].
pub enum ApiCallView {
    SetVolumeMountPointW { volume: Seq<u16>, mount_point: Seq<u16> },
    DeleteVolumeMountPointW { mount_point: Seq<u16> },
}

impl View for ApiCall {
    type V = ApiCallView;

    open spec fn view(&self) -> ApiCallView {
        match *self {
            ApiCall::SetVolumeMountPointW { volume, mount_point } => {
                ApiCallView::SetVolumeMountPointW { volume: volume@, mount_point: mount_point@ }
            },
            ApiCall::DeleteVolumeMountPointW { mount_point } => {
                ApiCallView::DeleteVolumeMountPointW { mount_point: mount_point@ }
            },
        }
    }
}

/// The call that mounts with the options: each text as its wide string.
pub open spec fn mount_request(options: MountOptionsView) -> ApiCallView {
    ApiCallView::SetVolumeMountPointW {
        volume: wide_string(options.volume),
        mount_point: wide_string(options.mount_point),
    }
}

/// The call that unmounts with the options: the mount point as its wide
/// string.
pub open spec fn unmount_request(options: UnmountOptionsView) -> ApiCallView {
    ApiCallView::DeleteVolumeMountPointW { mount_point: wide_string(options.mount_point) }
}

/// The `SetVolumeMountPointW` call for the options.
pub fn mount(options: &MountOptions) -> (call: ApiCall)
    ensures
        call@ == mount_request(options@),
{
    let volume = options.volume.wide();
    let mount_point = options.mount_point.wide();
    ApiCall::SetVolumeMountPointW { volume, mount_point }
}

/// The `DeleteVolumeMountPointW` call for the options.
pub fn unmount(options: &UnmountOptions) -> (call: ApiCall)
    ensures
        call@ == unmount_request(options@),
{
    let mount_point = options.mount_point.wide();
    ApiCall::DeleteVolumeMountPointW { mount_point }
}

impl PlatformMountOptions for MountOptions {
    type Call = ApiCall;

    open spec fn fresh() -> MountOptionsView {
        MountOptionsView::fresh()
    }

    open spec fn device_of(options: MountOptionsView) -> Seq<char> {
        options.volume
    }

    open spec fn mount_point_of(options: MountOptionsView) -> Seq<char> {
        options.mount_point
    }

    open spec fn with_device(options: MountOptionsView, device: Seq<char>) -> MountOptionsView {
        options.with_volume(device)
    }

    open spec fn with_mount_point(
        options: MountOptionsView,
        mount_point: Seq<char>,
    ) -> MountOptionsView {
        options.with_mount_point(mount_point)
    }

    open spec fn request(options: MountOptionsView) -> ApiCallView {
        mount_request(options)
    }

    fn create() -> (options: Self) {
        MountOptions::new()
    }

    fn set_device(&mut self, device: String) {
        self.volume(device);
    }

    fn set_mount_point(&mut self, mount_point: String) {
        self.mount_point(mount_point);
    }

    fn prepare(&self) -> (call: ApiCall) {
        mount(self)
    }

    proof fn lemma_fresh_is_empty() {
    }

    proof fn lemma_device_is_replaced(
        options: MountOptionsView,
        first: Seq<char>,
        second: Seq<char>,
    ) {
    }

    proof fn lemma_mount_point_is_replaced(
        options: MountOptionsView,
        first: Seq<char>,
        second: Seq<char>,
    ) {
    }

    proof fn lemma_common_setters_commute(
        options: MountOptionsView,
        device: Seq<char>,
        mount_point: Seq<char>,
    ) {
    }
}

impl PlatformUnmountOptions for UnmountOptions {
    type Call = ApiCall;

    open spec fn fresh() -> UnmountOptionsView {
        UnmountOptionsView::fresh()
    }

    open spec fn mount_point_of(options: UnmountOptionsView) -> Seq<char> {
        options.mount_point
    }

    open spec fn with_mount_point(
        options: UnmountOptionsView,
        mount_point: Seq<char>,
    ) -> UnmountOptionsView {
        options.with_mount_point(mount_point)
    }

    open spec fn request(options: UnmountOptionsView) -> ApiCallView {
        unmount_request(options)
    }

    fn create() -> (options: Self) {
        UnmountOptions::new()
    }

    fn set_mount_point(&mut self, mount_point: String) {
        self.mount_point(mount_point);
    }

    fn prepare(&self) -> (call: ApiCall) {
        unmount(self)
    }

    proof fn lemma_fresh_is_empty() {
    }

    proof fn lemma_mount_point_is_replaced(
        options: UnmountOptionsView,
        first: Seq<char>,
        second: Seq<char>,
    ) {
    }
}

/// Volume and mount point are two fields: setting one never changes the
/// other, in whatever order they are set, and of two values set in a row for
/// the same field only the second is left.
pub proof fn lemma_volume_and_mount_point_are_distinct(
    options: MountOptionsView,
    volume: Seq<char>,
    mount_point: Seq<char>,
    other: Seq<char>,
)
    ensures
        options.with_mount_point(mount_point).volume == options.volume,
        options.with_volume(volume).mount_point == options.mount_point,
        options.with_volume(volume).with_mount_point(mount_point) == (MountOptionsView {
            volume,
            mount_point,
        }),
        options.with_mount_point(mount_point).with_volume(volume) == (MountOptionsView {
            volume,
            mount_point,
        }),
        options.with_volume(other).with_volume(volume) == options.with_volume(volume),
        options.with_mount_point(other).with_mount_point(mount_point) == options.with_mount_point(
            mount_point,
        ),
{
}

/// Nothing is lost on the way to the call: options that give the same call
/// are the same options.
pub proof fn lemma_request_keeps_every_field(
    mount_a: MountOptionsView,
    mount_b: MountOptionsView,
    unmount_a: UnmountOptionsView,
    unmount_b: UnmountOptionsView,
)
    ensures
        mount_request(mount_a) == mount_request(mount_b) ==> mount_a == mount_b,
        unmount_request(unmount_a) == unmount_request(unmount_b) ==> unmount_a == unmount_b,
{
    if mount_request(mount_a) == mount_request(mount_b) {
        lemma_wide_string_is_injective(mount_a.volume, mount_b.volume);
        lemma_wide_string_is_injective(mount_a.mount_point, mount_b.mount_point);
    }
    if unmount_request(unmount_a) == unmount_request(unmount_b) {
        lemma_wide_string_is_injective(unmount_a.mount_point, unmount_b.mount_point);
    }
}

/// Every text of a call is a wide string in the shape the API expects: it
/// ends in zero. The mount point that was set last is the one encoded,
/// whatever was set before it.
pub proof fn lemma_calls_carry_wide_strings(
    mount_options: MountOptionsView,
    unmount_options: UnmountOptionsView,
    first: Seq<char>,
    second: Seq<char>,
)
    ensures
        wide_string(mount_options.volume).last() == 0,
        wide_string(mount_options.mount_point).last() == 0,
        wide_string(unmount_options.mount_point).last() == 0,
        mount_request(mount_options.with_mount_point(first).with_mount_point(second))
            == (ApiCallView::SetVolumeMountPointW {
            volume: wide_string(mount_options.volume),
            mount_point: wide_string(second),
        }),
        unmount_request(unmount_options.with_mount_point(first).with_mount_point(second))
            == (ApiCallView::DeleteVolumeMountPointW { mount_point: wide_string(second) }),
{
    lemma_wide_string_shape(mount_options.volume);
    lemma_wide_string_shape(mount_options.mount_point);
    lemma_wide_string_shape(unmount_options.mount_point);
}

} // verus!
