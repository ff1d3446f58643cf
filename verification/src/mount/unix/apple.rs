//! The backend for macOS and iOS.
//!
//! Mounting is the `mount` system call, which finds the file system type
//! itself and so takes none. Unmounting is the `unmount` system call.
use crate::common::duplicate;
use crate::mount::{PlatformMountOptions, PlatformUnmountOptions};
use vstd::prelude::*;

verus! {

/// Flags of `mount` and `unmount`: the bits that the call receives.
#[derive(Clone, Copy, Debug, PartialEq, Eq)]
pub struct MntFlags {
    bits: i32,
}

impl View for MntFlags {
    type V = i32;

    closed spec fn view(&self) -> i32 {
        self.bits
    }
}

impl MntFlags {
    /// No flag at all.
    pub fn empty() -> (flags: Self)
        ensures
            flags@ == 0,
    {
        MntFlags { bits: 0 }
    }

    /// The flags with exactly the given bits, whether or not each of them
    /// has a name.
    pub fn from_bits_retain(bits: i32) -> (flags: Self)
        ensures
            flags@ == bits,
    {
        MntFlags { bits }
    }

    /// The bits of the flags.
    pub fn bits(&self) -> (bits: i32)
        ensures
            bits == self@,
    {
        self.bits
    }
}

/// What `mount` is called with on macOS and iOS.
#[derive(Clone, Debug, PartialEq, Eq)]
pub struct MountOptions {
    volume: String,
    mount_point: String,
    flags: MntFlags,
    data: Option<String>,
}

/// The contents of [`MountOptions`]. An absent data text is not the empty
/// text.
pub struct MountOptionsView {
    pub volume: Seq<char>,
    pub mount_point: Seq<char>,
    pub flags: i32,
    pub data: Option<Seq<char>>,
}

impl MountOptionsView {
    /// Nothing set: empty texts, no flag, no data.
    pub open spec fn fresh() -> Self {
        MountOptionsView {
            volume: Seq::empty(),
            mount_point: Seq::empty(),
            flags: 0,
            data: None,
        }
    }

    /// The same options with another volume.
    pub open spec fn with_volume(self, volume: Seq<char>) -> Self {
        MountOptionsView { volume, ..self }
    }

    /// The same options with another mount point.
    pub open spec fn with_mount_point(self, mount_point: Seq<char>) -> Self {
        MountOptionsView { mount_point, ..self }
    }

    /// The same options with other flags.
    pub open spec fn with_flags(self, flags: i32) -> Self {
        MountOptionsView { flags, ..self }
    }

    /// The same options with another data text, or with none.
    pub open spec fn with_data(self, data: Option<Seq<char>>) -> Self {
        MountOptionsView { data, ..self }
    }
}

impl View for MountOptions {
    type V = MountOptionsView;

    closed spec fn view(&self) -> MountOptionsView {
        MountOptionsView {
            volume: self.volume@,
            mount_point: self.mount_point@,
            flags: self.flags@,
            data: self.data.deep_view(),
        }
    }
}

impl MountOptions {
    /// Options in which nothing is set.
    pub fn new() -> (options: Self)
        ensures
            options@ == MountOptionsView::fresh(),
    {
        Self {
            volume: String::new(),
            mount_point: String::new(),
            flags: MntFlags::empty(),
            data: None,
        }
    }

    /// Replaces the volume.
    pub fn volume(&mut self, volume: String) -> (ret: &mut Self)
        ensures
            ret@ == old(self)@.with_volume(volume@),
            *final(self) == *final(ret),
    {
        self.volume = volume;
        self
    }

    /// Replaces the mount point.
    pub fn mount_point(&mut self, mount_point: String) -> (ret: &mut Self)
        ensures
            ret@ == old(self)@.with_mount_point(mount_point@),
            *final(self) == *final(ret),
    {
        self.mount_point = mount_point;
        self
    }

    /// Replaces the flags.
    pub fn flags(&mut self, flags: MntFlags) -> (ret: &mut Self)
        ensures
            ret@ == old(self)@.with_flags(flags@),
            *final(self) == *final(ret),
    {
        self.flags = flags;
        self
    }

    /// Replaces the data, or removes it.
    pub fn data(&mut self, data: Option<String>) -> (ret: &mut Self)
        ensures
            ret@ == old(self)@.with_data(data.deep_view()),
            *final(self) == *final(ret),
    {
        self.data = data;
        self
    }
}

/// What `unmount` is called with.
#[derive(Clone, Debug, PartialEq, Eq)]
pub struct UnmountOptions {
    mount_point: String,
    flags: MntFlags,
}

/// The contents of [`UnmountOptions`].
pub struct UnmountOptionsView {
    pub mount_point: Seq<char>,
    pub flags: i32,
}

impl UnmountOptionsView {
    /// Nothing set: an empty mount point and no flag.
    pub open spec fn fresh() -> Self {
        UnmountOptionsView { mount_point: Seq::empty(), flags: 0 }
    }

    /// The same options with another mount point.
    pub open spec fn with_mount_point(self, mount_point: Seq<char>) -> Self {
        UnmountOptionsView { mount_point, ..self }
    }

    /// The same options with other flags.
    pub open spec fn with_flags(self, flags: i32) -> Self {
        UnmountOptionsView { flags, ..self }
    }
}

impl View for UnmountOptions {
    type V = UnmountOptionsView;

    closed spec fn view(&self) -> UnmountOptionsView {
        UnmountOptionsView { mount_point: self.mount_point@, flags: self.flags@ }
    }
}

impl UnmountOptions {
    /// Options in which nothing is set.
    pub fn new() -> (options: Self)
        ensures
            options@ == UnmountOptionsView::fresh(),
    {
        Self { mount_point: String::new(), flags: MntFlags::empty() }
    }

    /// Replaces the mount point.
    pub fn mount_point(&mut self, mount_point: String) -> (ret: &mut Self)
        ensures
            ret@ == old(self)@.with_mount_point(mount_point@),
            *final(self) == *final(ret),
    {
        self.mount_point = mount_point;
        self
    }

    /// Replaces the flags.
    pub fn flags(&mut self, flags: MntFlags) -> (ret: &mut Self)
        ensures
            ret@ == old(self)@.with_flags(flags@),
            *final(self) == *final(ret),
    {
        self.flags = flags;
        self
    }
}

/// One system call of this backend, with its arguments.
#[derive(Clone, Debug, PartialEq, Eq)]
pub enum Syscall {
    /// `mount(source, target, flags, data)`: there is no argument for the
    /// file system type.
    Mount { source: String, target: String, flags: MntFlags, data: Option<String> },
    /// `unmount(target, flags)`
    Unmount { target: String, flags: MntFlags },
}

/// The contents of a [`Syscall`].
pub enum SyscallView {
    Mount { source: Seq<char>, target: Seq<char>, flags: i32, data: Option<Seq<char>> },
    Unmount { target: Seq<char>, flags: i32 },
}

impl View for Syscall {
    type V = SyscallView;

    open spec fn view(&self) -> SyscallView {
        match *self {
            Syscall::Mount { source, target, flags, data } => SyscallView::Mount {
                source: source@,
                target: target@,
                flags: flags@,
                data: data.deep_view(),
            },
            Syscall::Unmount { target, flags } => SyscallView::Unmount {
                target: target@,
                flags: flags@,
            },
        }
    }
}

/// The call that mounts with the options: the volume is the source, the
/// mount point the target, flags and data are handed on as they are.
pub open spec fn mount_request(options: MountOptionsView) -> SyscallView {
    SyscallView::Mount {
        source: options.volume,
        target: options.mount_point,
        flags: options.flags,
        data: options.data,
    }
}

/// The call that unmounts with the options.
pub open spec fn unmount_request(options: UnmountOptionsView) -> SyscallView {
    SyscallView::Unmount { target: options.mount_point, flags: options.flags }
}

/// The `mount` call for the options.
pub fn mount(options: &MountOptions) -> (call: Syscall)
    ensures
        call@ == mount_request(options@),
{
    Syscall::Mount {
        source: options.volume.clone(),
        target: options.mount_point.clone(),
        flags: options.flags,
        data: duplicate(&options.data),
    }
}

/// The `unmount` call for the options.
pub fn unmount(options: &UnmountOptions) -> (call: Syscall)
    ensures
        call@ == unmount_request(options@),
{
    Syscall::Unmount { target: options.mount_point.clone(), flags: options.flags }
}

impl PlatformMountOptions for MountOptions {
    type Call = Syscall;

    open spec fn fresh() -> MountOptionsView {
        MountOptionsView::fresh()
    }

    open spec fn device_of(options: MountOptionsView) -> Seq<char> {
        options.volume
    }

    open spec fn mount_point_of(options: MountOptionsView) -> Seq<char> {
        options.mount_point
    }

    open spec fn with_device(options: MountOptionsView, device: Seq<char>) -> MountOptionsView {
        options.with_volume(device)
    }

    open spec fn with_mount_point(
        options: MountOptionsView,
        mount_point: Seq<char>,
    ) -> MountOptionsView {
        options.with_mount_point(mount_point)
    }

    open spec fn request(options: MountOptionsView) -> SyscallView {
        mount_request(options)
    }

    fn create() -> (options: Self) {
        MountOptions::new()
    }

    fn set_device(&mut self, device: String) {
        self.volume(device);
    }

    fn set_mount_point(&mut self, mount_point: String) {
        self.mount_point(mount_point);
    }

    fn prepare(&self) -> (call: Syscall) {
        mount(self)
    }

    proof fn lemma_fresh_is_empty() {
    }

    proof fn lemma_device_is_replaced(
        options: MountOptionsView,
        first: Seq<char>,
        second: Seq<char>,
    ) {
    }

    proof fn lemma_mount_point_is_replaced(
        options: MountOptionsView,
        first: Seq<char>,
        second: Seq<char>,
    ) {
    }

    proof fn lemma_common_setters_commute(
        options: MountOptionsView,
        device: Seq<char>,
        mount_point: Seq<char>,
    ) {
    }
}

impl PlatformUnmountOptions for UnmountOptions {
    type Call = Syscall;

    open spec fn fresh() -> UnmountOptionsView {
        UnmountOptionsView::fresh()
    }

    open spec fn mount_point_of(options: UnmountOptionsView) -> Seq<char> {
        options.mount_point
    }

    open spec fn with_mount_point(
        options: UnmountOptionsView,
        mount_point: Seq<char>,
    ) -> UnmountOptionsView {
        options.with_mount_point(mount_point)
    }

    open spec fn request(options: UnmountOptionsView) -> SyscallView {
        unmount_request(options)
    }

    fn create() -> (options: Self) {
        UnmountOptions::new()
    }

    fn set_mount_point(&mut self, mount_point: String) {
        self.mount_point(mount_point);
    }

    fn prepare(&self) -> (call: Syscall) {
        unmount(self)
    }

    proof fn lemma_fresh_is_empty() {
    }

    proof fn lemma_mount_point_is_replaced(
        options: UnmountOptionsView,
        first: Seq<char>,
        second: Seq<char>,
    ) {
    }
}

/// Each setter replaces its field and nothing is accumulated: of two values
/// set in a row only the second is left, as if the first had never been set.
pub proof fn lemma_mount_setters_overwrite(
    options: MountOptionsView,
    first: MountOptionsView,
    second: MountOptionsView,
)
    ensures
        options.with_volume(first.volume).with_volume(second.volume) == options.with_volume(
            second.volume,
        ),
        options.with_mount_point(first.mount_point).with_mount_point(second.mount_point)
            == options.with_mount_point(second.mount_point),
        options.with_flags(first.flags).with_flags(second.flags) == options.with_flags(
            second.flags,
        ),
        options.with_data(first.data).with_data(second.data) == options.with_data(second.data),
{
}

/// The setters of the extension trait and the setters common to all
/// platforms work on the same options: a flag or a data text can be set
/// before or after the volume and the mount point, and neither kind of
/// setter resets a field of the other.
pub proof fn lemma_mount_setters_are_independent(
    options: MountOptionsView,
    volume: Seq<char>,
    mount_point: Seq<char>,
    flags: i32,
    data: Option<Seq<char>>,
)
    ensures
        options.with_flags(flags).with_volume(volume) == options.with_volume(volume).with_flags(
            flags,
        ),
        options.with_data(data).with_volume(volume) == options.with_volume(volume).with_data(
            data,
        ),
        options.with_flags(flags).with_mount_point(mount_point) == options.with_mount_point(
            mount_point,
        ).with_flags(flags),
        options.with_data(data).with_mount_point(mount_point) == options.with_mount_point(
            mount_point,
        ).with_data(data),
        options.with_volume(volume).with_mount_point(mount_point).with_flags(flags).with_data(
            data,
        ) == (MountOptionsView { volume, mount_point, flags, data }),
{
}

/// The two setters of the unmount options replace their own field and leave
/// the other alone: the order in which they are called does not matter, and
/// of two values set in a row only the second is left.
pub proof fn lemma_unmount_setters(
    options: UnmountOptionsView,
    mount_point: Seq<char>,
    flags: i32,
    other: UnmountOptionsView,
)
    ensures
        options.with_mount_point(mount_point).with_flags(flags) == (UnmountOptionsView {
            mount_point,
            flags,
        }),
        options.with_flags(flags).with_mount_point(mount_point) == (UnmountOptionsView {
            mount_point,
            flags,
        }),
        options.with_mount_point(other.mount_point).with_mount_point(mount_point)
            == options.with_mount_point(mount_point),
        options.with_flags(other.flags).with_flags(flags) == options.with_flags(flags),
{
}

/// The flags reach the call bit for bit: `mount` receives exactly the bits
/// that were set last, and so does `unmount`; the other arguments are what
/// they were.
pub proof fn lemma_flags_pass_through(
    mount_options: MountOptionsView,
    mount_flags: i32,
    unmount_options: UnmountOptionsView,
    unmount_flags: i32,
)
    ensures
        mount_request(mount_options.with_flags(mount_flags)) == (SyscallView::Mount {
            source: mount_options.volume,
            target: mount_options.mount_point,
            flags: mount_flags,
            data: mount_options.data,
        }),
        unmount_request(unmount_options.with_flags(unmount_flags)) == (SyscallView::Unmount {
            target: unmount_options.mount_point,
            flags: unmount_flags,
        }),
{
}

/// The mount point that was set last is the target of the call, whatever
/// was set before it.
pub proof fn lemma_last_mount_point_is_the_target(
    mount_options: MountOptionsView,
    unmount_options: UnmountOptionsView,
    first: Seq<char>,
    second: Seq<char>,
)
    ensures
        mount_request(mount_options.with_mount_point(first).with_mount_point(second))
            == (SyscallView::Mount {
            source: mount_options.volume,
            target: second,
            flags: mount_options.flags,
            data: mount_options.data,
        }),
        unmount_request(unmount_options.with_mount_point(first).with_mount_point(second))
            == (SyscallView::Unmount { target: second, flags: unmount_options.flags }),
{
}

/// Nothing is lost on the way to the call: options that give the same call
/// are the same options.
pub proof fn lemma_request_keeps_every_field(
    mount_a: MountOptionsView,
    mount_b: MountOptionsView,
    unmount_a: UnmountOptionsView,
    unmount_b: UnmountOptionsView,
)
    ensures
        mount_request(mount_a) == mount_request(mount_b) ==> mount_a == mount_b,
        unmount_request(unmount_a) == unmount_request(unmount_b) ==> unmount_a == unmount_b,
{
}

/// Absent is not empty: a call without data differs from a call with the
/// empty text as data.
pub proof fn lemma_absent_is_not_empty(options: MountOptionsView)
    ensures
        mount_request(options.with_data(None)) != mount_request(
            options.with_data(Some(Seq::empty())),
        ),
{
}

} // verus!
