//! The backend for Linux and Android.
//!
//! Mounting is the `mount` system call. Unmounting with options is
//! `umount2`, which takes flags; [`umount`] is the older call of the same
//! name, which takes none.
use crate::common::duplicate;
use crate::mount::{PlatformMountOptions, PlatformUnmountOptions};
use vstd::prelude::*;

verus! {

/// Flags of the `mount` system call: the bits that the call receives.
#[derive(Clone, Copy, Debug, PartialEq, Eq)]
pub struct MsFlags {
    bits: u64,
}

impl View for MsFlags {
    type V = u64;

    closed spec fn view(&self) -> u64 {
        self.bits
    }
}

impl MsFlags {
    /// No flag at all.
    pub fn empty() -> (flags: Self)
        ensures
            flags@ == 0,
    {
        MsFlags { bits: 0 }
    }

    /// The flags with exactly the given bits, whether or not each of them
    /// has a name.
    pub fn from_bits_retain(bits: u64) -> (flags: Self)
        ensures
            flags@ == bits,
    {
        MsFlags { bits }
    }

    /// The bits of the flags.
    pub fn bits(&self) -> (bits: u64)
        ensures
            bits == self@,
    {
        self.bits
    }
}

/// Flags of the `umount2` system call: the bits that the call receives.
#[derive(Clone, Copy, Debug, PartialEq, Eq)]
pub struct MntFlags {
    bits: i32,
}

impl View for MntFlags {
    type V = i32;

    closed spec fn view(&self) -> i32 {
        self.bits
    }
}

impl MntFlags {
    /// No flag at all.
    pub fn empty() -> (flags: Self)
        ensures
            flags@ == 0,
    {
        MntFlags { bits: 0 }
    }

    /// The flags with exactly the given bits, whether or not each of them
    /// has a name.
    pub fn from_bits_retain(bits: i32) -> (flags: Self)
        ensures
            flags@ == bits,
    {
        MntFlags { bits }
    }

    /// The bits of the flags.
    pub fn bits(&self) -> (bits: i32)
        ensures
            bits == self@,
    {
        self.bits
    }
}

/// What `mount` is called with on Linux and Android.
#[derive(Clone, Debug, PartialEq, Eq)]
pub struct MountOptions {
    volume: String,
    mount_point: String,
    flags: MsFlags,
    fs_type: Option<String>,
    data: Option<String>,
}

/// The contents of [`MountOptions`]. An absent file system type or an
/// absent data text is not the empty text: the first lets the kernel choose,
/// the second is handed to it.
pub struct MountOptionsView {
    pub volume: Seq<char>,
    pub mount_point: Seq<char>,
    pub flags: u64,
    pub fs_type: Option<Seq<char>>,
    pub data: Option<Seq<char>>,
}

impl MountOptionsView {
    /// Nothing set: empty texts, no flag, no file system type, no data.
    pub open spec fn fresh() -> Self {
        MountOptionsView {
            volume: Seq::empty(),
            mount_point: Seq::empty(),
            flags: 0,
            fs_type: None,
            data: None,
        }
    }

    /// The same options with another volume.
    pub open spec fn with_volume(self, volume: Seq<char>) -> Self {
        MountOptionsView { volume, ..self }
    }

    /// The same options with another mount point.
    pub open spec fn with_mount_point(self, mount_point: Seq<char>) -> Self {
        MountOptionsView { mount_point, ..self }
    }

    /// The same options with other flags.
    pub open spec fn with_flags(self, flags: u64) -> Self {
        MountOptionsView { flags, ..self }
    }

    /// The same options with another file system type, or with none.
    pub open spec fn with_fs_type(self, fs_type: Option<Seq<char>>) -> Self {
        MountOptionsView { fs_type, ..self }
    }

    /// The same options with another data text, or with none.
    pub open spec fn with_data(self, data: Option<Seq<char>>) -> Self {
        MountOptionsView { data, ..self }
    }
}

impl View for MountOptions {
    type V = MountOptionsView;

    closed spec fn view(&self) -> MountOptionsView {
        MountOptionsView {
            volume: self.volume@,
            mount_point: self.mount_point@,
            flags: self.flags@,
            fs_type: self.fs_type.deep_view(),
            data: self.data.deep_view(),
        }
    }
}

impl MountOptions {
    /// Options in which nothing is set.
    pub fn new() -> (options: Self)
        ensures
            options@ == MountOptionsView::fresh(),
    {
        Self {
            volume: String::new(),
            mount_point: String::new(),
            flags: MsFlags::empty(),
            fs_type: None,
            data: None,
        }
    }

    /// Replaces the volume.
    pub fn volume(&mut self, device: String) -> (ret: &mut Self)
        ensures
            ret@ == old(self)@.with_volume(device@),
            *final(self) == *final(ret),
    {
        self.volume = device;
        self
    }

    /// Replaces the mount point.
    pub fn mount_point(&mut self, mount_point: String) -> (ret: &mut Self)
        ensures
            ret@ == old(self)@.with_mount_point(mount_point@),
            *final(self) == *final(ret),
    {
        self.mount_point = mount_point;
        self
    }

    /// Replaces the flags.
    pub fn flags(&mut self, flags: MsFlags) -> (ret: &mut Self)
        ensures
            ret@ == old(self)@.with_flags(flags@),
            *final(self) == *final(ret),
    {
        self.flags = flags;
        self
    }

    /// Replaces the file system type, or removes it.
    pub fn fs_type(&mut self, fs_type: Option<String>) -> (ret: &mut Self)
        ensures
            ret@ == old(self)@.with_fs_type(fs_type.deep_view()),
            *final(self) == *final(ret),
    {
        self.fs_type = fs_type;
        self
    }

    /// Replaces the data, or removes it.
    pub fn data(&mut self, data: Option<String>) -> (ret: &mut Self)
        ensures
            ret@ == old(self)@.with_data(data.deep_view()),
            *final(self) == *final(ret),
    {
        self.data = data;
        self
    }
}

/// What `umount2` is called with.
#[derive(Clone, Debug, PartialEq, Eq)]
pub struct UnmountOptions {
    mount_point: String,
    flags: MntFlags,
}

/// The contents of [`UnmountOptions`].
pub struct UnmountOptionsView {
    pub mount_point: Seq<char>,
    pub flags: i32,
}

impl UnmountOptionsView {
    /// Nothing set: an empty mount point and no flag.
    pub open spec fn fresh() -> Self {
        UnmountOptionsView { mount_point: Seq::empty(), flags: 0 }
    }

    /// The same options with another mount point.
    pub open spec fn with_mount_point(self, mount_point: Seq<char>) -> Self {
        UnmountOptionsView { mount_point, ..self }
    }

    /// The same options with other flags.
    pub open spec fn with_flags(self, flags: i32) -> Self {
        UnmountOptionsView { flags, ..self }
    }
}

impl View for UnmountOptions {
    type V = UnmountOptionsView;

    closed spec fn view(&self) -> UnmountOptionsView {
        UnmountOptionsView { mount_point: self.mount_point@, flags: self.flags@ }
    }
}

impl UnmountOptions {
    /// Options in which nothing is set.
    pub fn new() -> (options: Self)
        ensures
            options@ == UnmountOptionsView::fresh(),
    {
        Self { mount_point: String::new(), flags: MntFlags::empty() }
    }

    /// Replaces the mount point.
    pub fn mount_point(&mut self, mount_point: String) -> (ret: &mut Self)
        ensures
            ret@ == old(self)@.with_mount_point(mount_point@),
            *final(self) == *final(ret),
    {
        self.mount_point = mount_point;
        self
    }

    /// Replaces the flags.
    pub fn flags(&mut self, flags: MntFlags) -> (ret: &mut Self)
        ensures
            ret@ == old(self)@.with_flags(flags@),
            *final(self) == *final(ret),
    {
        self.flags = flags;
        self
    }
}

/// One system call of this backend, with its arguments.
#[derive(Clone, Debug, PartialEq, Eq)]
pub enum Syscall {
    /// `mount(source, target, fs_type, flags, data)`
    Mount {
        source: Option<String>,
        target: String,
        fs_type: Option<String>,
        flags: MsFlags,
        data: Option<String>,
    },
    /// `umount2(target, flags)`
    Umount2 { target: String, flags: MntFlags },
    /// `umount(target)`: there is no flags argument.
    Umount { target: String },
}

/// The contents of a [`Syscall`].
pub enum SyscallView {
    Mount {
        source: Option<Seq<char>>,
        target: Seq<char>,
        fs_type: Option<Seq<char>>,
        flags: u64,
        data: Option<Seq<char>>,
    },
    Umount2 { target: Seq<char>, flags: i32 },
    Umount { target: Seq<char> },
}

impl View for Syscall {
    type V = SyscallView;

    open spec fn view(&self) -> SyscallView {
        match *self {
            Syscall::Mount { source, target, fs_type, flags, data } => SyscallView::Mount {
                source: source.deep_view(),
                target: target@,
                fs_type: fs_type.deep_view(),
                flags: flags@,
                data: data.deep_view(),
            },
            Syscall::Umount2 { target, flags } => SyscallView::Umount2 {
                target: target@,
                flags: flags@,
            },
            Syscall::Umount { target } => SyscallView::Umount { target: target@ },
        }
    }
}

/// The call that mounts with the options: every field becomes the argument
/// of its name, the volume becomes the source, which is always given.
pub open spec fn mount_request(options: MountOptionsView) -> SyscallView {
    SyscallView::Mount {
        source: Some(options.volume),
        target: options.mount_point,
        fs_type: options.fs_type,
        flags: options.flags,
        data: options.data,
    }
}

/// The call that unmounts with the options: `umount2`, which takes the
/// flags.
pub open spec fn unmount_request(options: UnmountOptionsView) -> SyscallView {
    SyscallView::Umount2 { target: options.mount_point, flags: options.flags }
}

/// The call that unmounts without options: `umount`, which takes the target
/// and nothing else.
pub open spec fn umount_request(target: Seq<char>) -> SyscallView {
    SyscallView::Umount { target }
}

/// The `mount` call for the options.
pub fn mount(options: &MountOptions) -> (call: Syscall)
    ensures
        call@ == mount_request(options@),
{
    Syscall::Mount {
        source: Some(options.volume.clone()),
        target: options.mount_point.clone(),
        fs_type: duplicate(&options.fs_type),
        flags: options.flags,
        data: duplicate(&options.data),
    }
}

/// The `umount2` call for the options.
pub fn unmount(options: &UnmountOptions) -> (call: Syscall)
    ensures
        call@ == unmount_request(options@),
{
    Syscall::Umount2 { target: options.mount_point.clone(), flags: options.flags }
}

/// The `umount` call for the target.
pub fn umount(target: &str) -> (call: Syscall)
    ensures
        call@ == umount_request(target@),
{
    Syscall::Umount { target: target.to_owned() }
}

impl PlatformMountOptions for MountOptions {
    type Call = Syscall;

    open spec fn fresh() -> MountOptionsView {
        MountOptionsView::fresh()
    }

    open spec fn device_of(options: MountOptionsView) -> Seq<char> {
        options.volume
    }

    open spec fn mount_point_of(options: MountOptionsView) -> Seq<char> {
        options.mount_point
    }

    open spec fn with_device(options: MountOptionsView, device: Seq<char>) -> MountOptionsView {
        options.with_volume(device)
    }

    open spec fn with_mount_point(
        options: MountOptionsView,
        mount_point: Seq<char>,
    ) -> MountOptionsView {
        options.with_mount_point(mount_point)
    }

    open spec fn request(options: MountOptionsView) -> SyscallView {
        mount_request(options)
    }

    fn create() -> (options: Self) {
        MountOptions::new()
    }

    fn set_device(&mut self, device: String) {
        self.volume(device);
    }

    fn set_mount_point(&mut self, mount_point: String) {
        self.mount_point(mount_point);
    }

    fn prepare(&self) -> (call: Syscall) {
        mount(self)
    }

    proof fn lemma_fresh_is_empty() {
    }

    proof fn lemma_device_is_replaced(
        options: MountOptionsView,
        first: Seq<char>,
        second: Seq<char>,
    ) {
    }

    proof fn lemma_mount_point_is_replaced(
        options: MountOptionsView,
        first: Seq<char>,
        second: Seq<char>,
    ) {
    }

    proof fn lemma_common_setters_commute(
        options: MountOptionsView,
        device: Seq<char>,
        mount_point: Seq<char>,
    ) {
    }
}

impl PlatformUnmountOptions for UnmountOptions {
    type Call = Syscall;

    open spec fn fresh() -> UnmountOptionsView {
        UnmountOptionsView::fresh()
    }

    open spec fn mount_point_of(options: UnmountOptionsView) -> Seq<char> {
        options.mount_point
    }

    open spec fn with_mount_point(
        options: UnmountOptionsView,
        mount_point: Seq<char>,
    ) -> UnmountOptionsView {
        options.with_mount_point(mount_point)
    }

    open spec fn request(options: UnmountOptionsView) -> SyscallView {
        unmount_request(options)
    }

    fn create() -> (options: Self) {
        UnmountOptions::new()
    }

    fn set_mount_point(&mut self, mount_point: String) {
        self.mount_point(mount_point);
    }

    fn prepare(&self) -> (call: Syscall) {
        unmount(self)
    }

    proof fn lemma_fresh_is_empty() {
    }

    proof fn lemma_mount_point_is_replaced(
        options: UnmountOptionsView,
        first: Seq<char>,
        second: Seq<char>,
    ) {
    }
}

/// Each setter replaces its field and nothing is accumulated: of two values
/// set in a row only the second is left, as if the first had never been set.
pub proof fn lemma_mount_setters_overwrite(
    options: MountOptionsView,
    first: MountOptionsView,
    second: MountOptionsView,
)
    ensures
        options.with_volume(first.volume).with_volume(second.volume) == options.with_volume(
            second.volume,
        ),
        options.with_mount_point(first.mount_point).with_mount_point(second.mount_point)
            == options.with_mount_point(second.mount_point),
        options.with_flags(first.flags).with_flags(second.flags) == options.with_flags(
            second.flags,
        ),
        options.with_fs_type(first.fs_type).with_fs_type(second.fs_type) == options.with_fs_type(
            second.fs_type,
        ),
        options.with_data(first.data).with_data(second.data) == options.with_data(second.data),
{
}

/// The setters of the extension trait and the setters common to all
/// platforms work on the same options: a flag, a file system type or a data
/// text can be set before or after the volume and the mount point, and
/// neither kind of setter resets a field of the other.
pub proof fn lemma_mount_setters_are_independent(
    options: MountOptionsView,
    volume: Seq<char>,
    mount_point: Seq<char>,
    flags: u64,
    fs_type: Option<Seq<char>>,
    data: Option<Seq<char>>,
)
    ensures
        options.with_flags(flags).with_volume(volume) == options.with_volume(volume).with_flags(
            flags,
        ),
        options.with_fs_type(fs_type).with_volume(volume) == options.with_volume(
            volume,
        ).with_fs_type(fs_type),
        options.with_data(data).with_volume(volume) == options.with_volume(volume).with_data(
            data,
        ),
        options.with_flags(flags).with_mount_point(mount_point) == options.with_mount_point(
            mount_point,
        ).with_flags(flags),
        options.with_fs_type(fs_type).with_mount_point(mount_point) == options.with_mount_point(
            mount_point,
        ).with_fs_type(fs_type),
        options.with_data(data).with_mount_point(mount_point) == options.with_mount_point(
            mount_point,
        ).with_data(data),
        options.with_volume(volume).with_mount_point(mount_point).with_flags(flags).with_fs_type(
            fs_type,
        ).with_data(data) == (MountOptionsView { volume, mount_point, flags, fs_type, data }),
{
}

/// The two setters of the unmount options replace their own field and leave
/// the other alone: the order in which they are called does not matter, and
/// of two values set in a row only the second is left.
pub proof fn lemma_unmount_setters(
    options: UnmountOptionsView,
    mount_point: Seq<char>,
    flags: i32,
    other: UnmountOptionsView,
)
    ensures
        options.with_mount_point(mount_point).with_flags(flags) == (UnmountOptionsView {
            mount_point,
            flags,
        }),
        options.with_flags(flags).with_mount_point(mount_point) == (UnmountOptionsView {
            mount_point,
            flags,
        }),
        options.with_mount_point(other.mount_point).with_mount_point(mount_point)
            == options.with_mount_point(mount_point),
        options.with_flags(other.flags).with_flags(flags) == options.with_flags(flags),
{
}

/// The flags reach the call bit for bit: `mount` receives exactly the bits
/// that were set last, and so does `umount2`; the other arguments are what
/// they were.
pub proof fn lemma_flags_pass_through(
    mount_options: MountOptionsView,
    mount_flags: u64,
    unmount_options: UnmountOptionsView,
    unmount_flags: i32,
)
    ensures
        mount_request(mount_options.with_flags(mount_flags)) == (SyscallView::Mount {
            source: Some(mount_options.volume),
            target: mount_options.mount_point,
            fs_type: mount_options.fs_type,
            flags: mount_flags,
            data: mount_options.data,
        }),
        unmount_request(unmount_options.with_flags(unmount_flags)) == (SyscallView::Umount2 {
            target: unmount_options.mount_point,
            flags: unmount_flags,
        }),
{
}

/// The mount point that was set last is the target of the call, whatever
/// was set before it.
pub proof fn lemma_last_mount_point_is_the_target(
    mount_options: MountOptionsView,
    unmount_options: UnmountOptionsView,
    first: Seq<char>,
    second: Seq<char>,
)
    ensures
        mount_request(mount_options.with_mount_point(first).with_mount_point(second))
            == (SyscallView::Mount {
            source: Some(mount_options.volume),
            target: second,
            fs_type: mount_options.fs_type,
            flags: mount_options.flags,
            data: mount_options.data,
        }),
        unmount_request(unmount_options.with_mount_point(first).with_mount_point(second))
            == (SyscallView::Umount2 { target: second, flags: unmount_options.flags }),
{
}

/// Nothing is lost on the way to the call: options that give the same call
/// are the same options.
pub proof fn lemma_request_keeps_every_field(
    mount_a: MountOptionsView,
    mount_b: MountOptionsView,
    unmount_a: UnmountOptionsView,
    unmount_b: UnmountOptionsView,
)
    ensures
        mount_request(mount_a) == mount_request(mount_b) ==> mount_a == mount_b,
        unmount_request(unmount_a) == unmount_request(unmount_b) ==> unmount_a == unmount_b,
{
}

/// Absent is not empty: a call without a file system type differs from a
/// call with the empty text as the type, and likewise for the data.
pub proof fn lemma_absent_is_not_empty(options: MountOptionsView)
    ensures
        mount_request(options.with_fs_type(None)) != mount_request(
            options.with_fs_type(Some(Seq::empty())),
        ),
        mount_request(options.with_data(None)) != mount_request(
            options.with_data(Some(Seq::empty())),
        ),
{
}

/// Unmounting through the options and the bare `umount` are two calls that
/// cannot be taken for one another: the first is always `umount2` and
/// carries flags, even if none is set; the second is always `umount`, which
/// has no flags to carry.
pub proof fn lemma_umount_is_not_umount2(options: UnmountOptionsView, target: Seq<char>)
    ensures
        unmount_request(options) is Umount2,
        umount_request(target) is Umount,
        unmount_request(options) != umount_request(target),
{
}

} // verus!
