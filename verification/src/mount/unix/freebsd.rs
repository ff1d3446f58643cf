//! The backend for FreeBSD.
//!
//! Mounting is `nmount`, which takes a list of named options and the flags.
//! Unmounting is the `unmount` system call.
use crate::mount::{PlatformMountOptions, PlatformUnmountOptions};
use vstd::prelude::*;

verus! {

/// Flags of `nmount` and `unmount`: the bits that the call receives.
#[derive(Clone, Copy, Debug, PartialEq, Eq)]
pub struct MntFlags {
    bits: i32,
}

impl View for MntFlags {
    type V = i32;

    closed spec fn view(&self) -> i32 {
        self.bits
    }
}

impl MntFlags {
    /// No flag at all.
    pub fn empty() -> (flags: Self)
        ensures
            flags@ == 0,
    {
        MntFlags { bits: 0 }
    }

    /// The flags with exactly the given bits, whether or not each of them
    /// has a name.
    pub fn from_bits_retain(bits: i32) -> (flags: Self)
        ensures
            flags@ == bits,
    {
        MntFlags { bits }
    }

    /// The bits of the flags.
    pub fn bits(&self) -> (bits: i32)
        ensures
            bits == self@,
    {
        self.bits
    }
}

/// What `nmount` is called with on FreeBSD.
#[derive(Clone, Debug, PartialEq, Eq)]
pub struct MountOptions {
    volume: String,
    mount_point: String,
    flags: MntFlags,
    fs_type: Option<String>,
    data: Option<String>,
}

/// The contents of [`MountOptions`]. An absent file system type or an
/// absent data text is not the empty text.
pub struct MountOptionsView {
    pub volume: Seq<char>,
    pub mount_point: Seq<char>,
    pub flags: i32,
    pub fs_type: Option<Seq<char>>,
    pub data: Option<Seq<char>>,
}

impl MountOptionsView {
    /// Nothing set: empty texts, no flag, no file system type, no data.
    pub open spec fn fresh() -> Self {
        MountOptionsView {
            volume: Seq::empty(),
            mount_point: Seq::empty(),
            flags: 0,
            fs_type: None,
            data: None,
        }
    }

    /// The same options with another volume.
    pub open spec fn with_volume(self, volume: Seq<char>) -> Self {
        MountOptionsView { volume, ..self }
    }

    /// The same options with another mount point.
    pub open spec fn with_mount_point(self, mount_point: Seq<char>) -> Self {
        MountOptionsView { mount_point, ..self }
    }

    /// The same options with other flags.
    pub open spec fn with_flags(self, flags: i32) -> Self {
        MountOptionsView { flags, ..self }
    }

    /// The same options with another file system type, or with none.
    pub open spec fn with_fs_type(self, fs_type: Option<Seq<char>>) -> Self {
        MountOptionsView { fs_type, ..self }
    }

    /// The same options with another data text, or with none.
    pub open spec fn with_data(self, data: Option<Seq<char>>) -> Self {
        MountOptionsView { data, ..self }
    }
}

impl View for MountOptions {
    type V = MountOptionsView;

    closed spec fn view(&self) -> MountOptionsView {
        MountOptionsView {
            volume: self.volume@,
            mount_point: self.mount_point@,
            flags: self.flags@,
            fs_type: self.fs_type.deep_view(),
            data: self.data.deep_view(),
        }
    }
}

impl MountOptions {
    /// Options in which nothing is set.
    pub fn new() -> (options: Self)
        ensures
            options@ == MountOptionsView::fresh(),
    {
        Self {
            volume: String::new(),
            mount_point: String::new(),
            flags: MntFlags::empty(),
            fs_type: None,
            data: None,
        }
    }

    /// Replaces the volume.
    pub fn volume(&mut self, volume: String) -> (ret: &mut Self)
        ensures
            ret@ == old(self)@.with_volume(volume@),
            *final(self) == *final(ret),
    {
        self.volume = volume;
        self
    }

    /// Replaces the mount point.
    pub fn mount_point(&mut self, mount_point: String) -> (ret: &mut Self)
        ensures
            ret@ == old(self)@.with_mount_point(mount_point@),
            *final(self) == *final(ret),
    {
        self.mount_point = mount_point;
        self
    }

    /// Replaces the flags.
    pub fn flags(&mut self, flags: MntFlags) -> (ret: &mut Self)
        ensures
            ret@ == old(self)@.with_flags(flags@),
            *final(self) == *final(ret),
    {
        self.flags = flags;
        self
    }

    /// Replaces the file system type, or removes it.
    pub fn fs_type(&mut self, fs_type: Option<String>) -> (ret: &mut Self)
        ensures
            ret@ == old(self)@.with_fs_type(fs_type.deep_view()),
            *final(self) == *final(ret),
    {
        self.fs_type = fs_type;
        self
    }

    /// Replaces the data, or removes it.
    pub fn data(&mut self, data: Option<String>) -> (ret: &mut Self)
        ensures
            ret@ == old(self)@.with_data(data.deep_view()),
            *final(self) == *final(ret),
    {
        self.data = data;
        self
    }
}

/// What `unmount` is called with.
#[derive(Clone, Debug, PartialEq, Eq)]
pub struct UnmountOptions {
    mount_point: String,
    flags: MntFlags,
}

/// The contents of [`UnmountOptions`].
pub struct UnmountOptionsView {
    pub mount_point: Seq<char>,
    pub flags: i32,
}

impl UnmountOptionsView {
    /// Nothing set: an empty mount point and no flag.
    pub open spec fn fresh() -> Self {
        UnmountOptionsView { mount_point: Seq::empty(), flags: 0 }
    }

    /// The same options with another mount point.
    pub open spec fn with_mount_point(self, mount_point: Seq<char>) -> Self {
        UnmountOptionsView { mount_point, ..self }
    }

    /// The same options with other flags.
    pub open spec fn with_flags(self, flags: i32) -> Self {
        UnmountOptionsView { flags, ..self }
    }
}

impl View for UnmountOptions {
    type V = UnmountOptionsView;

    closed spec fn view(&self) -> UnmountOptionsView {
        UnmountOptionsView { mount_point: self.mount_point@, flags: self.flags@ }
    }
}

impl UnmountOptions {
    /// Options in which nothing is set.
    pub fn new() -> (options: Self)
        ensures
            options@ == UnmountOptionsView::fresh(),
    {
        Self { mount_point: String::new(), flags: MntFlags::empty() }
    }

    /// Replaces the mount point.
    pub fn mount_point(&mut self, mount_point: String) -> (ret: &mut Self)
        ensures
            ret@ == old(self)@.with_mount_point(mount_point@),
            *final(self) == *final(ret),
    {
        self.mount_point = mount_point;
        self
    }

    /// Replaces the flags.
    pub fn flags(&mut self, flags: MntFlags) -> (ret: &mut Self)
        ensures
            ret@ == old(self)@.with_flags(flags@),
            *final(self) == *final(ret),
    {
        self.flags = flags;
        self
    }
}

/// One system call of this backend, with its arguments.
#[derive(Clone, Debug, PartialEq, Eq)]
pub enum Syscall {
    /// `nmount` with the named options, each a name and its value, in the
    /// order in which they are added to the list, and the flags.
    Nmount { options: Vec<(String, String)>, flags: MntFlags },
    /// `unmount(target, flags)`
    Unmount { target: String, flags: MntFlags },
}

/// The contents of a [`Syscall`].
pub enum SyscallView {
    Nmount { options: Seq<(Seq<char>, Seq<char>)>, flags: i32 },
    Unmount { target: Seq<char>, flags: i32 },
}

impl View for Syscall {
    type V = SyscallView;

    open spec fn view(&self) -> SyscallView {
        match *self {
            Syscall::Nmount { options, flags } => SyscallView::Nmount {
                options: options.deep_view(),
                flags: flags@,
            },
            Syscall::Unmount { target, flags } => SyscallView::Unmount {
                target: target@,
                flags: flags@,
            },
        }
    }
}

/// The named options of a mount: `target` is the volume and `fspath` the
/// mount point, both always present, the empty text included; `fstype`
/// follows if and only if a file system type is set.
pub open spec fn named_options(options: MountOptionsView) -> Seq<(Seq<char>, Seq<char>)> {
    let common = seq![("target"@, options.volume), ("fspath"@, options.mount_point)];
    match options.fs_type {
        Some(fs_type) => common.push(("fstype"@, fs_type)),
        None => common,
    }
}

/// The call that mounts with the options: `nmount` with the named options
/// and the flags. The data text is not among the arguments.
pub open spec fn mount_request(options: MountOptionsView) -> SyscallView {
    SyscallView::Nmount { options: named_options(options), flags: options.flags }
}

/// The call that unmounts with the options.
pub open spec fn unmount_request(options: UnmountOptionsView) -> SyscallView {
    SyscallView::Unmount { target: options.mount_point, flags: options.flags }
}

/// The `nmount` call for the options.
pub fn mount(options: &MountOptions) -> (call: Syscall)
    ensures
        call@ == mount_request(options@),
{
    let mut list: Vec<(String, String)> = Vec::new();
    list.push(("target".to_owned(), options.volume.clone()));
    list.push(("fspath".to_owned(), options.mount_point.clone()));
    match &options.fs_type {
        Some(fs_type) => {
            list.push(("fstype".to_owned(), fs_type.clone()));
        },
        None => {},
    }
    assert(list.deep_view() == named_options(options@));
    Syscall::Nmount { options: list, flags: options.flags }
}

/// The `unmount` call for the options.
pub fn unmount(options: &UnmountOptions) -> (call: Syscall)
    ensures
        call@ == unmount_request(options@),
{
    Syscall::Unmount { target: options.mount_point.clone(), flags: options.flags }
}

impl PlatformMountOptions for MountOptions {
    type Call = Syscall;

    open spec fn fresh() -> MountOptionsView {
        MountOptionsView::fresh()
    }

    open spec fn device_of(options: MountOptionsView) -> Seq<char> {
        options.volume
    }

    open spec fn mount_point_of(options: MountOptionsView) -> Seq<char> {
        options.mount_point
    }

    open spec fn with_device(options: MountOptionsView, device: Seq<char>) -> MountOptionsView {
        options.with_volume(device)
    }

    open spec fn with_mount_point(
        options: MountOptionsView,
        mount_point: Seq<char>,
    ) -> MountOptionsView {
        options.with_mount_point(mount_point)
    }

    open spec fn request(options: MountOptionsView) -> SyscallView {
        mount_request(options)
    }

    fn create() -> (options: Self) {
        MountOptions::new()
    }

    fn set_device(&mut self, device: String) {
        self.volume(device);
    }

    fn set_mount_point(&mut self, mount_point: String) {
        self.mount_point(mount_point);
    }

    fn prepare(&self) -> (call: Syscall) {
        mount(self)
    }

    proof fn lemma_fresh_is_empty() {
    }

    proof fn lemma_device_is_replaced(
        options: MountOptionsView,
        first: Seq<char>,
        second: Seq<char>,
    ) {
    }

    proof fn lemma_mount_point_is_replaced(
        options: MountOptionsView,
        first: Seq<char>,
        second: Seq<char>,
    ) {
    }

    proof fn lemma_common_setters_commute(
        options: MountOptionsView,
        device: Seq<char>,
        mount_point: Seq<char>,
    ) {
    }
}

impl PlatformUnmountOptions for UnmountOptions {
    type Call = Syscall;

    open spec fn fresh() -> UnmountOptionsView {
        UnmountOptionsView::fresh()
    }

    open spec fn mount_point_of(options: UnmountOptionsView) -> Seq<char> {
        options.mount_point
    }

    open spec fn with_mount_point(
        options: UnmountOptionsView,
        mount_point: Seq<char>,
    ) -> UnmountOptionsView {
        options.with_mount_point(mount_point)
    }

    open spec fn request(options: UnmountOptionsView) -> SyscallView {
        unmount_request(options)
    }

    fn create() -> (options: Self) {
        UnmountOptions::new()
    }

    fn set_mount_point(&mut self, mount_point: String) {
        self.mount_point(mount_point);
    }

    fn prepare(&self) -> (call: Syscall) {
        unmount(self)
    }

    proof fn lemma_fresh_is_empty() {
    }

    proof fn lemma_mount_point_is_replaced(
        options: UnmountOptionsView,
        first: Seq<char>,
        second: Seq<char>,
    ) {
    }
}

/// Each setter replaces its field and nothing is accumulated: of two values
/// set in a row only the second is left, as if the first had never been set.
pub proof fn lemma_mount_setters_overwrite(
    options: MountOptionsView,
    first: MountOptionsView,
    second: MountOptionsView,
)
    ensures
        options.with_volume(first.volume).with_volume(second.volume) == options.with_volume(
            second.volume,
        ),
        options.with_mount_point(first.mount_point).with_mount_point(second.mount_point)
            == options.with_mount_point(second.mount_point),
        options.with_flags(first.flags).with_flags(second.flags) == options.with_flags(
            second.flags,
        ),
        options.with_fs_type(first.fs_type).with_fs_type(second.fs_type) == options.with_fs_type(
            second.fs_type,
        ),
        options.with_data(first.data).with_data(second.data) == options.with_data(second.data),
{
}

/// The setters of the extension trait and the setters common to all
/// platforms work on the same options: a flag, a file system type or a data
/// text can be set before or after the volume and the mount point, and
/// neither kind of setter resets a field of the other.
pub proof fn lemma_mount_setters_are_independent(
    options: MountOptionsView,
    volume: Seq<char>,
    mount_point: Seq<char>,
    flags: i32,
    fs_type: Option<Seq<char>>,
    data: Option<Seq<char>>,
)
    ensures
        options.with_flags(flags).with_volume(volume) == options.with_volume(volume).with_flags(
            flags,
        ),
        options.with_fs_type(fs_type).with_volume(volume) == options.with_volume(
            volume,
        ).with_fs_type(fs_type),
        options.with_data(data).with_volume(volume) == options.with_volume(volume).with_data(
            data,
        ),
        options.with_flags(flags).with_mount_point(mount_point) == options.with_mount_point(
            mount_point,
        ).with_flags(flags),
        options.with_fs_type(fs_type).with_mount_point(mount_point) == options.with_mount_point(
            mount_point,
        ).with_fs_type(fs_type),
        options.with_data(data).with_mount_point(mount_point) == options.with_mount_point(
            mount_point,
        ).with_data(data),
        options.with_volume(volume).with_mount_point(mount_point).with_flags(flags).with_fs_type(
            fs_type,
        ).with_data(data) == (MountOptionsView { volume, mount_point, flags, fs_type, data }),
{
}

/// The two setters of the unmount options replace their own field and leave
/// the other alone: the order in which they are called does not matter, and
/// of two values set in a row only the second is left.
pub proof fn lemma_unmount_setters(
    options: UnmountOptionsView,
    mount_point: Seq<char>,
    flags: i32,
    other: UnmountOptionsView,
)
    ensures
        options.with_mount_point(mount_point).with_flags(flags) == (UnmountOptionsView {
            mount_point,
            flags,
        }),
        options.with_flags(flags).with_mount_point(mount_point) == (UnmountOptionsView {
            mount_point,
            flags,
        }),
        options.with_mount_point(other.mount_point).with_mount_point(mount_point)
            == options.with_mount_point(mount_point),
        options.with_flags(other.flags).with_flags(flags) == options.with_flags(flags),
{
}

/// The flags reach the call bit for bit: `nmount` receives exactly the bits
/// that were set last, and so does `unmount`; the other arguments are what
/// they were.
pub proof fn lemma_flags_pass_through(
    mount_options: MountOptionsView,
    mount_flags: i32,
    unmount_options: UnmountOptionsView,
    unmount_flags: i32,
)
    ensures
        mount_request(mount_options.with_flags(mount_flags)) == (SyscallView::Nmount {
            options: named_options(mount_options),
            flags: mount_flags,
        }),
        unmount_request(unmount_options.with_flags(unmount_flags)) == (SyscallView::Unmount {
            target: unmount_options.mount_point,
            flags: unmount_flags,
        }),
{
}

/// The mount point that was set last is the one the call names, whatever
/// was set before it: as the value of `fspath` when mounting, as the target
/// when unmounting.
pub proof fn lemma_last_mount_point_is_the_target(
    mount_options: MountOptionsView,
    unmount_options: UnmountOptionsView,
    first: Seq<char>,
    second: Seq<char>,
)
    ensures
        named_options(mount_options.with_mount_point(first).with_mount_point(second))[1] == (
            "fspath"@,
            second,
        ),
        unmount_request(unmount_options.with_mount_point(first).with_mount_point(second))
            == (SyscallView::Unmount { target: second, flags: unmount_options.flags }),
{
}

/// The data text is kept in the options and is no argument of `nmount`:
/// the call is the same with any data and without. Everything else reaches
/// the call: options that give the same call differ in their data at most.
pub proof fn lemma_request_keeps_every_field_but_data(
    mount_a: MountOptionsView,
    mount_b: MountOptionsView,
    data: Option<Seq<char>>,
    unmount_a: UnmountOptionsView,
    unmount_b: UnmountOptionsView,
)
    ensures
        mount_request(mount_a.with_data(data)) == mount_request(mount_a),
        mount_request(mount_a) == mount_request(mount_b) ==> mount_a.with_data(data)
            == mount_b.with_data(data),
        unmount_request(unmount_a) == unmount_request(unmount_b) ==> unmount_a == unmount_b,
{
    if mount_request(mount_a) == mount_request(mount_b) {
        let a = named_options(mount_a);
        let b = named_options(mount_b);
        assert(a == b);
        assert(a[0] == b[0] && a[1] == b[1]);
        assert(a.len() == b.len());
        if mount_a.fs_type is Some {
            assert(a[2] == b[2]);
        }
    }
}

/// The list of named options has two entries without a file system type and
/// three with one, the empty text included: absent is not empty.
pub proof fn lemma_fstype_is_named_when_set(options: MountOptionsView, fs_type: Seq<char>)
    ensures
        named_options(options.with_fs_type(None)).len() == 2,
        named_options(options.with_fs_type(Some(fs_type))).len() == 3,
        named_options(options.with_fs_type(Some(fs_type)))[2] == ("fstype"@, fs_type),
        named_options(options)[0] == ("target"@, options.volume),
        named_options(options)[1] == ("fspath"@, options.mount_point),
        mount_request(options.with_fs_type(None)) != mount_request(
            options.with_fs_type(Some(Seq::empty())),
        ),
{
}

} // verus!
