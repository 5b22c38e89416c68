//! Virtual displays on linux, on top of [evdi](https://github.com/DisplayLink/evdi).
//!
//! The library holds what is decided and computed: which device nodes there are and which of
//! them can be opened, what a connected handle knows of its buffers and of the events that came
//! in, and the bytes that go to the kernel module or to a file. Whoever uses it makes the calls
//! into libevdi, waits, and hands the answers back.
//!
//! ## Basic usage
//!
//! * [`DeviceNode::get`](crate::device_node::DeviceNode::get) picks a node and
//!   [`DeviceNode::open`](crate::device_node::DeviceNode::open) says how it is opened.
//! * [`UnconnectedHandle::connect`](crate::handle::UnconnectedHandle::connect) makes a
//!   [`Handle`](crate::handle::Handle) of it.
//! * [`HandleEvents::await_mode`](crate::events::HandleEvents::await_mode) says whether the mode
//!   is known yet.
//! * [`Handle::new_buffer`](crate::handle::Handle::new_buffer) registers a buffer, and
//!   [`Handle::request_update`](crate::handle::Handle::request_update) leads an update of it
//!   from the first call to the last.
use vstd::prelude::*;

use crate::text::{captures, parse_decimal, VERSION_PATTERN};

pub use crate::mode::DrmFormat;

pub mod array;
pub mod buffer;
pub mod device;
pub mod device_config;
pub mod device_node;
pub mod event_loop;
pub mod events;
pub mod handle;
pub mod mode;
pub mod prelude;
pub mod text;

verus! {

/// Where the kernel module shows its version.
pub const MOD_VERSION_FILE: &'static str = "/sys/devices/evdi/version";

/// Status of the evdi kernel module
#[derive(Debug, Clone, Copy, PartialEq, Eq, Structural)]
pub enum KernelModStatus {
    NotInstalled,
    Outdated,
    Compatible,
}

/// The status of a kernel module of some version, `None` where there is none, for a library.
pub open spec fn kernel_mod_status(
    mod_version: Option<KernelModVersion>,
    lib_version: LibVersion,
) -> KernelModStatus {
    match mod_version {
        None => KernelModStatus::NotInstalled,
        Some(version) => if lib_version.compatible(version) {
            KernelModStatus::Compatible
        } else {
            KernelModStatus::Outdated
        },
    }
}

/// Check the status of the evdi kernel module for compatibility with this library version.
///
/// * `mod_version` - the version of the kernel module, `None` where there is none to be read.
///
/// This is provided so that you can show a helpful error message early.
/// [`DeviceNode::open`](crate::device_node::DeviceNode::open) takes the status, and opens nothing
/// on a module that is not compatible.
pub fn check_kernel_mod(mod_version: Option<KernelModVersion>, lib_version: &LibVersion) -> (status:
    KernelModStatus)
    ensures
        status == kernel_mod_status(mod_version, *lib_version),
{
    if let Some(mod_version) = mod_version {
        if lib_version.is_compatible_with(mod_version) {
            KernelModStatus::Compatible
        } else {
            KernelModStatus::Outdated
        }
    } else {
        KernelModStatus::NotInstalled
    }
}

/// Version of kernel evdi module
#[derive(Debug, Clone, Copy, PartialEq, Eq, Structural)]
pub struct KernelModVersion {
    pub major: u32,
    pub minor: u32,
    pub patch: u32,
}

/// The number that a group of digits stands for, where it fits.
pub open spec fn version_number(digits: Seq<char>) -> Option<u32> {
    if crate::text::decimal_value(digits) <= u32::MAX {
        Some(crate::text::decimal_value(digits) as u32)
    } else {
        None
    }
}

/// The version that stands first in the text of a version file.
pub open spec fn version_in(contents: Seq<char>) -> Option<KernelModVersion> {
    match crate::text::version_start(contents, 0) {
        None => None,
        Some(i) => {
            let groups = crate::text::version_groups(contents, i);
            match (version_number(groups[0]), version_number(groups[1]), version_number(groups[2])) {
                (Some(major), Some(minor), Some(patch)) => Some(
                    KernelModVersion { major, minor, patch },
                ),
                _ => None,
            }
        },
    }
}

/// A version that is written out at the beginning of a version file, with no digit behind it, is
/// read as it was written.
pub proof fn version_round_trip(version: KernelModVersion, rest: Seq<char>)
    requires
        rest.len() > 0 ==> !crate::text::is_digit(rest[0]),
    ensures
        version_in(
            crate::text::decimal(version.major as nat) + seq!['.'] + crate::text::decimal(
                version.minor as nat,
            ) + seq!['.'] + crate::text::decimal(version.patch as nat) + rest,
        ) == Some(version),
{
    crate::text::decimal_round_trip(version.major as nat);
    crate::text::decimal_round_trip(version.minor as nat);
    crate::text::decimal_round_trip(version.patch as nat);
    crate::text::version_is_found(
        crate::text::decimal(version.major as nat),
        crate::text::decimal(version.minor as nat),
        crate::text::decimal(version.patch as nat),
        rest,
    );
}

/// Three numbers with dots between them, behind text without digits and with no digit behind them,
/// are read as the version if each of them fits. If one does not, there is no version.
pub proof fn version_is_read(
    before: Seq<char>,
    major: Seq<char>,
    minor: Seq<char>,
    patch: Seq<char>,
    rest: Seq<char>,
)
    requires
        forall|k: int| 0 <= k < before.len() ==> !crate::text::is_digit(#[trigger] before[k]),
        crate::text::is_digits(major),
        crate::text::is_digits(minor),
        crate::text::is_digits(patch),
        rest.len() > 0 ==> !crate::text::is_digit(rest[0]),
    ensures
        match version_in(before + major + seq!['.'] + minor + seq!['.'] + patch + rest) {
            Some(version) => {
                &&& version.major == crate::text::decimal_value(major)
                &&& version.minor == crate::text::decimal_value(minor)
                &&& version.patch == crate::text::decimal_value(patch)
            },
            None => {
                ||| crate::text::decimal_value(major) > 0xffff_ffff
                ||| crate::text::decimal_value(minor) > 0xffff_ffff
                ||| crate::text::decimal_value(patch) > 0xffff_ffff
            },
        },
{
    crate::text::version_is_found_behind(before, major, minor, patch, rest);
}

/// A version that is read stands in the text: the text is something before it, its three numbers
/// with dots between them, and something behind it that does not begin with a digit. No version
/// begins before it.
pub proof fn read_version_stands_in_text(contents: Seq<char>) -> (parts: (
    Seq<char>,
    Seq<char>,
    Seq<char>,
    Seq<char>,
    Seq<char>,
))
    requires
        version_in(contents) is Some,
    ensures
        ({
            let (before, major, minor, patch, rest) = parts;
            let version = version_in(contents).unwrap();
            &&& contents == before + major + seq!['.'] + minor + seq!['.'] + patch + rest
            &&& crate::text::is_digits(major) && crate::text::decimal_value(major) == version.major
            &&& crate::text::is_digits(minor) && crate::text::decimal_value(minor) == version.minor
            &&& crate::text::is_digits(patch) && crate::text::decimal_value(patch) == version.patch
            &&& rest.len() > 0 ==> !crate::text::is_digit(rest[0])
            &&& forall|k: int|
                0 <= k < before.len() ==> !#[trigger] crate::text::version_at(contents, k)
        }),
{
    let i = crate::text::version_start(contents, 0).unwrap();
    crate::text::version_start_is_version(contents, 0);
    crate::text::version_groups_are_digits(contents, i);
    crate::text::version_parts_make_text(contents, i);
    let groups = crate::text::version_groups(contents, i);
    (
        contents.take(i),
        groups[0],
        groups[1],
        groups[2],
        contents.skip(crate::text::version_end(contents, i)),
    )
}

impl KernelModVersion {
    /// Reads the version out of what [`MOD_VERSION_FILE`] holds.
    pub fn get(contents: &str) -> (version: Option<Self>)
        ensures
            version == version_in(contents@),
    {
        proof {
            patterns_differ();
        }
        let groups = match captures(VERSION_PATTERN, contents) {
            Some(groups) => groups,
            None => return None,
        };
        proof {
            let i = crate::text::version_start(contents@, 0).unwrap();
            crate::text::version_start_is_version(contents@, 0);
            crate::text::version_groups_are_digits(contents@, i);
            let texts = groups@.map_values(|group: String| group@);
            assert(texts.len() == 4);
            assert(texts[1] == groups@[1]@);
            assert(texts[2] == groups@[2]@);
            assert(texts[3] == groups@[3]@);
        }
        let major = parse_decimal(groups[1].as_str(), u32::MAX);
        let minor = parse_decimal(groups[2].as_str(), u32::MAX);
        let patch = parse_decimal(groups[3].as_str(), u32::MAX);
        match (major, minor, patch) {
            (Some(major), Some(minor), Some(patch)) => Some(Self { major, minor, patch }),
            _ => None,
        }
    }
}

proof fn patterns_differ()
    ensures
        crate::text::CARD_PATTERN@ != VERSION_PATTERN@,
{
    reveal_strlit("^card([0-9]+)$");
    reveal_strlit("(?P<maj>[0-9]+)\\.(?P<min>[0-9]+)\\.(?P<pat>[0-9]+)");
    assert(crate::text::CARD_PATTERN@[0] == '^');
    assert(VERSION_PATTERN@[0] == '(');
}

/// What libevdi says of its own version.
#[derive(Debug, Clone, Copy, PartialEq, Eq, Structural)]
pub struct LibVersionSys {
    pub version_major: i32,
    pub version_minor: i32,
    pub version_patchlevel: i32,
}

/// Version of the userspace evdi library
#[derive(Debug, Clone, Copy, PartialEq, Eq, Structural)]
pub struct LibVersion {
    pub major: i32,
    pub minor: i32,
    pub patch: i32,
    /// The major version that a kernel module must have.
    pub compatible_mod_major: u32,
    /// The minor version that a kernel module must have at least.
    pub compatible_mod_minor: u32,
}

/// The library's version as libevdi wrote it into `sys`, with the kernel module versions that
/// it works with.
pub open spec fn lib_version_of(
    sys: LibVersionSys,
    compatible_mod_major: u32,
    compatible_mod_minor: u32,
) -> LibVersion {
    LibVersion {
        major: sys.version_major,
        minor: sys.version_minor,
        patch: sys.version_patchlevel,
        compatible_mod_major,
        compatible_mod_minor,
    }
}

impl LibVersion {
    /// A kernel module of this version works with the library.
    pub open spec fn compatible(&self, version: KernelModVersion) -> bool {
        version.major == self.compatible_mod_major && version.minor >= self.compatible_mod_minor
    }

    /// The library's version as libevdi wrote it into `sys`, and the kernel module versions that
    /// it works with.
    ///
    /// Uses semver. See <https://displaylink.github.io/evdi/details/#versioning>. No field of
    /// `sys` is still at `-1`, which is what it was filled with before libevdi wrote to it.
    pub fn get(sys: &LibVersionSys, compatible_mod_major: u32, compatible_mod_minor: u32) -> (version:
        Self)
        requires
            sys.version_major != -1,
            sys.version_minor != -1,
            sys.version_patchlevel != -1,
        ensures
            version == lib_version_of(*sys, compatible_mod_major, compatible_mod_minor),
    {
        Self::new(sys, compatible_mod_major, compatible_mod_minor)
    }

    /// Whether a kernel module of version `other` works with this library.
    pub fn is_compatible_with(&self, other: KernelModVersion) -> (compatible: bool)
        ensures
            compatible == self.compatible(other),
    {
        other.major == self.compatible_mod_major && other.minor >= self.compatible_mod_minor
    }

    fn new(sys: &LibVersionSys, compatible_mod_major: u32, compatible_mod_minor: u32) -> (version:
        Self)
        ensures
            version == lib_version_of(*sys, compatible_mod_major, compatible_mod_minor),
    {
        Self {
            major: sys.version_major,
            minor: sys.version_minor,
            patch: sys.version_patchlevel,
            compatible_mod_major,
            compatible_mod_minor,
        }
    }
}

/// Which kernel modules a library works with does not depend on its own version, only on the module
/// versions that it is compatible with.
pub proof fn compatibility_ignores_own_version(
    library: LibVersion,
    other: LibVersion,
    version: KernelModVersion,
)
    requires
        library.compatible_mod_major == other.compatible_mod_major,
        library.compatible_mod_minor == other.compatible_mod_minor,
    ensures
        library.compatible(version) == other.compatible(version),
{
}

/// A library works with the least kernel module that it is compatible with, whatever the patch
/// level of that is.
pub proof fn least_module_is_compatible(library: LibVersion, version: KernelModVersion)
    requires
        version.major == library.compatible_mod_major,
        version.minor == library.compatible_mod_minor,
    ensures
        library.compatible(version),
{
}

/// A library works with no kernel module of another major version, and with none whose minor
/// version is below the least compatible one.
pub proof fn other_modules_are_incompatible(library: LibVersion, version: KernelModVersion)
    requires
        version.major != library.compatible_mod_major || version.minor
            < library.compatible_mod_minor,
    ensures
        !library.compatible(version),
{
}

/// A library keeps the version that libevdi wrote, and works with the kernel modules of the major
/// version that it was given from the minor version on that it was given.
pub proof fn library_works_with_given_modules(
    sys: LibVersionSys,
    major: u32,
    minor: u32,
    version: KernelModVersion,
)
    ensures
        ({
            let library = lib_version_of(sys, major, minor);
            &&& library.major == sys.version_major
            &&& library.minor == sys.version_minor
            &&& library.patch == sys.version_patchlevel
            &&& library.compatible(version) <==> version.major == major && version.minor >= minor
        }),
{
}

/// A kernel module is not installed exactly if there is no version of it, and of those that are
/// installed, exactly those are outdated that the library does not work with.
pub proof fn module_status_tells(mod_version: Option<KernelModVersion>, library: LibVersion)
    ensures
        kernel_mod_status(mod_version, library) is NotInstalled <==> mod_version is None,
        kernel_mod_status(mod_version, library) is Compatible <==> (mod_version matches Some(
            version,
        ) && version.major == library.compatible_mod_major && version.minor
            >= library.compatible_mod_minor),
        kernel_mod_status(mod_version, library) is Outdated <==> (mod_version matches Some(version)
            && (version.major != library.compatible_mod_major || version.minor
            < library.compatible_mod_minor)),
{
}

/// A library that works with a kernel module works with each later one of the same major
/// version, whatever the patch levels are.
pub proof fn compatibility_keeps_upward(
    library: LibVersion,
    version: KernelModVersion,
    later: KernelModVersion,
)
    requires
        library.compatible(version),
        later.major == version.major,
        later.minor >= version.minor,
    ensures
        library.compatible(later),
{
}

} // verus!
