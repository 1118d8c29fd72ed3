//! The libinput interface of the libinput daemon: which device nodes it
//! lets libinput open, and how.

use vstd::prelude::*;
use crate::codes::{O_RDONLY, O_RDWR, O_WRONLY, o_rdonly, o_rdwr, o_wronly};
use crate::names::{list_contains, lists_name};
use crate::text::{device_list_names, listed_names, trim_ascii_end, trim_end};

verus! {

/// The error code with which the daemon refuses to open a device that is
/// not on its list.
pub const NOT_LISTED: i32 = -414;

/// The error code that an I/O error is reported with: its OS error number,
/// or -1 when it has none.
pub open spec fn error_code(raw_os_error: Option<i32>) -> i32 {
    match raw_os_error {
        Some(code) => code,
        None => -1i32,
    }
}

/// The error code for an I/O error, given its OS error number if any.
pub fn os_error_code(raw_os_error: Option<i32>) -> (r: i32)
    ensures
        r == error_code(raw_os_error),
{
    raw_os_error.unwrap_or(-1)
}

/// How a device node is opened for the open flags libinput asks for: for
/// reading when the flags hold `O_RDONLY` or `O_RDWR`, for writing when
/// they hold `O_WRONLY` or `O_RDWR`. (`O_RDONLY` is zero, so only `O_RDWR`
/// makes a node readable.)
pub open spec fn access_for(flags: i32) -> (bool, bool) {
    (
        (flags & O_RDONLY) != 0 || (flags & O_RDWR) != 0,
        (flags & O_WRONLY) != 0 || (flags & O_RDWR) != 0,
    )
}

/// Whether a device node is opened for reading and for writing, for the
/// open flags libinput asks for.
pub fn open_access(flags: i32) -> (r: (bool, bool))
    ensures
        r == access_for(flags),
{
    let rdonly = flags & o_rdonly() != 0;
    let wronly = flags & o_wronly() != 0;
    let rdwr = flags & o_rdwr() != 0;
    let read = rdonly || rdwr;
    let write = wronly || rdwr;
    (read, write)
}

/// What the daemon does when libinput asks to open a device node.
#[derive(Clone, Copy, Debug, PartialEq, Eq, Structural)]
pub enum OpenPlan {
    /// Refuse with the given error code.
    Refuse(i32),
    /// Open the node with the given access, then grab it.
    Open { read: bool, write: bool },
}

/// The answer to a request to open a device node, for the set of handled
/// device names, the device's name as read (or the OS error number of the
/// failed read, if any) and the open flags.
pub open spec fn open_plan(
    names: Set<Seq<char>>,
    name: Result<String, Option<i32>>,
    flags: i32,
) -> OpenPlan {
    match name {
        Err(raw) => OpenPlan::Refuse(error_code(raw)),
        Ok(n) => if names.contains(n@) {
            OpenPlan::Open { read: access_for(flags).0, write: access_for(flags).1 }
        } else {
            OpenPlan::Refuse(NOT_LISTED)
        },
    }
}

/// A device whose name could not be read is refused with the read's error
/// code (-1 without an OS error number); a device whose name is not handled
/// is refused with -414; a handled one is opened, for reading exactly when
/// the flags hold the read-and-write bit and for writing when they hold the
/// write-only or the read-and-write bit.
pub proof fn law_open_plan(names: Set<Seq<char>>, name: String, raw: Option<i32>, flags: i32)
    ensures
        raw is None ==> open_plan(names, Err(raw), flags) == OpenPlan::Refuse(-1i32),
        raw is Some ==> open_plan(names, Err(raw), flags) == OpenPlan::Refuse(raw.unwrap()),
        !names.contains(name@) ==> open_plan(names, Ok(name), flags) == OpenPlan::Refuse(-414i32),
        names.contains(name@) ==> open_plan(names, Ok(name), flags) == (OpenPlan::Open {
            read: (flags & 2) != 0,
            write: (flags & 1) != 0 || (flags & 2) != 0,
        }),
{
    law_open_access(flags, 0);
}

/// The devices the daemon handles, by name.
pub struct Interface {
    devices: Vec<String>,
}

impl View for Interface {
    type V = Set<Seq<char>>;

    closed spec fn view(&self) -> Set<Seq<char>> {
        Set::new(|n: Seq<char>| lists_name(self.devices@, n))
    }
}

impl Interface {
    /// The interface for the devices named in a device list: one name per
    /// line, each without trailing ASCII whitespace.
    pub fn new(device_list: &str) -> (r: Self)
        ensures
            r@ == listed_names(device_list@).to_set(),
    {
        let devices = device_list_names(device_list);
        let r = Interface { devices };
        proof {
            let names = listed_names(device_list@);
            assert forall|n: Seq<char>| r@.contains(n) <==> names.contains(n) by {
                if lists_name(devices@, n) {
                    let i = choose|i: int| 0 <= i < devices@.len() && #[trigger] devices@[i]@ == n;
                    assert(names[i] == devices@.map_values(|d: String| d@)[i]);
                }
                if names.contains(n) {
                    let i = choose|i: int| 0 <= i < names.len() && names[i] == n;
                    assert(devices@.map_values(|d: String| d@)[i] == devices@[i]@);
                }
            }
            assert(r@ =~= names.to_set());
        }
        r
    }

    /// Whether the device with this name is handled.
    pub fn contains(&self, name: &str) -> (r: bool)
        ensures
            r == self@.contains(name@),
    {
        list_contains(&self.devices, name)
    }

    /// Decides how to answer libinput's request to open a device node, given
    /// the device's name as read from sysfs (or the OS error number of the
    /// failed read, if any) and the open flags. A name that could not be read
    /// is refused with its error code, a device not on the list with
    /// `NOT_LISTED`; any other is opened as `access_for` says.
    pub fn open_restricted(&self, name: Result<String, Option<i32>>, flags: i32) -> (r: OpenPlan)
        ensures
            r == open_plan(self@, name, flags),
    {
        let name = match name {
            Ok(name) => name,
            Err(raw) => {
                return OpenPlan::Refuse(os_error_code(raw));
            },
        };
        if !self.contains(name.as_str()) {
            OpenPlan::Refuse(NOT_LISTED)
        } else {
            let (read, write) = open_access(flags);
            OpenPlan::Open { read, write }
        }
    }
}

/// The device name in a sysfs name file: its contents without trailing
/// ASCII whitespace.
pub fn device_name(contents: &str) -> (r: String)
    ensures
        r@ == trim_end(contents@),
{
    trim_ascii_end(contents)
}

/// A node is opened for reading exactly when the flags hold the
/// read-and-write bit, and for writing when they hold the write-only bit or
/// the read-and-write bit; an I/O error is reported with its OS error
/// number, or -1 when it has none.
pub proof fn law_open_access(flags: i32, code: i32)
    ensures
        access_for(flags) == ((flags & 2) != 0, (flags & 1) != 0 || (flags & 2) != 0),
        error_code(Some(code)) == code,
        error_code(None) == -1,
{
    assert(flags & 0 == 0) by (bit_vector);
}

/// What `std::path::Path::strip_prefix` leaves of `path` once the leading
/// components `prefix` are taken off, as a string; `None` when `prefix`
/// does not lead `path`.
pub uninterp spec fn path_without_prefix(path: Seq<char>, prefix: Seq<char>) -> Option<Seq<char>>;

/// The path that `std::path::Path::join` makes of `base` followed by `tail`.
pub uninterp spec fn joined_path(base: Seq<char>, tail: Seq<char>) -> Seq<char>;

/// Calls `Path::strip_prefix` on `path` with `prefix` and turns what is
/// left into a string; its result is named `path_without_prefix`.
#[verifier::external_body]
fn strip_path_prefix(path: &str, prefix: &str) -> (r: Option<String>)
    ensures
        match r {
            Some(rest) => path_without_prefix(path@, prefix@) == Some(rest@),
            None => path_without_prefix(path@, prefix@) is None,
        },
{
    match std::path::Path::new(path).strip_prefix(prefix) {
        Ok(rest) => rest.to_str().map(String::from),
        Err(_) => None,
    }
}

/// Calls `Path::join` on `base` with `tail` and turns the result into a
/// string; its result is named `joined_path`.
#[verifier::external_body]
fn join_path(base: &str, tail: &str) -> (r: String)
    ensures
        r@ == joined_path(base@, tail@),
{
    std::path::Path::new(base).join(tail).to_string_lossy().into_owned()
}

/// The sysfs file that holds the name of the input device at `devnode`:
/// the part of `devnode` below `/dev/input`, joined to `/sys/class/input/`
/// and followed by `device/name`; `None` when `devnode` is not below
/// `/dev/input`.
pub open spec fn name_file_path(devnode: Seq<char>) -> Option<Seq<char>> {
    match path_without_prefix(devnode, "/dev/input"@) {
        Some(rest) => Some(joined_path(joined_path("/sys/class/input/"@, rest), "device/name"@)),
        None => None,
    }
}

/// The sysfs file that holds the name of the input device at `devnode`.
pub fn sysfs_name_path(devnode: &str) -> (r: Option<String>)
    ensures
        match r {
            Some(p) => name_file_path(devnode@) == Some(p@),
            None => name_file_path(devnode@) is None,
        },
{
    match strip_path_prefix(devnode, "/dev/input") {
        Some(rest) => {
            let dir = join_path("/sys/class/input/", rest.as_str());
            Some(join_path(dir.as_str(), "device/name"))
        },
        None => None,
    }
}

} // verus!
