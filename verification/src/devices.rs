//! Which input devices the backends take, and how they keep track of them.

use vstd::prelude::*;
use crate::codes::{KEY_ENTER, key_enter};
use crate::names::{law_lists_name, list_contains, lists_name, str_eq};
use crate::table::DeviceTable;

verus! {

/// The name of the daemon's own virtual output device, which is never
/// taken as a keyboard.
pub const VIRTUAL_DEVICE_NAME: &'static str = "swhkd virtual output";

/// The name a device goes by in the list of wanted devices: its own name,
/// or `default` when it has none.
pub open spec fn name_or(name: Option<String>, default: Seq<char>) -> Seq<char> {
    match name {
        Some(n) => n@,
        None => default,
    }
}

/// A device is a keyboard when it has an Enter key and is not the daemon's
/// virtual output device.
pub open spec fn is_keyboard(supported_keys: Option<Vec<u16>>, name: Option<String>) -> bool {
    &&& supported_keys matches Some(keys) && keys@.contains(KEY_ENTER)
    &&& !(name matches Some(n) && n@ == VIRTUAL_DEVICE_NAME@)
}

/// Whether the keys a device supports include Enter, and the device is not
/// the daemon's own virtual output device.
pub fn check_device_is_keyboard(supported_keys: &Option<Vec<u16>>, name: &Option<String>) -> (r:
    bool)
    ensures
        r == is_keyboard(*supported_keys, *name),
{
    let has_enter = match supported_keys {
        Some(keys) => {
            let enter = key_enter();
            let mut found = false;
            let mut i: usize = 0;
            while i < keys.len()
                invariant
                    i <= keys@.len(),
                    enter == KEY_ENTER,
                    found == (exists|j: int| 0 <= j < i && keys@[j] == KEY_ENTER),
                decreases keys@.len() - i,
            {
                if keys[i] == enter {
                    found = true;
                }
                i = i + 1;
            }
            found
        },
        None => false,
    };
    if has_enter {
        match name {
            Some(n) => !str_eq(n.as_str(), VIRTUAL_DEVICE_NAME),
            None => true,
        }
    } else {
        false
    }
}

/// An input device found when the devices are enumerated.
#[derive(Debug)]
pub struct Candidate {
    /// The device node, or `None` when the path is not valid Unicode.
    pub path: Option<String>,
    /// The device's name, if it reports one.
    pub name: Option<String>,
    /// The key codes the device supports, if it supports keys at all.
    pub supported_keys: Option<Vec<u16>>,
}

/// Whether the evdev backend takes an enumerated device at start: without a
/// list of wanted devices it takes the keyboards, with one it takes the
/// devices whose name (the empty name when they have none) is listed.
pub open spec fn evdev_selects(arg_devices: Seq<String>, c: Candidate) -> bool {
    if arg_devices.len() == 0 {
        is_keyboard(c.supported_keys, c.name)
    } else {
        lists_name(arg_devices, name_or(c.name, ""@))
    }
}

/// Whether the libinput backend takes an enumerated device at start: it
/// takes every device whose path is valid Unicode, or, with a list of wanted
/// devices, those among them whose name (the empty name when they have none)
/// is listed.
pub open spec fn libinput_selects(arg_devices: Seq<String>, c: Candidate) -> bool {
    &&& c.path is Some
    &&& (arg_devices.len() == 0 || lists_name(arg_devices, name_or(c.name, ""@)))
}

/// The positions, in increasing order, of the first `n` candidates that
/// the evdev backend takes.
pub open spec fn evdev_selection(arg_devices: Seq<String>, cands: Seq<Candidate>, n: int) -> Seq<
    usize,
>
    decreases n,
{
    if n <= 0 {
        Seq::empty()
    } else if evdev_selects(arg_devices, cands[n - 1]) {
        evdev_selection(arg_devices, cands, n - 1).push((n - 1) as usize)
    } else {
        evdev_selection(arg_devices, cands, n - 1)
    }
}

/// The positions, in increasing order, of the first `n` candidates that
/// the libinput backend takes.
pub open spec fn libinput_selection(arg_devices: Seq<String>, cands: Seq<Candidate>, n: int) -> Seq<
    usize,
>
    decreases n,
{
    if n <= 0 {
        Seq::empty()
    } else if libinput_selects(arg_devices, cands[n - 1]) {
        libinput_selection(arg_devices, cands, n - 1).push((n - 1) as usize)
    } else {
        libinput_selection(arg_devices, cands, n - 1)
    }
}

/// Whether the name a device goes by, its own or the empty name, is listed.
fn name_listed(arg_devices: &Vec<String>, name: &Option<String>) -> (r: bool)
    ensures
        r == lists_name(arg_devices@, name_or(*name, ""@)),
{
    match name {
        Some(n) => list_contains(arg_devices, n.as_str()),
        None => list_contains(arg_devices, ""),
    }
}

/// The positions of the enumerated devices that the evdev backend grabs
/// at start, in the order of enumeration.
pub fn evdev_initial_selection(arg_devices: &Vec<String>, candidates: &Vec<Candidate>) -> (r: Vec<
    usize,
>)
    ensures
        r@ == evdev_selection(arg_devices@, candidates@, candidates@.len() as int),
{
    let mut r: Vec<usize> = Vec::new();
    let mut i: usize = 0;
    while i < candidates.len()
        invariant
            i <= candidates@.len(),
            r@ == evdev_selection(arg_devices@, candidates@, i as int),
        decreases candidates@.len() - i,
    {
        let c = &candidates[i];
        let take = if arg_devices.len() == 0 {
            check_device_is_keyboard(&c.supported_keys, &c.name)
        } else {
            name_listed(arg_devices, &c.name)
        };
        if take {
            r.push(i);
        }
        i = i + 1;
    }
    r
}

/// The positions of the enumerated devices that the libinput backend adds
/// at start, in the order of enumeration.
pub fn libinput_initial_selection(arg_devices: &Vec<String>, candidates: &Vec<Candidate>) -> (r:
    Vec<usize>)
    ensures
        r@ == libinput_selection(arg_devices@, candidates@, candidates@.len() as int),
{
    let mut r: Vec<usize> = Vec::new();
    let mut i: usize = 0;
    while i < candidates.len()
        invariant
            i <= candidates@.len(),
            r@ == libinput_selection(arg_devices@, candidates@, i as int),
        decreases candidates@.len() - i,
    {
        let c = &candidates[i];
        let take = c.path.is_some() && (arg_devices.len() == 0 || name_listed(
            arg_devices,
            &c.name,
        ));
        if take {
            r.push(i);
        }
        i = i + 1;
    }
    r
}

/// Whether the evdev backend takes a device that appeared while it runs:
/// when its name (`[unknown]` when it has none) is among the wanted devices,
/// or when it is a keyboard.
pub fn evdev_accepts(arg_devices: &Vec<String>, name: &Option<String>, is_keyboard: bool) -> (r:
    bool)
    ensures
        r == (lists_name(arg_devices@, name_or(*name, "[unknown]"@)) || is_keyboard),
{
    let listed = match name {
        Some(n) => list_contains(arg_devices, n.as_str()),
        None => list_contains(arg_devices, "[unknown]"),
    };
    listed || is_keyboard
}

/// What the libinput backend does with a device node that appeared.
#[derive(Clone, Copy, Debug, PartialEq, Eq, Structural)]
pub enum AddDecision {
    /// The node is already in use; it is refused.
    AlreadyAdded,
    /// There is a list of wanted devices and the node is not on it; it is
    /// refused.
    NotListed,
    /// The node is to be handed to libinput.
    Attempt,
}

/// The decision for a device node that appeared: a node already present is
/// refused; with a list of wanted devices, a node whose path is not listed
/// is refused; any other is handed to libinput.
pub open spec fn add_decision_for<V>(
    devices: Map<Seq<char>, V>,
    arg_devices: Seq<String>,
    path: Seq<char>,
) -> AddDecision {
    if devices.dom().contains(path) {
        AddDecision::AlreadyAdded
    } else if arg_devices.len() != 0 && !lists_name(arg_devices, path) {
        AddDecision::NotListed
    } else {
        AddDecision::Attempt
    }
}

/// Decides what the libinput backend does with a device node that appeared.
pub fn add_decision<V>(devices: &DeviceTable<V>, arg_devices: &Vec<String>, path: &str) -> (r:
    AddDecision)
    ensures
        r == add_decision_for(devices@, arg_devices@, path@),
{
    if devices.contains_key(path) {
        AddDecision::AlreadyAdded
    } else if arg_devices.len() != 0 && !list_contains(arg_devices, path) {
        AddDecision::NotListed
    } else {
        AddDecision::Attempt
    }
}

/// Once a device node is in use, asking to add it again is refused,
/// whatever the list of wanted devices.
pub proof fn law_second_add_refused<V>(
    devices: Map<Seq<char>, V>,
    arg_devices: Seq<String>,
    path: Seq<char>,
    device: V,
)
    ensures
        add_decision_for(devices.insert(path, device), arg_devices, path)
            == AddDecision::AlreadyAdded,
{
}

/// The evdev backend's start selection holds, in increasing order, exactly
/// the positions of the devices it takes.
pub proof fn law_evdev_selection_exact(arg_devices: Seq<String>, cands: Seq<Candidate>, n: int)
    requires
        0 <= n <= cands.len(),
        cands.len() <= usize::MAX,
    ensures
        forall|a: int, b: int|
            0 <= a < b < evdev_selection(arg_devices, cands, n).len() ==> #[trigger] evdev_selection(
                arg_devices,
                cands,
                n,
            )[a] < #[trigger] evdev_selection(arg_devices, cands, n)[b],
        forall|k: int|
            0 <= k < n ==> (evdev_selects(arg_devices, #[trigger] cands[k]) <==> evdev_selection(
                arg_devices,
                cands,
                n,
            ).contains(k as usize)),
        forall|a: int|
            0 <= a < evdev_selection(arg_devices, cands, n).len() ==> #[trigger] evdev_selection(
                arg_devices,
                cands,
                n,
            )[a] < n,
    decreases n,
{
    if n > 0 {
        law_evdev_selection_exact(arg_devices, cands, n - 1);
        let prev = evdev_selection(arg_devices, cands, n - 1);
        let cur = evdev_selection(arg_devices, cands, n);
        assert forall|a: int, b: int| 0 <= a < b < cur.len() implies #[trigger] cur[a] < #[trigger] cur[b] by {
            if b < prev.len() {
                assert(cur[a] == prev[a] && cur[b] == prev[b]);
            } else {
                assert(cur[a] == prev[a]);
            }
        }
        assert forall|a: int| 0 <= a < cur.len() implies #[trigger] cur[a] < n by {
            if a < prev.len() {
                assert(cur[a] == prev[a]);
            }
        }
        assert forall|k: int| 0 <= k < n implies (evdev_selects(arg_devices, #[trigger] cands[k])
            <==> cur.contains(k as usize)) by {
            if k < n - 1 {
                if cur.contains(k as usize) {
                    let j = choose|j: int| 0 <= j < cur.len() && cur[j] == k as usize;
                    if j < prev.len() {
                        assert(prev[j] == cur[j]);
                    }
                }
                if prev.contains(k as usize) {
                    let j = choose|j: int| 0 <= j < prev.len() && prev[j] == k as usize;
                    assert(cur[j] == prev[j]);
                }
            } else {
                if evdev_selects(arg_devices, cands[k]) {
                    assert(cur[cur.len() - 1] == k as usize);
                } else if cur.contains(k as usize) {
                    let j = choose|j: int| 0 <= j < cur.len() && cur[j] == k as usize;
                    assert(prev[j] < n - 1);
                }
            }
        }
    }
}

/// The libinput backend's start selection holds, in increasing order,
/// exactly the positions of the devices it takes.
pub proof fn law_libinput_selection_exact(arg_devices: Seq<String>, cands: Seq<Candidate>, n: int)
    requires
        0 <= n <= cands.len(),
        cands.len() <= usize::MAX,
    ensures
        forall|a: int, b: int|
            0 <= a < b < libinput_selection(arg_devices, cands, n).len() ==> #[trigger] libinput_selection(
                arg_devices,
                cands,
                n,
            )[a] < #[trigger] libinput_selection(arg_devices, cands, n)[b],
        forall|k: int|
            0 <= k < n ==> (libinput_selects(arg_devices, #[trigger] cands[k]) <==> libinput_selection(
                arg_devices,
                cands,
                n,
            ).contains(k as usize)),
        forall|a: int|
            0 <= a < libinput_selection(arg_devices, cands, n).len() ==> #[trigger] libinput_selection(
                arg_devices,
                cands,
                n,
            )[a] < n,
    decreases n,
{
    if n > 0 {
        law_libinput_selection_exact(arg_devices, cands, n - 1);
        let prev = libinput_selection(arg_devices, cands, n - 1);
        let cur = libinput_selection(arg_devices, cands, n);
        assert forall|a: int, b: int| 0 <= a < b < cur.len() implies #[trigger] cur[a] < #[trigger] cur[b] by {
            if b < prev.len() {
                assert(cur[a] == prev[a] && cur[b] == prev[b]);
            } else {
                assert(cur[a] == prev[a]);
            }
        }
        assert forall|a: int| 0 <= a < cur.len() implies #[trigger] cur[a] < n by {
            if a < prev.len() {
                assert(cur[a] == prev[a]);
            }
        }
        assert forall|k: int| 0 <= k < n implies (libinput_selects(arg_devices, #[trigger] cands[k])
            <==> cur.contains(k as usize)) by {
            if k < n - 1 {
                if cur.contains(k as usize) {
                    let j = choose|j: int| 0 <= j < cur.len() && cur[j] == k as usize;
                    if j < prev.len() {
                        assert(prev[j] == cur[j]);
                    }
                }
                if prev.contains(k as usize) {
                    let j = choose|j: int| 0 <= j < prev.len() && prev[j] == k as usize;
                    assert(cur[j] == prev[j]);
                }
            } else {
                if libinput_selects(arg_devices, cands[k]) {
                    assert(cur[cur.len() - 1] == k as usize);
                } else if cur.contains(k as usize) {
                    let j = choose|j: int| 0 <= j < cur.len() && cur[j] == k as usize;
                    assert(prev[j] < n - 1);
                }
            }
        }
    }
}

/// The name a candidate goes by is listed: some entry of the list, at any
/// position, equals its name, or the empty name when it has none.
pub open spec fn some_entry_is(arg_devices: Seq<String>, name: Option<String>, default: Seq<
    char,
>) -> bool {
    exists|i: int|
        0 <= i < arg_devices.len() && #[trigger] arg_devices[i]@ == match name {
            Some(n) => n@,
            None => default,
        }
}

/// At start the libinput backend takes a device exactly when its path is
/// valid Unicode and either no device list is given or some entry of the
/// list, at any position, is its name (the empty name when it has none).
/// Appending an entry that is not its name changes nothing.
pub proof fn law_libinput_takes_listed_names(
    arg_devices: Seq<String>,
    c: Candidate,
    extra: String,
)
    ensures
        libinput_selects(arg_devices, c) == (c.path is Some && (arg_devices.len() == 0
            || some_entry_is(arg_devices, c.name, ""@))),
        arg_devices.len() > 0 && extra@ != name_or(c.name, ""@) ==> libinput_selects(
            arg_devices.push(extra),
            c,
        ) == libinput_selects(arg_devices, c),
{
    law_lists_name(arg_devices, extra, name_or(c.name, ""@));
}

/// The libinput backend's start selection holds the position of a device
/// exactly when it takes the device by the rule above.
pub proof fn law_libinput_selection_by_name(
    arg_devices: Seq<String>,
    cands: Seq<Candidate>,
    k: int,
)
    requires
        0 <= k < cands.len() <= usize::MAX,
    ensures
        libinput_selection(arg_devices, cands, cands.len() as int).contains(k as usize) == (
        cands[k].path is Some && (arg_devices.len() == 0 || some_entry_is(
            arg_devices,
            cands[k].name,
            ""@,
        ))),
{
    law_libinput_selection_exact(arg_devices, cands, cands.len() as int);
}

/// Without a device list the evdev backend takes the keyboards at start;
/// with one it takes the devices whose name (the empty name when they have
/// none) is some entry of the list, at any position.
pub proof fn law_evdev_takes_keyboards_or_listed(arg_devices: Seq<String>, c: Candidate)
    ensures
        arg_devices.len() == 0 ==> evdev_selects(arg_devices, c) == is_keyboard(
            c.supported_keys,
            c.name,
        ),
        arg_devices.len() > 0 ==> evdev_selects(arg_devices, c) == some_entry_is(
            arg_devices,
            c.name,
            ""@,
        ),
{
}

/// A device is a keyboard exactly when it reports the Enter key among its
/// keys and is not named like the daemon's virtual output device.
pub proof fn law_keyboard(keys: Option<Vec<u16>>, name: Option<String>)
    ensures
        is_keyboard(keys, name) == ((exists|j: int|
            0 <= j < keys.unwrap()@.len() && keys.unwrap()@[j] == 28u16) && keys is Some && !(
        name is Some && name.unwrap()@ == "swhkd virtual output"@)),
{
}

/// For a device node that appeared: a node in use is refused as already
/// added; otherwise, without a device list it is attempted, and with one it
/// is attempted exactly when some entry of the list, at any position, is
/// its path, and refused as not listed otherwise.
pub proof fn law_add_decision<V>(
    devices: Map<Seq<char>, V>,
    arg_devices: Seq<String>,
    path: Seq<char>,
)
    ensures
        devices.dom().contains(path) ==> add_decision_for(devices, arg_devices, path)
            == AddDecision::AlreadyAdded,
        !devices.dom().contains(path) && arg_devices.len() == 0 ==> add_decision_for(
            devices,
            arg_devices,
            path,
        ) == AddDecision::Attempt,
        !devices.dom().contains(path) && arg_devices.len() > 0 ==> (add_decision_for(
            devices,
            arg_devices,
            path,
        ) == AddDecision::Attempt <==> (exists|i: int|
            0 <= i < arg_devices.len() && #[trigger] arg_devices[i]@ == path)),
        !devices.dom().contains(path) && arg_devices.len() > 0 ==> (add_decision_for(
            devices,
            arg_devices,
            path,
        ) == AddDecision::NotListed <==> !(exists|i: int|
            0 <= i < arg_devices.len() && #[trigger] arg_devices[i]@ == path)),
{
}

/// A device that appeared is taken by the evdev backend exactly when some
/// entry of the list, at any position, is its name (`[unknown]` when it has
/// none), or when it is a keyboard.
pub proof fn law_evdev_accepts(arg_devices: Seq<String>, name: Option<String>, keyboard: bool)
    ensures
        (lists_name(arg_devices, name_or(name, "[unknown]"@)) || keyboard) == (some_entry_is(
            arg_devices,
            name,
            "[unknown]"@,
        ) || keyboard),
{
}

} // verus!
