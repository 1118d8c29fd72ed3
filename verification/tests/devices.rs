use swhkd::devices::{
    add_decision, check_device_is_keyboard, evdev_accepts, evdev_initial_selection,
    libinput_initial_selection, AddDecision, Candidate,
};
use swhkd::table::DeviceTable;

fn cand(path: Option<&str>, name: Option<&str>, keys: Option<Vec<u16>>) -> Candidate {
    Candidate {
        path: path.map(|p| p.to_string()),
        name: name.map(|n| n.to_string()),
        supported_keys: keys,
    }
}

fn names(list: &[&str]) -> Vec<String> {
    list.iter().map(|s| s.to_string()).collect()
}

#[test]
fn keyboard_needs_enter_and_not_the_virtual_output() {
    assert!(check_device_is_keyboard(&Some(vec![1, 28, 30]), &Some("kbd".to_string())));
    assert!(check_device_is_keyboard(&Some(vec![28]), &None));
    assert!(!check_device_is_keyboard(&Some(vec![1, 30]), &Some("kbd".to_string())));
    assert!(!check_device_is_keyboard(&None, &Some("kbd".to_string())));
    assert!(!check_device_is_keyboard(&Some(vec![28]), &Some("swhkd virtual output".to_string())));
}

#[test]
fn evdev_start_takes_keyboards_without_a_list() {
    let cands = vec![
        cand(Some("/dev/input/event0"), Some("mouse"), Some(vec![272])),
        cand(Some("/dev/input/event1"), Some("kbd"), Some(vec![28])),
        cand(None, Some("kbd2"), Some(vec![28])),
    ];
    assert_eq!(evdev_initial_selection(&vec![], &cands), vec![1, 2]);
}

#[test]
fn evdev_start_takes_listed_names() {
    let cands = vec![
        cand(Some("/dev/input/event0"), Some("mouse"), Some(vec![272])),
        cand(Some("/dev/input/event1"), Some("kbd"), Some(vec![28])),
        cand(Some("/dev/input/event2"), None, None),
    ];
    assert_eq!(evdev_initial_selection(&names(&["mouse"]), &cands), vec![0]);
    assert_eq!(evdev_initial_selection(&names(&["", "kbd"]), &cands), vec![1, 2]);
}

#[test]
fn libinput_start_takes_all_valid_paths_without_a_list() {
    let cands = vec![
        cand(Some("/dev/input/event0"), Some("mouse"), None),
        cand(None, Some("kbd"), None),
        cand(Some("/dev/input/event2"), Some("kbd"), None),
    ];
    assert_eq!(libinput_initial_selection(&vec![], &cands), vec![0, 2]);
    assert_eq!(libinput_initial_selection(&names(&["kbd"]), &cands), vec![2]);
}

#[test]
fn evdev_accepts_listed_or_keyboard() {
    assert!(evdev_accepts(&names(&["kbd"]), &Some("kbd".to_string()), false));
    assert!(evdev_accepts(&vec![], &Some("x".to_string()), true));
    assert!(!evdev_accepts(&names(&["kbd"]), &Some("x".to_string()), false));
    assert!(evdev_accepts(&names(&["[unknown]"]), &None, false));
}

#[test]
fn libinput_add_decisions() {
    let mut table: DeviceTable<u32> = DeviceTable::new();
    assert_eq!(add_decision(&table, &vec![], "/dev/input/event3"), AddDecision::Attempt);
    assert_eq!(table.insert("/dev/input/event3".to_string(), 7), None);
    assert_eq!(add_decision(&table, &vec![], "/dev/input/event3"), AddDecision::AlreadyAdded);
    assert_eq!(
        add_decision(&table, &names(&["/dev/input/event4"]), "/dev/input/event5"),
        AddDecision::NotListed
    );
    assert_eq!(
        add_decision(&table, &names(&["/dev/input/event4"]), "/dev/input/event4"),
        AddDecision::Attempt
    );
}

#[test]
fn table_insert_replace_remove() {
    let mut table: DeviceTable<u32> = DeviceTable::new();
    assert!(!table.contains_key("a"));
    assert_eq!(table.insert("a".to_string(), 1), None);
    assert_eq!(table.insert("b".to_string(), 2), None);
    assert!(table.contains_key("a"));
    assert_eq!(table.insert("a".to_string(), 3), Some(1));
    assert_eq!(table.remove("a"), Some(3));
    assert!(!table.contains_key("a"));
    assert_eq!(table.remove("a"), None);
    assert_eq!(table.remove("b"), Some(2));
    assert!(!table.contains_key("b"));
}
