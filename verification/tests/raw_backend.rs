use gamepad_sync::classifier::DeviceProbe;
use gamepad_sync::commands::{get_evdev_devices, get_steam_deck_info, rescan_evdev_devices};
use gamepad_sync::evdev_gamepad::{after_fetch, device_path, find_failure, is_event_device, keep_entry};
use gamepad_sync::evdev_gamepad::{raw_topic, steam_variables, translate_report};
use gamepad_sync::evdev_gamepad::{DeviceReports, DirectoryEntry, DirectoryListing, DrainStep};
use gamepad_sync::evdev_gamepad::{EvdevGamepadManager, FetchOutcome, Observation, ProcessSearch};
use gamepad_sync::evdev_gamepad::{RawReport, VariableReading};

fn manager() -> EvdevGamepadManager {
    EvdevGamepadManager::new().unwrap()
}

fn probe(name: &str, keys: Vec<u16>, axes: Vec<u16>) -> DeviceProbe {
    DeviceProbe { name: Some(name.to_string()), vendor_id: 1, product_id: 2, keys, axes }
}

fn seen(file_name: &str, name: &str, reopened: bool) -> DirectoryEntry {
    DirectoryEntry::Named {
        file_name: file_name.to_string(),
        observation: Observation::Probed { probe: probe(name, vec![], vec![]), reopened },
    }
}

fn report(event_type: u16, code: u16, value: i32, timestamp: u64) -> RawReport {
    RawReport { event_type, code, value, timestamp }
}

#[test]
fn a_new_manager_knows_nothing() {
    let m = manager();
    assert!(m.get_detected_devices().is_empty());
    assert!(!m.is_open("/dev/input/event0"));
}

#[test]
fn a_gamepad_without_access_is_listed_with_a_note() {
    let mut m = manager();
    let listing = DirectoryListing::Entries(vec![seen("event3", "Some Controller", false)]);
    assert_eq!(m.scan_for_gamepad_devices(&listing), Ok(()));
    let devices = m.get_detected_devices();
    assert_eq!(devices.len(), 1);
    assert!(devices[0].is_gamepad);
    assert_eq!(devices[0].device_path, "/dev/input/event3");
    assert_eq!(devices[0].name, "Some Controller (No Access)");
    assert!(devices[0].name.ends_with("(No Access)"));
    assert!(!m.is_open("/dev/input/event3"));
}

#[test]
fn a_gamepad_that_opens_is_listed_and_held() {
    let mut m = manager();
    let listing = DirectoryListing::Entries(vec![seen("event3", "Some Controller", true)]);
    assert_eq!(m.scan_for_gamepad_devices(&listing), Ok(()));
    let devices = m.get_detected_devices();
    assert_eq!(devices.len(), 1);
    assert_eq!(devices[0].name, "Some Controller");
    assert_eq!(devices[0].vendor_id, Some(1));
    assert_eq!(devices[0].product_id, Some(2));
    assert!(m.is_open("/dev/input/event3"));
    assert!(!m.is_open("/dev/input/event4"));
    assert!(!m.is_open("event3"));
}

#[test]
fn only_event_devices_that_are_gamepads_are_kept() {
    let mut m = manager();
    let listing = DirectoryListing::Entries(vec![
        seen("js0", "Xbox Controller", true),
        seen("mouse0", "Steam mouse", true),
        DirectoryEntry::Unnamed,
        seen("event0", "Power Button", true),
        DirectoryEntry::Named {
            file_name: "event1".to_string(),
            observation: Observation::Unreadable("Permission denied".to_string()),
        },
        DirectoryEntry::Named { file_name: "event2".to_string(), observation: Observation::NotLookedAt },
        seen("event7", "Steam Deck", true),
        seen("Event8", "Xbox pad", true),
        seen("event", "joy", false),
        DirectoryEntry::Named {
            file_name: "event12".to_string(),
            observation: Observation::Probed {
                probe: probe("plain", vec![0x130], vec![0x01]),
                reopened: true,
            },
        },
    ]);
    assert_eq!(m.scan_for_gamepad_devices(&listing), Ok(()));
    let devices = m.get_detected_devices();
    let paths: Vec<&str> = devices.iter().map(|d| d.device_path.as_str()).collect();
    assert_eq!(paths, vec!["/dev/input/event7", "/dev/input/event", "/dev/input/event12"]);
    assert_eq!(devices[1].name, "joy (No Access)");
    assert_eq!(devices[2].capabilities, vec!["BTN_SOUTH", "ABS_Y"]);
    assert!(m.is_open("/dev/input/event7"));
    assert!(!m.is_open("/dev/input/event"));
    assert!(m.is_open("/dev/input/event12"));
    assert!(!m.is_open("/dev/input/js0"));
}

#[test]
fn an_empty_directory_gives_an_empty_list() {
    let mut m = manager();
    m.scan_for_gamepad_devices(&DirectoryListing::Entries(vec![seen("event1", "xbox", true)])).unwrap();
    assert_eq!(m.scan_for_gamepad_devices(&DirectoryListing::Entries(vec![])), Ok(()));
    assert!(m.get_detected_devices().is_empty());
    assert!(!m.is_open("/dev/input/event1"));
}

#[test]
fn a_rescan_forgets_what_is_gone() {
    let mut m = manager();
    m.scan_for_gamepad_devices(&DirectoryListing::Entries(vec![
        seen("event1", "xbox", true),
        seen("event2", "deck", true),
    ])).unwrap();
    m.scan_for_gamepad_devices(&DirectoryListing::Entries(vec![seen("event2", "deck", false)])).unwrap();
    let devices = m.get_detected_devices();
    assert_eq!(devices.len(), 1);
    assert_eq!(devices[0].device_path, "/dev/input/event2");
    assert_eq!(devices[0].name, "deck (No Access)");
    assert!(!m.is_open("/dev/input/event1"));
    assert!(!m.is_open("/dev/input/event2"));
}

#[test]
fn two_scans_of_the_same_directory_agree() {
    let listing = DirectoryListing::Entries(vec![
        seen("event1", "xbox", true),
        seen("event5", "USB keyboard", true),
        seen("event6", "Game Controller", false),
    ]);
    let mut m = manager();
    let first = rescan_evdev_devices(&mut m, &listing).unwrap();
    let second = rescan_evdev_devices(&mut m, &listing).unwrap();
    assert_eq!(first.len(), 2);
    assert_eq!(first.len(), second.len());
    for (a, b) in first.iter().zip(second.iter()) {
        assert_eq!(a.device_path, b.device_path);
        assert_eq!(a.name, b.name);
        assert_eq!(a.capabilities, b.capabilities);
        assert_eq!(a.vendor_id, b.vendor_id);
        assert_eq!(a.product_id, b.product_id);
        assert_eq!(a.is_gamepad, b.is_gamepad);
    }
    let listed = get_evdev_devices(&m).unwrap();
    assert_eq!(listed.len(), 2);
    assert_eq!(listed[1].name, "Game Controller (No Access)");
}

#[test]
fn a_missing_directory_fails_the_scan_and_keeps_what_was_known() {
    let mut m = manager();
    m.scan_for_gamepad_devices(&DirectoryListing::Entries(vec![seen("event1", "xbox", true)])).unwrap();
    assert_eq!(
        m.scan_for_gamepad_devices(&DirectoryListing::Missing),
        Err("❌ /dev/input directory not found".to_string())
    );
    assert_eq!(m.get_detected_devices().len(), 1);
    assert!(m.is_open("/dev/input/event1"));
}

#[test]
fn an_unreadable_directory_fails_the_scan() {
    let mut m = manager();
    assert_eq!(
        m.scan_for_gamepad_devices(&DirectoryListing::Unreadable("Permission denied (os error 13)".to_string())),
        Err("❌ Failed to read /dev/input: Permission denied (os error 13)".to_string())
    );
    assert!(m.get_detected_devices().is_empty());
}

#[test]
fn an_unreadable_entry_fails_the_scan_and_keeps_what_was_known() {
    let mut m = manager();
    m.scan_for_gamepad_devices(&DirectoryListing::Entries(vec![seen("event1", "xbox", true)])).unwrap();
    let listing = DirectoryListing::Entries(vec![
        seen("event2", "deck", true),
        DirectoryEntry::Failed("first".to_string()),
        DirectoryEntry::Failed("second".to_string()),
    ]);
    assert_eq!(m.scan_for_gamepad_devices(&listing), Err("❌ Failed to read entry: first".to_string()));
    let devices = m.get_detected_devices();
    assert_eq!(devices.len(), 1);
    assert_eq!(devices[0].device_path, "/dev/input/event1");
    assert!(m.is_open("/dev/input/event1"));
    assert!(!m.is_open("/dev/input/event2"));
}

#[test]
fn a_failed_rescan_answers_with_the_error() {
    let mut m = manager();
    match rescan_evdev_devices(&mut m, &DirectoryListing::Missing) {
        Ok(_) => panic!("the rescan succeeded"),
        Err(message) => assert_eq!(message, "Failed to scan devices: ❌ /dev/input directory not found"),
    }
    match rescan_evdev_devices(&mut m, &DirectoryListing::Unreadable("gone".to_string())) {
        Ok(_) => panic!("the rescan succeeded"),
        Err(message) => assert_eq!(message, "Failed to scan devices: ❌ Failed to read /dev/input: gone"),
    }
}

#[test]
fn the_first_failure_is_found() {
    assert_eq!(find_failure(&vec![]), None);
    assert_eq!(find_failure(&vec![DirectoryEntry::Unnamed, seen("event1", "xbox", true)]), None);
    assert_eq!(
        find_failure(&vec![
            DirectoryEntry::Unnamed,
            DirectoryEntry::Failed("a".to_string()),
            DirectoryEntry::Failed("b".to_string()),
        ]),
        Some("a".to_string())
    );
}

#[test]
fn what_is_kept_of_one_entry() {
    assert!(keep_entry(&DirectoryEntry::Unnamed).is_none());
    assert!(keep_entry(&DirectoryEntry::Failed("x".to_string())).is_none());
    assert!(keep_entry(&seen("event1", "keyboard", true)).is_none());
    assert!(keep_entry(&seen("mouse1", "xbox", true)).is_none());
    let (info, open) = keep_entry(&seen("event1", "xbox", true)).unwrap();
    assert!(open);
    assert_eq!(info.name, "xbox");
    let (info, open) = keep_entry(&seen("event1", "xbox", false)).unwrap();
    assert!(!open);
    assert_eq!(info.name, "xbox (No Access)");
    assert_eq!(info.device_path, "/dev/input/event1");
}

#[test]
fn event_device_names_and_paths() {
    assert!(is_event_device("event0"));
    assert!(is_event_device("event"));
    assert!(is_event_device("event12x"));
    assert!(!is_event_device("even"));
    assert!(!is_event_device("js0"));
    assert!(!is_event_device(""));
    assert!(!is_event_device("Event0"));
    assert!(!is_event_device("xevent0"));
    assert_eq!(device_path("event3"), "/dev/input/event3");
    assert_eq!(device_path(""), "/dev/input/");
}

#[test]
fn key_and_axis_reports_are_republished() {
    let event = translate_report("/dev/input/event3", &report(1, 304, 1, 777)).unwrap();
    assert_eq!(event.device_path, "/dev/input/event3");
    assert_eq!(event.event_type, "button");
    assert_eq!(event.code, 304);
    assert_eq!(event.value, 1);
    assert_eq!(event.timestamp, 777);
    let event = translate_report("/dev/input/event3", &report(3, 1, -32768, 778)).unwrap();
    assert_eq!(event.event_type, "axis");
    assert_eq!(event.code, 1);
    assert_eq!(event.value, -32768);
    assert_eq!(event.timestamp, 778);
}

#[test]
fn other_reports_are_not_republished() {
    for event_type in [0u16, 2, 4, 5, 0x11, 0x12, 0x14, 0x15, 0x16, 0x17, 0x101, 0xffff] {
        assert!(translate_report("/dev/input/event3", &report(event_type, 1, 1, 1)).is_none(), "{}", event_type);
    }
}

#[test]
fn a_tick_republishes_the_reports_of_open_devices_in_order() {
    let mut m = manager();
    m.scan_for_gamepad_devices(&DirectoryListing::Entries(vec![
        seen("event1", "xbox", true),
        seen("event2", "deck", false),
        seen("event3", "steam", true),
    ])).unwrap();
    let batches = vec![
        DeviceReports {
            device_path: "/dev/input/event3".to_string(),
            reports: vec![report(1, 10, 1, 1), report(0, 0, 0, 2), report(3, 11, 5, 3)],
        },
        DeviceReports { device_path: "/dev/input/event2".to_string(), reports: vec![report(1, 20, 1, 4)] },
        DeviceReports { device_path: "/dev/input/event9".to_string(), reports: vec![report(1, 30, 1, 5)] },
        DeviceReports { device_path: "/dev/input/event1".to_string(), reports: vec![] },
        DeviceReports {
            device_path: "/dev/input/event1".to_string(),
            reports: vec![report(2, 40, 1, 6), report(1, 41, 0, 7)],
        },
    ];
    let events = m.poll_events(&batches).unwrap();
    let seen: Vec<(&str, &str, u16, i32, u64)> = events
        .iter()
        .map(|e| (e.device_path.as_str(), e.event_type.as_str(), e.code, e.value, e.timestamp))
        .collect();
    assert_eq!(
        seen,
        vec![
            ("/dev/input/event3", "button", 10, 1, 1),
            ("/dev/input/event3", "axis", 11, 5, 3),
            ("/dev/input/event1", "button", 41, 0, 7),
        ]
    );
    assert_eq!(m.get_detected_devices().len(), 3);
}

#[test]
fn a_tick_without_reports_republishes_nothing() {
    let m = manager();
    assert!(m.poll_events(&vec![]).unwrap().is_empty());
    let batches =
        vec![DeviceReports { device_path: "/dev/input/event1".to_string(), reports: vec![report(1, 1, 1, 1)] }];
    assert!(m.poll_events(&batches).unwrap().is_empty());
}

#[test]
fn the_drain_goes_on_until_nothing_waits() {
    assert_eq!(after_fetch(FetchOutcome::Reports), DrainStep::FetchAgain);
    assert_eq!(after_fetch(FetchOutcome::WouldBlock), DrainStep::Stop);
    assert_eq!(after_fetch(FetchOutcome::Failed), DrainStep::StopAndWarn);
}

#[test]
fn the_raw_topic() {
    assert_eq!(raw_topic(), "evdev-gamepad-input");
}

#[test]
fn the_steam_deck_report_on_a_deck() {
    let m = manager();
    let readings = vec![
        VariableReading { name: "STEAM_COMPAT_DATA_PATH".to_string(), value: Some("/home/deck/x".to_string()) },
        VariableReading { name: "STEAM_COMPAT_CLIENT_INSTALL_PATH".to_string(), value: None },
        VariableReading { name: "SteamAppId".to_string(), value: Some("".to_string()) },
    ];
    let text = m.get_steam_deck_info(true, ProcessSearch::Finished { success: true, printed: true }, &readings);
    assert_eq!(
        text,
        "✅ Running on Steam Deck (deck user detected)\n🎮 Steam is running\n🎮 STEAM_COMPAT_DATA_PATH: /home/deck/x\n❌ STEAM_COMPAT_CLIENT_INSTALL_PATH not set\n🎮 SteamAppId: "
    );
}

#[test]
fn the_steam_deck_report_elsewhere() {
    let m = manager();
    for search in [
        ProcessSearch::Finished { success: false, printed: false },
        ProcessSearch::Finished { success: true, printed: false },
        ProcessSearch::Finished { success: false, printed: true },
    ] {
        let text = get_steam_deck_info(&m, false, search, &vec![]).unwrap();
        assert_eq!(text, "❓ Not running on Steam Deck (no deck user)\n❌ Steam is not running");
    }
    let text = get_steam_deck_info(&m, false, ProcessSearch::Failed, &vec![]).unwrap();
    assert_eq!(text, "❓ Not running on Steam Deck (no deck user)\n❓ Could not check Steam status");
}

#[test]
fn the_variables_of_the_steam_deck_report() {
    assert_eq!(
        steam_variables(),
        vec!["STEAM_COMPAT_DATA_PATH", "STEAM_COMPAT_CLIENT_INSTALL_PATH", "SteamAppId"]
    );
}
