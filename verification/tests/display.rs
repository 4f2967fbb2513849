use monitor_manager::display::{
    DisplayPath, TargetIdError, build_monitor_list, find_target_path, parse_target_id, target_id_string,
};

fn path(low: u32, high: i32, target: u32, source: u32, flags: u32, name: Option<&str>) -> DisplayPath {
    DisplayPath {
        adapter_id_low: low,
        adapter_id_high: high,
        target_id: target,
        source_id: source,
        flags,
        width: 1920 + target,
        height: 1080,
        friendly_name: name.map(|s| s.to_string()),
    }
}

#[test]
fn monitor_list_dedups_names_and_filters() {
    let paths = vec![
        path(1, 0, 10, 0, 1, Some("DELL U2720Q\0\0")),
        path(1, 0, 10, 1, 0, Some("DELL again")),
        path(1, 0, 11, 1, 0, None),
        path(1, 0, 12, 1, 1, Some("\0\0")),
        path(2, 0, 13, 2, 3, Some("Q27G2SG4B")),
        path(1, 0, 11, 1, 1, Some("late duplicate")),
    ];
    let list = build_monitor_list(&paths);
    assert_eq!(list.len(), 3);
    assert_eq!(list[0].id, "1:0:10");
    assert_eq!(list[0].name, "DELL U2720Q");
    assert_eq!((list[0].width, list[0].height), (1930, 1080));
    assert_eq!(list[0].device_string, "DELL U2720Q");
    assert!(list[0].is_active && list[0].is_primary && list[0].is_attached);
    assert_eq!(list[1].id, "1:0:12");
    assert_eq!(list[1].name, "Monitor 2");
    assert_eq!(list[1].device_string, "Generic Monitor");
    assert!(list[1].is_active);
    assert!(!list[1].is_primary);
    assert_eq!((list[1].adapter_id_low, list[1].target_id), (1, 12));
    assert_eq!(list[2].id, "2:0:13");
    assert_eq!(list[2].name, "Q27G2SG4B");
    assert_eq!(list[2].adapter_id_low, 2);
}

#[test]
fn monitor_from_readme_example() {
    let mut p = path(0, 0, 12345, 0, 1, Some("DELL U2720Q"));
    p.width = 3840;
    p.height = 2160;
    let list = build_monitor_list(&vec![p]);
    assert_eq!(list.len(), 1);
    assert_eq!(list[0].id, "0:0:12345");
    assert_eq!(list[0].name, "DELL U2720Q");
    assert_eq!((list[0].width, list[0].height), (3840, 2160));
    assert!(list[0].is_primary);
}

#[test]
fn listed_ids_select_their_target() {
    let paths = vec![path(7, -1, 4352, 0, 1, Some("A")), path(4294967295, i32::MIN, 0, 1, 1, None)];
    let list = build_monitor_list(&paths);
    assert_eq!(list[0].id, "7:-1:4352");
    assert_eq!(list[0].adapter_id_high, u32::MAX);
    assert_eq!(parse_target_id(&list[0].id), Ok((7, -1, 4352)));
    assert_eq!(list[1].id, "4294967295:-2147483648:0");
    assert_eq!(parse_target_id(&list[1].id), Ok((u32::MAX, i32::MIN, 0)));
    assert_eq!(list[1].adapter_id_high, 0x8000_0000);
    assert_eq!(target_id_string(1, 2, 3), "1:2:3");
}

#[test]
fn empty_paths_list_nothing() {
    assert!(build_monitor_list(&vec![]).is_empty());
}

#[test]
fn target_id_parsing() {
    assert_eq!(parse_target_id("12345:0:4352"), Ok((12345, 0, 4352)));
    assert_eq!(parse_target_id("+1:-2:3"), Ok((1, -2, 3)));
    assert_eq!(parse_target_id("4294967295:-2147483648:0"), Ok((u32::MAX, i32::MIN, 0)));
    assert_eq!(parse_target_id("1:2"), Err(TargetIdError::InvalidFormat));
    assert_eq!(parse_target_id("1:2:3:4"), Err(TargetIdError::InvalidFormat));
    assert_eq!(parse_target_id(""), Err(TargetIdError::InvalidFormat));
    assert_eq!(parse_target_id("-1:2:3"), Err(TargetIdError::InvalidAdapterLow));
    assert_eq!(parse_target_id("4294967296:2:3"), Err(TargetIdError::InvalidAdapterLow));
    assert_eq!(parse_target_id("1:2147483648:3"), Err(TargetIdError::InvalidAdapterHigh));
    assert_eq!(parse_target_id("1:x:3"), Err(TargetIdError::InvalidAdapterHigh));
    assert_eq!(parse_target_id("1:2:"), Err(TargetIdError::InvalidTargetId));
    assert_eq!(parse_target_id("1:2: 3"), Err(TargetIdError::InvalidTargetId));
    assert_eq!(TargetIdError::InvalidFormat.message(), "Invalid ID format");
    assert_eq!(TargetIdError::InvalidTargetId.message(), "Invalid target id");
}

#[test]
fn parsing_agrees_with_std() {
    for s in ["0", "+0", "007", "4294967295", "4294967296", "-0", "+", "-", "", "1a", " 1", "99999999999999999999"] {
        let id = format!("{}:{}:{}", s, s, s);
        let want_u = s.parse::<u32>().ok();
        let want_i = s.parse::<i32>().ok();
        let got = parse_target_id(&id);
        match (want_u, want_i, want_u) {
            (Some(a), Some(b), Some(c)) => assert_eq!(got, Ok((a, b, c))),
            (None, _, _) => assert_eq!(got, Err(TargetIdError::InvalidAdapterLow)),
            (Some(_), None, _) => assert_eq!(got, Err(TargetIdError::InvalidAdapterHigh)),
            _ => unreachable!(),
        }
    }
}

#[test]
fn first_matching_path() {
    let keys = vec![(1u32, 0i32, 5u32), (1, -1, 5), (1, 0, 5)];
    assert_eq!(find_target_path(&keys, 1, 0, 5), Some(0));
    assert_eq!(find_target_path(&keys, 1, -1, 5), Some(1));
    assert_eq!(find_target_path(&keys, 2, 0, 5), None);
}
