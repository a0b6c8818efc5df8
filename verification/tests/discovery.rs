use hyprland::ctl::instance::{
    candidates, instance_list, is_live, lock_file_name, parse_instance_entry, parse_lock,
    parse_start_time, process_path, retain_live, Instance, RuntimeEntry,
};
use hyprland::error::HyprError;

fn entry(name: &str, lock: Option<&str>) -> RuntimeEntry {
    RuntimeEntry { file_name: name.to_string(), lock: lock.map(|l| l.to_string()) }
}

fn record(name: &str, time: u64, pid: u32, wl_socket: &str) -> Instance {
    Instance { instance: name.to_string(), time, pid, wl_socket: wl_socket.to_string() }
}

#[test]
fn live_instance_is_listed() {
    let listing = vec![entry("abc_1700000000_xyz", Some("1234\nwayland-1"))];
    let found = instance_list(Ok(listing), &vec![1234]);
    assert_eq!(found, Ok(vec![record("abc_1700000000_xyz", 1700000000, 1234, "wayland-1")]));
}

#[test]
fn dead_instance_is_not_listed() {
    let listing = vec![entry("abc_1700000000_xyz", Some("1234\nwayland-1"))];
    assert_eq!(instance_list(Ok(listing), &vec![]), Ok(vec![]));
    let listing = vec![entry("abc_1700000000_xyz", Some("1234\nwayland-1"))];
    assert_eq!(instance_list(Ok(listing), &vec![1, 1233, 1235, 12340]), Ok(vec![]));
}

#[test]
fn three_lines_are_skipped_without_error() {
    let listing = vec![entry("abc_1700000000_xyz", Some("1234\nwayland-1\nextra"))];
    assert_eq!(instance_list(Ok(listing), &vec![1234]), Ok(vec![]));
}

#[test]
fn unreadable_directory_fails_the_call() {
    let found = instance_list(Err("permission denied".to_string()), &vec![1234]);
    assert_eq!(found, Err(HyprError::Discovery("permission denied".to_string())));
}

#[test]
fn malformed_entries_do_not_hide_the_others() {
    let listing = vec![
        entry("a_1_b", Some("10\nwayland-0")),
        entry("nounderscore", Some("11\nwayland-1")),
        entry("c_3_d", Some("")),
        entry("e_4_f", None),
        entry("g_5_h", Some("12\nwayland-2\n")),
        entry("i_6_j", Some("pid\nwayland-3")),
        entry("k_7_l", Some("13")),
        entry("m_8_n", Some("14\nwayland-4")),
    ];
    let found = instance_list(Ok(listing), &vec![14, 12, 10, 11, 13]);
    assert_eq!(
        found,
        Ok(vec![
            record("a_1_b", 1, 10, "wayland-0"),
            record("g_5_h", 5, 12, "wayland-2"),
            record("m_8_n", 8, 14, "wayland-4"),
        ])
    );
}

#[test]
fn equal_timestamps_stay_distinct() {
    let listing = vec![
        entry("x_42_one", Some("7\nwayland-1")),
        entry("x_42_two", Some("8\nwayland-2")),
    ];
    let found = instance_list(Ok(listing), &vec![7, 8]).unwrap();
    assert_eq!(found.len(), 2);
    assert_eq!(found[0].instance, "x_42_one");
    assert_eq!(found[1].instance, "x_42_two");
    assert_eq!(found[0].time, found[1].time);
}

#[test]
fn two_entries_of_one_process_are_both_listed() {
    let listing = vec![
        entry("a_1_b", Some("7\nwayland-1")),
        entry("c_2_d", Some("7\nwayland-2")),
    ];
    let found = instance_list(Ok(listing), &vec![7]).unwrap();
    assert_eq!(found, vec![record("a_1_b", 1, 7, "wayland-1"), record("c_2_d", 2, 7, "wayland-2")]);
}

#[test]
fn candidates_keep_dead_processes() {
    let listing = vec![entry("a_1_b", Some("10\nw0")), entry("bad", Some("11\nw1"))];
    let found = candidates(&listing);
    assert_eq!(found, vec![record("a_1_b", 1, 10, "w0")]);
    assert_eq!(retain_live(found, &vec![11]), vec![]);
}

#[test]
fn retain_live_keeps_order() {
    let all = vec![record("a", 1, 3, "x"), record("b", 2, 2, "y"), record("c", 3, 1, "z")];
    let kept = retain_live(all, &vec![1, 3]);
    assert_eq!(kept, vec![record("a", 1, 3, "x"), record("c", 3, 1, "z")]);
}

#[test]
fn liveness_is_membership() {
    assert!(is_live(5, &vec![1, 5, 9]));
    assert!(!is_live(6, &vec![1, 5, 9]));
    assert!(!is_live(0, &vec![]));
}

#[test]
fn time_is_between_first_and_last_underscore() {
    assert_eq!(parse_start_time("abc_1700000000_xyz"), Some(1700000000));
    assert_eq!(parse_start_time("_5_"), Some(5));
    assert_eq!(parse_start_time("a_+5_b"), Some(5));
    assert_eq!(parse_start_time("a_007_b"), Some(7));
    assert_eq!(parse_start_time("a_18446744073709551615_b"), Some(u64::MAX));
    assert_eq!(parse_start_time("a_18446744073709551616_b"), None);
    assert_eq!(parse_start_time("a_1_2_b"), None);
    assert_eq!(parse_start_time("a__b"), None);
    assert_eq!(parse_start_time("a_b"), None);
    assert_eq!(parse_start_time("ab"), None);
    assert_eq!(parse_start_time(""), None);
    assert_eq!(parse_start_time("a_-1_b"), None);
    assert_eq!(parse_start_time("a_+_b"), None);
    assert_eq!(parse_start_time("a_ 1_b"), None);
    assert_eq!(parse_start_time("a_1x_b"), None);
}

#[test]
fn lock_is_two_trimmed_lines() {
    assert_eq!(parse_lock("1234\nwayland-1"), Some((1234, "wayland-1".to_string())));
    assert_eq!(parse_lock("1234\nwayland-1\n"), Some((1234, "wayland-1".to_string())));
    assert_eq!(parse_lock("1234\r\nwayland-1\r\n"), Some((1234, "wayland-1".to_string())));
    assert_eq!(parse_lock("  1234\t\n  wayland-1  "), Some((1234, "wayland-1".to_string())));
    assert_eq!(parse_lock("\u{a0}1\u{2003}\n\u{3000}w 1\u{85}"), Some((1, "w 1".to_string())));
    assert_eq!(parse_lock("+12\nw"), Some((12, "w".to_string())));
    assert_eq!(parse_lock("4294967295\nw"), Some((u32::MAX, "w".to_string())));
}

#[test]
fn malformed_locks_are_refused() {
    assert_eq!(parse_lock(""), None);
    assert_eq!(parse_lock("\n"), None);
    assert_eq!(parse_lock("1234"), None);
    assert_eq!(parse_lock("1234\n"), None);
    assert_eq!(parse_lock("1234\nwayland-1\n\n"), None);
    assert_eq!(parse_lock("1234\nwayland-1\nthird"), None);
    assert_eq!(parse_lock("\n1234\nwayland-1"), None);
    assert_eq!(parse_lock("4294967296\nw"), None);
    assert_eq!(parse_lock("-1\nw"), None);
    assert_eq!(parse_lock("12 34\nw"), None);
    assert_eq!(parse_lock("\nw"), None);
    assert_eq!(parse_lock("0x10\nw"), None);
    assert_eq!(parse_lock("1234\n   "), None);
    assert_eq!(parse_lock("1234\n\n"), None);
}

#[test]
fn entry_fields_are_copied() {
    let e = entry("sig_99_tail", Some(" 77 \n wl \n"));
    assert_eq!(parse_instance_entry(&e), Some(record("sig_99_tail", 99, 77, "wl")));
    assert_eq!(parse_instance_entry(&entry("sig_99_tail", None)), None);
    assert_eq!(parse_instance_entry(&entry("sig_x_tail", Some("77\nwl"))), None);
}

#[test]
fn probe_paths() {
    assert_eq!(process_path(1234), "/proc/1234");
    assert_eq!(process_path(0), "/proc/0");
    assert_eq!(process_path(u32::MAX), "/proc/4294967295");
    assert_eq!(lock_file_name(), "hyprland.lock");
}

#[test]
fn clone_keeps_every_field() {
    let one = record("a_1_b", 1, 2, "w");
    assert_eq!(one.clone(), one);
}
