//! Line cleaning, path text handling, rendering helpers, version checks
//! and the window filter.

use mxu_core::encode::image_data_url;
use mxu_core::filter::filter_windows;
use mxu_core::paths::{archive_kind, file_name, join_path, normalize_path, resolve_exec_path,
    same_path_folded, ArchiveKind};
use mxu_core::pipe::{format_log_line, make_output_event, process_output_line,
    strip_ansi_escapes, OutputStream};
use mxu_core::types::{connection_status_of, prepare_controller, task_status_of, AdbDevice,
    AllInstanceStates, ChangesJson, ConnectionStatus, ControllerConfig, ControllerConfigError,
    ControllerRequest, GamepadKind, InstanceState, TaskStatus, Win32Window};
use mxu_core::util::{is_blank, parse_u32_digits, parse_u64_digits, split_ws, str_eq_chars,
    u64_to_dec};
use mxu_core::version::{build_user_agent, maa_check_version, MIN_MAAFW_VERSION};

#[test]
fn strips_color_codes_and_keeps_text() {
    assert_eq!(strip_ansi_escapes("\x1b[31mred\x1b[0m plain"), "red plain");
    assert_eq!(strip_ansi_escapes("no escapes"), "no escapes");
    assert_eq!(strip_ansi_escapes(""), "");
}

#[test]
fn strips_cursor_controls_with_parameters() {
    assert_eq!(strip_ansi_escapes("a\x1b[2;7Hb\x1b[?25lc"), "abc");
}

#[test]
fn keeps_an_escape_that_opens_no_sequence() {
    // A control sequence needs a final letter; digits alone leave the
    // escape in place.
    assert_eq!(strip_ansi_escapes("x\x1b[12"), "x\x1b[12");
    assert_eq!(strip_ansi_escapes("x\x1b"), "x\x1b");
    assert_eq!(strip_ansi_escapes("x\x1bQ"), "x\x1bQ");
}

#[test]
fn strips_title_sequences_to_the_bell() {
    assert_eq!(strip_ansi_escapes("a\x1b]0;title\x07b"), "ab");
    // Without a bell the sequence swallows the rest of the line.
    assert_eq!(strip_ansi_escapes("a\x1b]0;title no bell"), "a");
}

#[test]
fn cleans_a_raw_pipe_line() {
    let raw = b"\x1b[32mok\x1b[0m  \r".to_vec();
    assert_eq!(process_output_line(&raw), "ok");
    // Invalid bytes decode to the replacement character instead of
    // failing.
    let raw = vec![0xff, b'h', b'i'];
    assert_eq!(process_output_line(&raw), "\u{fffd}hi");
}

#[test]
fn output_events_carry_the_cleaned_line() {
    let event = make_output_event("inst-1", OutputStream::Stderr, &b"\x1b[31mboom\x1b[0m\n".to_vec());
    assert_eq!(event.instance_id, "inst-1");
    assert_eq!(event.stream, "stderr");
    assert_eq!(event.line, "boom");
}

#[test]
fn log_lines_tag_timestamp_and_stream() {
    assert_eq!(
        format_log_line("2024-01-02 03:04:05", OutputStream::Stdout, "hello"),
        "2024-01-02 03:04:05 [stdout] hello"
    );
}

#[test]
fn normalize_collapses_dot_and_dot_dot() {
    assert_eq!(normalize_path("a/./b/../c"), "a/c");
    assert_eq!(normalize_path("./agent//main.py"), "agent/main.py");
    assert_eq!(normalize_path("a\\b\\..\\c"), "a/c");
    assert_eq!(normalize_path("../x"), "../x");
    assert_eq!(normalize_path("a/../../x"), "../x");
    assert_eq!(normalize_path("/a/../b"), "/b");
    assert_eq!(normalize_path("/"), "/");
    assert_eq!(normalize_path(""), "");
}

#[test]
fn join_respects_rooted_paths() {
    assert_eq!(join_path("/work", "agent.py"), "/work/agent.py");
    assert_eq!(join_path("/work/", "agent.py"), "/work/agent.py");
    assert_eq!(join_path("/work", "/abs/tool"), "/abs/tool");
    assert_eq!(join_path("", "tool"), "tool");
}

#[test]
fn resolves_an_agent_executable() {
    assert_eq!(
        resolve_exec_path("/work/pack", "./agents/../main.py"),
        "/work/pack/main.py"
    );
}

#[test]
fn archive_kind_reads_the_suffix_without_case() {
    assert_eq!(archive_kind("pack.zip"), ArchiveKind::Zip);
    assert_eq!(archive_kind("pack.TAR.GZ"), ArchiveKind::TarGz);
    assert_eq!(archive_kind("pack.tgz"), ArchiveKind::TarGz);
    assert_eq!(archive_kind("pack.tar"), ArchiveKind::Zip);
}

#[test]
fn decimal_rendering_matches_the_usual_form() {
    assert_eq!(u64_to_dec(0), "0");
    assert_eq!(u64_to_dec(7), "7");
    assert_eq!(u64_to_dec(1234), "1234");
    assert_eq!(u64_to_dec(u64::MAX), "18446744073709551615");
}

#[test]
fn digit_parsers_reject_everything_but_plain_digits() {
    assert_eq!(parse_u32_digits("0"), Some(0));
    assert_eq!(parse_u32_digits("23"), Some(23));
    assert_eq!(parse_u32_digits("0023"), Some(23));
    assert_eq!(parse_u32_digits(""), None);
    assert_eq!(parse_u32_digits("+3"), None);
    assert_eq!(parse_u32_digits("3a"), None);
    assert_eq!(parse_u32_digits("4294967295"), Some(u32::MAX));
    assert_eq!(parse_u32_digits("4294967296"), None);
    assert_eq!(parse_u64_digits("18446744073709551615"), Some(u64::MAX));
    assert_eq!(parse_u64_digits("18446744073709551616"), None);
}

#[test]
fn whitespace_helpers() {
    assert!(is_blank(""));
    assert!(is_blank(" \t\r\n"));
    assert!(!is_blank(" x "));
    assert_eq!(split_ws("  a  bb\tc "), vec!["a", "bb", "c"]);
    assert!(split_ws("   ").is_empty());
    assert!(str_eq_chars("same", "same"));
    assert!(!str_eq_chars("same", "same "));
}

#[test]
fn data_url_encodes_the_image_bytes() {
    assert_eq!(image_data_url(&b"hi".to_vec()), "data:image/png;base64,aGk=");
    assert_eq!(image_data_url(&Vec::new()), "data:image/png;base64,");
}

#[test]
fn version_check_accepts_a_newer_engine() {
    let res = maa_check_version("v5.6.0").unwrap();
    assert_eq!(res.current, "v5.6.0");
    assert_eq!(res.minimum, format!("v{}", MIN_MAAFW_VERSION));
    assert!(res.is_compatible);
}

#[test]
fn version_check_rejects_an_older_engine_and_odd_texts() {
    assert!(!maa_check_version("5.4.9").unwrap().is_compatible);
    // A prerelease below the minimum's release also fails.
    assert!(!maa_check_version("v5.5.0-alpha.1").unwrap().is_compatible);
    // The release itself is newer than its own beta.
    assert!(maa_check_version("5.5.0").unwrap().is_compatible);
    // A development build that does not parse counts as incompatible.
    assert!(!maa_check_version("DEBUG_VERSION").unwrap().is_compatible);
}

#[test]
fn user_agent_carries_the_build_version() {
    assert_eq!(
        build_user_agent("1.2.3"),
        "MXU/1.2.3 (Windows NT 10.0; Win64; x64; amd64) Tauri/2.0"
    );
}

fn window(handle: u64, class_name: &str, window_name: &str) -> Win32Window {
    Win32Window {
        handle,
        class_name: class_name.to_string(),
        window_name: window_name.to_string(),
    }
}

#[test]
fn window_filter_applies_both_patterns() {
    let windows = vec![
        window(1, "UnityWndClass", "Game"),
        window(2, "Chrome_WidgetWin_1", "Browser"),
        window(3, "UnityWndClass", "Other"),
    ];
    let kept = filter_windows(windows, Some("^Unity"), Some("^Game$"));
    assert_eq!(kept.len(), 1);
    assert_eq!(kept[0].handle, 1);
}

#[test]
fn window_filter_without_patterns_keeps_everything_in_order() {
    let windows = vec![window(1, "A", "x"), window(2, "B", "y")];
    let kept = filter_windows(windows, None, None);
    assert_eq!(kept.len(), 2);
    assert_eq!(kept[0].handle, 1);
    assert_eq!(kept[1].handle, 2);
}

#[test]
fn window_filter_ignores_a_pattern_that_does_not_compile() {
    let windows = vec![window(1, "A", "x")];
    let kept = filter_windows(windows, Some("("), None);
    assert_eq!(kept.len(), 1);
}

#[test]
fn connection_status_needs_a_connected_controller() {
    assert_eq!(connection_status_of(true, true), ConnectionStatus::Connected);
    assert_eq!(connection_status_of(true, false), ConnectionStatus::Disconnected);
    assert_eq!(connection_status_of(false, false), ConnectionStatus::Disconnected);
}

#[test]
fn task_status_maps_engine_codes() {
    assert_eq!(task_status_of(1000, 1000, 2000, 3000), TaskStatus::Pending);
    assert_eq!(task_status_of(2000, 1000, 2000, 3000), TaskStatus::Running);
    assert_eq!(task_status_of(3000, 1000, 2000, 3000), TaskStatus::Succeeded);
    assert_eq!(task_status_of(4000, 1000, 2000, 3000), TaskStatus::Failed);
}

#[test]
fn controller_preparation_parses_the_method_masks() {
    let config = ControllerConfig::Adb {
        adb_path: "adb".to_string(),
        address: "127.0.0.1:5555".to_string(),
        screencap_methods: "18446744073709551615".to_string(),
        input_methods: "4".to_string(),
        config: "{}".to_string(),
    };
    match prepare_controller(&config).unwrap() {
        ControllerRequest::Adb { screencap_methods, input_methods, address, .. } => {
            assert_eq!(screencap_methods, u64::MAX);
            assert_eq!(input_methods, 4);
            assert_eq!(address, "127.0.0.1:5555");
        }
        other => panic!("expected a bridge request, got {:?}", other),
    }
}

#[test]
fn controller_preparation_rejects_bad_masks() {
    let config = ControllerConfig::Adb {
        adb_path: "adb".to_string(),
        address: "a".to_string(),
        screencap_methods: "many".to_string(),
        input_methods: "4".to_string(),
        config: "{}".to_string(),
    };
    assert_eq!(
        prepare_controller(&config).unwrap_err(),
        ControllerConfigError::InvalidScreencapMethods
    );
    let config = ControllerConfig::Adb {
        adb_path: "adb".to_string(),
        address: "a".to_string(),
        screencap_methods: "1".to_string(),
        input_methods: "-4".to_string(),
        config: "{}".to_string(),
    };
    assert_eq!(
        prepare_controller(&config).unwrap_err(),
        ControllerConfigError::InvalidInputMethods
    );
}

#[test]
fn controller_preparation_maps_gamepads_and_rejects_playcover() {
    let config = ControllerConfig::Gamepad {
        handle: 9,
        gamepad_type: Some("DS4".to_string()),
        screencap_method: None,
    };
    match prepare_controller(&config).unwrap() {
        ControllerRequest::Gamepad { gamepad_type, screencap_method, .. } => {
            assert_eq!(gamepad_type, GamepadKind::DualShock4);
            assert_eq!(screencap_method, None);
        }
        other => panic!("expected a gamepad request, got {:?}", other),
    }
    let config = ControllerConfig::Gamepad {
        handle: 9,
        gamepad_type: None,
        screencap_method: Some(8),
    };
    match prepare_controller(&config).unwrap() {
        ControllerRequest::Gamepad { gamepad_type, .. } => {
            assert_eq!(gamepad_type, GamepadKind::Xbox360);
        }
        other => panic!("expected a gamepad request, got {:?}", other),
    }
    let config = ControllerConfig::PlayCover { address: "addr".to_string() };
    assert_eq!(
        prepare_controller(&config).unwrap_err(),
        ControllerConfigError::PlayCoverUnsupported
    );
}

#[test]
fn path_case_folding_compares_program_paths() {
    assert!(same_path_folded("C:/Games/Tool.EXE", "c:/games/tool.exe"));
    assert!(!same_path_folded("c:/games/tool.exe", "c:/games/other.exe"));
}

#[test]
fn file_name_is_the_last_component() {
    assert_eq!(file_name("/opt/app/tool.exe"), Some("tool.exe".to_string()));
    assert_eq!(file_name("tool.exe"), Some("tool.exe".to_string()));
    assert_eq!(file_name("a/b/"), Some("b".to_string()));
    assert_eq!(file_name("/"), None);
    assert_eq!(file_name(""), None);
}

#[test]
fn snapshot_types_carry_the_authoritative_flags() {
    let state = InstanceState {
        connected: true,
        resource_loaded: true,
        tasker_inited: false,
        is_running: false,
        task_ids: vec![101, 103],
    };
    let device = AdbDevice {
        name: "emulator".to_string(),
        adb_path: "adb".to_string(),
        address: "127.0.0.1:5555".to_string(),
        screencap_methods: 1,
        input_methods: 2,
        config: "{}".to_string(),
    };
    let all = AllInstanceStates {
        instances: vec![("default".to_string(), state)],
        cached_adb_devices: vec![device],
        cached_win32_windows: Vec::new(),
    };
    assert_eq!(all.instances.len(), 1);
    assert_eq!(all.instances[0].0, "default");
    assert_eq!(all.instances[0].1.task_ids, vec![101, 103]);
    assert!(!all.instances[0].1.is_running);
    assert_eq!(all.cached_adb_devices[0].screencap_methods, 1);

    let changes = ChangesJson {
        added: vec!["new.dll".to_string()],
        deleted: Vec::new(),
        modified: vec!["app.exe".to_string()],
    };
    assert_eq!(changes.added.len(), 1);
    assert_eq!(changes.modified[0], "app.exe");
}
