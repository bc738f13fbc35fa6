use hold_session::command::PillState;
use hold_session::dock::{
    set_dock_icon_visible, update_dock_icon_for_app, ActivationPolicy, WindowStatus,
};
use hold_session::focus::{
    activation_script, frontmost_app_name_in, frontmost_query_script, is_white_space,
    parse_frontmost_app_name, trim_white_space, FocusSnapshot,
};

#[test]
fn white_space_is_what_the_standard_library_calls_white_space() {
    let mut code: u32 = 0;
    while code <= 0x10FFFF {
        if let Some(c) = char::from_u32(code) {
            assert_eq!(is_white_space(c), c.is_whitespace(), "U+{:04X}", code);
        }
        code += 1;
    }
}

#[test]
fn trimming_agrees_with_the_standard_library() {
    let samples = [
        "",
        " ",
        "\n",
        "Safari",
        "Safari\n",
        "  Visual Studio Code \r\n",
        "\t\u{a0}Notes\u{2003}\u{3000}",
        " a b ",
        "\u{feff}x ",
        "\u{200b} ",
        "日本語 ",
        " \u{85}\u{1680}é\u{2028}\u{2029}\u{202f}\u{205f}",
    ];
    for sample in samples {
        assert_eq!(trim_white_space(sample), sample.trim());
    }
}

#[test]
fn frontmost_name_is_the_trimmed_output() {
    assert_eq!(parse_frontmost_app_name(true, b"Safari\n"), Some("Safari".to_string()));
    assert_eq!(
        parse_frontmost_app_name(true, b"  Visual Studio Code \r\n"),
        Some("Visual Studio Code".to_string())
    );
    assert_eq!(parse_frontmost_app_name(true, b"Finder"), Some("Finder".to_string()));
    assert_eq!(
        parse_frontmost_app_name(true, "\u{3000}日本語\u{a0}\n".as_bytes()),
        Some("日本語".to_string())
    );
}

#[test]
fn frontmost_name_is_absent_when_the_query_failed() {
    assert_eq!(parse_frontmost_app_name(false, b"Safari\n"), None);
    assert_eq!(parse_frontmost_app_name(false, b""), None);
    assert_eq!(frontmost_app_name_in(false, "Safari"), None);
}

#[test]
fn frontmost_name_is_absent_when_the_output_is_blank() {
    assert_eq!(parse_frontmost_app_name(true, b""), None);
    assert_eq!(parse_frontmost_app_name(true, b" \n\t"), None);
    assert_eq!(frontmost_app_name_in(true, "\u{2003}\u{85}"), None);
}

#[test]
fn malformed_output_is_decoded_leniently() {
    assert_eq!(
        parse_frontmost_app_name(true, b"Caf\xff Racer\n"),
        Some("Caf\u{fffd} Racer".to_string())
    );
    assert_eq!(parse_frontmost_app_name(true, b"\xff"), Some("\u{fffd}".to_string()));
}

#[test]
fn decoded_output_is_trimmed_exactly() {
    assert_eq!(frontmost_app_name_in(true, " Notes \n"), Some("Notes".to_string()));
    assert_eq!(frontmost_app_name_in(true, "a  b"), Some("a  b".to_string()));
    assert_eq!(frontmost_app_name_in(true, "\u{200b}x"), Some("\u{200b}x".to_string()));
}

#[test]
fn scripts_have_their_exact_text() {
    assert_eq!(
        frontmost_query_script(),
        "tell application \"System Events\" to get name of (first process whose frontmost is true)"
    );
    assert_eq!(
        activation_script("Safari"),
        "tell application \"System Events\" to set frontmost of process \"Safari\" to true"
    );
    assert_eq!(
        activation_script(""),
        "tell application \"System Events\" to set frontmost of process \"\" to true"
    );
}

#[test]
fn focus_snapshot_hands_a_name_out_once() {
    let mut snapshot = FocusSnapshot::new();
    assert_eq!(snapshot.recall(), None);
    assert_eq!(snapshot.take(), None);
    snapshot.capture(Some("Mail".to_string()));
    assert_eq!(snapshot.recall(), Some("Mail".to_string()));
    assert_eq!(snapshot.recall(), Some("Mail".to_string()));
    assert_eq!(snapshot.take(), Some("Mail".to_string()));
    assert_eq!(snapshot.take(), None);
    assert_eq!(snapshot.recall(), None);
}

#[test]
fn focus_snapshot_is_overwritten_by_the_next_capture() {
    let mut snapshot = FocusSnapshot::new();
    snapshot.capture(Some("Mail".to_string()));
    snapshot.capture(Some("Notes".to_string()));
    assert_eq!(snapshot.recall(), Some("Notes".to_string()));
    snapshot.capture(None);
    assert_eq!(snapshot.take(), None);
}

#[test]
fn dock_icon_follows_visibility() {
    assert_eq!(set_dock_icon_visible(true), ActivationPolicy::Regular);
    assert_eq!(set_dock_icon_visible(false), ActivationPolicy::Accessory);
    assert_eq!(ActivationPolicy::Regular.code(), 0);
    assert_eq!(ActivationPolicy::Accessory.code(), 1);
    assert!(ActivationPolicy::Regular.shows_icon());
    assert!(!ActivationPolicy::Accessory.shows_icon());
}

#[test]
fn dock_icon_shows_while_any_window_is_visible() {
    let all = [
        WindowStatus::Missing,
        WindowStatus::Unknown,
        WindowStatus::Hidden,
        WindowStatus::Visible,
    ];
    for main in all {
        for dashboard in all {
            let expected = if main == WindowStatus::Visible || dashboard == WindowStatus::Visible {
                ActivationPolicy::Regular
            } else {
                ActivationPolicy::Accessory
            };
            assert_eq!(update_dock_icon_for_app(main, dashboard), expected);
        }
    }
}

#[test]
fn only_a_window_known_to_be_visible_counts() {
    assert!(WindowStatus::Visible.is_visible());
    assert!(!WindowStatus::Hidden.is_visible());
    assert!(!WindowStatus::Unknown.is_visible());
    assert!(!WindowStatus::Missing.is_visible());
}

#[test]
fn pill_states_have_their_names() {
    assert_eq!(PillState::Idle.name(), "idle");
    assert_eq!(PillState::Listening.name(), "listening");
    assert_eq!(PillState::Loading.name(), "loading");
    assert_eq!(PillState::Success.name(), "success");
    assert_eq!(PillState::Error.name(), "error");
}
