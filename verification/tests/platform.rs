use circle_to_search_pc::app_bundle::auto_launch_path;
use circle_to_search_pc::dispatch::OrchestratorMessage;
use circle_to_search_pc::startup::{lock_file_contents, pid_in_lock_file};
use circle_to_search_pc::startup::{check_all_permissions_granted, needs_onboarding, startup_messages};
use circle_to_search_pc::app_bundle::{find_macos_app_bundle_path, install_id_path_in_bundle};
use circle_to_search_pc::circle_to_search::{
    ClipboardProvider, CLIPBOARD_COPY_FAILED_PREFIX, CLIPBOARD_OPEN_FAILED_PREFIX,
    find_primary_display, ClipboardPort, Display, ImageSearchPort, ScreenCapturePort,
    SelectionArea, GoogleLensClient, CircleToSearchOrchestrator, ScreenCapture, SearchResult,
    ImageFormat,
};
use circle_to_search_pc::keyboard::{GlobalKeyboardEvent, Key, KeyEventKind, KeyboardState};
use circle_to_search_pc::numbers::parse_u64;
use circle_to_search_pc::permissions::{
    accessibility_granted, all_permissions_granted, input_monitoring_granted,
    screen_recording_granted, system_preferences_pane, ActivationPolicy,
};
use circle_to_search_pc::tray::{TrayEvent, TrayMenuIds};
use circle_to_search_pc::window_info::{
    find_window_by_id, select_capturable_windows, WindowCandidate, WindowInfo,
};

#[test]
fn test_find_macos_app_bundle_path_with_app_bundle() {
    let exe_path = "/Applications/Circle to Search.app/Contents/MacOS/circle-to-search-pc";
    let result = find_macos_app_bundle_path(exe_path);
    assert_eq!(result, "/Applications/Circle to Search.app");
}

#[test]
fn test_find_macos_app_bundle_path_without_app_bundle() {
    let exe_path = "/usr/local/bin/circle-to-search-pc";
    let result = find_macos_app_bundle_path(exe_path);
    assert_eq!(result, "/usr/local/bin/circle-to-search-pc");
}

#[test]
fn install_id_lives_in_the_bundle_resources() {
    assert_eq!(
        install_id_path_in_bundle("/Applications/X.app/Contents/MacOS/x"),
        Some("/Applications/X.app/Contents/Resources/.install_id".to_string())
    );
    assert_eq!(install_id_path_in_bundle("/usr/bin/x"), None);
}

#[test]
fn test_tray_event_debug_implements() {
    let event = TrayEvent::ShowWindow;
    let debug_str = format!("{:?}", event);
    assert!(debug_str.contains("ShowWindow"));
}

#[test]
fn test_tray_event_clone() {
    let event = TrayEvent::ShowWindow;
    let cloned = event.clone();

    matches!(cloned, TrayEvent::ShowWindow);
}

#[test]
fn test_all_tray_event_variants_are_cloneable() {
    let show_window = TrayEvent::ShowWindow;
    let settings = TrayEvent::OpenSettings;
    let quit = TrayEvent::Quit;

    let _cloned1 = show_window.clone();
    let _cloned2 = settings.clone();
    let _cloned3 = quit.clone();
}

#[test]
fn tray_menu_identifiers_map_to_events() {
    let ids = TrayMenuIds {
        show_window: Some("1".to_string()),
        settings: Some("2".to_string()),
        quit: Some("3".to_string()),
    };
    assert_eq!(ids.event_for("1"), Some(TrayEvent::ShowWindow));
    assert_eq!(ids.event_for("2"), Some(TrayEvent::OpenSettings));
    assert_eq!(ids.event_for("3"), Some(TrayEvent::Quit));
    assert_eq!(ids.event_for("4"), None);
    let none = TrayMenuIds { show_window: None, settings: None, quit: None };
    assert_eq!(none.event_for("1"), None);
}

#[test]
fn hotkey_needs_alt_and_shift() {
    let mut state = KeyboardState::default();
    assert_eq!(state.process_event(KeyEventKind::KeyPress(Key::KeyS)), None);
    assert_eq!(state.process_event(KeyEventKind::KeyPress(Key::Alt)), None);
    assert_eq!(state.process_event(KeyEventKind::KeyPress(Key::ShiftRight)), None);
    assert_eq!(
        state.process_event(KeyEventKind::KeyPress(Key::KeyS)),
        Some(GlobalKeyboardEvent::CaptureHotkeyPressed)
    );
    assert_eq!(state.process_event(KeyEventKind::KeyRelease(Key::ShiftRight)), None);
    assert_eq!(state.process_event(KeyEventKind::KeyPress(Key::KeyS)), None);
    assert_eq!(
        state.process_event(KeyEventKind::KeyPress(Key::Escape)),
        Some(GlobalKeyboardEvent::EscapePressed)
    );
    assert!(state.is_alt_pressed);
    assert!(!state.is_shift_pressed);
}

#[test]
fn numbers_parse_like_std() {
    let chars = |s: &str| s.chars().collect::<Vec<char>>();
    assert_eq!(parse_u64(&chars("900")), Some(900));
    assert_eq!(parse_u64(&chars("+7")), Some(7));
    assert_eq!(parse_u64(&chars("")), None);
    assert_eq!(parse_u64(&chars("-1")), None);
    assert_eq!(parse_u64(&chars("12a")), None);
    assert_eq!(parse_u64(&chars("18446744073709551615")), Some(u64::MAX));
    assert_eq!(parse_u64(&chars("18446744073709551616")), None);
}

#[test]
fn permission_panes_and_answers() {
    assert_eq!(
        system_preferences_pane("Screen Recording"),
        "x-apple.systempreferences:com.apple.preference.security?Privacy_ScreenCapture"
    );
    assert_eq!(
        system_preferences_pane("Something"),
        "x-apple.systempreferences:com.apple.preference.security"
    );
    assert!(screen_recording_granted(None, Some(true)));
    assert!(!screen_recording_granted(Some(false), Some(true)));
    assert!(!screen_recording_granted(None, None));
    assert!(accessibility_granted(None));
    assert!(input_monitoring_granted(Some(0), false));
    assert!(!input_monitoring_granted(Some(1), true));
    assert!(input_monitoring_granted(None, true));
    assert!(!all_permissions_granted(true, false));
    assert_eq!(ActivationPolicy::hidden_dock_icon().raw_value(), 1);
    assert_eq!(ActivationPolicy::visible_dock_icon().raw_value(), 0);
}

#[test]
fn window_names_and_capturability() {
    let w = WindowInfo::build(1, "Editor".to_string(), "notes.txt".to_string(), 800, 600, false, None);
    assert_eq!(w.display_name(), "Editor - notes.txt");
    let w = WindowInfo::build(2, "Editor".to_string(), "".to_string(), 800, 600, false, None);
    assert_eq!(w.display_name(), "Editor");
    let w = WindowInfo::build(3, "".to_string(), "Title".to_string(), 800, 600, false, None);
    assert_eq!(w.display_name(), "Title");
    assert!(WindowInfo::is_capturable_window("App", "", 50, 50));
    assert!(!WindowInfo::is_capturable_window("App", "", 49, 50));
    assert!(!WindowInfo::is_capturable_window("", "", 500, 500));
}

#[test]
fn selection_area_extents() {
    let area = SelectionArea { start_x: 30, start_y: 5, end_x: 10, end_y: 25 };
    assert_eq!(area.width(), 20);
    assert_eq!(area.height(), 20);
    assert_eq!(area.min_x(), 10);
    assert_eq!(area.min_y(), 5);
}

#[test]
fn primary_display_is_the_first_marked_one() {
    let d = |id: u32, is_primary: bool| Display { id, x: 0, y: 0, width: 10, height: 10, is_primary };
    assert_eq!(find_primary_display(&vec![d(1, false), d(2, true), d(3, true)]).unwrap().id, 2);
    assert_eq!(
        find_primary_display(&vec![d(1, false)]).unwrap_err(),
        "No primary display found"
    );
}

struct FixedScreen;
impl ScreenCapturePort for FixedScreen {
    fn get_all_displays(&self) -> Result<Vec<Display>, String> {
        Ok(vec![Display { id: 4, x: 0, y: 0, width: 2, height: 1, is_primary: true }])
    }
    fn capture_display(&self, display: &Display) -> Result<ScreenCapture, String> {
        Ok(ScreenCapture {
            image_data: vec![display.id as u8],
            width: display.width,
            height: display.height,
            format: ImageFormat::PNG,
        })
    }
}

struct RecordingClipboard;
impl ClipboardPort for RecordingClipboard {
    fn copy_text(&self, text: String) -> Result<bool, String> {
        Ok(!text.is_empty())
    }
}

#[test]
fn circle_to_search_captures_the_primary_display() {
    let screen = FixedScreen;
    let search = GoogleLensClient::new(String::new());
    let clipboard = RecordingClipboard;
    let service = CircleToSearchOrchestrator::new(&screen, &search, &clipboard);

    let capture = service.capture_primary_display().unwrap();
    assert_eq!(capture.image_data, vec![4]);
    assert_eq!(service.search_screenshot(vec![1]).unwrap_err(), "Google API key not configured");
    assert_eq!(service.copy_selected_text("x".to_string()), Ok(true));
    let keyed = GoogleLensClient::new("k".to_string());
    let results: Vec<SearchResult> = keyed.search_image(vec![1]).unwrap();
    assert!(results.is_empty());
}

#[test]
fn auto_launch_uses_the_bundle_on_macos() {
    let exe = "/Applications/Circle to Search.app/Contents/MacOS/circle-to-search-pc";
    assert_eq!(auto_launch_path(exe, true), "/Applications/Circle to Search.app");
    assert_eq!(auto_launch_path(exe, false), exe);
}

#[test]
fn startup_opens_onboarding_until_it_is_done() {
    assert!(check_all_permissions_granted(false, false, false));
    assert!(!check_all_permissions_granted(true, true, false));
    assert!(needs_onboarding(false, true));
    assert!(needs_onboarding(true, false));
    assert!(!needs_onboarding(true, true));
    let messages = startup_messages(true, true);
    assert!(matches!(messages[0], OrchestratorMessage::CreateHiddenWindow));
    assert!(matches!(messages[1], OrchestratorMessage::OpenMainWindow));
    let messages = startup_messages(false, true);
    assert!(matches!(messages[1], OrchestratorMessage::OpenOnboarding));
}

#[test]
fn lock_file_pid_is_read_like_a_u32() {
    assert_eq!(pid_in_lock_file("1234\n"), Some(1234));
    assert_eq!(pid_in_lock_file("  99 "), Some(99));
    assert_eq!(pid_in_lock_file("4294967296"), None);
    assert_eq!(pid_in_lock_file("abc"), None);
    assert_eq!(pid_in_lock_file(""), None);
}

#[test]
fn lock_file_contents_read_back() {
    for pid in [0u32, 7, 10, 4321, u32::MAX] {
        let contents = lock_file_contents(pid);
        assert_eq!(contents, pid.to_string());
        assert_eq!(pid_in_lock_file(&contents), Some(pid));
    }
}

#[test]
fn clipboard_copy_reports_its_outcome() {
    // Without a desktop session the clipboard cannot be opened; either outcome is described.
    match ClipboardProvider.copy_text("hello".to_string()) {
        Ok(copied) => assert!(copied),
        Err(message) => assert!(
            message.starts_with(CLIPBOARD_OPEN_FAILED_PREFIX)
                || message.starts_with(CLIPBOARD_COPY_FAILED_PREFIX)
        ),
    }
}

#[test]
fn only_named_large_identified_windows_are_offered() {
    let candidate = |id: Option<u32>, app: &str, title: &str, w: u32, h: u32| WindowCandidate {
        id,
        app_name: app.to_string(),
        title: title.to_string(),
        width: w,
        height: h,
        is_minimized: false,
    };
    let offered = select_capturable_windows(vec![
        candidate(Some(1), "Editor", "a", 800, 600),
        candidate(None, "Ghost", "b", 800, 600),
        candidate(Some(3), "", "", 800, 600),
        candidate(Some(4), "Tiny", "", 49, 600),
        candidate(Some(5), "", "Terminal", 50, 50),
    ]);
    let ids: Vec<Option<u32>> = offered.iter().map(|c| c.id).collect();
    assert_eq!(ids, vec![Some(1), Some(5)]);
}

#[test]
fn windows_are_found_by_identifier() {
    let ids = vec![None, Some(7), Some(9), Some(7)];
    assert_eq!(find_window_by_id(&ids, 7), Some(1));
    assert_eq!(find_window_by_id(&ids, 9), Some(2));
    assert_eq!(find_window_by_id(&ids, 8), None);
}
