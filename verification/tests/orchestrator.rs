use circle_to_search_pc::window_info::WindowInfo;
use circle_to_search_pc::capture_buffer::CaptureBuffer;
use circle_to_search_pc::dispatch::{OrchestratorMessage, OverlayRequest};
use circle_to_search_pc::keyboard::GlobalKeyboardEvent;
use circle_to_search_pc::orchestrator::{
    AppOrchestrator, AppWindow, SettingsEditState, SettingsSavePlan, SettingsUpdate,
};
use circle_to_search_pc::session_flow::{
    image_search_failure_text, search_query_option, ImageSearchOutcome, OcrWindowRequest,
    OnboardingRequest, PickerRequest,
};
use circle_to_search_pc::tray::TrayEvent;
use circle_to_search_pc::user_settings::{
    ImageHostingAuthMode, ImageUploadHttpMethod, ThemeMode, UserSettings,
};
use circle_to_search_pc::window_flow::{Effect, FollowUp};

fn create_test_orchestrator() -> AppOrchestrator {
    AppOrchestrator::build(UserSettings::default())
}

fn is_close(e: &Effect, id: u64) -> bool {
    matches!(e, Effect::CloseWindow(w) if *w == id)
}

#[test]
fn test_build_creates_orchestrator_with_correct_initial_state() {
    let orchestrator = create_test_orchestrator();

    assert_eq!(orchestrator.windows.len(), 0);
    assert!(orchestrator.main_window_id.is_none());
    assert!(orchestrator.settings_window_id.is_none());
    assert!(matches!(orchestrator.settings_edit_state, SettingsEditState::Closed));
    assert!(!orchestrator.status.is_empty());
}

#[test]
fn test_handle_capture_error_updates_status() {
    let mut orchestrator = create_test_orchestrator();
    let error_message = "Test error".to_string();

    let _ = orchestrator.handle_capture_error(error_message.clone(), "linux");

    assert!(orchestrator.status.contains("Test error"));
    assert!(orchestrator.status.contains("Capture failed"));
}

#[test]
fn test_handle_ocr_service_ready_updates_service() {
    let mut orchestrator = create_test_orchestrator();

    let _ = orchestrator.handle_ocr_service_ready();

    assert!(orchestrator.status.contains("Ready"));
}

#[test]
fn test_handle_ocr_service_failed_updates_status() {
    let mut orchestrator = create_test_orchestrator();
    let error = "OCR initialization failed".to_string();

    let _ = orchestrator.handle_ocr_service_failed(error.clone());

    assert!(orchestrator.status.contains("OCR initialization failed"));
}

#[test]
fn test_update_settings_modifies_temp_settings() {
    let mut orchestrator = create_test_orchestrator();
    orchestrator.settings_edit_state = SettingsEditState::Editing(UserSettings::default());
    let new_url = "https://new.search.com?q={}".to_string();
    let _ = orchestrator.update(OrchestratorMessage::UpdateSearchUrl(new_url.clone()), 1, "linux");
    assert!(matches!(
        &orchestrator.settings_edit_state,
        SettingsEditState::Editing(settings) if settings.image_search_url_template == new_url
    ));
}

#[test]
fn test_update_hotkey_modifies_temp_settings() {
    let mut orchestrator = create_test_orchestrator();
    orchestrator.settings_edit_state = SettingsEditState::Editing(UserSettings::default());
    let new_hotkey = "Ctrl+Shift+C".to_string();
    let _ = orchestrator.update(OrchestratorMessage::UpdateHotkey(new_hotkey.clone()), 1, "linux");
    assert!(matches!(
        &orchestrator.settings_edit_state,
        SettingsEditState::Editing(settings) if settings.capture_hotkey == new_hotkey
    ));
}

#[test]
fn test_update_image_hosting_provider_url_modifies_temp_settings() {
    let mut orchestrator = create_test_orchestrator();
    orchestrator.settings_edit_state = SettingsEditState::Editing(UserSettings::default());
    let new_provider_url = "https://api.example.com/upload".to_string();
    let _ = orchestrator.update(
        OrchestratorMessage::UpdateImageHostingProviderUrl(new_provider_url.clone()),
        1,
        "linux",
    );
    assert!(matches!(
        &orchestrator.settings_edit_state,
        SettingsEditState::Editing(settings) if settings.image_hosting_provider_url == new_provider_url
    ));
}

#[test]
fn test_update_image_hosting_auth_mode_modifies_temp_settings() {
    let mut orchestrator = create_test_orchestrator();
    orchestrator.settings_edit_state = SettingsEditState::Editing(UserSettings::default());
    let _ = orchestrator.update(
        OrchestratorMessage::UpdateImageHostingAuthMode(ImageHostingAuthMode::Header),
        1,
        "linux",
    );
    assert!(matches!(
        &orchestrator.settings_edit_state,
        SettingsEditState::Editing(settings) if settings.image_hosting_auth_mode == ImageHostingAuthMode::Header
    ));
}

#[test]
fn test_update_image_hosting_public_key_name_modifies_temp_settings() {
    let mut orchestrator = create_test_orchestrator();
    orchestrator.settings_edit_state = SettingsEditState::Editing(UserSettings::default());
    let new_public_key_name = "X-Custom-Key".to_string();
    let _ = orchestrator.update(
        OrchestratorMessage::UpdateImageHostingPublicKeyName(new_public_key_name.clone()),
        1,
        "linux",
    );
    assert!(matches!(
        &orchestrator.settings_edit_state,
        SettingsEditState::Editing(settings) if settings.image_hosting_public_key_name == new_public_key_name
    ));
}

#[test]
fn test_update_image_hosting_public_key_value_modifies_temp_settings() {
    let mut orchestrator = create_test_orchestrator();
    orchestrator.settings_edit_state = SettingsEditState::Editing(UserSettings::default());
    let new_public_key_value = "new-value".to_string();
    let _ = orchestrator.update(
        OrchestratorMessage::UpdateImageHostingPublicKeyValue(new_public_key_value.clone()),
        1,
        "linux",
    );
    assert!(matches!(
        &orchestrator.settings_edit_state,
        SettingsEditState::Editing(settings) if settings.image_hosting_public_key_value == new_public_key_value
    ));
}

#[test]
fn test_update_image_hosting_expiration_seconds_modifies_temp_settings() {
    let mut orchestrator = create_test_orchestrator();
    orchestrator.settings_edit_state = SettingsEditState::Editing(UserSettings::default());
    let new_expiration = "180".to_string();
    let _ = orchestrator.update(
        OrchestratorMessage::UpdateImageHostingExpirationSeconds(new_expiration.clone()),
        1,
        "linux",
    );
    assert!(matches!(
        &orchestrator.settings_edit_state,
        SettingsEditState::Editing(settings) if settings.image_hosting_expiration_seconds == new_expiration
    ));
}

#[test]
fn test_validate_image_hosting_settings_rejects_invalid_provider_url() {
    let mut settings = UserSettings::default();
    settings.image_hosting_provider_url = "not-a-valid-url".to_string();
    let result = AppOrchestrator::validate_image_hosting_settings(&settings);
    assert!(result.is_err());
}

#[test]
fn test_validate_image_hosting_settings_rejects_non_numeric_expiration() {
    let mut settings = UserSettings::default();
    settings.image_hosting_expiration_seconds = "abc".to_string();
    let result = AppOrchestrator::validate_image_hosting_settings(&settings);
    assert!(result.is_err());
}

#[test]
fn test_should_rebuild_search_provider_when_image_hosting_config_changes() {
    let previous_settings = UserSettings::default();
    let mut next_settings = previous_settings.clone();
    next_settings.image_hosting_public_key_value = "updated-key".to_string();

    let should_rebuild =
        AppOrchestrator::should_rebuild_search_provider(&previous_settings, &next_settings);

    assert!(should_rebuild);
}

#[test]
fn test_update_theme_modifies_temp_settings() {
    let mut orchestrator = create_test_orchestrator();
    orchestrator.settings_edit_state = SettingsEditState::Editing(UserSettings::default());
    let _ = orchestrator.update(OrchestratorMessage::UpdateTheme(ThemeMode::Light), 1, "linux");
    assert!(matches!(
        &orchestrator.settings_edit_state,
        SettingsEditState::Editing(settings) if matches!(settings.theme_mode, ThemeMode::Light)
    ));
}

#[test]
fn test_get_window_title_returns_correct_title() {
    let orchestrator = create_test_orchestrator();
    let id = 7u64;
    let title = orchestrator.get_window_title(id);
    assert_eq!(title, "Circle to Search");
}

#[test]
fn test_update_image_hosting_public_key_value_empty_string_does_not_change_stored_key() {
    let mut orchestrator = create_test_orchestrator();
    orchestrator.settings_edit_state = SettingsEditState::Editing(UserSettings::default());
    let _ = orchestrator.update(
        OrchestratorMessage::UpdateImageHostingPublicKeyValue("".to_string()),
        1,
        "linux",
    );
    assert!(matches!(
        &orchestrator.settings_edit_state,
        SettingsEditState::Editing(settings) if settings.image_hosting_public_key_value == UserSettings::public_key_value_or_builtin(None)
    ));
}

#[test]
fn test_update_image_hosting_http_method_modifies_temp_settings() {
    let mut orchestrator = create_test_orchestrator();
    orchestrator.settings_edit_state = SettingsEditState::Editing(UserSettings::default());
    let _ = orchestrator.update(
        OrchestratorMessage::UpdateImageHostingHttpMethod(ImageUploadHttpMethod::Put),
        1,
        "linux",
    );
    assert!(matches!(
        &orchestrator.settings_edit_state,
        SettingsEditState::Editing(settings) if matches!(settings.image_hosting_http_method, ImageUploadHttpMethod::Put)
    ));
}

#[test]
fn test_update_image_hosting_image_field_name_modifies_temp_settings() {
    let mut orchestrator = create_test_orchestrator();
    orchestrator.settings_edit_state = SettingsEditState::Editing(UserSettings::default());
    let new_field_name = "photo".to_string();
    let _ = orchestrator.update(
        OrchestratorMessage::UpdateImageHostingImageFieldName(new_field_name.clone()),
        1,
        "linux",
    );
    assert!(matches!(
        &orchestrator.settings_edit_state,
        SettingsEditState::Editing(settings) if settings.image_hosting_image_field_name == new_field_name
    ));
}

#[test]
fn test_should_rebuild_search_provider_when_http_method_changes() {
    let previous_settings = UserSettings::default();
    let mut next_settings = previous_settings.clone();
    next_settings.image_hosting_http_method = ImageUploadHttpMethod::Get;

    let should_rebuild =
        AppOrchestrator::should_rebuild_search_provider(&previous_settings, &next_settings);

    assert!(should_rebuild);
}

#[test]
fn test_should_rebuild_search_provider_when_image_field_name_changes() {
    let previous_settings = UserSettings::default();
    let mut next_settings = previous_settings.clone();
    next_settings.image_hosting_image_field_name = "photo".to_string();

    let should_rebuild =
        AppOrchestrator::should_rebuild_search_provider(&previous_settings, &next_settings);

    assert!(should_rebuild);
}

#[test]
fn unchanged_settings_need_no_rebuild() {
    let settings = UserSettings::default();
    let mut next = settings.clone();
    next.capture_hotkey = "Ctrl+Alt+X".to_string();
    next.theme_mode = ThemeMode::Light;
    assert!(!AppOrchestrator::should_rebuild_search_provider(&settings, &settings));
    assert!(!AppOrchestrator::should_rebuild_search_provider(&settings, &next));
}

#[test]
fn edits_without_open_editor_are_dropped() {
    let mut orchestrator = create_test_orchestrator();
    let edited = orchestrator.update_settings_draft(SettingsUpdate::Hotkey("X".to_string()));
    assert!(!edited);
    assert!(matches!(orchestrator.settings_edit_state, SettingsEditState::Closed));
    assert_eq!(orchestrator.settings.capture_hotkey, "Alt+Shift+S");
}

#[test]
fn discarding_an_edit_keeps_the_settings() {
    let mut orchestrator = create_test_orchestrator();
    orchestrator.begin_settings_edit();
    let _ = orchestrator.update(OrchestratorMessage::UpdateHotkey("Ctrl+Q".to_string()), 1, "linux");
    assert_eq!(orchestrator.get_settings_for_rendering().capture_hotkey, "Ctrl+Q");
    orchestrator.discard_settings_edit();
    assert_eq!(orchestrator.settings.capture_hotkey, "Alt+Shift+S");
    assert_eq!(orchestrator.get_settings_for_rendering().capture_hotkey, "Alt+Shift+S");
}

#[test]
fn saving_a_valid_draft_commits_it() {
    let mut orchestrator = create_test_orchestrator();
    let open = orchestrator.update(OrchestratorMessage::OpenSettings, 10, "linux");
    assert!(matches!(open[0], Effect::OpenWindow(10, AppWindow::Settings)));
    let _ = orchestrator.update(OrchestratorMessage::UpdateHotkey("Ctrl+Q".to_string()), 11, "linux");
    let _ = orchestrator.update(
        OrchestratorMessage::UpdateImageHostingPublicKeyValue("k2".to_string()),
        11,
        "linux",
    );

    let effects = orchestrator.update(OrchestratorMessage::SaveSettings, 11, "linux");

    assert_eq!(orchestrator.settings.capture_hotkey, "Ctrl+Q");
    assert_eq!(orchestrator.settings.image_hosting_public_key_value, "k2");
    assert!(matches!(orchestrator.settings_edit_state, SettingsEditState::Closed));
    assert_eq!(effects.len(), 1);
    assert!(matches!(
        effects[0],
        Effect::PersistEditedSettings { hotkey_changed: true, rebuild_search_provider: true }
    ));

    let finish = orchestrator.finish_settings_save(true, true, None);
    assert_eq!(orchestrator.status, "Settings saved");
    assert_eq!(finish.len(), 2);
    assert!(matches!(finish[0], Effect::RebuildSearchProvider));
    assert!(matches!(finish[1], Effect::Dispatch(FollowUp::RestartApp)));
}

#[test]
fn saving_an_invalid_draft_keeps_the_settings() {
    let mut orchestrator = create_test_orchestrator();
    orchestrator.begin_settings_edit();
    let _ = orchestrator.update(
        OrchestratorMessage::UpdateImageHostingExpirationSeconds("0".to_string()),
        1,
        "linux",
    );

    let plan = orchestrator.begin_settings_save();

    assert_eq!(plan, SettingsSavePlan::Abort);
    assert_eq!(orchestrator.settings.image_hosting_expiration_seconds, "900");
    assert_eq!(
        orchestrator.status,
        "Failed to save settings: Expiration seconds must be a positive integer"
    );
    assert!(matches!(orchestrator.settings_edit_state, SettingsEditState::Editing(_)));
}

#[test]
fn saving_without_editor_reports_it() {
    let mut orchestrator = create_test_orchestrator();
    let effects = orchestrator.update(OrchestratorMessage::SaveSettings, 1, "linux");
    assert!(effects.is_empty());
    assert_eq!(orchestrator.status, "Settings editor is not active");
}

#[test]
fn failed_settings_write_is_reported_and_window_closed() {
    let mut orchestrator = create_test_orchestrator();
    let _ = orchestrator.handle_open_settings(5);
    let _ = orchestrator.begin_settings_save();
    let effects = orchestrator.finish_settings_save(false, false, Some("disk full".to_string()));
    assert_eq!(orchestrator.status, "Failed to save settings: disk full");
    assert_eq!(effects.len(), 1);
    assert!(is_close(&effects[0], 5));
}

#[test]
fn opening_main_window_twice_focuses_it() {
    let mut orchestrator = create_test_orchestrator();
    let first = orchestrator.update(OrchestratorMessage::OpenMainWindow, 1, "linux");
    assert!(matches!(first[0], Effect::ActivateApp));
    assert!(matches!(first[1], Effect::OpenWindow(1, AppWindow::Main)));
    assert!(matches!(first[2], Effect::FocusWindow(1)));
    assert_eq!(first.len(), 3);
    assert_eq!(orchestrator.main_window_id, Some(1));

    let second = orchestrator.update(OrchestratorMessage::OpenMainWindow, 2, "linux");
    assert_eq!(second.len(), 2);
    assert!(matches!(second[1], Effect::FocusWindow(1)));
    assert_eq!(orchestrator.windows.len(), 1);
}

#[test]
fn opening_main_window_brings_ocr_windows_to_front() {
    let mut orchestrator = create_test_orchestrator();
    orchestrator.windows.insert(40, AppWindow::InteractiveOcr);
    orchestrator.windows.insert(41, AppWindow::InteractiveOcr);
    orchestrator.windows.insert(42, AppWindow::Settings);

    let effects = orchestrator.handle_open_main_window(1);

    assert_eq!(effects.len(), 5);
    let mut raised: Vec<u64> = effects[3..]
        .iter()
        .map(|e| match e {
            Effect::BringToFront(id) => *id,
            _ => panic!("unexpected effect"),
        })
        .collect();
    raised.sort();
    assert_eq!(raised, vec![40, 41]);
    assert_eq!(orchestrator.window_ids_of_kind(AppWindow::Settings), vec![42]);
}

#[test]
fn closing_an_ocr_window_restores_main_and_resets_status() {
    let mut orchestrator = create_test_orchestrator();
    let _ = orchestrator.handle_open_main_window(1);
    orchestrator.windows.insert(9, AppWindow::InteractiveOcr);

    let effects = orchestrator.update(OrchestratorMessage::WindowClosed(9), 2, "linux");

    assert!(!orchestrator.windows.contains_key(&9));
    assert_eq!(orchestrator.status, "Ready - Press Alt+Shift+S to capture");
    assert_eq!(effects.len(), 1);
    assert!(matches!(effects[0], Effect::RestoreWindow(1)));
}

#[test]
fn closing_the_hidden_window_recreates_it() {
    let mut orchestrator = create_test_orchestrator();
    let _ = orchestrator.create_hidden_window(3);
    assert!(orchestrator.create_hidden_window(4).is_empty());

    let effects = orchestrator.handle_window_closed(3, 8);

    assert_eq!(orchestrator.hidden_window_id, Some(8));
    assert!(!orchestrator.windows.contains_key(&3));
    assert!(matches!(effects[0], Effect::OpenWindow(8, AppWindow::Hidden)));
}

#[test]
fn closing_the_settings_window_drops_the_draft() {
    let mut orchestrator = create_test_orchestrator();
    let _ = orchestrator.handle_open_settings(6);
    assert!(matches!(orchestrator.settings_edit_state, SettingsEditState::Editing(_)));

    let effects = orchestrator.handle_window_closed(6, 7);

    assert!(effects.is_empty());
    assert_eq!(orchestrator.settings_window_id, None);
    assert!(matches!(orchestrator.settings_edit_state, SettingsEditState::Closed));
}

#[test]
fn focusing_main_window_recovers_ocr_windows() {
    let mut orchestrator = create_test_orchestrator();
    let _ = orchestrator.handle_open_main_window(1);
    assert!(orchestrator.handle_window_focused(1).is_empty());
    orchestrator.windows.insert(5, AppWindow::InteractiveOcr);
    assert!(orchestrator.handle_window_focused(99).is_empty());

    let effects = orchestrator.handle_window_focused(1);

    assert_eq!(effects.len(), 2);
    assert!(matches!(effects[0], Effect::ActivateApp));
    assert!(matches!(effects[1], Effect::BringToFront(5)));
}

#[test]
fn escape_closes_overlay_or_resets_status() {
    let mut orchestrator = create_test_orchestrator();
    let effects = orchestrator.update(
        OrchestratorMessage::Keyboard(GlobalKeyboardEvent::EscapePressed),
        1,
        "linux",
    );
    assert!(effects.is_empty());
    assert_eq!(orchestrator.status, "Ready - Press Alt+Shift+S to capture");

    let _ = orchestrator.handle_open_capture_overlay(None, 12);
    assert_eq!(orchestrator.status, "Overlay ready!");
    let effects = orchestrator.handle_escape_pressed();
    assert_eq!(effects.len(), 1);
    assert!(is_close(&effects[0], 12));
}

#[test]
fn capture_hotkey_minimizes_main_window_then_captures() {
    let mut orchestrator = create_test_orchestrator();
    let _ = orchestrator.handle_open_main_window(1);

    let effects = orchestrator.update(
        OrchestratorMessage::Keyboard(GlobalKeyboardEvent::CaptureHotkeyPressed),
        2,
        "linux",
    );

    assert_eq!(orchestrator.status, "Preparing to capture...");
    assert_eq!(effects.len(), 2);
    assert!(matches!(effects[0], Effect::MinimizeWindow(1)));
    assert!(matches!(effects[1], Effect::CaptureAfterDelay));

    let effects = orchestrator.update(OrchestratorMessage::PerformCapture, 2, "linux");
    assert_eq!(orchestrator.status, "Capturing screen...");
    assert!(matches!(effects[0], Effect::CaptureAtPointer));
}

#[test]
fn missing_monitor_is_reported() {
    let mut orchestrator = create_test_orchestrator();
    let effects = orchestrator.update(
        OrchestratorMessage::OpenCaptureOverlay(5, -3, Some("no monitor".to_string())),
        3,
        "linux",
    );
    assert!(effects.is_empty());
    assert_eq!(orchestrator.status, "Monitor error: no monitor");
    assert_eq!(orchestrator.windows.len(), 0);
}

#[test]
fn confirming_a_selection_closes_the_overlay_and_shows_it() {
    let mut orchestrator = create_test_orchestrator();
    let _ = orchestrator.handle_open_capture_overlay(None, 12);

    let effects = orchestrator.update(
        OrchestratorMessage::CaptureOverlayMessage(12, OverlayRequest::ConfirmSelection(true)),
        13,
        "linux",
    );
    assert_eq!(orchestrator.status, "Processing selection...");
    assert_eq!(effects.len(), 2);
    assert!(is_close(&effects[0], 12));
    assert!(matches!(effects[1], Effect::ShowSelection(12)));

    let effects = orchestrator.handle_confirm_selection(12, false);
    assert_eq!(effects.len(), 1);
    assert!(is_close(&effects[0], 12));
}

#[test]
fn showing_a_crop_opens_an_ocr_window() {
    let mut orchestrator = create_test_orchestrator();
    let buffer = CaptureBuffer::build_from_raw_data(1.0f64.to_bits(), 4, 4, vec![7u8; 64]);

    let effects = orchestrator.update(
        OrchestratorMessage::ShowCroppedImage(buffer.clone(), 1, 1, 2, 2),
        20,
        "linux",
    );

    assert_eq!(orchestrator.status, "Ready");
    assert_eq!(orchestrator.window_ids_of_kind(AppWindow::InteractiveOcr), vec![20]);
    match &effects[0] {
        Effect::OpenOcrWindow(id, cropped) => {
            assert_eq!(*id, 20);
            assert_eq!(cropped.width, 2);
            assert_eq!(cropped.raw_data.len(), 16);
        }
        _ => panic!("expected an OCR window"),
    }

    let effects = orchestrator.update(
        OrchestratorMessage::ShowCroppedImage(buffer, 1, 1, 0, 2),
        21,
        "linux",
    );
    assert!(effects.is_empty());
    assert_eq!(orchestrator.status, "Error cropping image: Crop dimensions must be greater than zero");
}

#[test]
fn window_capture_shows_the_whole_image() {
    let mut orchestrator = create_test_orchestrator();
    let buffer = CaptureBuffer::build_from_raw_data(1.0f64.to_bits(), 3, 2, vec![1u8; 24]);

    let effects = orchestrator.update(OrchestratorMessage::WindowCaptureComplete(buffer), 30, "linux");

    match &effects[0] {
        Effect::OpenOcrWindow(30, cropped) => {
            assert_eq!(cropped.width, 3);
            assert_eq!(cropped.height, 2);
            assert_eq!(cropped.raw_data, vec![1u8; 24]);
        }
        _ => panic!("expected an OCR window"),
    }
}

#[test]
fn ocr_window_requests() {
    let mut orchestrator = create_test_orchestrator();
    orchestrator.windows.insert(5, AppWindow::InteractiveOcr);

    let effects = orchestrator.handle_interactive_ocr_message(5, OcrWindowRequest::StartOcr);
    assert_eq!(orchestrator.status, "Processing OCR...");
    assert!(matches!(effects[0], Effect::ProcessOcr(5)));

    let effects = orchestrator.update(OrchestratorMessage::OcrComplete(5, None), 1, "linux");
    assert!(effects.is_empty());
    assert_eq!(orchestrator.status, "OCR complete");

    let _ = orchestrator.update(OrchestratorMessage::OcrComplete(5, Some("bad".to_string())), 1, "linux");
    assert_eq!(orchestrator.status, "Ready - Press Alt+Shift+S to capture");

    let effects = orchestrator.handle_interactive_ocr_message(5, OcrWindowRequest::SearchSelected);
    assert!(matches!(effects[0], Effect::StartImageSearch(5)));
    let effects = orchestrator.handle_interactive_ocr_message(6, OcrWindowRequest::SearchSelected);
    assert!(effects.is_empty());
    let effects = orchestrator.handle_interactive_ocr_message(6, OcrWindowRequest::CancelOcr);
    assert!(is_close(&effects[0], 6));

    let effects = orchestrator.handle_interactive_ocr_message(5, OcrWindowRequest::Recrop);
    assert_eq!(effects.len(), 2);
    assert!(is_close(&effects[0], 5));
    assert!(matches!(effects[1], Effect::CaptureAfterDelay));
    assert_eq!(orchestrator.status, "Preparing to capture...");
}

#[test]
fn image_search_outcomes() {
    assert_eq!(image_search_failure_text(&ImageSearchOutcome::Completed), None);
    assert_eq!(
        image_search_failure_text(&ImageSearchOutcome::Failed("upload failed".to_string())),
        Some("upload failed - Update Settings > Image Hosting or use Copy Image to clipboard".to_string())
    );
    assert_eq!(
        image_search_failure_text(&ImageSearchOutcome::TimedOut),
        Some("Search timed out after 30 seconds - Update Settings > Image Hosting or use Copy Image to clipboard".to_string())
    );
    assert_eq!(search_query_option(""), None);
    assert_eq!(search_query_option("cats"), Some("cats".to_string()));
}

#[test]
fn tray_events() {
    let mut orchestrator = create_test_orchestrator();
    let effects = orchestrator.update(OrchestratorMessage::TrayEvent(TrayEvent::Quit), 1, "linux");
    assert!(matches!(effects[0], Effect::Exit));
    let effects = orchestrator.handle_tray_event(TrayEvent::OpenSettings, 2);
    assert!(matches!(effects[0], Effect::OpenWindow(2, AppWindow::Settings)));
    let effects = orchestrator.handle_tray_event(TrayEvent::OpenSettings, 3);
    assert!(matches!(effects[0], Effect::FocusWindow(2)));
}

#[test]
fn system_tray_mode_hides_or_shows_main_window() {
    let mut orchestrator = create_test_orchestrator();
    let effects = orchestrator.update(OrchestratorMessage::UpdateSystemTrayMode(false), 1, "linux");
    assert!(!orchestrator.settings.run_in_system_tray);
    assert!(matches!(effects[0], Effect::PersistSettings));
    assert!(matches!(effects[2], Effect::OpenWindow(1, AppWindow::Main)));

    let effects = orchestrator.update(OrchestratorMessage::UpdateSystemTrayMode(true), 2, "linux");
    assert!(orchestrator.settings.run_in_system_tray);
    assert_eq!(effects.len(), 2);
    assert!(is_close(&effects[1], 1));
}

#[test]
fn onboarding_flow() {
    let mut orchestrator = create_test_orchestrator();
    let effects = orchestrator.handle_open_onboarding(4);
    assert!(matches!(effects[0], Effect::OpenWindow(4, AppWindow::Onboarding)));
    assert!(orchestrator.handle_open_onboarding(5).is_empty());

    let _ = orchestrator.handle_onboarding_message(4, OnboardingRequest::ScreenRecordingSettingsOpened(false));
    assert_eq!(orchestrator.status, "Failed to open Screen Recording settings");

    let effects = orchestrator.update(
        OrchestratorMessage::OnboardingMsg(4, OnboardingRequest::Finish(true)),
        6,
        "linux",
    );
    assert!(orchestrator.settings.onboarding_complete);
    assert!(orchestrator.settings.launch_at_login);
    assert_eq!(orchestrator.onboarding_window_id, None);
    assert!(!orchestrator.windows.contains_key(&4));
    assert_eq!(effects.len(), 5);
    assert!(matches!(effects[1], Effect::SetLaunchAtLogin(true)));
    assert!(matches!(effects[3], Effect::Dispatch(FollowUp::OpenMainWindow)));
}

#[test]
fn window_picker_flow() {
    let mut orchestrator = create_test_orchestrator();
    let effects = orchestrator.update(OrchestratorMessage::OpenWindowPicker, 8, "linux");
    assert!(matches!(effects[1], Effect::LoadWindowList(8)));
    let effects = orchestrator.handle_open_window_picker(9);
    assert!(matches!(effects[0], Effect::FocusWindow(8)));

    let effects = orchestrator.handle_window_picker_message(8, PickerRequest::Confirm(None));
    assert!(effects.is_empty());
    assert_eq!(orchestrator.window_picker_window_id, Some(8));

    let effects =
        orchestrator.handle_window_picker_message(8, PickerRequest::Confirm(Some("Editor".to_string())));
    assert_eq!(orchestrator.window_picker_window_id, None);
    assert!(is_close(&effects[0], 8));
    assert!(matches!(&effects[1], Effect::FocusAppAndCapture(name) if name == "Editor"));

    let effects = orchestrator.update(OrchestratorMessage::CaptureSelectedWindow(77), 1, "linux");
    assert!(matches!(effects[0], Effect::CaptureWindow(77)));
}

#[test]
fn messages_are_described_without_their_values() {
    assert_eq!(OrchestratorMessage::OpenMainWindow.describe(), "OpenMainWindow");
    assert_eq!(
        OrchestratorMessage::OpenCaptureOverlay(-12, 340, None).describe(),
        "OpenCaptureOverlay(-12, 340)"
    );
    assert_eq!(
        OrchestratorMessage::OpenCaptureOverlay(i32::MIN, 0, None).describe(),
        "OpenCaptureOverlay(-2147483648, 0)"
    );
    assert_eq!(OrchestratorMessage::CaptureError("boom".to_string()).describe(), "CaptureError(boom)");
    assert_eq!(OrchestratorMessage::WindowClosed(42).describe(), "WindowClosed(42)");
    assert_eq!(OrchestratorMessage::OcrComplete(3, None).describe(), "OcrComplete(3, true)");
    assert_eq!(
        OrchestratorMessage::OcrComplete(3, Some("bad".to_string())).describe(),
        "OcrComplete(3, false)"
    );
    assert_eq!(
        OrchestratorMessage::UpdateImageHostingPublicKeyValue("secret".to_string()).describe(),
        "UpdateImageHostingPublicKeyValue"
    );
    assert_eq!(
        OrchestratorMessage::Keyboard(GlobalKeyboardEvent::EscapePressed).describe(),
        "Keyboard(EscapePressed)"
    );
    assert_eq!(OrchestratorMessage::TrayEvent(TrayEvent::Quit).describe(), "TrayEvent(Quit)");
    let windows = vec![WindowInfo::build(1, "A".to_string(), "".to_string(), 60, 60, false, None)];
    assert_eq!(
        OrchestratorMessage::WindowsListLoaded(7, windows).describe(),
        "WindowsListLoaded(7, 1 windows)"
    );
    let buffer = CaptureBuffer::build_from_raw_data(0, 1, 1, vec![0u8; 4]);
    assert_eq!(
        OrchestratorMessage::ShowCroppedImage(buffer, 1, 2, 30, 40).describe(),
        "ShowCroppedImage(1, 2, 30, 40)"
    );
}
