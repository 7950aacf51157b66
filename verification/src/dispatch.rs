//! The messages the orchestrator handles, and the one entry point that routes each of them.
use vstd::prelude::*;

use crate::capture_buffer::{rgba_size_fits, CaptureBuffer};
use crate::constants::{OCR_INITIALIZATION_FAILED_PREFIX, STATUS_READY};
use crate::image_hosting::image_hosting_settings_error;
use crate::keyboard::GlobalKeyboardEvent;
use crate::orchestrator::{
    begin_save_post, search_provider_changed, settings_update_post, AppOrchestrator,
    SettingsEditState, SettingsSavePlan, SettingsUpdate,
};
use crate::session_flow::{
    finish_settings_save_post, hide_main_window_post, ocr_complete_post, ocr_request_post,
    onboarding_request_post, open_onboarding_post, open_settings_post, open_window_picker_post,
    picker_request_post, system_tray_mode_post, tray_event_post, OcrWindowRequest,
    OnboardingRequest, PickerRequest,
};
use crate::numbers::{decimal_digits, decimal_text, signed_decimal_digits, signed_decimal_text};
use crate::text::{chars_of, concat_chars, string_from_chars};
use crate::tray::TrayEvent;
use crate::user_settings::{ImageHostingAuthMode, ImageUploadHttpMethod, ThemeMode};
use crate::window_info::WindowInfo;
use crate::window_flow::{
    capture_error_post, capture_screen_post, confirm_selection_post, create_hidden_window_post,
    escape_post, open_capture_overlay_post, open_main_window_post, perform_capture_post,
    show_cropped_image_post, status_set, window_closed_post, window_focused_post, Effect,
    FollowUp,
};

verus! {

/// What happened in a capture overlay.
#[derive(Debug, Clone, Copy, PartialEq, Eq, Structural)]
pub enum OverlayRequest {
    /// The selection was confirmed; whether the overlay holds a selected region.
    ConfirmSelection(bool),
    /// The user wants to pick a window instead.
    SelectWindow,
    /// Anything that only changes what the overlay shows.
    Other,
}

/// Everything the orchestrator reacts to.
#[derive(Debug, Clone)]
pub enum OrchestratorMessage {
    OpenMainWindow,
    CreateHiddenWindow,
    CaptureScreen,
    PerformCapture,
    /// The screen was captured at the pointer position (x, y); why no monitor was found there,
    /// if none was.
    OpenCaptureOverlay(i32, i32, Option<String>),
    CaptureError(String),
    CaptureOverlayMessage(u64, OverlayRequest),
    /// Confirm the selection of the overlay; whether it holds a selected region.
    ConfirmSelection(u64, bool),
    /// Crop the image to the rectangle at (x, y) of width × height pixels and show it.
    ShowCroppedImage(CaptureBuffer, u32, u32, u32, u32),
    /// Recognition finished for the window; its error, if it failed.
    OcrComplete(u64, Option<String>),
    OcrServiceReady,
    OcrServiceFailed(String),
    InteractiveOcrMessage(u64, OcrWindowRequest),
    SpinnerTick,
    CloseWindow(u64),
    WindowClosed(u64),
    WindowFocused(u64),
    Keyboard(GlobalKeyboardEvent),
    OpenSettings,
    UpdateSearchUrl(String),
    UpdateImageHostingProviderUrl(String),
    UpdateImageHostingAuthMode(ImageHostingAuthMode),
    UpdateImageHostingPublicKeyName(String),
    UpdateImageHostingPublicKeyValue(String),
    UpdateImageHostingExpirationSeconds(String),
    UpdateImageHostingHttpMethod(ImageUploadHttpMethod),
    UpdateImageHostingImageFieldName(String),
    UpdateHotkey(String),
    UpdateTheme(ThemeMode),
    UpdateSystemTrayMode(bool),
    SaveSettings,
    RestartApp,
    TrayEvent(TrayEvent),
    HideMainWindow,
    OpenOnboarding,
    OnboardingMsg(u64, OnboardingRequest),
    EnableKeyboardListener,
    CopyImageToClipboard(u64),
    SaveImageToFile(u64),
    OpenWindowPicker,
    WindowPickerMsg(u64, PickerRequest),
    /// The capturable windows were listed for the window picker.
    WindowsListLoaded(u64, Vec<WindowInfo>),
    FocusWindowAndCapture(String),
    CaptureSelectedWindow(u32),
    WindowCaptureComplete(CaptureBuffer),
    WindowCaptureError(String),
}

/// The settings edit that a message carries, if it is one.
pub open spec fn message_settings_update(m: OrchestratorMessage) -> Option<SettingsUpdate> {
    match m {
        OrchestratorMessage::UpdateSearchUrl(v) => Some(SettingsUpdate::SearchUrl(v)),
        OrchestratorMessage::UpdateImageHostingProviderUrl(v) => Some(
            SettingsUpdate::ImageHostingProviderUrl(v),
        ),
        OrchestratorMessage::UpdateImageHostingAuthMode(v) => Some(SettingsUpdate::ImageHostingAuthMode(v)),
        OrchestratorMessage::UpdateImageHostingPublicKeyName(v) => Some(
            SettingsUpdate::ImageHostingPublicKeyName(v),
        ),
        OrchestratorMessage::UpdateImageHostingPublicKeyValue(v) => Some(
            SettingsUpdate::ImageHostingPublicKeyValue(v),
        ),
        OrchestratorMessage::UpdateImageHostingExpirationSeconds(v) => Some(
            SettingsUpdate::ImageHostingExpirationSeconds(v),
        ),
        OrchestratorMessage::UpdateImageHostingHttpMethod(v) => Some(SettingsUpdate::ImageHostingHttpMethod(v)),
        OrchestratorMessage::UpdateImageHostingImageFieldName(v) => Some(
            SettingsUpdate::ImageHostingImageFieldName(v),
        ),
        OrchestratorMessage::UpdateHotkey(v) => Some(SettingsUpdate::Hotkey(v)),
        OrchestratorMessage::UpdateTheme(v) => Some(SettingsUpdate::Theme(v)),
        _ => None,
    }
}

/// A message carrying an image carries one whose byte count fits in a `u32`.
pub open spec fn message_is_supported(m: OrchestratorMessage) -> bool {
    match m {
        OrchestratorMessage::ShowCroppedImage(b, _, _, _, _) => rgba_size_fits(b.width as int, b.height as int),
        OrchestratorMessage::WindowCaptureComplete(b) => rgba_size_fits(b.width as int, b.height as int),
        _ => true,
    }
}

/// What a save request leads to in state `o`.
pub open spec fn save_plan(o: AppOrchestrator) -> SettingsSavePlan {
    match o.settings_edit_state {
        SettingsEditState::Closed => SettingsSavePlan::Abort,
        SettingsEditState::Editing(draft) => if image_hosting_settings_error(draft) is Some {
            SettingsSavePlan::Abort
        } else {
            SettingsSavePlan::Persist {
                hotkey_changed: draft.capture_hotkey@ != o.settings.capture_hotkey@,
                rebuild_search_provider: search_provider_changed(o.settings, draft),
            }
        },
    }
}

/// The effects of a save plan: committed settings are written.
pub open spec fn save_plan_effects(plan: SettingsSavePlan) -> Seq<Effect> {
    match plan {
        SettingsSavePlan::Abort => Seq::empty(),
        SettingsSavePlan::Persist { hotkey_changed, rebuild_search_provider } => seq![
            Effect::PersistEditedSettings { hotkey_changed, rebuild_search_provider },
        ],
    }
}

/// `n` is `o` and there is nothing to do.
pub open spec fn nothing_to_do(o: AppOrchestrator, n: AppOrchestrator, effects: Seq<Effect>) -> bool {
    n == o && effects == Seq::<Effect>::empty()
}

/// The state and effects after handling message `m`; `fresh_id` is the identifier reserved for a
/// window the handling may open, and `platform` the operating system the message about a capture
/// error is worded for.
pub open spec fn update_post(
    o: AppOrchestrator,
    n: AppOrchestrator,
    m: OrchestratorMessage,
    fresh_id: u64,
    platform: Seq<char>,
    effects: Seq<Effect>,
) -> bool {
    match message_settings_update(m) {
        Some(u) => settings_update_post(o, n, u) && effects == Seq::<Effect>::empty(),
        None => match m {
            OrchestratorMessage::OpenMainWindow => open_main_window_post(o, n, fresh_id, effects),
            OrchestratorMessage::CreateHiddenWindow => create_hidden_window_post(o, n, fresh_id, effects),
            OrchestratorMessage::CaptureScreen => capture_screen_post(o, n, effects),
            OrchestratorMessage::PerformCapture => perform_capture_post(o, n, effects),
            OrchestratorMessage::OpenCaptureOverlay(_, _, monitor) => open_capture_overlay_post(
                o,
                n,
                monitor,
                fresh_id,
                effects,
            ),
            OrchestratorMessage::CaptureError(e) => capture_error_post(o, n, e@, platform, effects),
            OrchestratorMessage::CaptureOverlayMessage(id, request) => match request {
                OverlayRequest::ConfirmSelection(has_selection) => confirm_selection_post(
                    o,
                    n,
                    id,
                    has_selection,
                    effects,
                ),
                OverlayRequest::SelectWindow => n == o && effects == seq![
                    Effect::CloseWindow(id),
                    Effect::Dispatch(FollowUp::OpenWindowPicker),
                ],
                OverlayRequest::Other => nothing_to_do(o, n, effects),
            },
            OrchestratorMessage::ConfirmSelection(id, has_selection) => confirm_selection_post(
                o,
                n,
                id,
                has_selection,
                effects,
            ),
            OrchestratorMessage::ShowCroppedImage(b, x, y, w, h) => show_cropped_image_post(
                o,
                n,
                b,
                x,
                y,
                w,
                h,
                fresh_id,
                effects,
            ),
            OrchestratorMessage::OcrComplete(id, e) => ocr_complete_post(o, n, id, e is None, effects),
            OrchestratorMessage::OcrServiceReady => status_set(o, n, STATUS_READY@) && effects
                == Seq::<Effect>::empty(),
            OrchestratorMessage::OcrServiceFailed(e) => status_set(
                o,
                n,
                OCR_INITIALIZATION_FAILED_PREFIX@ + e@,
            ) && effects == Seq::<Effect>::empty(),
            OrchestratorMessage::InteractiveOcrMessage(id, request) => ocr_request_post(
                o,
                n,
                id,
                request,
                effects,
            ),
            OrchestratorMessage::CloseWindow(id) => n == o && effects == seq![Effect::CloseWindow(id)],
            OrchestratorMessage::WindowClosed(id) => window_closed_post(o, n, id, fresh_id, effects),
            OrchestratorMessage::WindowFocused(id) => window_focused_post(o, n, id, effects),
            OrchestratorMessage::Keyboard(GlobalKeyboardEvent::CaptureHotkeyPressed) => capture_screen_post(
                o,
                n,
                effects,
            ),
            OrchestratorMessage::Keyboard(GlobalKeyboardEvent::EscapePressed) => escape_post(o, n, effects),
            OrchestratorMessage::OpenSettings => open_settings_post(o, n, fresh_id, effects),
            OrchestratorMessage::UpdateSystemTrayMode(enabled) => system_tray_mode_post(
                o,
                n,
                enabled,
                fresh_id,
                effects,
            ),
            OrchestratorMessage::SaveSettings => begin_save_post(o, n, save_plan(o)) && effects
                == save_plan_effects(save_plan(o)),
            OrchestratorMessage::RestartApp => n == o && effects == seq![Effect::Restart],
            OrchestratorMessage::TrayEvent(event) => tray_event_post(o, n, event, fresh_id, effects),
            OrchestratorMessage::HideMainWindow => hide_main_window_post(o, n, effects),
            OrchestratorMessage::OpenOnboarding => open_onboarding_post(o, n, fresh_id, effects),
            OrchestratorMessage::OnboardingMsg(id, request) => onboarding_request_post(
                o,
                n,
                id,
                request,
                effects,
            ),
            OrchestratorMessage::CopyImageToClipboard(id) => n == o && effects == seq![
                Effect::CopyImage(id),
            ],
            OrchestratorMessage::SaveImageToFile(id) => n == o && effects == seq![Effect::SaveImage(id)],
            OrchestratorMessage::OpenWindowPicker => open_window_picker_post(o, n, fresh_id, effects),
            OrchestratorMessage::WindowPickerMsg(id, request) => picker_request_post(
                o,
                n,
                id,
                request,
                effects,
            ),
            OrchestratorMessage::FocusWindowAndCapture(app_name) => n == o && effects == seq![
                Effect::FocusAppAndCapture(app_name),
            ],
            OrchestratorMessage::CaptureSelectedWindow(window_id) => n == (AppOrchestrator {
                window_picker_window_id: None,
                ..o
            }) && effects == seq![Effect::CaptureWindow(window_id)],
            OrchestratorMessage::WindowCaptureComplete(b) => show_cropped_image_post(
                o,
                n,
                b,
                0,
                0,
                b.width,
                b.height,
                fresh_id,
                effects,
            ),
            _ => nothing_to_do(o, n, effects),
        },
    }
}

/// The one effect `effect`.
fn single(effect: Effect) -> (effects: Vec<Effect>)
    ensures
        effects@ == seq![effect],
{
    let mut effects: Vec<Effect> = Vec::new();
    effects.push(effect);
    assert(effects@ =~= seq![effect]);
    effects
}

impl AppOrchestrator {
    /// Handles one message: updates the state and returns the effects to carry out, in order.
    pub fn update(&mut self, message: OrchestratorMessage, fresh_id: u64, platform: &str) -> (effects: Vec<
        Effect,
    >)
        requires
            message_is_supported(message),
        ensures
            update_post(*old(self), *final(self), message, fresh_id, platform@, effects@),
    {
        match message {
            OrchestratorMessage::OpenMainWindow => self.handle_open_main_window(fresh_id),
            OrchestratorMessage::CreateHiddenWindow => self.create_hidden_window(fresh_id),
            OrchestratorMessage::CaptureScreen => self.handle_capture_screen(),
            OrchestratorMessage::PerformCapture => self.handle_perform_capture(),
            OrchestratorMessage::OpenCaptureOverlay(_, _, monitor) => self.handle_open_capture_overlay(
                monitor,
                fresh_id,
            ),
            OrchestratorMessage::CaptureError(error_msg) => self.handle_capture_error(error_msg, platform),
            OrchestratorMessage::CaptureOverlayMessage(id, request) => match request {
                OverlayRequest::ConfirmSelection(has_selection) => self.handle_confirm_selection(
                    id,
                    has_selection,
                ),
                OverlayRequest::SelectWindow => {
                    let mut effects: Vec<Effect> = Vec::new();
                    effects.push(Effect::CloseWindow(id));
                    effects.push(Effect::Dispatch(FollowUp::OpenWindowPicker));
                    assert(effects@ =~= seq![
                        Effect::CloseWindow(id),
                        Effect::Dispatch(FollowUp::OpenWindowPicker),
                    ]);
                    effects
                },
                OverlayRequest::Other => Vec::new(),
            },
            OrchestratorMessage::ConfirmSelection(id, has_selection) => self.handle_confirm_selection(
                id,
                has_selection,
            ),
            OrchestratorMessage::ShowCroppedImage(buffer, x, y, w, h) => self.handle_show_cropped_image(
                &buffer,
                x,
                y,
                w,
                h,
                fresh_id,
            ),
            OrchestratorMessage::OcrComplete(id, error) => self.handle_ocr_complete(id, error),
            OrchestratorMessage::OcrServiceReady => self.handle_ocr_service_ready(),
            OrchestratorMessage::OcrServiceFailed(error) => self.handle_ocr_service_failed(error),
            OrchestratorMessage::InteractiveOcrMessage(id, request) => self.handle_interactive_ocr_message(
                id,
                request,
            ),
            OrchestratorMessage::SpinnerTick => Vec::new(),
            OrchestratorMessage::CloseWindow(id) => single(Effect::CloseWindow(id)),
            OrchestratorMessage::WindowClosed(id) => self.handle_window_closed(id, fresh_id),
            OrchestratorMessage::WindowFocused(id) => self.handle_window_focused(id),
            OrchestratorMessage::Keyboard(GlobalKeyboardEvent::CaptureHotkeyPressed) => self.handle_capture_screen(),
            OrchestratorMessage::Keyboard(GlobalKeyboardEvent::EscapePressed) => self.handle_escape_pressed(),
            OrchestratorMessage::OpenSettings => self.handle_open_settings(fresh_id),
            OrchestratorMessage::UpdateSearchUrl(v) => self.apply_settings_edit(SettingsUpdate::SearchUrl(v)),
            OrchestratorMessage::UpdateImageHostingProviderUrl(v) => self.apply_settings_edit(
                SettingsUpdate::ImageHostingProviderUrl(v),
            ),
            OrchestratorMessage::UpdateImageHostingAuthMode(v) => self.apply_settings_edit(
                SettingsUpdate::ImageHostingAuthMode(v),
            ),
            OrchestratorMessage::UpdateImageHostingPublicKeyName(v) => self.apply_settings_edit(
                SettingsUpdate::ImageHostingPublicKeyName(v),
            ),
            OrchestratorMessage::UpdateImageHostingPublicKeyValue(v) => self.apply_settings_edit(
                SettingsUpdate::ImageHostingPublicKeyValue(v),
            ),
            OrchestratorMessage::UpdateImageHostingExpirationSeconds(v) => self.apply_settings_edit(
                SettingsUpdate::ImageHostingExpirationSeconds(v),
            ),
            OrchestratorMessage::UpdateImageHostingHttpMethod(v) => self.apply_settings_edit(
                SettingsUpdate::ImageHostingHttpMethod(v),
            ),
            OrchestratorMessage::UpdateImageHostingImageFieldName(v) => self.apply_settings_edit(
                SettingsUpdate::ImageHostingImageFieldName(v),
            ),
            OrchestratorMessage::UpdateHotkey(v) => self.apply_settings_edit(SettingsUpdate::Hotkey(v)),
            OrchestratorMessage::UpdateTheme(v) => self.apply_settings_edit(SettingsUpdate::Theme(v)),
            OrchestratorMessage::UpdateSystemTrayMode(enabled) => self.handle_update_system_tray_mode(
                enabled,
                fresh_id,
            ),
            OrchestratorMessage::SaveSettings => {
                let plan = self.begin_settings_save();
                match plan {
                    SettingsSavePlan::Abort => Vec::new(),
                    SettingsSavePlan::Persist { hotkey_changed, rebuild_search_provider } => single(
                        Effect::PersistEditedSettings { hotkey_changed, rebuild_search_provider },
                    ),
                }
            },
            OrchestratorMessage::RestartApp => single(Effect::Restart),
            OrchestratorMessage::TrayEvent(event) => self.handle_tray_event(event, fresh_id),
            OrchestratorMessage::HideMainWindow => self.handle_hide_main_window(),
            OrchestratorMessage::OpenOnboarding => self.handle_open_onboarding(fresh_id),
            OrchestratorMessage::OnboardingMsg(id, request) => self.handle_onboarding_message(id, request),
            OrchestratorMessage::EnableKeyboardListener => Vec::new(),
            OrchestratorMessage::CopyImageToClipboard(id) => single(Effect::CopyImage(id)),
            OrchestratorMessage::SaveImageToFile(id) => single(Effect::SaveImage(id)),
            OrchestratorMessage::OpenWindowPicker => self.handle_open_window_picker(fresh_id),
            OrchestratorMessage::WindowPickerMsg(id, request) => self.handle_window_picker_message(id, request),
            OrchestratorMessage::WindowsListLoaded(_, _) => Vec::new(),
            OrchestratorMessage::FocusWindowAndCapture(app_name) => single(
                Effect::FocusAppAndCapture(app_name),
            ),
            OrchestratorMessage::CaptureSelectedWindow(window_id) => self.handle_capture_selected_window(
                window_id,
            ),
            OrchestratorMessage::WindowCaptureComplete(buffer) => {
                let width = buffer.width;
                let height = buffer.height;
                self.handle_show_cropped_image(&buffer, 0, 0, width, height, fresh_id)
            },
            OrchestratorMessage::WindowCaptureError(_) => Vec::new(),
        }
    }

    /// Applies a settings edit to the draft; there is nothing to carry out.
    fn apply_settings_edit(&mut self, update: SettingsUpdate) -> (effects: Vec<Effect>)
        ensures
            settings_update_post(*old(self), *final(self), update),
            effects@ == Seq::<Effect>::empty(),
    {
        let _ = self.update_settings_draft(update);
        Vec::new()
    }
}

/// `name`, then `detail` in parentheses.
pub open spec fn with_detail(name: Seq<char>, detail: Seq<char>) -> Seq<char> {
    name + "("@ + detail + ")"@
}

/// `a`, a comma and a space, then `b`.
pub open spec fn comma_joined(a: Seq<char>, b: Seq<char>) -> Seq<char> {
    a + ", "@ + b
}

/// The name of a keyboard event.
pub open spec fn keyboard_event_name(e: GlobalKeyboardEvent) -> Seq<char> {
    match e {
        GlobalKeyboardEvent::CaptureHotkeyPressed => "CaptureHotkeyPressed"@,
        GlobalKeyboardEvent::EscapePressed => "EscapePressed"@,
    }
}

/// The name of a tray event.
pub open spec fn tray_event_name(e: TrayEvent) -> Seq<char> {
    match e {
        TrayEvent::ShowWindow => "ShowWindow"@,
        TrayEvent::OpenSettings => "OpenSettings"@,
        TrayEvent::Quit => "Quit"@,
    }
}

/// How a message is written in the log: its name, with the identifiers and texts that tell
/// it apart; the values of settings edits and images are left out.
pub open spec fn message_description(m: OrchestratorMessage) -> Seq<char> {
    match m {
        OrchestratorMessage::OpenMainWindow => "OpenMainWindow"@,
        OrchestratorMessage::CreateHiddenWindow => "CreateHiddenWindow"@,
        OrchestratorMessage::CaptureScreen => "CaptureScreen"@,
        OrchestratorMessage::PerformCapture => "PerformCapture"@,
        OrchestratorMessage::OpenCaptureOverlay(x, y, _) => with_detail(
            "OpenCaptureOverlay"@,
            comma_joined(signed_decimal_digits(x as int), signed_decimal_digits(y as int)),
        ),
        OrchestratorMessage::CaptureError(e) => with_detail("CaptureError"@, e@),
        OrchestratorMessage::CaptureOverlayMessage(id, _) => with_detail(
            "CaptureOverlayMessage"@,
            decimal_digits(id as nat),
        ),
        OrchestratorMessage::ConfirmSelection(id, _) => with_detail("ConfirmSelection"@, decimal_digits(id as nat)),
        OrchestratorMessage::ShowCroppedImage(_, x, y, w, h) => with_detail(
            "ShowCroppedImage"@,
            comma_joined(
                comma_joined(decimal_digits(x as nat), decimal_digits(y as nat)),
                comma_joined(decimal_digits(w as nat), decimal_digits(h as nat)),
            ),
        ),
        OrchestratorMessage::OcrComplete(id, e) => with_detail(
            "OcrComplete"@,
            comma_joined(
                decimal_digits(id as nat),
                if e is None {
                    "true"@
                } else {
                    "false"@
                },
            ),
        ),
        OrchestratorMessage::OcrServiceReady => "OcrServiceReady"@,
        OrchestratorMessage::OcrServiceFailed(e) => with_detail("OcrServiceFailed"@, e@),
        OrchestratorMessage::InteractiveOcrMessage(id, _) => with_detail(
            "InteractiveOcrMessage"@,
            decimal_digits(id as nat),
        ),
        OrchestratorMessage::SpinnerTick => "SpinnerTick"@,
        OrchestratorMessage::CloseWindow(id) => with_detail("CloseWindow"@, decimal_digits(id as nat)),
        OrchestratorMessage::WindowClosed(id) => with_detail("WindowClosed"@, decimal_digits(id as nat)),
        OrchestratorMessage::WindowFocused(id) => with_detail("WindowFocused"@, decimal_digits(id as nat)),
        OrchestratorMessage::Keyboard(e) => with_detail("Keyboard"@, keyboard_event_name(e)),
        OrchestratorMessage::OpenSettings => "OpenSettings"@,
        OrchestratorMessage::UpdateSearchUrl(_) => "UpdateSearchUrl"@,
        OrchestratorMessage::UpdateImageHostingProviderUrl(_) => "UpdateImageHostingProviderUrl"@,
        OrchestratorMessage::UpdateImageHostingAuthMode(_) => "UpdateImageHostingAuthMode"@,
        OrchestratorMessage::UpdateImageHostingPublicKeyName(_) => "UpdateImageHostingPublicKeyName"@,
        OrchestratorMessage::UpdateImageHostingPublicKeyValue(_) => "UpdateImageHostingPublicKeyValue"@,
        OrchestratorMessage::UpdateImageHostingExpirationSeconds(_) => "UpdateImageHostingExpirationSeconds"@,
        OrchestratorMessage::UpdateImageHostingHttpMethod(_) => "UpdateImageHostingHttpMethod"@,
        OrchestratorMessage::UpdateImageHostingImageFieldName(_) => "UpdateImageHostingImageFieldName"@,
        OrchestratorMessage::UpdateHotkey(_) => "UpdateHotkey"@,
        OrchestratorMessage::UpdateTheme(_) => "UpdateTheme"@,
        OrchestratorMessage::UpdateSystemTrayMode(_) => "UpdateSystemTrayMode"@,
        OrchestratorMessage::SaveSettings => "SaveSettings"@,
        OrchestratorMessage::RestartApp => "RestartApp"@,
        OrchestratorMessage::TrayEvent(e) => with_detail("TrayEvent"@, tray_event_name(e)),
        OrchestratorMessage::HideMainWindow => "HideMainWindow"@,
        OrchestratorMessage::OpenOnboarding => "OpenOnboarding"@,
        OrchestratorMessage::OnboardingMsg(id, _) => with_detail("OnboardingMsg"@, decimal_digits(id as nat)),
        OrchestratorMessage::EnableKeyboardListener => "EnableKeyboardListener"@,
        OrchestratorMessage::CopyImageToClipboard(id) => with_detail(
            "CopyImageToClipboard"@,
            decimal_digits(id as nat),
        ),
        OrchestratorMessage::SaveImageToFile(id) => with_detail("SaveImageToFile"@, decimal_digits(id as nat)),
        OrchestratorMessage::OpenWindowPicker => "OpenWindowPicker"@,
        OrchestratorMessage::WindowPickerMsg(id, _) => with_detail("WindowPickerMsg"@, decimal_digits(id as nat)),
        OrchestratorMessage::WindowsListLoaded(id, windows) => with_detail(
            "WindowsListLoaded"@,
            comma_joined(decimal_digits(id as nat), decimal_digits(windows.len() as nat) + " windows"@),
        ),
        OrchestratorMessage::FocusWindowAndCapture(app_name) => with_detail(
            "FocusWindowAndCapture"@,
            app_name@,
        ),
        OrchestratorMessage::CaptureSelectedWindow(id) => with_detail(
            "CaptureSelectedWindow"@,
            decimal_digits(id as nat),
        ),
        OrchestratorMessage::WindowCaptureComplete(_) => "WindowCaptureComplete"@,
        OrchestratorMessage::WindowCaptureError(e) => with_detail("WindowCaptureError"@, e@),
    }
}

/// `name`, then `detail` in parentheses.
fn detailed(name: &str, detail: &Vec<char>) -> (s: String)
    ensures
        s@ == with_detail(name@, detail@),
{
    let opened = concat_chars(&concat_chars(&chars_of(name), &chars_of("(")), detail);
    string_from_chars(&concat_chars(&opened, &chars_of(")")))
}

/// `a`, a comma and a space, then `b`.
fn joined(a: &Vec<char>, b: &Vec<char>) -> (out: Vec<char>)
    ensures
        out@ == comma_joined(a@, b@),
{
    concat_chars(&concat_chars(a, &chars_of(", ")), b)
}

/// The decimal notation of an identifier.
fn id_text(id: u64) -> (text: Vec<char>)
    ensures
        text@ == decimal_digits(id as nat),
{
    decimal_text(id)
}

impl OrchestratorMessage {
    /// How the message is written in the log.
    pub fn describe(&self) -> (s: String)
        ensures
            s@ == message_description(*self),
    {
        match self {
            OrchestratorMessage::OpenMainWindow => String::from_str("OpenMainWindow"),
            OrchestratorMessage::CreateHiddenWindow => String::from_str("CreateHiddenWindow"),
            OrchestratorMessage::CaptureScreen => String::from_str("CaptureScreen"),
            OrchestratorMessage::PerformCapture => String::from_str("PerformCapture"),
            OrchestratorMessage::OpenCaptureOverlay(x, y, _) => detailed(
                "OpenCaptureOverlay",
                &joined(&signed_decimal_text(*x), &signed_decimal_text(*y)),
            ),
            OrchestratorMessage::CaptureError(e) => detailed("CaptureError", &chars_of(e.as_str())),
            OrchestratorMessage::CaptureOverlayMessage(id, _) => detailed("CaptureOverlayMessage", &id_text(*id)),
            OrchestratorMessage::ConfirmSelection(id, _) => detailed("ConfirmSelection", &id_text(*id)),
            OrchestratorMessage::ShowCroppedImage(_, x, y, w, h) => detailed(
                "ShowCroppedImage",
                &joined(
                    &joined(&decimal_text(*x as u64), &decimal_text(*y as u64)),
                    &joined(&decimal_text(*w as u64), &decimal_text(*h as u64)),
                ),
            ),
            OrchestratorMessage::OcrComplete(id, e) => {
                let outcome = match e {
                    None => chars_of("true"),
                    Some(_) => chars_of("false"),
                };
                detailed("OcrComplete", &joined(&id_text(*id), &outcome))
            },
            OrchestratorMessage::OcrServiceReady => String::from_str("OcrServiceReady"),
            OrchestratorMessage::OcrServiceFailed(e) => detailed("OcrServiceFailed", &chars_of(e.as_str())),
            OrchestratorMessage::InteractiveOcrMessage(id, _) => detailed("InteractiveOcrMessage", &id_text(*id)),
            OrchestratorMessage::SpinnerTick => String::from_str("SpinnerTick"),
            OrchestratorMessage::CloseWindow(id) => detailed("CloseWindow", &id_text(*id)),
            OrchestratorMessage::WindowClosed(id) => detailed("WindowClosed", &id_text(*id)),
            OrchestratorMessage::WindowFocused(id) => detailed("WindowFocused", &id_text(*id)),
            OrchestratorMessage::Keyboard(e) => {
                let name = match e {
                    GlobalKeyboardEvent::CaptureHotkeyPressed => chars_of("CaptureHotkeyPressed"),
                    GlobalKeyboardEvent::EscapePressed => chars_of("EscapePressed"),
                };
                detailed("Keyboard", &name)
            },
            OrchestratorMessage::OpenSettings => String::from_str("OpenSettings"),
            OrchestratorMessage::UpdateSearchUrl(_) => String::from_str("UpdateSearchUrl"),
            OrchestratorMessage::UpdateImageHostingProviderUrl(_) => String::from_str(
                "UpdateImageHostingProviderUrl",
            ),
            OrchestratorMessage::UpdateImageHostingAuthMode(_) => String::from_str("UpdateImageHostingAuthMode"),
            OrchestratorMessage::UpdateImageHostingPublicKeyName(_) => String::from_str(
                "UpdateImageHostingPublicKeyName",
            ),
            OrchestratorMessage::UpdateImageHostingPublicKeyValue(_) => String::from_str(
                "UpdateImageHostingPublicKeyValue",
            ),
            OrchestratorMessage::UpdateImageHostingExpirationSeconds(_) => String::from_str(
                "UpdateImageHostingExpirationSeconds",
            ),
            OrchestratorMessage::UpdateImageHostingHttpMethod(_) => String::from_str(
                "UpdateImageHostingHttpMethod",
            ),
            OrchestratorMessage::UpdateImageHostingImageFieldName(_) => String::from_str(
                "UpdateImageHostingImageFieldName",
            ),
            OrchestratorMessage::UpdateHotkey(_) => String::from_str("UpdateHotkey"),
            OrchestratorMessage::UpdateTheme(_) => String::from_str("UpdateTheme"),
            OrchestratorMessage::UpdateSystemTrayMode(_) => String::from_str("UpdateSystemTrayMode"),
            OrchestratorMessage::SaveSettings => String::from_str("SaveSettings"),
            OrchestratorMessage::RestartApp => String::from_str("RestartApp"),
            OrchestratorMessage::TrayEvent(e) => {
                let name = match e {
                    TrayEvent::ShowWindow => chars_of("ShowWindow"),
                    TrayEvent::OpenSettings => chars_of("OpenSettings"),
                    TrayEvent::Quit => chars_of("Quit"),
                };
                detailed("TrayEvent", &name)
            },
            OrchestratorMessage::HideMainWindow => String::from_str("HideMainWindow"),
            OrchestratorMessage::OpenOnboarding => String::from_str("OpenOnboarding"),
            OrchestratorMessage::OnboardingMsg(id, _) => detailed("OnboardingMsg", &id_text(*id)),
            OrchestratorMessage::EnableKeyboardListener => String::from_str("EnableKeyboardListener"),
            OrchestratorMessage::CopyImageToClipboard(id) => detailed("CopyImageToClipboard", &id_text(*id)),
            OrchestratorMessage::SaveImageToFile(id) => detailed("SaveImageToFile", &id_text(*id)),
            OrchestratorMessage::OpenWindowPicker => String::from_str("OpenWindowPicker"),
            OrchestratorMessage::WindowPickerMsg(id, _) => detailed("WindowPickerMsg", &id_text(*id)),
            OrchestratorMessage::WindowsListLoaded(id, windows) => {
                let count = concat_chars(&decimal_text(windows.len() as u64), &chars_of(" windows"));
                detailed("WindowsListLoaded", &joined(&id_text(*id), &count))
            },
            OrchestratorMessage::FocusWindowAndCapture(app_name) => detailed(
                "FocusWindowAndCapture",
                &chars_of(app_name.as_str()),
            ),
            OrchestratorMessage::CaptureSelectedWindow(id) => detailed(
                "CaptureSelectedWindow",
                &decimal_text(*id as u64),
            ),
            OrchestratorMessage::WindowCaptureComplete(_) => String::from_str("WindowCaptureComplete"),
            OrchestratorMessage::WindowCaptureError(e) => detailed("WindowCaptureError", &chars_of(e.as_str())),
        }
    }
}

} // verus!
