//! How the orchestrator answers the OCR result windows, the settings, onboarding and window
//! picker windows, and the tray menu.
use vstd::prelude::*;

use crate::constants::{
    IMAGE_SEARCH_FAILURE_SUFFIX, IMAGE_SEARCH_TIMEOUT_MESSAGE, OCR_INITIALIZATION_FAILED_PREFIX,
    STATUS_OCR_COMPLETE, STATUS_ONBOARDING_INPUT_MONITORING_FAILED,
    STATUS_ONBOARDING_SCREEN_RECORDING_FAILED, STATUS_PROCESSING_OCR, STATUS_READY,
    STATUS_SETTINGS_SAVED, STATUS_SETTINGS_SAVE_FAILED_PREFIX,
};
use crate::orchestrator::{is_window_of_kind, prefixed, AppOrchestrator, AppWindow, SettingsEditState};
use crate::text::chars_of;
use crate::tray::TrayEvent;
use crate::user_settings::UserSettings;
use crate::window_flow::{
    capture_screen_post, open_main_window_post, status_set, Effect, FollowUp,
};

verus! {

broadcast use vstd::std_specs::hash::group_hash_axioms;

/// What the user asked for in an OCR result window.
#[derive(Debug, Clone, Copy, PartialEq, Eq, Structural)]
pub enum OcrWindowRequest {
    Close,
    SearchSelected,
    CopySelected,
    CopyImage,
    SaveImage,
    Recrop,
    StartOcr,
    CancelOcr,
    RetryOcr,
    /// Anything that only changes what the window shows.
    Other,
}

/// What the user asked for in the window picker.
#[derive(Debug, Clone)]
pub enum PickerRequest {
    /// Capture the selected window; it carries the selected window's application name, if a
    /// window is selected.
    Confirm(Option<String>),
    Cancel,
    Refresh,
    CaptureFullScreen,
    /// Anything that only changes what the window shows.
    Other,
}

/// What happened in the onboarding window.
#[derive(Debug, Clone, Copy, PartialEq, Eq, Structural)]
pub enum OnboardingRequest {
    /// The Screen Recording settings were asked for; whether they opened.
    ScreenRecordingSettingsOpened(bool),
    /// The Input Monitoring settings were asked for; whether they opened.
    InputMonitoringSettingsOpened(bool),
    /// Onboarding is done; whether the window's launch-at-login switch is on.
    Finish(bool),
    /// Anything that only changes what the window shows.
    Other,
}

/// How an image search ended.
#[derive(Debug, Clone)]
pub enum ImageSearchOutcome {
    Completed,
    Failed(String),
    TimedOut,
}

/// The failure text shown in the OCR result window for an image search outcome.
pub open spec fn image_search_failure(outcome: ImageSearchOutcome) -> Option<Seq<char>> {
    match outcome {
        ImageSearchOutcome::Completed => None,
        ImageSearchOutcome::Failed(e) => Some(e@ + IMAGE_SEARCH_FAILURE_SUFFIX@),
        ImageSearchOutcome::TimedOut => Some(IMAGE_SEARCH_TIMEOUT_MESSAGE@),
    }
}

/// The failure text for an image search outcome; `None` when the search completed.
pub fn image_search_failure_text(outcome: &ImageSearchOutcome) -> (text: Option<String>)
    ensures
        match image_search_failure(*outcome) {
            Some(t) => text matches Some(s) && s@ == t,
            None => text is None,
        },
{
    match outcome {
        ImageSearchOutcome::Completed => None,
        ImageSearchOutcome::Failed(e) => Some(prefixed(e.as_str(), IMAGE_SEARCH_FAILURE_SUFFIX)),
        ImageSearchOutcome::TimedOut => Some(String::from_str(IMAGE_SEARCH_TIMEOUT_MESSAGE)),
    }
}

/// The search query of an OCR result window: none when it is empty.
pub fn search_query_option(query: &str) -> (q: Option<String>)
    ensures
        query@.len() == 0 ==> q is None,
        query@.len() > 0 ==> (q matches Some(s) && s@ == query@),
{
    if chars_of(query).len() == 0 {
        None
    } else {
        Some(String::from_str(query))
    }
}

/// Recognition finished for window `id`: on success the status says so (when the window is
/// still open); on failure the status becomes ready.
pub open spec fn ocr_complete_post(
    o: AppOrchestrator,
    n: AppOrchestrator,
    id: u64,
    succeeded: bool,
    effects: Seq<Effect>,
) -> bool {
    &&& effects == Seq::<Effect>::empty()
    &&& if !succeeded {
        status_set(o, n, STATUS_READY@)
    } else if is_window_of_kind(o.windows@, id, AppWindow::InteractiveOcr) {
        status_set(o, n, STATUS_OCR_COMPLETE@)
    } else {
        n == o
    }
}

/// Recognition is requested for window `id`: when it is an open OCR result window, the status
/// says so and recognition runs.
pub open spec fn start_ocr_post(o: AppOrchestrator, n: AppOrchestrator, id: u64, effects: Seq<Effect>) -> bool {
    if is_window_of_kind(o.windows@, id, AppWindow::InteractiveOcr) {
        status_set(o, n, STATUS_PROCESSING_OCR@) && effects == seq![Effect::ProcessOcr(id)]
    } else {
        n == o && effects == Seq::<Effect>::empty()
    }
}

/// `effect` alone when window `id` is an open OCR result window; nothing otherwise.
pub open spec fn if_ocr_window(o: AppOrchestrator, id: u64, effect: Effect) -> Seq<Effect> {
    if is_window_of_kind(o.windows@, id, AppWindow::InteractiveOcr) {
        seq![effect]
    } else {
        Seq::empty()
    }
}

/// The answer to a request from OCR result window `id`.
pub open spec fn ocr_request_post(
    o: AppOrchestrator,
    n: AppOrchestrator,
    id: u64,
    request: OcrWindowRequest,
    effects: Seq<Effect>,
) -> bool {
    match request {
        OcrWindowRequest::Close | OcrWindowRequest::CancelOcr => n == o && effects == seq![
            Effect::CloseWindow(id),
        ],
        OcrWindowRequest::SearchSelected => n == o && effects == if_ocr_window(
            o,
            id,
            Effect::StartImageSearch(id),
        ),
        OcrWindowRequest::CopySelected => n == o && effects == seq![Effect::HideToastLater(id)],
        OcrWindowRequest::CopyImage => n == o && effects == if_ocr_window(o, id, Effect::CopyImage(id)),
        OcrWindowRequest::SaveImage => n == o && effects == if_ocr_window(o, id, Effect::SaveImage(id)),
        OcrWindowRequest::Recrop => if is_window_of_kind(o.windows@, id, AppWindow::InteractiveOcr) {
            &&& effects.len() >= 1
            &&& effects[0] == Effect::CloseWindow(id)
            &&& capture_screen_post(o, n, effects.skip(1))
        } else {
            n == o && effects == Seq::<Effect>::empty()
        },
        OcrWindowRequest::StartOcr | OcrWindowRequest::RetryOcr => start_ocr_post(o, n, id, effects),
        OcrWindowRequest::Other => n == o && effects == Seq::<Effect>::empty(),
    }
}

/// Opening the settings window: focused when open, else opened with a fresh draft.
pub open spec fn open_settings_post(o: AppOrchestrator, n: AppOrchestrator, fresh_id: u64, effects: Seq<Effect>) -> bool {
    match o.settings_window_id {
        Some(id) => n == o && effects == seq![Effect::FocusWindow(id)],
        None => {
            &&& n == AppOrchestrator {
                windows: n.windows,
                settings_window_id: Some(fresh_id),
                settings_edit_state: SettingsEditState::Editing(o.settings),
                ..o
            }
            &&& n.windows@ == o.windows@.insert(fresh_id, AppWindow::Settings)
            &&& effects == seq![Effect::OpenWindow(fresh_id, AppWindow::Settings)]
        },
    }
}

/// Closing the settings window, when it is open.
pub open spec fn close_settings_effects(o: AppOrchestrator) -> Seq<Effect> {
    match o.settings_window_id {
        Some(id) => seq![Effect::CloseWindow(id)],
        None => Seq::empty(),
    }
}

/// After committed settings were written (or failed to be): the status reports it; on success
/// the search is rebuilt when its settings changed, and a changed hotkey restarts the
/// application; otherwise the settings window closes.
pub open spec fn finish_settings_save_post(
    o: AppOrchestrator,
    n: AppOrchestrator,
    hotkey_changed: bool,
    rebuild_search_provider: bool,
    save_error: Option<String>,
    effects: Seq<Effect>,
) -> bool {
    match save_error {
        Some(e) => {
            &&& status_set(o, n, STATUS_SETTINGS_SAVE_FAILED_PREFIX@ + e@)
            &&& effects == close_settings_effects(o)
        },
        None => {
            &&& status_set(o, n, STATUS_SETTINGS_SAVED@)
            &&& effects == (if rebuild_search_provider {
                seq![Effect::RebuildSearchProvider]
            } else {
                Seq::empty()
            }) + (if hotkey_changed {
                seq![Effect::Dispatch(FollowUp::RestartApp)]
            } else {
                close_settings_effects(o)
            })
        },
    }
}

/// Hiding the main window closes it, when it is recorded.
pub open spec fn hide_main_window_post(o: AppOrchestrator, n: AppOrchestrator, effects: Seq<Effect>) -> bool {
    &&& n == o
    &&& effects == match o.main_window_id {
        Some(id) => seq![Effect::CloseWindow(id)],
        None => Seq::<Effect>::empty(),
    }
}

/// `o` with the system-tray setting set to `enabled`.
pub open spec fn with_system_tray(o: AppOrchestrator, enabled: bool) -> AppOrchestrator {
    AppOrchestrator { settings: UserSettings { run_in_system_tray: enabled, ..o.settings }, ..o }
}

/// Switching the system-tray mode: the setting is stored and written; then the main window is
/// hidden (tray mode) or shown.
pub open spec fn system_tray_mode_post(
    o: AppOrchestrator,
    n: AppOrchestrator,
    enabled: bool,
    fresh_id: u64,
    effects: Seq<Effect>,
) -> bool {
    &&& effects.len() >= 1
    &&& effects[0] == Effect::PersistSettings
    &&& if enabled {
        hide_main_window_post(with_system_tray(o, enabled), n, effects.skip(1))
    } else {
        open_main_window_post(with_system_tray(o, enabled), n, fresh_id, effects.skip(1))
    }
}

/// The answer to a click in the tray menu.
pub open spec fn tray_event_post(
    o: AppOrchestrator,
    n: AppOrchestrator,
    event: TrayEvent,
    fresh_id: u64,
    effects: Seq<Effect>,
) -> bool {
    match event {
        TrayEvent::ShowWindow => open_main_window_post(o, n, fresh_id, effects),
        TrayEvent::OpenSettings => open_settings_post(o, n, fresh_id, effects),
        TrayEvent::Quit => n == o && effects == seq![Effect::Exit],
    }
}

/// Opening the onboarding window, unless it is open.
pub open spec fn open_onboarding_post(o: AppOrchestrator, n: AppOrchestrator, fresh_id: u64, effects: Seq<Effect>) -> bool {
    if o.onboarding_window_id matches Some(id) && o.windows@.contains_key(id) {
        n == o && effects == Seq::<Effect>::empty()
    } else {
        &&& n == AppOrchestrator { windows: n.windows, onboarding_window_id: Some(fresh_id), ..o }
        &&& n.windows@ == o.windows@.insert(fresh_id, AppWindow::Onboarding)
        &&& effects == seq![Effect::OpenWindow(fresh_id, AppWindow::Onboarding)]
    }
}

/// The answer to an event of onboarding window `id`. Finishing records that onboarding is
/// complete and the launch-at-login choice (off unless `id` is the open onboarding window),
/// writes the settings, applies the choice, closes the window and opens the main window.
pub open spec fn onboarding_request_post(
    o: AppOrchestrator,
    n: AppOrchestrator,
    id: u64,
    request: OnboardingRequest,
    effects: Seq<Effect>,
) -> bool {
    match request {
        OnboardingRequest::ScreenRecordingSettingsOpened(opened) => {
            &&& effects == Seq::<Effect>::empty()
            &&& if opened {
                n == o
            } else {
                status_set(o, n, STATUS_ONBOARDING_SCREEN_RECORDING_FAILED@)
            }
        },
        OnboardingRequest::InputMonitoringSettingsOpened(opened) => {
            &&& effects == Seq::<Effect>::empty()
            &&& if opened {
                n == o
            } else {
                status_set(o, n, STATUS_ONBOARDING_INPUT_MONITORING_FAILED@)
            }
        },
        OnboardingRequest::Finish(choice) => {
            let launch = is_window_of_kind(o.windows@, id, AppWindow::Onboarding) && choice;
            &&& n == AppOrchestrator {
                windows: n.windows,
                onboarding_window_id: None,
                settings: UserSettings { onboarding_complete: true, launch_at_login: launch, ..o.settings },
                ..o
            }
            &&& n.windows@ == o.windows@.remove(id)
            &&& effects == seq![
                Effect::PersistSettings,
                Effect::SetLaunchAtLogin(launch),
                Effect::CloseWindow(id),
                Effect::Dispatch(FollowUp::OpenMainWindow),
                Effect::Dispatch(FollowUp::EnableKeyboardListener),
            ]
        },
        OnboardingRequest::Other => n == o && effects == Seq::<Effect>::empty(),
    }
}

/// Opening the window picker: focused when open, else opened and its list loaded.
pub open spec fn open_window_picker_post(o: AppOrchestrator, n: AppOrchestrator, fresh_id: u64, effects: Seq<Effect>) -> bool {
    match o.window_picker_window_id {
        Some(id) => n == o && effects == seq![Effect::FocusWindow(id)],
        None => {
            &&& n == AppOrchestrator { windows: n.windows, window_picker_window_id: Some(fresh_id), ..o }
            &&& n.windows@ == o.windows@.insert(fresh_id, AppWindow::WindowPicker)
            &&& effects == seq![
                Effect::OpenWindow(fresh_id, AppWindow::WindowPicker),
                Effect::LoadWindowList(fresh_id),
            ]
        },
    }
}

/// The answer to a request from window picker `id`.
pub open spec fn picker_request_post(
    o: AppOrchestrator,
    n: AppOrchestrator,
    id: u64,
    request: PickerRequest,
    effects: Seq<Effect>,
) -> bool {
    match request {
        PickerRequest::Confirm(None) => n == o && effects == Seq::<Effect>::empty(),
        PickerRequest::Confirm(Some(app_name)) => {
            &&& n == AppOrchestrator { window_picker_window_id: None, ..o }
            &&& effects == seq![Effect::CloseWindow(id), Effect::FocusAppAndCapture(app_name)]
        },
        PickerRequest::Cancel => {
            &&& n == AppOrchestrator { window_picker_window_id: None, ..o }
            &&& effects == seq![Effect::CloseWindow(id)]
        },
        PickerRequest::Refresh => n == o && effects == seq![Effect::LoadWindowList(id)],
        PickerRequest::CaptureFullScreen => n == o && effects == seq![
            Effect::CloseWindow(id),
            Effect::Dispatch(FollowUp::CaptureScreen),
        ],
        PickerRequest::Other => n == o && effects == Seq::<Effect>::empty(),
    }
}

impl AppOrchestrator {
    /// Recognition finished for window `window_id`; `error` is its error, if it failed.
    pub fn handle_ocr_complete(&mut self, window_id: u64, error: Option<String>) -> (effects: Vec<
        Effect,
    >)
        ensures
            ocr_complete_post(*old(self), *final(self), window_id, error is None, effects@),
    {
        match error {
            None => {
                if self.has_window_kind(window_id, AppWindow::InteractiveOcr) {
                    self.status = String::from_str(STATUS_OCR_COMPLETE);
                }
            },
            Some(_) => {
                self.status = String::from_str(STATUS_READY);
            },
        }
        Vec::new()
    }

    /// The text recognizer is ready.
    pub fn handle_ocr_service_ready(&mut self) -> (effects: Vec<Effect>)
        ensures
            status_set(*old(self), *final(self), STATUS_READY@),
            effects@ == Seq::<Effect>::empty(),
    {
        self.status = String::from_str(STATUS_READY);
        Vec::new()
    }

    /// The text recognizer could not be set up.
    pub fn handle_ocr_service_failed(&mut self, error: String) -> (effects: Vec<Effect>)
        ensures
            status_set(*old(self), *final(self), OCR_INITIALIZATION_FAILED_PREFIX@ + error@),
            effects@ == Seq::<Effect>::empty(),
    {
        self.status = prefixed(OCR_INITIALIZATION_FAILED_PREFIX, error.as_str());
        Vec::new()
    }

    /// Starts recognition in OCR result window `window_id`.
    pub fn start_ocr_processing(&mut self, window_id: u64) -> (effects: Vec<Effect>)
        ensures
            start_ocr_post(*old(self), *final(self), window_id, effects@),
    {
        let mut effects: Vec<Effect> = Vec::new();
        if !self.has_window_kind(window_id, AppWindow::InteractiveOcr) {
            return effects;
        }
        self.status = String::from_str(STATUS_PROCESSING_OCR);
        effects.push(Effect::ProcessOcr(window_id));
        assert(effects@ =~= seq![Effect::ProcessOcr(window_id)]);
        effects
    }

    /// `effect` alone when `window_id` is an open OCR result window.
    fn effect_for_ocr_window(&self, window_id: u64, effect: Effect) -> (effects: Vec<Effect>)
        ensures
            effects@ == if_ocr_window(*self, window_id, effect),
    {
        let mut effects: Vec<Effect> = Vec::new();
        if self.has_window_kind(window_id, AppWindow::InteractiveOcr) {
            effects.push(effect);
            assert(effects@ =~= seq![effect]);
        }
        effects
    }

    /// Answers a request from OCR result window `window_id`.
    pub fn handle_interactive_ocr_message(&mut self, window_id: u64, request: OcrWindowRequest) -> (effects:
        Vec<Effect>)
        ensures
            ocr_request_post(*old(self), *final(self), window_id, request, effects@),
            is_window_of_kind(old(self).windows@, window_id, AppWindow::InteractiveOcr) ==> (
            request == OcrWindowRequest::SaveImage ==> effects@ == seq![Effect::SaveImage(window_id)]),
            is_window_of_kind(old(self).windows@, window_id, AppWindow::InteractiveOcr) ==> (
            request == OcrWindowRequest::CopyImage ==> effects@ == seq![Effect::CopyImage(window_id)]),
            forall|i: int|
                0 <= i < effects@.len() && #[trigger] effects@[i] is CopyImage ==> request
                    == OcrWindowRequest::CopyImage,
            forall|i: int|
                0 <= i < effects@.len() && #[trigger] effects@[i] is SaveImage ==> request
                    == OcrWindowRequest::SaveImage,
    {
        let effects = match request {
            OcrWindowRequest::Close | OcrWindowRequest::CancelOcr => {
                let mut effects: Vec<Effect> = Vec::new();
                effects.push(Effect::CloseWindow(window_id));
                assert(effects@ =~= seq![Effect::CloseWindow(window_id)]);
                effects
            },
            OcrWindowRequest::SearchSelected => self.effect_for_ocr_window(
                window_id,
                Effect::StartImageSearch(window_id),
            ),
            OcrWindowRequest::CopySelected => {
                let mut effects: Vec<Effect> = Vec::new();
                effects.push(Effect::HideToastLater(window_id));
                assert(effects@ =~= seq![Effect::HideToastLater(window_id)]);
                effects
            },
            OcrWindowRequest::CopyImage => self.effect_for_ocr_window(window_id, Effect::CopyImage(window_id)),
            OcrWindowRequest::SaveImage => self.effect_for_ocr_window(window_id, Effect::SaveImage(window_id)),
            OcrWindowRequest::Recrop => {
                if !self.has_window_kind(window_id, AppWindow::InteractiveOcr) {
                    Vec::new()
                } else {
                    let mut effects: Vec<Effect> = Vec::new();
                    effects.push(Effect::CloseWindow(window_id));
                    let mut capture = self.handle_capture_screen();
                    let ghost capture_effects = capture@;
                    effects.append(&mut capture);
                    assert(effects@.skip(1) =~= capture_effects);
                    effects
                }
            },
            OcrWindowRequest::StartOcr | OcrWindowRequest::RetryOcr => self.start_ocr_processing(window_id),
            OcrWindowRequest::Other => Vec::new(),
        };
        proof {
            law_ocr_requests_do_what_they_name(*old(self), *self, window_id, request, effects@);
        }
        effects
    }

    /// Opens the settings window with a draft of the settings, or focuses it when open.
    pub fn handle_open_settings(&mut self, fresh_id: u64) -> (effects: Vec<Effect>)
        ensures
            open_settings_post(*old(self), *final(self), fresh_id, effects@),
    {
        let mut effects: Vec<Effect> = Vec::new();
        if let Some(id) = self.settings_window_id {
            effects.push(Effect::FocusWindow(id));
            assert(effects@ =~= seq![Effect::FocusWindow(id)]);
            return effects;
        }
        self.settings_window_id = Some(fresh_id);
        self.begin_settings_edit();
        self.windows.insert(fresh_id, AppWindow::Settings);
        effects.push(Effect::OpenWindow(fresh_id, AppWindow::Settings));
        assert(effects@ =~= seq![Effect::OpenWindow(fresh_id, AppWindow::Settings)]);
        effects
    }

    /// Closes the settings window, when it is open.
    fn close_settings_window(&self) -> (effects: Vec<Effect>)
        ensures
            effects@ == close_settings_effects(*self),
    {
        let mut effects: Vec<Effect> = Vec::new();
        if let Some(id) = self.settings_window_id {
            effects.push(Effect::CloseWindow(id));
            assert(effects@ =~= seq![Effect::CloseWindow(id)]);
        }
        effects
    }

    /// Completes a save once the committed settings were written; `save_error` is the write
    /// error, if any.
    pub fn finish_settings_save(
        &mut self,
        hotkey_changed: bool,
        rebuild_search_provider: bool,
        save_error: Option<String>,
    ) -> (effects: Vec<Effect>)
        ensures
            finish_settings_save_post(
                *old(self),
                *final(self),
                hotkey_changed,
                rebuild_search_provider,
                save_error,
                effects@,
            ),
    {
        let closing = self.close_settings_window();
        match save_error {
            Some(e) => {
                self.status = prefixed(STATUS_SETTINGS_SAVE_FAILED_PREFIX, e.as_str());
                closing
            },
            None => {
                self.status = String::from_str(STATUS_SETTINGS_SAVED);
                let mut effects: Vec<Effect> = Vec::new();
                if rebuild_search_provider {
                    effects.push(Effect::RebuildSearchProvider);
                }
                let ghost head = effects@;
                assert(head =~= (if rebuild_search_provider {
                    seq![Effect::RebuildSearchProvider]
                } else {
                    Seq::<Effect>::empty()
                }));
                if hotkey_changed {
                    effects.push(Effect::Dispatch(FollowUp::RestartApp));
                    assert(effects@ =~= head + seq![Effect::Dispatch(FollowUp::RestartApp)]);
                } else {
                    let mut rest = closing;
                    let ghost tail = rest@;
                    effects.append(&mut rest);
                    assert(effects@ =~= head + tail);
                }
                effects
            },
        }
    }

    /// Closes the main window, when it is recorded.
    pub fn handle_hide_main_window(&mut self) -> (effects: Vec<Effect>)
        ensures
            hide_main_window_post(*old(self), *final(self), effects@),
    {
        let mut effects: Vec<Effect> = Vec::new();
        if let Some(id) = self.main_window_id {
            effects.push(Effect::CloseWindow(id));
            assert(effects@ =~= seq![Effect::CloseWindow(id)]);
        }
        effects
    }

    /// Switches the system-tray mode, writes the settings and hides or shows the main window.
    pub fn handle_update_system_tray_mode(&mut self, enabled: bool, fresh_id: u64) -> (effects: Vec<
        Effect,
    >)
        ensures
            system_tray_mode_post(*old(self), *final(self), enabled, fresh_id, effects@),
    {
        self.settings.run_in_system_tray = enabled;
        let mut effects: Vec<Effect> = Vec::new();
        effects.push(Effect::PersistSettings);
        let mut rest = if enabled {
            self.handle_hide_main_window()
        } else {
            self.handle_open_main_window(fresh_id)
        };
        let ghost tail = rest@;
        effects.append(&mut rest);
        assert(effects@.skip(1) =~= tail);
        effects
    }

    /// Answers a click in the tray menu.
    pub fn handle_tray_event(&mut self, event: TrayEvent, fresh_id: u64) -> (effects: Vec<Effect>)
        ensures
            tray_event_post(*old(self), *final(self), event, fresh_id, effects@),
    {
        match event {
            TrayEvent::ShowWindow => self.handle_open_main_window(fresh_id),
            TrayEvent::OpenSettings => self.handle_open_settings(fresh_id),
            TrayEvent::Quit => {
                let mut effects: Vec<Effect> = Vec::new();
                effects.push(Effect::Exit);
                assert(effects@ =~= seq![Effect::Exit]);
                effects
            },
        }
    }

    /// Opens the onboarding window, unless it is open.
    pub fn handle_open_onboarding(&mut self, fresh_id: u64) -> (effects: Vec<Effect>)
        ensures
            open_onboarding_post(*old(self), *final(self), fresh_id, effects@),
    {
        let mut effects: Vec<Effect> = Vec::new();
        if let Some(id) = self.onboarding_window_id {
            if self.windows.contains_key(&id) {
                return effects;
            }
        }
        self.onboarding_window_id = Some(fresh_id);
        self.windows.insert(fresh_id, AppWindow::Onboarding);
        effects.push(Effect::OpenWindow(fresh_id, AppWindow::Onboarding));
        assert(effects@ =~= seq![Effect::OpenWindow(fresh_id, AppWindow::Onboarding)]);
        effects
    }

    /// Answers an event of onboarding window `window_id`.
    pub fn handle_onboarding_message(&mut self, window_id: u64, request: OnboardingRequest) -> (effects:
        Vec<Effect>)
        ensures
            onboarding_request_post(*old(self), *final(self), window_id, request, effects@),
    {
        match request {
            OnboardingRequest::ScreenRecordingSettingsOpened(opened) => {
                if !opened {
                    self.status = String::from_str(STATUS_ONBOARDING_SCREEN_RECORDING_FAILED);
                }
                Vec::new()
            },
            OnboardingRequest::InputMonitoringSettingsOpened(opened) => {
                if !opened {
                    self.status = String::from_str(STATUS_ONBOARDING_INPUT_MONITORING_FAILED);
                }
                Vec::new()
            },
            OnboardingRequest::Finish(choice) => self.handle_finish_onboarding(window_id, choice),
            OnboardingRequest::Other => Vec::new(),
        }
    }

    /// Completes onboarding from window `window_id`; `launch_choice` is the state of its
    /// launch-at-login switch.
    fn handle_finish_onboarding(&mut self, window_id: u64, launch_choice: bool) -> (effects: Vec<Effect>)
        ensures
            onboarding_request_post(
                *old(self),
                *final(self),
                window_id,
                OnboardingRequest::Finish(launch_choice),
                effects@,
            ),
    {
        let launch_at_login = self.has_window_kind(window_id, AppWindow::Onboarding) && launch_choice;
        self.settings.onboarding_complete = true;
        self.settings.launch_at_login = launch_at_login;
        self.windows.remove(&window_id);
        self.onboarding_window_id = None;
        let mut effects: Vec<Effect> = Vec::new();
        effects.push(Effect::PersistSettings);
        effects.push(Effect::SetLaunchAtLogin(launch_at_login));
        effects.push(Effect::CloseWindow(window_id));
        effects.push(Effect::Dispatch(FollowUp::OpenMainWindow));
        effects.push(Effect::Dispatch(FollowUp::EnableKeyboardListener));
        assert(effects@ =~= seq![
            Effect::PersistSettings,
            Effect::SetLaunchAtLogin(launch_at_login),
            Effect::CloseWindow(window_id),
            Effect::Dispatch(FollowUp::OpenMainWindow),
            Effect::Dispatch(FollowUp::EnableKeyboardListener),
        ]);
        effects
    }

    /// Opens the window picker and loads its list, or focuses it when open.
    pub fn handle_open_window_picker(&mut self, fresh_id: u64) -> (effects: Vec<Effect>)
        ensures
            open_window_picker_post(*old(self), *final(self), fresh_id, effects@),
    {
        let mut effects: Vec<Effect> = Vec::new();
        if let Some(id) = self.window_picker_window_id {
            effects.push(Effect::FocusWindow(id));
            assert(effects@ =~= seq![Effect::FocusWindow(id)]);
            return effects;
        }
        self.window_picker_window_id = Some(fresh_id);
        self.windows.insert(fresh_id, AppWindow::WindowPicker);
        effects.push(Effect::OpenWindow(fresh_id, AppWindow::WindowPicker));
        effects.push(Effect::LoadWindowList(fresh_id));
        assert(effects@ =~= seq![
            Effect::OpenWindow(fresh_id, AppWindow::WindowPicker),
            Effect::LoadWindowList(fresh_id),
        ]);
        effects
    }

    /// Answers a request from window picker `window_id`.
    pub fn handle_window_picker_message(&mut self, window_id: u64, request: PickerRequest) -> (effects:
        Vec<Effect>)
        ensures
            picker_request_post(*old(self), *final(self), window_id, request, effects@),
            request is CaptureFullScreen ==> effects@ == seq![
                Effect::CloseWindow(window_id),
                Effect::Dispatch(FollowUp::CaptureScreen),
            ],
            forall|i: int|
                0 <= i < effects@.len() && #[trigger] effects@[i] == Effect::Dispatch(
                    FollowUp::CaptureScreen,
                ) ==> request is CaptureFullScreen,
    {
        let mut effects: Vec<Effect> = Vec::new();
        match request {
            PickerRequest::Confirm(None) => {},
            PickerRequest::Confirm(Some(app_name)) => {
                self.window_picker_window_id = None;
                effects.push(Effect::CloseWindow(window_id));
                effects.push(Effect::FocusAppAndCapture(app_name));
                assert(effects@ =~= seq![Effect::CloseWindow(window_id), Effect::FocusAppAndCapture(app_name)]);
            },
            PickerRequest::Cancel => {
                self.window_picker_window_id = None;
                effects.push(Effect::CloseWindow(window_id));
                assert(effects@ =~= seq![Effect::CloseWindow(window_id)]);
            },
            PickerRequest::Refresh => {
                effects.push(Effect::LoadWindowList(window_id));
                assert(effects@ =~= seq![Effect::LoadWindowList(window_id)]);
            },
            PickerRequest::CaptureFullScreen => {
                effects.push(Effect::CloseWindow(window_id));
                effects.push(Effect::Dispatch(FollowUp::CaptureScreen));
                assert(effects@ =~= seq![
                    Effect::CloseWindow(window_id),
                    Effect::Dispatch(FollowUp::CaptureScreen),
                ]);
            },
            PickerRequest::Other => {},
        }
        proof {
            law_picker_choices_do_what_they_name(*old(self), *self, window_id, request, effects@);
        }
        effects
    }

    /// Captures the window with system identifier `window_id`, leaving the picker.
    pub fn handle_capture_selected_window(&mut self, window_id: u32) -> (effects: Vec<Effect>)
        ensures
            *final(self) == (AppOrchestrator { window_picker_window_id: None, ..*old(self) }),
            effects@ == seq![Effect::CaptureWindow(window_id)],
    {
        self.window_picker_window_id = None;
        let mut effects: Vec<Effect> = Vec::new();
        effects.push(Effect::CaptureWindow(window_id));
        assert(effects@ =~= seq![Effect::CaptureWindow(window_id)]);
        effects
    }
}

/// A request from an open OCR result window to save or copy its image asks for exactly that,
/// for that window, and changes nothing else; no other request saves or copies the image.
pub proof fn law_ocr_requests_do_what_they_name(
    o: AppOrchestrator,
    n: AppOrchestrator,
    id: u64,
    request: OcrWindowRequest,
    effects: Seq<Effect>,
)
    requires
        ocr_request_post(o, n, id, request, effects),
    ensures
        is_window_of_kind(o.windows@, id, AppWindow::InteractiveOcr) ==> (request
            == OcrWindowRequest::SaveImage ==> effects == seq![Effect::SaveImage(id)]),
        is_window_of_kind(o.windows@, id, AppWindow::InteractiveOcr) ==> (request
            == OcrWindowRequest::CopyImage ==> effects == seq![Effect::CopyImage(id)]),
        request == OcrWindowRequest::SaveImage || request == OcrWindowRequest::CopyImage ==> n == o,
        forall|i: int|
            0 <= i < effects.len() && #[trigger] effects[i] is CopyImage ==> request
                == OcrWindowRequest::CopyImage,
        forall|i: int|
            0 <= i < effects.len() && #[trigger] effects[i] is SaveImage ==> request
                == OcrWindowRequest::SaveImage,
{
    if request == OcrWindowRequest::Recrop && is_window_of_kind(o.windows@, id, AppWindow::InteractiveOcr) {
        assert forall|i: int| 1 <= i < effects.len() implies !(#[trigger] effects[i] is CopyImage)
            && !(effects[i] is SaveImage) by {
            assert(effects[i] == effects.skip(1)[i - 1]);
            match o.main_window_id {
                Some(m) => {
                    assert(effects.skip(1) == seq![Effect::MinimizeWindow(m), Effect::CaptureAfterDelay]);
                },
                None => {
                    assert(effects.skip(1) == seq![Effect::CaptureAfterDelay]);
                },
            }
        }
    }
}

/// Choosing full-screen capture in the window picker closes the picker and then starts a
/// capture, changing nothing else; no other choice in the picker starts a full-screen capture.
pub proof fn law_picker_choices_do_what_they_name(
    o: AppOrchestrator,
    n: AppOrchestrator,
    id: u64,
    request: PickerRequest,
    effects: Seq<Effect>,
)
    requires
        picker_request_post(o, n, id, request, effects),
    ensures
        request is CaptureFullScreen ==> n == o && effects == seq![
            Effect::CloseWindow(id),
            Effect::Dispatch(FollowUp::CaptureScreen),
        ],
        forall|i: int|
            0 <= i < effects.len() && #[trigger] effects[i] == Effect::Dispatch(
                FollowUp::CaptureScreen,
            ) ==> request is CaptureFullScreen,
{
}

} // verus!
