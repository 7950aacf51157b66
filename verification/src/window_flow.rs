//! How the orchestrator answers window events: which windows it records, what the status line
//! becomes, and which effects the windowing layer must carry out, in order.
//!
//! Window identifiers come from the windowing layer. A handler that may open a window takes
//! `fresh_id`, an identifier that the layer has reserved for it; the effect
//! `OpenWindow(fresh_id, kind)` asks the layer to open that window.
use vstd::prelude::*;

use crate::capture_buffer::{crop_error_text, rgba_size_fits, CaptureBuffer, CropError};
use crate::capture_errors::{build_capture_error_message_for_platform, capture_error_message, lowercased};
use crate::constants::{
    CAPTURE_ERROR_CROP_PREFIX, CAPTURE_ERROR_MONITOR_PREFIX, STATUS_CAPTURING_SCREEN,
    STATUS_OVERLAY_READY, STATUS_PREPARING_CAPTURE, STATUS_PROCESSING_SELECTION, STATUS_READY,
    STATUS_READY_SIMPLE,
};
use crate::orchestrator::{
    is_window_of_kind, lists_windows_of_kind, prefixed, AppOrchestrator, AppWindow,
    SettingsEditState,
};

verus! {

broadcast use vstd::std_specs::hash::group_hash_axioms;

/// A message the orchestrator sends itself later.
#[derive(Debug, Clone, Copy, PartialEq, Eq, Structural)]
pub enum FollowUp {
    OpenMainWindow,
    EnableKeyboardListener,
    RestartApp,
    CaptureScreen,
    OpenWindowPicker,
}

/// Work that the windowing layer carries out for the orchestrator.
#[derive(Debug, Clone)]
pub enum Effect {
    /// Open the window reserved as the identifier, of the given kind.
    OpenWindow(u64, AppWindow),
    /// Open an OCR result window showing the given image.
    OpenOcrWindow(u64, CaptureBuffer),
    FocusWindow(u64),
    CloseWindow(u64),
    /// Minimize the window.
    MinimizeWindow(u64),
    /// Undo a minimization, without focusing.
    RestoreWindow(u64),
    /// Undo a minimization, then focus.
    BringToFront(u64),
    /// Make the application the active one, over other applications.
    ActivateApp,
    /// Capture the screen after a short pause that lets windows get out of the way.
    CaptureAfterDelay,
    /// Read the pointer position, capture the screen there and report the outcome.
    CaptureAtPointer,
    /// Crop the capture overlay's image to its selection and show the result.
    ShowSelection(u64),
    /// Run text recognition on the image of the OCR window.
    ProcessOcr(u64),
    /// Search the web with the image (and query) of the OCR window.
    StartImageSearch(u64),
    /// Hide the OCR window's notice after a pause.
    HideToastLater(u64),
    /// Copy the OCR window's image, with its drawings, to the clipboard.
    CopyImage(u64),
    /// Save the OCR window's image, with its drawings, to the screenshot folder.
    SaveImage(u64),
    /// List the capturable windows for the window picker.
    LoadWindowList(u64),
    /// Bring the named application to the front, then capture the screen.
    FocusAppAndCapture(String),
    /// Capture the window with the given system identifier.
    CaptureWindow(u32),
    /// Write the settings to disk.
    PersistSettings,
    /// Write the settings that a save committed to disk, then call `finish_settings_save`.
    PersistEditedSettings { hotkey_changed: bool, rebuild_search_provider: bool },
    /// Rebuild the reverse image search from the settings.
    RebuildSearchProvider,
    /// Register or unregister the application as a login item.
    SetLaunchAtLogin(bool),
    /// Start a new instance of the application and end this one.
    Restart,
    /// End the application.
    Exit,
    /// Handle the given message next.
    Dispatch(FollowUp),
}

/// Bringing each of `ids` to the front, in order.
pub open spec fn raise_effects(ids: Seq<u64>) -> Seq<Effect> {
    ids.map_values(|id: u64| Effect::BringToFront(id))
}

/// `effects` brings every open window of kind `kind` to the front, each once, in some order.
pub open spec fn raises_windows_of_kind(effects: Seq<Effect>, windows: Map<u64, AppWindow>, kind: AppWindow) -> bool {
    exists|ids: Seq<u64>| #[trigger] lists_windows_of_kind(windows, kind, ids) && effects == raise_effects(ids)
}

/// Some window of kind `kind` is open.
pub open spec fn has_window_of_kind(windows: Map<u64, AppWindow>, kind: AppWindow) -> bool {
    exists|id: u64| #[trigger] is_window_of_kind(windows, id, kind)
}

/// The main window, when it is recorded and open.
pub open spec fn open_main_window_id(o: AppOrchestrator) -> Option<u64> {
    match o.main_window_id {
        Some(m) => if o.windows@.contains_key(m) {
            Some(m)
        } else {
            None
        },
        None => None,
    }
}

/// Opening (or showing) the main window: the application is activated, the main window focused
/// (opened first when there is none), and every OCR result window brought to the front.
pub open spec fn open_main_window_post(o: AppOrchestrator, n: AppOrchestrator, fresh_id: u64, effects: Seq<Effect>) -> bool {
    &&& effects.len() >= 2
    &&& effects[0] == Effect::ActivateApp
    &&& match open_main_window_id(o) {
        Some(m) => {
            &&& n == o
            &&& effects[1] == Effect::FocusWindow(m)
            &&& raises_windows_of_kind(effects.skip(2), o.windows@, AppWindow::InteractiveOcr)
        },
        None => {
            &&& n == AppOrchestrator { windows: n.windows, main_window_id: Some(fresh_id), ..o }
            &&& n.windows@ == o.windows@.insert(fresh_id, AppWindow::Main)
            &&& effects.len() >= 3
            &&& effects[1] == Effect::OpenWindow(fresh_id, AppWindow::Main)
            &&& effects[2] == Effect::FocusWindow(fresh_id)
            &&& raises_windows_of_kind(effects.skip(3), o.windows@, AppWindow::InteractiveOcr)
        },
    }
}

/// Creating the invisible window that keeps the application alive, unless it exists.
pub open spec fn create_hidden_window_post(o: AppOrchestrator, n: AppOrchestrator, fresh_id: u64, effects: Seq<Effect>) -> bool {
    if o.hidden_window_id is Some {
        n == o && effects == Seq::<Effect>::empty()
    } else {
        &&& n == AppOrchestrator { windows: n.windows, hidden_window_id: Some(fresh_id), ..o }
        &&& n.windows@ == o.windows@.insert(fresh_id, AppWindow::Hidden)
        &&& effects == seq![Effect::OpenWindow(fresh_id, AppWindow::Hidden)]
    }
}

/// The effects after an OCR result window closed: the main window, if any, is restored.
pub open spec fn after_ocr_window_closed(o: AppOrchestrator) -> Seq<Effect> {
    match o.main_window_id {
        Some(m) => seq![Effect::RestoreWindow(m)],
        None => Seq::empty(),
    }
}

/// Forgetting window `id` after it closed. The invisible window is replaced at once; closing the
/// settings window drops the draft; closing any other window (but the main, onboarding and
/// picker windows) sets the status to ready, and closing an OCR result window restores the main
/// window.
pub open spec fn window_closed_post(o: AppOrchestrator, n: AppOrchestrator, id: u64, fresh_id: u64, effects: Seq<Effect>) -> bool {
    if o.hidden_window_id == Some(id) {
        &&& n == AppOrchestrator { windows: n.windows, hidden_window_id: Some(fresh_id), ..o }
        &&& n.windows@ == o.windows@.remove(id).insert(fresh_id, AppWindow::Hidden)
        &&& effects == seq![Effect::OpenWindow(fresh_id, AppWindow::Hidden)]
    } else if o.main_window_id == Some(id) {
        &&& n == AppOrchestrator { windows: n.windows, main_window_id: None, ..o }
        &&& n.windows@ == o.windows@.remove(id)
        &&& effects == Seq::<Effect>::empty()
    } else if o.onboarding_window_id == Some(id) {
        &&& n == AppOrchestrator { windows: n.windows, onboarding_window_id: None, ..o }
        &&& n.windows@ == o.windows@.remove(id)
        &&& effects == Seq::<Effect>::empty()
    } else if o.window_picker_window_id == Some(id) {
        &&& n == AppOrchestrator { windows: n.windows, window_picker_window_id: None, ..o }
        &&& n.windows@ == o.windows@.remove(id)
        &&& effects == Seq::<Effect>::empty()
    } else {
        &&& n == AppOrchestrator {
            windows: n.windows,
            status: n.status,
            settings_window_id: if o.settings_window_id == Some(id) {
                None
            } else {
                o.settings_window_id
            },
            settings_edit_state: if o.settings_window_id == Some(id) {
                SettingsEditState::Closed
            } else {
                o.settings_edit_state
            },
            ..o
        }
        &&& n.windows@ == o.windows@.remove(id)
        &&& n.status@ == STATUS_READY@
        &&& effects == if is_window_of_kind(o.windows@, id, AppWindow::InteractiveOcr) {
            after_ocr_window_closed(o)
        } else {
            Seq::empty()
        }
    }
}

/// When the main or the invisible window gains focus while OCR result windows are open, the
/// application is activated and those windows are brought to the front.
pub open spec fn window_focused_post(o: AppOrchestrator, n: AppOrchestrator, id: u64, effects: Seq<Effect>) -> bool {
    &&& n == o
    &&& if (o.hidden_window_id == Some(id) || o.main_window_id == Some(id)) && has_window_of_kind(
        o.windows@,
        AppWindow::InteractiveOcr,
    ) {
        &&& effects.len() >= 1
        &&& effects[0] == Effect::ActivateApp
        &&& raises_windows_of_kind(effects.skip(1), o.windows@, AppWindow::InteractiveOcr)
    } else {
        effects == Seq::<Effect>::empty()
    }
}

/// Escape closes a capture overlay when one is open; otherwise the status becomes ready.
pub open spec fn escape_post(o: AppOrchestrator, n: AppOrchestrator, effects: Seq<Effect>) -> bool {
    if has_window_of_kind(o.windows@, AppWindow::CaptureOverlay) {
        &&& n == o
        &&& effects.len() == 1
        &&& effects[0] matches Effect::CloseWindow(w) && is_window_of_kind(
            o.windows@,
            w,
            AppWindow::CaptureOverlay,
        )
    } else {
        &&& n == AppOrchestrator { status: n.status, ..o }
        &&& n.status@ == STATUS_READY@
        &&& effects == Seq::<Effect>::empty()
    }
}

/// `n` is `o` with the status replaced by `status`.
pub open spec fn status_set(o: AppOrchestrator, n: AppOrchestrator, status: Seq<char>) -> bool {
    n == AppOrchestrator { status: n.status, ..o } && n.status@ == status
}

/// A capture starts: the status says so, the main window is minimized, and the capture follows
/// after a pause.
pub open spec fn capture_screen_post(o: AppOrchestrator, n: AppOrchestrator, effects: Seq<Effect>) -> bool {
    &&& status_set(o, n, STATUS_PREPARING_CAPTURE@)
    &&& effects == match o.main_window_id {
        Some(m) => seq![Effect::MinimizeWindow(m), Effect::CaptureAfterDelay],
        None => seq![Effect::CaptureAfterDelay],
    }
}

/// The capture itself: the status says so and the screen is captured at the pointer.
pub open spec fn perform_capture_post(o: AppOrchestrator, n: AppOrchestrator, effects: Seq<Effect>) -> bool {
    &&& status_set(o, n, STATUS_CAPTURING_SCREEN@)
    &&& effects == seq![Effect::CaptureAtPointer]
}

/// After a capture, the overlay opens on the monitor under the pointer; when no monitor is
/// found there, the status shows why.
pub open spec fn open_capture_overlay_post(
    o: AppOrchestrator,
    n: AppOrchestrator,
    monitor_error: Option<String>,
    fresh_id: u64,
    effects: Seq<Effect>,
) -> bool {
    match monitor_error {
        None => {
            &&& n == AppOrchestrator { windows: n.windows, status: n.status, ..o }
            &&& n.windows@ == o.windows@.insert(fresh_id, AppWindow::CaptureOverlay)
            &&& n.status@ == STATUS_OVERLAY_READY@
            &&& effects == seq![
                Effect::OpenWindow(fresh_id, AppWindow::CaptureOverlay),
                Effect::FocusWindow(fresh_id),
            ]
        },
        Some(e) => {
            &&& status_set(o, n, CAPTURE_ERROR_MONITOR_PREFIX@ + e@)
            &&& effects == Seq::<Effect>::empty()
        },
    }
}

/// A capture error: the status shows the message built for the platform.
pub open spec fn capture_error_post(
    o: AppOrchestrator,
    n: AppOrchestrator,
    error: Seq<char>,
    platform: Seq<char>,
    effects: Seq<Effect>,
) -> bool {
    &&& status_set(o, n, capture_error_message(error, lowercased(error), platform))
    &&& effects == Seq::<Effect>::empty()
}

/// Confirming the overlay's selection: the overlay closes, and when it is an open overlay with a
/// selection, its selection is shown cropped.
pub open spec fn confirm_selection_post(
    o: AppOrchestrator,
    n: AppOrchestrator,
    overlay_id: u64,
    has_selection: bool,
    effects: Seq<Effect>,
) -> bool {
    if is_window_of_kind(o.windows@, overlay_id, AppWindow::CaptureOverlay) && has_selection {
        &&& status_set(o, n, STATUS_PROCESSING_SELECTION@)
        &&& effects == seq![Effect::CloseWindow(overlay_id), Effect::ShowSelection(overlay_id)]
    } else {
        &&& n == o
        &&& effects == seq![Effect::CloseWindow(overlay_id)]
    }
}

/// The crop error, if any, for a crop of `b` at (`x`, `y`) of `w` × `h` pixels.
pub open spec fn crop_error_for(b: CaptureBuffer, x: u32, y: u32, w: u32, h: u32) -> Option<CropError> {
    if w == 0 || h == 0 {
        Some(CropError::ZeroDimensions)
    } else if b.crop_exceeds_data(x, y, w, h) {
        Some(CropError::ExceedsBounds)
    } else {
        None
    }
}

/// Showing a selection: the image is cropped and shown in a new OCR result window; when the crop
/// is refused the status shows why.
pub open spec fn show_cropped_image_post(
    o: AppOrchestrator,
    n: AppOrchestrator,
    b: CaptureBuffer,
    x: u32,
    y: u32,
    w: u32,
    h: u32,
    fresh_id: u64,
    effects: Seq<Effect>,
) -> bool {
    match crop_error_for(b, x, y, w, h) {
        Some(e) => {
            &&& status_set(o, n, CAPTURE_ERROR_CROP_PREFIX@ + crop_error_text(e)@)
            &&& effects == Seq::<Effect>::empty()
        },
        None => {
            &&& n == AppOrchestrator { windows: n.windows, status: n.status, ..o }
            &&& n.windows@ == o.windows@.insert(fresh_id, AppWindow::InteractiveOcr)
            &&& n.status@ == STATUS_READY_SIMPLE@
            &&& effects.len() == 1
            &&& effects[0] matches Effect::OpenOcrWindow(id, c) && id == fresh_id && b.is_crop_of(
                c,
                x,
                y,
                w,
                h,
            )
        },
    }
}

impl AppOrchestrator {
    /// Whether window `id` is open and of kind `kind`.
    pub fn has_window_kind(&self, id: u64, kind: AppWindow) -> (b: bool)
        ensures
            b == is_window_of_kind(self.windows@, id, kind),
    {
        match self.windows.get(&id) {
            Some(w) => *w == kind,
            None => false,
        }
    }

    /// Opens the main window, or focuses it when it is open, and brings the OCR result windows
    /// to the front.
    pub fn handle_open_main_window(&mut self, fresh_id: u64) -> (effects: Vec<Effect>)
        ensures
            open_main_window_post(*old(self), *final(self), fresh_id, effects@),
    {
        let ocr_ids = self.window_ids_of_kind(AppWindow::InteractiveOcr);
        let ghost windows = self.windows@;
        let mut effects: Vec<Effect> = Vec::new();
        effects.push(Effect::ActivateApp);
        let existing = match self.main_window_id {
            Some(m) => if self.windows.contains_key(&m) {
                Some(m)
            } else {
                None
            },
            None => None,
        };
        let start: usize = match existing {
            Some(m) => {
                effects.push(Effect::FocusWindow(m));
                2
            },
            None => {
                self.windows.insert(fresh_id, AppWindow::Main);
                self.main_window_id = Some(fresh_id);
                effects.push(Effect::OpenWindow(fresh_id, AppWindow::Main));
                effects.push(Effect::FocusWindow(fresh_id));
                3
            },
        };
        push_raise_effects(&mut effects, &ocr_ids);
        proof {
            assert(effects@.skip(start as int) =~= raise_effects(ocr_ids@));
            assert(lists_windows_of_kind(windows, AppWindow::InteractiveOcr, ocr_ids@));
        }
        effects
    }

    /// Creates the invisible window that keeps the application running, unless it exists.
    pub fn create_hidden_window(&mut self, fresh_id: u64) -> (effects: Vec<Effect>)
        ensures
            create_hidden_window_post(*old(self), *final(self), fresh_id, effects@),
    {
        if self.hidden_window_id.is_some() {
            return Vec::new();
        }
        self.hidden_window_id = Some(fresh_id);
        self.windows.insert(fresh_id, AppWindow::Hidden);
        let mut effects: Vec<Effect> = Vec::new();
        effects.push(Effect::OpenWindow(fresh_id, AppWindow::Hidden));
        effects
    }

    /// Forgets a window that closed.
    pub fn handle_window_closed(&mut self, id: u64, fresh_id: u64) -> (effects: Vec<Effect>)
        ensures
            window_closed_post(*old(self), *final(self), id, fresh_id, effects@),
    {
        if self.hidden_window_id == Some(id) {
            self.hidden_window_id = None;
            self.windows.remove(&id);
            return self.create_hidden_window(fresh_id);
        }
        if self.main_window_id == Some(id) {
            self.windows.remove(&id);
            self.main_window_id = None;
            return Vec::new();
        }
        if self.onboarding_window_id == Some(id) {
            self.windows.remove(&id);
            self.onboarding_window_id = None;
            return Vec::new();
        }
        if self.window_picker_window_id == Some(id) {
            self.windows.remove(&id);
            self.window_picker_window_id = None;
            return Vec::new();
        }
        let was_ocr_window = self.has_window_kind(id, AppWindow::InteractiveOcr);
        self.windows.remove(&id);
        if self.settings_window_id == Some(id) {
            self.settings_window_id = None;
            self.discard_settings_edit();
        }
        self.status = String::from_str(STATUS_READY);
        let mut effects: Vec<Effect> = Vec::new();
        if was_ocr_window {
            if let Some(main_id) = self.main_window_id {
                effects.push(Effect::RestoreWindow(main_id));
            }
        }
        effects
    }

    /// Brings the OCR result windows back when the main or the invisible window gains focus.
    pub fn handle_window_focused(&mut self, id: u64) -> (effects: Vec<Effect>)
        ensures
            window_focused_post(*old(self), *final(self), id, effects@),
    {
        let is_hidden_window = self.hidden_window_id == Some(id);
        let is_main_window = self.main_window_id == Some(id);
        if !is_hidden_window && !is_main_window {
            return Vec::new();
        }
        let ocr_ids = self.window_ids_of_kind(AppWindow::InteractiveOcr);
        if ocr_ids.len() == 0 {
            proof {
                assert forall|w: u64| !is_window_of_kind(self.windows@, w, AppWindow::InteractiveOcr) by {
                    if is_window_of_kind(self.windows@, w, AppWindow::InteractiveOcr) {
                        assert(ocr_ids@.contains(w));
                    }
                }
            }
            return Vec::new();
        }
        proof {
            assert(is_window_of_kind(self.windows@, ocr_ids@[0], AppWindow::InteractiveOcr));
        }
        let mut effects: Vec<Effect> = Vec::new();
        effects.push(Effect::ActivateApp);
        push_raise_effects(&mut effects, &ocr_ids);
        proof {
            assert(effects@.skip(1) =~= raise_effects(ocr_ids@));
            assert(lists_windows_of_kind(self.windows@, AppWindow::InteractiveOcr, ocr_ids@));
        }
        effects
    }

    /// Escape: closes an open capture overlay, or else sets the status to ready.
    pub fn handle_escape_pressed(&mut self) -> (effects: Vec<Effect>)
        ensures
            escape_post(*old(self), *final(self), effects@),
    {
        let overlays = self.window_ids_of_kind(AppWindow::CaptureOverlay);
        let mut effects: Vec<Effect> = Vec::new();
        if overlays.len() > 0 {
            let id = overlays[0];
            proof {
                assert(is_window_of_kind(self.windows@, id, AppWindow::CaptureOverlay));
            }
            effects.push(Effect::CloseWindow(id));
            return effects;
        }
        proof {
            assert forall|w: u64| !is_window_of_kind(self.windows@, w, AppWindow::CaptureOverlay) by {
                if is_window_of_kind(self.windows@, w, AppWindow::CaptureOverlay) {
                    assert(overlays@.contains(w));
                }
            }
        }
        self.status = String::from_str(STATUS_READY);
        effects
    }

    /// Starts a capture: minimizes the main window and captures after a pause.
    pub fn handle_capture_screen(&mut self) -> (effects: Vec<Effect>)
        ensures
            capture_screen_post(*old(self), *final(self), effects@),
    {
        self.status = String::from_str(STATUS_PREPARING_CAPTURE);
        let mut effects: Vec<Effect> = Vec::new();
        if let Some(id) = self.main_window_id {
            effects.push(Effect::MinimizeWindow(id));
        }
        effects.push(Effect::CaptureAfterDelay);
        proof {
            match old(self).main_window_id {
                Some(m) => assert(effects@ =~= seq![Effect::MinimizeWindow(m), Effect::CaptureAfterDelay]),
                None => assert(effects@ =~= seq![Effect::CaptureAfterDelay]),
            }
        }
        effects
    }

    /// Captures the screen at the pointer.
    pub fn handle_perform_capture(&mut self) -> (effects: Vec<Effect>)
        ensures
            perform_capture_post(*old(self), *final(self), effects@),
    {
        self.status = String::from_str(STATUS_CAPTURING_SCREEN);
        let mut effects: Vec<Effect> = Vec::new();
        effects.push(Effect::CaptureAtPointer);
        effects
    }

    /// Opens the capture overlay on the monitor under the pointer; `monitor_error` says why no
    /// monitor was found there, if none was.
    pub fn handle_open_capture_overlay(&mut self, monitor_error: Option<String>, fresh_id: u64) -> (effects:
        Vec<Effect>)
        ensures
            open_capture_overlay_post(*old(self), *final(self), monitor_error, fresh_id, effects@),
    {
        let mut effects: Vec<Effect> = Vec::new();
        match monitor_error {
            None => {
                self.windows.insert(fresh_id, AppWindow::CaptureOverlay);
                self.status = String::from_str(STATUS_OVERLAY_READY);
                effects.push(Effect::OpenWindow(fresh_id, AppWindow::CaptureOverlay));
                effects.push(Effect::FocusWindow(fresh_id));
                assert(effects@ =~= seq![
                    Effect::OpenWindow(fresh_id, AppWindow::CaptureOverlay),
                    Effect::FocusWindow(fresh_id),
                ]);
            },
            Some(e) => {
                self.status = prefixed(CAPTURE_ERROR_MONITOR_PREFIX, e.as_str());
            },
        }
        effects
    }

    /// Shows a capture error in the status line, worded for `platform`.
    pub fn handle_capture_error(&mut self, error_msg: String, platform: &str) -> (effects: Vec<Effect>)
        ensures
            capture_error_post(*old(self), *final(self), error_msg@, platform@, effects@),
    {
        self.status = build_capture_error_message_for_platform(error_msg.as_str(), platform);
        Vec::new()
    }

    /// Confirms the selection of capture overlay `overlay_id`; `has_selection` says whether the
    /// overlay holds a selected region.
    pub fn handle_confirm_selection(&mut self, overlay_id: u64, has_selection: bool) -> (effects: Vec<
        Effect,
    >)
        ensures
            confirm_selection_post(*old(self), *final(self), overlay_id, has_selection, effects@),
    {
        let mut effects: Vec<Effect> = Vec::new();
        effects.push(Effect::CloseWindow(overlay_id));
        assert(effects@ =~= seq![Effect::CloseWindow(overlay_id)]);
        if !self.has_window_kind(overlay_id, AppWindow::CaptureOverlay) || !has_selection {
            return effects;
        }
        self.status = String::from_str(STATUS_PROCESSING_SELECTION);
        effects.push(Effect::ShowSelection(overlay_id));
        assert(effects@ =~= seq![Effect::CloseWindow(overlay_id), Effect::ShowSelection(overlay_id)]);
        effects
    }

    /// Crops the captured image to the selection and opens an OCR result window with it.
    pub fn handle_show_cropped_image(
        &mut self,
        capture_buffer: &CaptureBuffer,
        x: u32,
        y: u32,
        width: u32,
        height: u32,
        fresh_id: u64,
    ) -> (effects: Vec<Effect>)
        requires
            rgba_size_fits(capture_buffer.width as int, capture_buffer.height as int),
        ensures
            show_cropped_image_post(
                *old(self),
                *final(self),
                *capture_buffer,
                x,
                y,
                width,
                height,
                fresh_id,
                effects@,
            ),
    {
        let mut effects: Vec<Effect> = Vec::new();
        match capture_buffer.crop_region(x, y, width, height) {
            Ok(buffer) => {
                self.windows.insert(fresh_id, AppWindow::InteractiveOcr);
                self.status = String::from_str(STATUS_READY_SIMPLE);
                effects.push(Effect::OpenOcrWindow(fresh_id, buffer));
            },
            Err(crop_error) => {
                self.status = prefixed(CAPTURE_ERROR_CROP_PREFIX, crop_error.message());
            },
        }
        effects
    }
}

/// Appends the effects that bring each of `ids` to the front.
fn push_raise_effects(effects: &mut Vec<Effect>, ids: &Vec<u64>)
    ensures
        final(effects)@ == old(effects)@ + raise_effects(ids@),
{
    let ghost start = effects@;
    for i in 0..ids.len()
        invariant
            effects@ == start + raise_effects(ids@.take(i as int)),
    {
        effects.push(Effect::BringToFront(ids[i]));
        proof {
            assert(raise_effects(ids@.take(i + 1)) =~= raise_effects(ids@.take(i as int)).push(
                Effect::BringToFront(ids@[i as int]),
            ));
        }
    }
    proof {
        assert(ids@.take(ids.len() as int) =~= ids@);
    }
}

} // verus!
