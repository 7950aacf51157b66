//! Properties that hold across calls: of the settings editor, of the window records, and of
//! cropping.
use vstd::prelude::*;

use crate::capture_buffer::CaptureBuffer;
use crate::dispatch::{message_settings_update, update_post, OrchestratorMessage};
use crate::image_hosting::image_hosting_settings_error;
use crate::ocr_cleanup::{apply_replacements, cleaned_ocr_text, ocr_replacement_table};
use crate::orchestrator::{
    apply_update, begin_save_post, is_ignored_update, is_window_of_kind, search_provider_changed,
    settings_update_post, AppOrchestrator, AppWindow, SettingsEditState, SettingsSavePlan,
    SettingsUpdate,
};
use crate::session_flow::OnboardingRequest;
use crate::text::{is_unicode_whitespace, lemma_trim_idempotent, trim};
use crate::user_settings::UserSettings;
use crate::window_flow::{window_closed_post, Effect};

verus! {

/// `slot`, when set, names an open window of kind `kind`.
pub open spec fn records_open_window(windows: Map<u64, AppWindow>, slot: Option<u64>, kind: AppWindow) -> bool {
    slot matches Some(id) ==> is_window_of_kind(windows, id, kind)
}

/// Every window identifier the orchestrator records names an open window of the right kind.
pub open spec fn window_records_valid(o: AppOrchestrator) -> bool {
    &&& records_open_window(o.windows@, o.main_window_id, AppWindow::Main)
    &&& records_open_window(o.windows@, o.hidden_window_id, AppWindow::Hidden)
    &&& records_open_window(o.windows@, o.onboarding_window_id, AppWindow::Onboarding)
    &&& records_open_window(o.windows@, o.window_picker_window_id, AppWindow::WindowPicker)
    &&& records_open_window(o.windows@, o.settings_window_id, AppWindow::Settings)
}

/// The draft after `u` is applied to `d`, unless `u` is ignored.
pub open spec fn edited(d: UserSettings, u: SettingsUpdate) -> UserSettings {
    if is_ignored_update(u) {
        d
    } else {
        apply_update(d, u)
    }
}

/// Opening the editor, making an edit and discarding the draft leaves the settings as they were
/// and no draft open: edits never reach the settings unless they are saved.
pub proof fn law_discarded_edit_keeps_settings(
    o: AppOrchestrator,
    a: AppOrchestrator,
    b: AppOrchestrator,
    c: AppOrchestrator,
    u: SettingsUpdate,
)
    requires
        a.settings_edit_state == SettingsEditState::Editing(o.settings),
        a.settings == o.settings,
        settings_update_post(a, b, u),
        c.settings == b.settings,
        c.settings_edit_state == SettingsEditState::Closed,
    ensures
        c.settings == o.settings,
        b.settings_edit_state == SettingsEditState::Editing(edited(o.settings, u)),
        c.settings_edit_state == SettingsEditState::Closed,
{
}

/// Opening the editor, making an edit and saving commits exactly the edited draft when it is
/// valid, and then asks for the settings to be written; an invalid draft is not committed and
/// nothing is written.
pub proof fn law_saving_commits_valid_draft(
    o: AppOrchestrator,
    a: AppOrchestrator,
    b: AppOrchestrator,
    c: AppOrchestrator,
    u: SettingsUpdate,
    plan: SettingsSavePlan,
)
    requires
        a.settings_edit_state == SettingsEditState::Editing(o.settings),
        a.settings == o.settings,
        settings_update_post(a, b, u),
        begin_save_post(b, c, plan),
    ensures
        image_hosting_settings_error(edited(o.settings, u)) is None ==> {
            &&& c.settings == edited(o.settings, u)
            &&& c.settings_edit_state == SettingsEditState::Closed
            &&& plan == SettingsSavePlan::Persist {
                hotkey_changed: edited(o.settings, u).capture_hotkey@ != o.settings.capture_hotkey@,
                rebuild_search_provider: search_provider_changed(o.settings, edited(o.settings, u)),
            }
        },
        image_hosting_settings_error(edited(o.settings, u)) is Some ==> {
            &&& c.settings == o.settings
            &&& plan == SettingsSavePlan::Abort
        },
{
}

/// Settings compared with themselves never call for rebuilding the image search.
pub proof fn law_unchanged_settings_keep_search_provider(s: UserSettings)
    ensures
        !search_provider_changed(s, s),
{
}

/// A window that closed is no longer recorded anywhere (the identifier reserved for the
/// replacement of the invisible window being another).
pub proof fn law_closed_window_is_forgotten(
    o: AppOrchestrator,
    n: AppOrchestrator,
    id: u64,
    fresh_id: u64,
    effects: Seq<Effect>,
)
    requires
        window_records_valid(o),
        window_closed_post(o, n, id, fresh_id, effects),
        fresh_id != id,
    ensures
        !n.windows@.contains_key(id),
        n.main_window_id != Some(id),
        n.hidden_window_id != Some(id),
        n.onboarding_window_id != Some(id),
        n.window_picker_window_id != Some(id),
        n.settings_window_id != Some(id),
{
}

/// Handling any message keeps every recorded window identifier naming an open window of the
/// right kind, provided that the reserved identifier is not in use and that onboarding is only
/// finished from the onboarding window.
pub proof fn law_update_keeps_window_records(
    o: AppOrchestrator,
    n: AppOrchestrator,
    m: OrchestratorMessage,
    fresh_id: u64,
    platform: Seq<char>,
    effects: Seq<Effect>,
)
    requires
        window_records_valid(o),
        !o.windows@.contains_key(fresh_id),
        update_post(o, n, m, fresh_id, platform, effects),
        m matches OrchestratorMessage::OnboardingMsg(id, OnboardingRequest::Finish(_))
            ==> o.onboarding_window_id == Some(id),
    ensures
        window_records_valid(n),
{
}

/// Cropping a complete image to its full size gives the same image.
pub proof fn law_full_crop_is_identity(image: CaptureBuffer, crop: CaptureBuffer)
    requires
        image.is_complete(),
        image.width > 0,
        image.height > 0,
        image.is_crop_of(crop, 0, 0, image.width, image.height),
    ensures
        crop.width == image.width,
        crop.height == image.height,
        crop.raw_data@ == image.raw_data@,
{
    let w4 = image.width * 4;
    assert(crop.raw_data@.len() == image.raw_data@.len());
    assert forall|i: int| 0 <= i < crop.raw_data@.len() implies crop.raw_data@[i] == image.raw_data@[i] by {
        let row = i / w4;
        let k = i % w4;
        vstd::arithmetic::div_mod::lemma_fundamental_div_mod(i, w4);
        vstd::arithmetic::div_mod::lemma_mod_pos_bound(i, w4);
        assert(i == row * w4 + k && 0 <= k < w4) by (nonlinear_arith)
            requires
                i == w4 * row + k,
                0 <= k < w4,
        ;
        assert(i < crop.height * w4) by (nonlinear_arith)
            requires
                i < crop.width * crop.height * 4,
                w4 == crop.width * 4,
        ;
        assert(row < crop.height) by (nonlinear_arith)
            requires
                i == row * w4 + k,
                0 <= k,
                i < crop.height * w4,
                w4 > 0,
        ;
        assert(row * crop.width * 4 + k == i) by (nonlinear_arith)
            requires
                i == row * w4 + k,
                w4 == crop.width * 4,
        ;
        assert(crop.raw_data@[row * crop.width * 4 + k] == image.raw_data@[image.crop_source_index(
            0,
            0,
            row,
            k,
        )]);
        assert(image.crop_source_index(0, 0, row, k) == i) by (nonlinear_arith)
            requires
                image.crop_source_index(0, 0, row, k) == (0 + row) * image.width * 4 + 0 * 4 + k,
                i == row * w4 + k,
                w4 == image.width * 4,
        ;
    }
    assert(crop.raw_data@ =~= image.raw_data@);
}

/// The text left after cleaning OCR output has no whitespace at either end, so cleaning trims
/// it completely.
pub proof fn law_cleaned_text_is_trimmed(text: Seq<char>)
    ensures
        trim(cleaned_ocr_text(text)) == cleaned_ocr_text(text),
        cleaned_ocr_text(text).len() > 0 ==> !is_unicode_whitespace(cleaned_ocr_text(text)[0])
            && !is_unicode_whitespace(cleaned_ocr_text(text).last()),
{
    lemma_trim_idempotent(apply_replacements(text, ocr_replacement_table()));
}

/// A settings edit only ever changes the draft: the settings in use stay as they are.
pub proof fn law_edit_messages_keep_settings(
    o: AppOrchestrator,
    n: AppOrchestrator,
    m: OrchestratorMessage,
    fresh_id: u64,
    platform: Seq<char>,
    effects: Seq<Effect>,
)
    requires
        message_settings_update(m) is Some,
        update_post(o, n, m, fresh_id, platform, effects),
    ensures
        n.settings == o.settings,
        effects.len() == 0,
{
}

/// The settings in use change only when a save is requested, when the system-tray mode is
/// switched, or when onboarding finishes.
pub proof fn law_settings_change_only_when_committed(
    o: AppOrchestrator,
    n: AppOrchestrator,
    m: OrchestratorMessage,
    fresh_id: u64,
    platform: Seq<char>,
    effects: Seq<Effect>,
)
    requires
        update_post(o, n, m, fresh_id, platform, effects),
        n.settings != o.settings,
    ensures
        m is SaveSettings || m is UpdateSystemTrayMode || m matches OrchestratorMessage::OnboardingMsg(
            _,
            OnboardingRequest::Finish(_),
        ),
{
}

} // verus!
