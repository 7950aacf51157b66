//! The application's decision core: which windows are open, what the status line says, how
//! settings are edited and saved, and which effects the windowing layer must carry out in
//! answer to each message.
use std::collections::HashMap;
use vstd::prelude::*;
use vstd::std_specs::iter::IteratorSpec;

use crate::constants::{
    APPLICATION_TITLE,
    CAPTURE_ERROR_GENERIC_PREFIX, CAPTURE_ERROR_GENERIC_SUFFIX, STATUS_INITIALIZING,
    STATUS_SETTINGS_EDITOR_NOT_ACTIVE, STATUS_SETTINGS_SAVED, STATUS_SETTINGS_SAVE_FAILED_PREFIX,
};
use crate::image_hosting::{
    image_hosting_settings_error, settings_error_text, validate_image_hosting_settings,
};
use crate::text::{chars_of, concat_chars, string_from_chars, trim, trim_chars};
use crate::user_settings::{
    ImageHostingAuthMode, ImageUploadHttpMethod, ThemeMode, UserSettings,
};

verus! {

broadcast use vstd::std_specs::hash::group_hash_axioms;

/// The kinds of window the application shows.
#[derive(Debug, Clone, Copy, PartialEq, Eq, Structural)]
pub enum AppWindow {
    Main,
    CaptureOverlay,
    InteractiveOcr,
    Settings,
    Onboarding,
    Hidden,
    WindowPicker,
}

/// Whether the settings window holds a draft being edited.
#[derive(Debug, Clone)]
pub enum SettingsEditState {
    Closed,
    Editing(UserSettings),
}

/// One edit of a settings field.
#[derive(Debug, Clone)]
pub enum SettingsUpdate {
    SearchUrl(String),
    ImageHostingProviderUrl(String),
    ImageHostingAuthMode(ImageHostingAuthMode),
    ImageHostingPublicKeyName(String),
    ImageHostingPublicKeyValue(String),
    ImageHostingExpirationSeconds(String),
    ImageHostingHttpMethod(ImageUploadHttpMethod),
    ImageHostingImageFieldName(String),
    Hotkey(String),
    Theme(ThemeMode),
}

/// `s` with the field named by `u` set to the value it carries.
pub open spec fn apply_update(s: UserSettings, u: SettingsUpdate) -> UserSettings {
    match u {
        SettingsUpdate::SearchUrl(v) => UserSettings { image_search_url_template: v, ..s },
        SettingsUpdate::ImageHostingProviderUrl(v) => UserSettings {
            image_hosting_provider_url: v,
            ..s
        },
        SettingsUpdate::ImageHostingAuthMode(v) => UserSettings { image_hosting_auth_mode: v, ..s },
        SettingsUpdate::ImageHostingPublicKeyName(v) => UserSettings {
            image_hosting_public_key_name: v,
            ..s
        },
        SettingsUpdate::ImageHostingPublicKeyValue(v) => UserSettings {
            image_hosting_public_key_value: v,
            ..s
        },
        SettingsUpdate::ImageHostingExpirationSeconds(v) => UserSettings {
            image_hosting_expiration_seconds: v,
            ..s
        },
        SettingsUpdate::ImageHostingHttpMethod(v) => UserSettings {
            image_hosting_http_method: v,
            ..s
        },
        SettingsUpdate::ImageHostingImageFieldName(v) => UserSettings {
            image_hosting_image_field_name: v,
            ..s
        },
        SettingsUpdate::Hotkey(v) => UserSettings { capture_hotkey: v, ..s },
        SettingsUpdate::Theme(v) => UserSettings { theme_mode: v, ..s },
    }
}

/// An edit that is ignored: a public key made only of whitespace.
pub open spec fn is_ignored_update(u: SettingsUpdate) -> bool {
    u matches SettingsUpdate::ImageHostingPublicKeyValue(v) && trim(v@).len() == 0
}

impl SettingsUpdate {
    /// Sets the field named by the edit.
    pub fn apply_to(self, settings: &mut UserSettings)
        ensures
            *final(settings) == apply_update(*old(settings), self),
    {
        match self {
            SettingsUpdate::SearchUrl(v) => settings.image_search_url_template = v,
            SettingsUpdate::ImageHostingProviderUrl(v) => settings.image_hosting_provider_url = v,
            SettingsUpdate::ImageHostingAuthMode(v) => settings.image_hosting_auth_mode = v,
            SettingsUpdate::ImageHostingPublicKeyName(v) => settings.image_hosting_public_key_name =
            v,
            SettingsUpdate::ImageHostingPublicKeyValue(v) => settings.image_hosting_public_key_value =
            v,
            SettingsUpdate::ImageHostingExpirationSeconds(v) => settings.image_hosting_expiration_seconds =
            v,
            SettingsUpdate::ImageHostingHttpMethod(v) => settings.image_hosting_http_method = v,
            SettingsUpdate::ImageHostingImageFieldName(v) => settings.image_hosting_image_field_name =
            v,
            SettingsUpdate::Hotkey(v) => settings.capture_hotkey = v,
            SettingsUpdate::Theme(v) => settings.theme_mode = v,
        }
    }

    /// Whether the edit is ignored (a blank public key).
    pub fn is_ignored(&self) -> (b: bool)
        ensures
            b == is_ignored_update(*self),
    {
        match self {
            SettingsUpdate::ImageHostingPublicKeyValue(v) => trim_chars(&chars_of(v.as_str())).len()
                == 0,
            _ => false,
        }
    }
}

/// The fields that configure reverse image search differ between `a` and `b`.
pub open spec fn search_provider_changed(a: UserSettings, b: UserSettings) -> bool {
    ||| a.image_search_url_template@ != b.image_search_url_template@
    ||| a.image_hosting_provider_url@ != b.image_hosting_provider_url@
    ||| a.image_hosting_auth_mode != b.image_hosting_auth_mode
    ||| a.image_hosting_public_key_name@ != b.image_hosting_public_key_name@
    ||| a.image_hosting_public_key_value@ != b.image_hosting_public_key_value@
    ||| a.image_hosting_expiration_seconds@ != b.image_hosting_expiration_seconds@
    ||| a.image_hosting_http_method != b.image_hosting_http_method
    ||| a.image_hosting_image_field_name@ != b.image_hosting_image_field_name@
}

/// What a save request leads to, before anything is written.
#[derive(Debug, Clone, Copy, PartialEq, Eq, Structural)]
pub enum SettingsSavePlan {
    /// Nothing is saved (no editor open, or the draft is invalid).
    Abort,
    /// The draft became the settings; they must now be written to disk.
    Persist { hotkey_changed: bool, rebuild_search_provider: bool },
}

/// The application's window, status and settings state.
pub struct AppOrchestrator {
    pub windows: HashMap<u64, AppWindow>,
    pub main_window_id: Option<u64>,
    pub onboarding_window_id: Option<u64>,
    pub hidden_window_id: Option<u64>,
    pub window_picker_window_id: Option<u64>,
    pub status: String,
    pub settings: UserSettings,
    pub settings_window_id: Option<u64>,
    pub settings_edit_state: SettingsEditState,
}

/// `prefix` then `detail`.
pub(crate) fn prefixed(prefix: &str, detail: &str) -> (s: String)
    ensures
        s@ == prefix@ + detail@,
{
    string_from_chars(&concat_chars(&chars_of(prefix), &chars_of(detail)))
}

/// The windows and their recorded identifiers are the same in `o` and `n`.
pub open spec fn same_windows(o: AppOrchestrator, n: AppOrchestrator) -> bool {
    &&& n.windows@ == o.windows@
    &&& n.main_window_id == o.main_window_id
    &&& n.onboarding_window_id == o.onboarding_window_id
    &&& n.hidden_window_id == o.hidden_window_id
    &&& n.window_picker_window_id == o.window_picker_window_id
    &&& n.settings_window_id == o.settings_window_id
}

/// The settings shown in the windows: the draft while one is edited, else the settings.
pub open spec fn settings_in_view(o: AppOrchestrator) -> UserSettings {
    match o.settings_edit_state {
        SettingsEditState::Closed => o.settings,
        SettingsEditState::Editing(d) => d,
    }
}

/// The state after a settings edit: the draft changes (unless the edit is ignored or no
/// draft is open) and nothing else does.
pub open spec fn settings_update_post(o: AppOrchestrator, n: AppOrchestrator, u: SettingsUpdate) -> bool {
    &&& same_windows(o, n)
    &&& n.status == o.status
    &&& n.settings == o.settings
    &&& n.settings_edit_state == match o.settings_edit_state {
        SettingsEditState::Closed => SettingsEditState::Closed,
        SettingsEditState::Editing(d) => if is_ignored_update(u) {
            SettingsEditState::Editing(d)
        } else {
            SettingsEditState::Editing(apply_update(d, u))
        },
    }
}

/// The state and plan after a save request.
pub open spec fn begin_save_post(o: AppOrchestrator, n: AppOrchestrator, plan: SettingsSavePlan) -> bool {
    &&& same_windows(o, n)
    &&& match o.settings_edit_state {
        SettingsEditState::Closed => {
            &&& plan == SettingsSavePlan::Abort
            &&& n.status@ == STATUS_SETTINGS_EDITOR_NOT_ACTIVE@
            &&& n.settings == o.settings
            &&& n.settings_edit_state == o.settings_edit_state
        },
        SettingsEditState::Editing(draft) => match image_hosting_settings_error(draft) {
            Some(e) => {
                &&& plan == SettingsSavePlan::Abort
                &&& n.status@ == STATUS_SETTINGS_SAVE_FAILED_PREFIX@ + settings_error_text(e)@
                &&& n.settings == o.settings
                &&& n.settings_edit_state == o.settings_edit_state
            },
            None => {
                &&& plan == SettingsSavePlan::Persist {
                    hotkey_changed: draft.capture_hotkey@ != o.settings.capture_hotkey@,
                    rebuild_search_provider: search_provider_changed(o.settings, draft),
                }
                &&& n.status == o.status
                &&& n.settings == draft
                &&& n.settings_edit_state == SettingsEditState::Closed
            },
        },
    }
}

impl AppOrchestrator {
    /// The state at start-up: no windows, no draft, the status saying OCR is starting.
    pub fn build(settings: UserSettings) -> (o: Self)
        ensures
            o.windows@ == Map::<u64, AppWindow>::empty(),
            o.main_window_id is None,
            o.onboarding_window_id is None,
            o.hidden_window_id is None,
            o.window_picker_window_id is None,
            o.settings_window_id is None,
            o.status@ == STATUS_INITIALIZING@,
            o.settings == settings,
            o.settings_edit_state == SettingsEditState::Closed,
    {
        Self {
            windows: HashMap::new(),
            main_window_id: None,
            onboarding_window_id: None,
            hidden_window_id: None,
            window_picker_window_id: None,
            status: String::from_str(STATUS_INITIALIZING),
            settings,
            settings_window_id: None,
            settings_edit_state: SettingsEditState::Closed,
        }
    }

    /// The title of every window of the application.
    pub fn get_window_title(&self, _window: u64) -> (title: String)
        ensures
            title@ == APPLICATION_TITLE@,
    {
        String::from_str(APPLICATION_TITLE)
    }

    /// Opens a draft: a copy of the current settings.
    pub fn begin_settings_edit(&mut self)
        ensures
            final(self).settings_edit_state == SettingsEditState::Editing(old(self).settings),
            final(self).settings == old(self).settings,
            final(self).status == old(self).status,
            same_windows(*old(self), *final(self)),
    {
        self.settings_edit_state = SettingsEditState::Editing(self.settings.clone_settings());
    }

    /// Drops the draft; the settings are untouched.
    pub fn discard_settings_edit(&mut self)
        ensures
            final(self).settings_edit_state == SettingsEditState::Closed,
            final(self).settings == old(self).settings,
            final(self).status == old(self).status,
            same_windows(*old(self), *final(self)),
    {
        self.settings_edit_state = SettingsEditState::Closed;
    }

    /// The settings to show: the draft while one is open, else the settings.
    pub fn get_settings_for_rendering(&self) -> (s: &UserSettings)
        ensures
            *s == settings_in_view(*self),
    {
        match &self.settings_edit_state {
            SettingsEditState::Closed => &self.settings,
            SettingsEditState::Editing(settings) => settings,
        }
    }

    /// Takes the draft out, leaving no draft open.
    pub fn take_settings_draft(&mut self) -> (draft: Option<UserSettings>)
        ensures
            draft == match old(self).settings_edit_state {
                SettingsEditState::Closed => None,
                SettingsEditState::Editing(d) => Some(d),
            },
            final(self).settings_edit_state == SettingsEditState::Closed,
            final(self).settings == old(self).settings,
            final(self).status == old(self).status,
            same_windows(*old(self), *final(self)),
    {
        let mut state = SettingsEditState::Closed;
        std::mem::swap(&mut state, &mut self.settings_edit_state);
        match state {
            SettingsEditState::Closed => None,
            SettingsEditState::Editing(settings) => Some(settings),
        }
    }

    /// Applies an edit to the draft; returns whether a draft was open. A blank public key is
    /// ignored.
    pub fn update_settings_draft(&mut self, update: SettingsUpdate) -> (edited: bool)
        ensures
            settings_update_post(*old(self), *final(self), update),
            edited == (old(self).settings_edit_state is Editing),
    {
        if update.is_ignored() {
            return match &self.settings_edit_state {
                SettingsEditState::Closed => false,
                SettingsEditState::Editing(_) => true,
            };
        }
        match &mut self.settings_edit_state {
            SettingsEditState::Closed => false,
            SettingsEditState::Editing(settings) => {
                update.apply_to(settings);
                true
            },
        }
    }

    /// Checks the image-hosting settings; the error is the message shown to the user.
    pub fn validate_image_hosting_settings(settings: &UserSettings) -> (r: Result<(), String>)
        ensures
            match image_hosting_settings_error(*settings) {
                Some(e) => r matches Err(msg) && msg@ == settings_error_text(e)@,
                None => r is Ok,
            },
    {
        match validate_image_hosting_settings(settings) {
            Ok(()) => Ok(()),
            Err(e) => Err(String::from_str(e.message())),
        }
    }

    /// Whether the reverse image search must be rebuilt after the settings change.
    pub fn should_rebuild_search_provider(previous_settings: &UserSettings, next_settings: &UserSettings) -> (b:
        bool)
        ensures
            b == search_provider_changed(*previous_settings, *next_settings),
    {
        !(next_settings.image_search_url_template == previous_settings.image_search_url_template)
            || !(next_settings.image_hosting_provider_url
            == previous_settings.image_hosting_provider_url) || next_settings.image_hosting_auth_mode
            != previous_settings.image_hosting_auth_mode || !(
        next_settings.image_hosting_public_key_name
            == previous_settings.image_hosting_public_key_name) || !(
        next_settings.image_hosting_public_key_value
            == previous_settings.image_hosting_public_key_value) || !(
        next_settings.image_hosting_expiration_seconds
            == previous_settings.image_hosting_expiration_seconds)
            || next_settings.image_hosting_http_method
            != previous_settings.image_hosting_http_method || !(
        next_settings.image_hosting_image_field_name
            == previous_settings.image_hosting_image_field_name)
    }

    /// Starts saving: with a valid draft, the draft becomes the settings and the plan says
    /// whether the hotkey changed and whether the search must be rebuilt; otherwise the status
    /// explains why nothing is saved.
    pub fn begin_settings_save(&mut self) -> (plan: SettingsSavePlan)
        ensures
            begin_save_post(*old(self), *final(self), plan),
    {
        let error = match &self.settings_edit_state {
            SettingsEditState::Closed => {
                self.status = String::from_str(STATUS_SETTINGS_EDITOR_NOT_ACTIVE);
                return SettingsSavePlan::Abort;
            },
            SettingsEditState::Editing(draft) => validate_image_hosting_settings(draft),
        };
        if let Err(e) = error {
            self.status = prefixed(STATUS_SETTINGS_SAVE_FAILED_PREFIX, e.message());
            return SettingsSavePlan::Abort;
        }
        let draft = self.take_settings_draft();
        match draft {
            Some(next_settings) => {
                let hotkey_changed = !(next_settings.capture_hotkey == self.settings.capture_hotkey);
                let rebuild = Self::should_rebuild_search_provider(&self.settings, &next_settings);
                self.settings = next_settings;
                SettingsSavePlan::Persist { hotkey_changed, rebuild_search_provider: rebuild }
            },
            None => SettingsSavePlan::Abort,
        }
    }
}

/// `id` is the identifier of an open window of kind `kind`.
pub open spec fn is_window_of_kind(windows: Map<u64, AppWindow>, id: u64, kind: AppWindow) -> bool {
    windows.contains_key(id) && windows[id] == kind
}

/// `ids` lists, without repetition, exactly the open windows of kind `kind`.
pub open spec fn lists_windows_of_kind(windows: Map<u64, AppWindow>, kind: AppWindow, ids: Seq<u64>) -> bool {
    &&& ids.no_duplicates()
    &&& forall|i: int| 0 <= i < ids.len() ==> is_window_of_kind(windows, #[trigger] ids[i], kind)
    &&& forall|id: u64| is_window_of_kind(windows, id, kind) ==> ids.contains(id)
}

impl AppOrchestrator {
    /// The identifiers of the open windows of kind `kind`, in the map's iteration order.
    pub fn window_ids_of_kind(&self, kind: AppWindow) -> (ids: Vec<u64>)
        ensures
            lists_windows_of_kind(self.windows@, kind, ids@),
    {
        let mut ids: Vec<u64> = Vec::new();
        let ghost mut pos: Seq<int> = Seq::empty();
        for entry in it: self.windows.iter()
            invariant
                it.seq().no_duplicates(),
                forall|j: int| #![trigger it.seq()[j]]
                    0 <= j < it.seq().len() ==> self.windows@.contains_key(*it.seq()[j].0)
                        && self.windows@[*it.seq()[j].0] == *it.seq()[j].1,
                forall|id: u64| #[trigger] self.windows@.contains_key(id) ==> it.seq().contains(
                    (&id, &self.windows@[id]),
                ),
                pos.len() == ids.len(),
                forall|i: int|
                    0 <= i < ids.len() ==> 0 <= #[trigger] pos[i] < it.index() && ids@[i]
                        == *it.seq()[pos[i]].0,
                forall|i: int| 0 <= i < ids.len() ==> is_window_of_kind(self.windows@, #[trigger] ids@[i], kind),
                ids@.no_duplicates(),
                forall|j: int|
                    #![trigger it.seq()[j]]
                    0 <= j < it.index() && *it.seq()[j].1 == kind ==> ids@.contains(
                        *it.seq()[j].0,
                    ),
        {
            let (id, window) = entry;
            let ghost k = it.index();
            let ghost old_ids = ids@;
            assert(entry == it.seq()[k]);
            if *window == kind {
                proof {
                    assert forall|i: int| 0 <= i < ids.len() implies ids@[i] != *id by {
                        if ids@[i] == *id {
                            assert(it.seq()[pos[i]] == it.seq()[k]);
                        }
                    }
                }
                ids.push(*id);
                proof {
                    pos = pos.push(k);
                    assert(ids@[ids.len() - 1] == *id);
                    assert forall|j: int|
                        0 <= j < k + 1 && *it.seq()[j].1 == kind implies ids@.contains(
                        *it.seq()[j].0,
                    ) by {
                        if j < k {
                            let i = choose|i: int| 0 <= i < old_ids.len() && old_ids[i] == *it.seq()[j].0;
                            assert(ids@[i] == old_ids[i]);
                        } else {
                            assert(ids@[ids.len() - 1] == *it.seq()[j].0);
                        }
                    }
                }
            }
        }
        proof {
            assert forall|id: u64| is_window_of_kind(self.windows@, id, kind) implies ids@.contains(id) by {
                assert(self.windows@.contains_key(id));
            }
        }
        ids
    }
}

/// The status shown when a capture fails before reaching the error screen.
pub fn capture_failed_message(error: &str) -> (message: String)
    ensures
        message@ == CAPTURE_ERROR_GENERIC_PREFIX@ + error@ + CAPTURE_ERROR_GENERIC_SUFFIX@,
{
    let joined = concat_chars(
        &concat_chars(&chars_of(CAPTURE_ERROR_GENERIC_PREFIX), &chars_of(error)),
        &chars_of(CAPTURE_ERROR_GENERIC_SUFFIX),
    );
    string_from_chars(&joined)
}

} // verus!
