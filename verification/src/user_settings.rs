//! The user's preferences: appearance, image hosting, search and capture options.
use vstd::prelude::*;

use crate::constants::{
    DEFAULT_CAPTURE_HOTKEY, DEFAULT_IMAGE_SEARCH_URL, IMGBB_API_URL, IMGBB_EXPIRATION_SECONDS,
    IMGBB_IMAGE_FIELD_NAME, IMGBB_PUBLIC_KEY, IMGBB_PUBLIC_KEY_QUERY_NAME,
};

verus! {

/// The colour scheme of the windows.
#[derive(Debug, Clone, Copy, PartialEq, Eq, Structural)]
pub enum ThemeMode {
    Dark,
    Light,
}

impl ThemeMode {
    /// The name shown for the mode.
    pub fn label(&self) -> (s: &'static str)
        ensures
            s@ == theme_mode_label(*self)@,
    {
        match self {
            ThemeMode::Dark => "Dark",
            ThemeMode::Light => "Light",
        }
    }
}

/// The name shown for each theme mode.
pub open spec fn theme_mode_label(m: ThemeMode) -> &'static str {
    match m {
        ThemeMode::Dark => "Dark",
        ThemeMode::Light => "Light",
    }
}

impl Default for ThemeMode {
    /// The dark theme.
    fn default() -> (m: Self)
        ensures
            m == ThemeMode::Dark,
    {
        ThemeMode::Dark
    }
}

/// How the image-hosting public key is sent with an upload.
#[derive(Debug, Clone, Copy, PartialEq, Eq, Structural)]
pub enum ImageHostingAuthMode {
    Query,
    Header,
}

impl ImageHostingAuthMode {
    /// The name shown for the mode.
    pub fn label(&self) -> (s: &'static str)
        ensures
            s@ == auth_mode_label(*self)@,
    {
        match self {
            ImageHostingAuthMode::Query => "Query",
            ImageHostingAuthMode::Header => "Header",
        }
    }
}

/// The name shown for each authentication mode.
pub open spec fn auth_mode_label(m: ImageHostingAuthMode) -> &'static str {
    match m {
        ImageHostingAuthMode::Query => "Query",
        ImageHostingAuthMode::Header => "Header",
    }
}

impl Default for ImageHostingAuthMode {
    /// The key is sent as a query parameter.
    fn default() -> (m: Self)
        ensures
            m == ImageHostingAuthMode::Query,
    {
        ImageHostingAuthMode::Query
    }
}

/// The HTTP method of an image upload.
#[derive(Debug, Clone, Copy, PartialEq, Eq, Structural)]
pub enum ImageUploadHttpMethod {
    Post,
    Get,
    Put,
}

impl ImageUploadHttpMethod {
    /// The method name as it stands in an HTTP request.
    pub fn label(&self) -> (s: &'static str)
        ensures
            s@ == http_method_label(*self)@,
    {
        match self {
            ImageUploadHttpMethod::Post => "POST",
            ImageUploadHttpMethod::Get => "GET",
            ImageUploadHttpMethod::Put => "PUT",
        }
    }
}

/// The request-line name of each HTTP method.
pub open spec fn http_method_label(m: ImageUploadHttpMethod) -> &'static str {
    match m {
        ImageUploadHttpMethod::Post => "POST",
        ImageUploadHttpMethod::Get => "GET",
        ImageUploadHttpMethod::Put => "PUT",
    }
}

impl Default for ImageUploadHttpMethod {
    /// Uploads are POSTed.
    fn default() -> (m: Self)
        ensures
            m == ImageUploadHttpMethod::Post,
    {
        ImageUploadHttpMethod::Post
    }
}

/// Everything the user can configure.
#[derive(Debug, Clone)]
pub struct UserSettings {
    pub image_search_url_template: String,
    pub image_hosting_provider_url: String,
    pub image_hosting_auth_mode: ImageHostingAuthMode,
    pub image_hosting_public_key_name: String,
    pub image_hosting_public_key_value: String,
    pub image_hosting_expiration_seconds: String,
    pub image_hosting_http_method: ImageUploadHttpMethod,
    pub image_hosting_image_field_name: String,
    pub capture_hotkey: String,
    pub theme_mode: ThemeMode,
    pub run_in_system_tray: bool,
    pub onboarding_complete: bool,
    pub launch_at_login: bool,
    pub install_id: Option<String>,
    pub screenshot_save_location: String,
}

/// The user's download directory (`dirs::download_dir`), as text, when the platform has one.
/// It depends on the user's environment; nothing is claimed of it.
#[verifier::external_body]
fn download_dir_text() -> (dir: Option<String>) {
    dirs::download_dir().map(|path| path.to_string_lossy().to_string())
}

/// The user's home directory (`dirs::home_dir`), as text, when the platform has one. It
/// depends on the user's environment; nothing is claimed of it.
#[verifier::external_body]
fn home_dir_text() -> (dir: Option<String>) {
    dirs::home_dir().map(|path| path.to_string_lossy().to_string())
}

/// An optional string, copied.
pub fn clone_optional_string(s: &Option<String>) -> (r: Option<String>)
    ensures
        r == *s,
{
    match s {
        Some(v) => Some(v.clone()),
        None => None,
    }
}

/// The factory settings with `public_key` as the public key, apart from the default screenshot
/// directory, which comes from the platform.
pub open spec fn has_default_values_with_key(s: UserSettings, public_key: Seq<char>) -> bool {
    &&& s.image_search_url_template@ == DEFAULT_IMAGE_SEARCH_URL@
    &&& s.image_hosting_provider_url@ == IMGBB_API_URL@
    &&& s.image_hosting_auth_mode == ImageHostingAuthMode::Query
    &&& s.image_hosting_public_key_name@ == IMGBB_PUBLIC_KEY_QUERY_NAME@
    &&& s.image_hosting_public_key_value@ == public_key
    &&& s.image_hosting_expiration_seconds@ == IMGBB_EXPIRATION_SECONDS@
    &&& s.image_hosting_http_method == ImageUploadHttpMethod::Post
    &&& s.image_hosting_image_field_name@ == IMGBB_IMAGE_FIELD_NAME@
    &&& s.capture_hotkey@ == DEFAULT_CAPTURE_HOTKEY@
    &&& s.theme_mode == ThemeMode::Dark
    &&& s.run_in_system_tray
    &&& !s.onboarding_complete
    &&& !s.launch_at_login
    &&& s.install_id is None
}

/// The factory settings with the built-in public key.
pub open spec fn has_default_values(s: UserSettings) -> bool {
    has_default_values_with_key(s, IMGBB_PUBLIC_KEY@)
}

impl Default for UserSettings {
    /// The factory settings with the built-in public key; the screenshot directory is the
    /// platform's download directory. Where a key is configured for the installation, use
    /// `with_public_key`.
    fn default() -> (s: Self)
        ensures
            has_default_values(s),
    {
        Self::with_public_key(String::from_str(IMGBB_PUBLIC_KEY))
    }
}

impl UserSettings {
    /// The factory settings with `public_key` as the public key (the configured key, or the
    /// built-in one: see `public_key_value_or_builtin`).
    pub fn with_public_key(public_key: String) -> (s: Self)
        ensures
            has_default_values_with_key(s, public_key@),
    {
        Self {
            image_search_url_template: String::from_str(DEFAULT_IMAGE_SEARCH_URL),
            image_hosting_provider_url: Self::default_image_hosting_provider_url(),
            image_hosting_auth_mode: ImageHostingAuthMode::default(),
            image_hosting_public_key_name: Self::default_image_hosting_public_key_name(),
            image_hosting_public_key_value: public_key,
            image_hosting_expiration_seconds: Self::default_image_hosting_expiration_seconds(),
            image_hosting_http_method: ImageUploadHttpMethod::default(),
            image_hosting_image_field_name: Self::default_image_hosting_image_field_name(),
            capture_hotkey: String::from_str(DEFAULT_CAPTURE_HOTKEY),
            theme_mode: ThemeMode::default(),
            run_in_system_tray: true,
            onboarding_complete: false,
            launch_at_login: false,
            install_id: None,
            screenshot_save_location: Self::default_screenshot_save_location(),
        }
    }
}

impl UserSettings {
    /// The default upload endpoint.
    pub fn default_image_hosting_provider_url() -> (s: String)
        ensures
            s@ == IMGBB_API_URL@,
    {
        String::from_str(IMGBB_API_URL)
    }

    /// The default name under which the public key is sent.
    pub fn default_image_hosting_public_key_name() -> (s: String)
        ensures
            s@ == IMGBB_PUBLIC_KEY_QUERY_NAME@,
    {
        String::from_str(IMGBB_PUBLIC_KEY_QUERY_NAME)
    }

    /// The public key to use by default: the one configured in the environment when there is
    /// one, else the built-in key.
    pub fn public_key_value_or_builtin(configured: Option<String>) -> (s: String)
        ensures
            match configured {
                Some(v) => s == v,
                None => s@ == IMGBB_PUBLIC_KEY@,
            },
    {
        match configured {
            Some(v) => v,
            None => String::from_str(IMGBB_PUBLIC_KEY),
        }
    }

    /// Whether the settings still use the default public key `default_key` (the configured key,
    /// or the built-in one: see `public_key_value_or_builtin`).
    pub fn is_using_default_public_key(&self, default_key: &str) -> (b: bool)
        ensures
            b == (self.image_hosting_public_key_value@ == default_key@),
    {
        let default_text = String::from_str(default_key);
        self.image_hosting_public_key_value == default_text
    }

    /// The default upload lifetime in seconds, as entered text.
    pub fn default_image_hosting_expiration_seconds() -> (s: String)
        ensures
            s@ == IMGBB_EXPIRATION_SECONDS@,
    {
        String::from_str(IMGBB_EXPIRATION_SECONDS)
    }

    /// The default multipart field that carries the image.
    pub fn default_image_hosting_image_field_name() -> (s: String)
        ensures
            s@ == IMGBB_IMAGE_FIELD_NAME@,
    {
        String::from_str(IMGBB_IMAGE_FIELD_NAME)
    }

    /// The directory screenshots go to: the download directory, else the home directory,
    /// else the working directory.
    pub fn choose_screenshot_save_location(download_dir: Option<String>, home_dir: Option<
        String,
    >) -> (s: String)
        ensures
            match (download_dir, home_dir) {
                (Some(d), _) => s == d,
                (None, Some(h)) => s == h,
                (None, None) => s@ == "."@,
            },
    {
        match download_dir {
            Some(d) => d,
            None => match home_dir {
                Some(h) => h,
                None => String::from_str("."),
            },
        }
    }

    /// The platform's default directory for screenshots.
    pub fn default_screenshot_save_location() -> (s: String) {
        Self::choose_screenshot_save_location(download_dir_text(), home_dir_text())
    }

    /// Whether a saved install identifier shows that this is a different installation:
    /// both identifiers are known and they differ.
    pub fn is_new_installation(saved_id: &Option<String>, current_id: &Option<String>) -> (b: bool)
        ensures
            b == (saved_id is Some && current_id is Some && saved_id->0@ != current_id->0@),
    {
        match (saved_id, current_id) {
            (Some(saved), Some(current)) => !(*saved == *current),
            _ => false,
        }
    }

    /// The settings to use after reading the settings file: with no stored settings, or with
    /// stored settings of another installation, `defaults`; otherwise the stored settings. Either
    /// way the current install identifier is recorded. The flag says whether the result must be
    /// written back (it is not when stored settings are kept).
    pub fn settings_after_load(
        stored: Option<UserSettings>,
        current_install_id: Option<String>,
        defaults: UserSettings,
    ) -> (r: (UserSettings, bool))
        ensures
            match stored {
                Some(s) => if s.install_id is Some && current_install_id is Some
                    && s.install_id->0@ != current_install_id->0@ {
                    r == (UserSettings { install_id: current_install_id, ..defaults }, true)
                } else {
                    r == (UserSettings { install_id: current_install_id, ..s }, false)
                },
                None => r == (UserSettings { install_id: current_install_id, ..defaults }, true),
            },
    {
        match stored {
            Some(mut settings) => {
                if Self::is_new_installation(&settings.install_id, &current_install_id) {
                    let mut fresh = defaults;
                    fresh.install_id = current_install_id;
                    (fresh, true)
                } else {
                    settings.install_id = current_install_id;
                    (settings, false)
                }
            },
            None => {
                let mut fresh = defaults;
                fresh.install_id = current_install_id;
                (fresh, true)
            },
        }
    }

    /// A field-by-field copy of the settings.
    pub fn clone_settings(&self) -> (s: Self)
        ensures
            s == *self,
    {
        Self {
            image_search_url_template: self.image_search_url_template.clone(),
            image_hosting_provider_url: self.image_hosting_provider_url.clone(),
            image_hosting_auth_mode: self.image_hosting_auth_mode,
            image_hosting_public_key_name: self.image_hosting_public_key_name.clone(),
            image_hosting_public_key_value: self.image_hosting_public_key_value.clone(),
            image_hosting_expiration_seconds: self.image_hosting_expiration_seconds.clone(),
            image_hosting_http_method: self.image_hosting_http_method,
            image_hosting_image_field_name: self.image_hosting_image_field_name.clone(),
            capture_hotkey: self.capture_hotkey.clone(),
            theme_mode: self.theme_mode,
            run_in_system_tray: self.run_in_system_tray,
            onboarding_complete: self.onboarding_complete,
            launch_at_login: self.launch_at_login,
            install_id: clone_optional_string(&self.install_id),
            screenshot_save_location: self.screenshot_save_location.clone(),
        }
    }
}

} // verus!
