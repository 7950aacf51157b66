//! Application-wide names, defaults, status lines and message fragments.
use vstd::prelude::*;

verus! {

pub const APPLICATION_NAME: &'static str = "Circle to Search - Desktop";
pub const APPLICATION_TITLE: &'static str = "Circle to Search";
pub const HOTKEY_CAPTURE: &'static str = "Alt+Shift+S";
pub const HOTKEY_CANCEL: &'static str = "Escape";
pub const HOTKEY_EXIT: &'static str = "Ctrl+C";
pub const MESSAGE_MOUSE_POSITION_FAILED: &'static str = "failed to get mouse position, using (0,0)";
pub const IMGBB_API_URL: &'static str = "https://api.imgbb.com/1/upload";
pub const IMGBB_PUBLIC_KEY: &'static str = "851a50a8320bc2c59b0f564f0a1343de";
pub const IMGBB_EXPIRATION_SECONDS: &'static str = "900";
pub const IMGBB_PUBLIC_KEY_QUERY_NAME: &'static str = "key";
pub const IMGBB_PUBLIC_KEY_ENV_VAR_NAME: &'static str = "IMGBB_API_KEY";
pub const IMGBB_HTTP_METHOD: &'static str = "POST";
pub const IMGBB_IMAGE_FIELD_NAME: &'static str = "image";
pub const IMAGE_HOSTING_VALIDATION_URL_EMPTY: &'static str = "Image hosting URL cannot be empty";
pub const IMAGE_HOSTING_VALIDATION_URL_INVALID: &'static str = "Image hosting URL must be a valid absolute URL";
pub const IMAGE_HOSTING_VALIDATION_KEY_NAME_EMPTY: &'static str = "Public key name cannot be empty";
pub const IMAGE_HOSTING_VALIDATION_KEY_EMPTY: &'static str = "Public key cannot be empty";
pub const IMAGE_HOSTING_VALIDATION_EXPIRATION_EMPTY: &'static str = "Expiration seconds cannot be empty";
pub const IMAGE_HOSTING_VALIDATION_EXPIRATION_INVALID: &'static str = "Expiration seconds must be a positive integer";
pub const DEFAULT_IMAGE_SEARCH_URL: &'static str = "https://lens.google.com/uploadbyurl?url={}";
pub const DEFAULT_CAPTURE_HOTKEY: &'static str = "Alt+Shift+S";
pub const SETTINGS_FILE_NAME: &'static str = "settings.json";
pub const STATUS_INITIALIZING: &'static str = "Initializing OCR service...";
pub const STATUS_PREPARING_CAPTURE: &'static str = "Preparing to capture...";
pub const STATUS_CAPTURING_SCREEN: &'static str = "Capturing screen...";
pub const STATUS_OVERLAY_READY: &'static str = "Overlay ready!";
pub const STATUS_PROCESSING_SELECTION: &'static str = "Processing selection...";
/// The word that marks a status as ready.
pub const STATUS_KEYWORD_READY: &'static str = "Ready";
/// A word that marks a status as loading.
pub const STATUS_KEYWORD_LOADING: &'static str = "Loading";
/// A word that marks a status as starting up.
pub const STATUS_KEYWORD_INITIALIZING: &'static str = "Initializing";
/// A word that marks a status as an error.
pub const STATUS_KEYWORD_ERROR: &'static str = "Error";
/// A word that marks a status as a failure.
pub const STATUS_KEYWORD_FAILED: &'static str = "Failed";
pub const STATUS_READY_SIMPLE: &'static str = "Ready";
pub const STATUS_OCR_COMPLETE: &'static str = "OCR complete";
pub const STATUS_READY: &'static str = "Ready - Press Alt+Shift+S to capture";
pub const STATUS_PROCESSING_OCR: &'static str = "Processing OCR...";
pub const STATUS_SETTINGS_SAVED: &'static str = "Settings saved";
pub const STATUS_SETTINGS_EDITOR_NOT_ACTIVE: &'static str = "Settings editor is not active";
pub const STATUS_SETTINGS_SAVE_FAILED_PREFIX: &'static str = "Failed to save settings: ";
pub const STATUS_ONBOARDING_SCREEN_RECORDING_FAILED: &'static str = "Failed to open Screen Recording settings";
pub const STATUS_ONBOARDING_INPUT_MONITORING_FAILED: &'static str = "Failed to open Input Monitoring settings";
pub const CAPTURE_ERROR_MONITOR_PREFIX: &'static str = "Monitor error: ";
pub const CAPTURE_ERROR_CROP_PREFIX: &'static str = "Error cropping image: ";
pub const CAPTURE_ERROR_GENERIC_PREFIX: &'static str = "Capture failed: ";
pub const CAPTURE_ERROR_GENERIC_SUFFIX: &'static str = ". Try closing other instances.";
pub const CAPTURE_ERROR_LINUX_PERMISSION_PREFIX: &'static str = "Screen capture failed: ";
pub const CAPTURE_ERROR_LINUX_PERMISSION_SUFFIX: &'static str = "\n\nOn Linux (Wayland), screen capture requires:\n• PipeWire and xdg-desktop-portal installed\n• A portal dialog will appear - click 'Share' to allow\n\nTry: sudo apt install pipewire xdg-desktop-portal";
pub const CAPTURE_ERROR_MACOS_PERMISSION_PREFIX: &'static str = "Screen capture failed: ";
pub const CAPTURE_ERROR_MACOS_PERMISSION_SUFFIX: &'static str = "\n\nPlease grant Screen Recording permission:\nSystem Settings -> Privacy & Security -> Screen Recording";
pub const CAPTURE_PLATFORM_LINUX: &'static str = "linux";
pub const CAPTURE_PLATFORM_MACOS: &'static str = "macos";
pub const CAPTURE_PLATFORM_WINDOWS: &'static str = "windows";
pub const CAPTURE_PLATFORM_UNKNOWN: &'static str = "unknown";
pub const CAPTURE_ERROR_KEYWORD_PERMISSION: &'static str = "permission";
pub const CAPTURE_ERROR_KEYWORD_ACCESS: &'static str = "access";
pub const CAPTURE_ERROR_KEYWORD_DENIED: &'static str = "denied";
pub const CAPTURE_ERROR_KEYWORD_PIPEWIRE: &'static str = "pipewire";
pub const CAPTURE_ERROR_KEYWORD_PORTAL: &'static str = "portal";
pub const IMAGE_SEARCH_FAILURE_SUFFIX: &'static str = " - Update Settings > Image Hosting or use Copy Image to clipboard";
pub const IMAGE_SEARCH_TIMEOUT_MESSAGE: &'static str = "Search timed out after 30 seconds - Update Settings > Image Hosting or use Copy Image to clipboard";
pub const OCR_RAW_IMAGE_CREATION_FAILED: &'static str = "Failed to create image from raw data";
pub const OCR_INITIALIZATION_FAILED_PREFIX: &'static str = "OCR initialization failed: ";
pub const UI_GENERIC_LOADING: &'static str = "Loading...";

/// Seconds after which an image search is abandoned.
pub const IMAGE_SEARCH_TIMEOUT_SECONDS: u64 = 30;

} // verus!
