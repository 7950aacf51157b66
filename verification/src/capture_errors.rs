//! The message shown when a screen capture fails, with platform-specific advice for
//! permission problems.
use vstd::prelude::*;

use crate::constants::{
    CAPTURE_ERROR_GENERIC_PREFIX, CAPTURE_ERROR_GENERIC_SUFFIX, CAPTURE_ERROR_KEYWORD_ACCESS,
    CAPTURE_ERROR_KEYWORD_DENIED, CAPTURE_ERROR_KEYWORD_PERMISSION, CAPTURE_ERROR_KEYWORD_PIPEWIRE,
    CAPTURE_ERROR_KEYWORD_PORTAL, CAPTURE_ERROR_LINUX_PERMISSION_PREFIX,
    CAPTURE_ERROR_LINUX_PERMISSION_SUFFIX, CAPTURE_ERROR_MACOS_PERMISSION_PREFIX,
    CAPTURE_ERROR_MACOS_PERMISSION_SUFFIX, CAPTURE_PLATFORM_LINUX, CAPTURE_PLATFORM_MACOS,
};
use crate::text::{chars_of, concat_chars, contains_chars, contains_seq, string_from_chars};

verus! {

/// The lower-case form of a text under Unicode case mapping (`str::to_lowercase`).
pub uninterp spec fn lowercased(text: Seq<char>) -> Seq<char>;

/// Lower-cases `text` with `str::to_lowercase`. Claimed: the result is `lowercased` of the text,
/// which depends on the text alone; the case mapping itself is not spelled out.
#[verifier::external_body]
fn to_lowercase(text: &str) -> (lower: String)
    ensures
        lower@ == lowercased(text@),
{
    text.to_lowercase()
}

/// A lower-cased Linux capture error that points at permissions or the desktop portal.
pub open spec fn is_linux_permission_error(lower: Seq<char>) -> bool {
    ||| contains_seq(lower, CAPTURE_ERROR_KEYWORD_PERMISSION@)
    ||| contains_seq(lower, CAPTURE_ERROR_KEYWORD_ACCESS@)
    ||| contains_seq(lower, CAPTURE_ERROR_KEYWORD_DENIED@)
    ||| contains_seq(lower, CAPTURE_ERROR_KEYWORD_PIPEWIRE@)
    ||| contains_seq(lower, CAPTURE_ERROR_KEYWORD_PORTAL@)
}

/// A lower-cased macOS capture error that points at permissions.
pub open spec fn is_macos_permission_error(lower: Seq<char>) -> bool {
    ||| contains_seq(lower, CAPTURE_ERROR_KEYWORD_PERMISSION@)
    ||| contains_seq(lower, CAPTURE_ERROR_KEYWORD_ACCESS@)
    ||| contains_seq(lower, CAPTURE_ERROR_KEYWORD_DENIED@)
}

/// The message for `error_msg` (whose lower-case form is `lower`) on `platform`: permission
/// advice on Linux and macOS when the error names a permission problem, else a generic hint.
pub open spec fn capture_error_message(error_msg: Seq<char>, lower: Seq<char>, platform: Seq<char>) -> Seq<
    char,
> {
    if platform == CAPTURE_PLATFORM_LINUX@ && is_linux_permission_error(lower) {
        CAPTURE_ERROR_LINUX_PERMISSION_PREFIX@ + error_msg + CAPTURE_ERROR_LINUX_PERMISSION_SUFFIX@
    } else if platform == CAPTURE_PLATFORM_MACOS@ && is_macos_permission_error(lower) {
        CAPTURE_ERROR_MACOS_PERMISSION_PREFIX@ + error_msg + CAPTURE_ERROR_MACOS_PERMISSION_SUFFIX@
    } else {
        CAPTURE_ERROR_GENERIC_PREFIX@ + error_msg + CAPTURE_ERROR_GENERIC_SUFFIX@
    }
}

/// Whether `lower` contains `keyword`.
fn mentions(lower: &Vec<char>, keyword: &str) -> (b: bool)
    ensures
        b == contains_seq(lower@, keyword@),
{
    contains_chars(lower, &chars_of(keyword))
}

/// `prefix`, then `middle`, then `suffix`.
fn wrap_message(prefix: &str, middle: &str, suffix: &str) -> (s: String)
    ensures
        s@ == prefix@ + middle@ + suffix@,
{
    let joined = concat_chars(&concat_chars(&chars_of(prefix), &chars_of(middle)), &chars_of(suffix));
    string_from_chars(&joined)
}

/// The message for a capture error whose lower-case form is already known.
pub fn build_capture_error_message_from_lowercase(error_msg: &str, error_lower: &str, platform: &str) -> (message:
    String)
    ensures
        message@ == capture_error_message(error_msg@, error_lower@, platform@),
{
    let lower = chars_of(error_lower);
    let platform_text = String::from_str(platform);
    if platform_text == String::from_str(CAPTURE_PLATFORM_LINUX) {
        let is_permission_error = mentions(&lower, CAPTURE_ERROR_KEYWORD_PERMISSION) || mentions(
            &lower,
            CAPTURE_ERROR_KEYWORD_ACCESS,
        ) || mentions(&lower, CAPTURE_ERROR_KEYWORD_DENIED) || mentions(
            &lower,
            CAPTURE_ERROR_KEYWORD_PIPEWIRE,
        ) || mentions(&lower, CAPTURE_ERROR_KEYWORD_PORTAL);
        if is_permission_error {
            return wrap_message(
                CAPTURE_ERROR_LINUX_PERMISSION_PREFIX,
                error_msg,
                CAPTURE_ERROR_LINUX_PERMISSION_SUFFIX,
            );
        }
    } else if platform_text == String::from_str(CAPTURE_PLATFORM_MACOS) {
        let is_permission_error = mentions(&lower, CAPTURE_ERROR_KEYWORD_PERMISSION) || mentions(
            &lower,
            CAPTURE_ERROR_KEYWORD_ACCESS,
        ) || mentions(&lower, CAPTURE_ERROR_KEYWORD_DENIED);
        if is_permission_error {
            return wrap_message(
                CAPTURE_ERROR_MACOS_PERMISSION_PREFIX,
                error_msg,
                CAPTURE_ERROR_MACOS_PERMISSION_SUFFIX,
            );
        }
    }
    wrap_message(CAPTURE_ERROR_GENERIC_PREFIX, error_msg, CAPTURE_ERROR_GENERIC_SUFFIX)
}

/// The message shown for a capture error on `platform` (`linux`, `macos`, `windows`, ...).
pub fn build_capture_error_message_for_platform(error_msg: &str, platform: &str) -> (message: String)
    ensures
        message@ == capture_error_message(error_msg@, lowercased(error_msg@), platform@),
{
    let lower = to_lowercase(error_msg);
    build_capture_error_message_from_lowercase(error_msg, lower.as_str(), platform)
}

} // verus!
