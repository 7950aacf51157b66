//! What the windows show that follows from the state: the kind of the status line and the
//! public key shown in the settings.
use vstd::prelude::*;

use crate::constants::{
    STATUS_KEYWORD_ERROR, STATUS_KEYWORD_FAILED, STATUS_KEYWORD_INITIALIZING,
    STATUS_KEYWORD_LOADING, STATUS_KEYWORD_READY,
};
use crate::text::{chars_of, contains_chars, contains_seq};
use crate::user_settings::UserSettings;

verus! {

/// How the status line is marked.
#[derive(Debug, Clone, Copy, PartialEq, Eq, Structural)]
pub enum StatusKind {
    /// The application is ready.
    Ready,
    /// Something is loading or starting.
    Busy,
    /// Something went wrong.
    Problem,
    /// Anything else.
    Neutral,
}

/// The kind of a status text, by the first keyword it contains, in this order: `Ready`;
/// `Loading` or `Initializing`; `Error` or `Failed`.
pub open spec fn status_kind_of(status: Seq<char>) -> StatusKind {
    if contains_seq(status, STATUS_KEYWORD_READY@) {
        StatusKind::Ready
    } else if contains_seq(status, STATUS_KEYWORD_LOADING@) || contains_seq(
        status,
        STATUS_KEYWORD_INITIALIZING@,
    ) {
        StatusKind::Busy
    } else if contains_seq(status, STATUS_KEYWORD_ERROR@) || contains_seq(status, STATUS_KEYWORD_FAILED@) {
        StatusKind::Problem
    } else {
        StatusKind::Neutral
    }
}

/// The kind of the status line.
pub fn status_kind(status: &str) -> (kind: StatusKind)
    ensures
        kind == status_kind_of(status@),
{
    let text = chars_of(status);
    if contains_chars(&text, &chars_of(STATUS_KEYWORD_READY)) {
        StatusKind::Ready
    } else if contains_chars(&text, &chars_of(STATUS_KEYWORD_LOADING)) || contains_chars(
        &text,
        &chars_of(STATUS_KEYWORD_INITIALIZING),
    ) {
        StatusKind::Busy
    } else if contains_chars(&text, &chars_of(STATUS_KEYWORD_ERROR)) || contains_chars(
        &text,
        &chars_of(STATUS_KEYWORD_FAILED),
    ) {
        StatusKind::Problem
    } else {
        StatusKind::Neutral
    }
}

/// The public key shown in the settings: nothing while the default key `default_key` is in
/// use, else the key.
pub fn displayed_public_key(settings: &UserSettings, default_key: &str) -> (key: String)
    ensures
        key@ == if settings.image_hosting_public_key_value@ == default_key@ {
            Seq::<char>::empty()
        } else {
            settings.image_hosting_public_key_value@
        },
{
    if settings.is_using_default_public_key(default_key) {
        String::new()
    } else {
        settings.image_hosting_public_key_value.clone()
    }
}

} // verus!
