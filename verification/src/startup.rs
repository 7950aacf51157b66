//! Start-up decisions: which window the application opens first, and how the single-instance
//! lock file is written and read.
use vstd::prelude::*;

use crate::dispatch::OrchestratorMessage;
use crate::numbers::{
    decimal_digits, decimal_text, lemma_decimal_digits, parse_u64, parsed_u64, unsigned_digits,
};
use crate::text::{
    chars_of, is_unicode_whitespace, string_from_chars, trim, trim_chars, trim_end, trim_start,
};

verus! {

/// Whether the permissions the application needs are granted; only macOS asks for them.
pub fn check_all_permissions_granted(on_macos: bool, screen_recording: bool, accessibility: bool) -> (b:
    bool)
    ensures
        b == (!on_macos || (screen_recording && accessibility)),
{
    !on_macos || (screen_recording && accessibility)
}

/// Onboarding is shown when it was never completed or a permission is missing.
pub fn needs_onboarding(onboarding_complete: bool, all_permissions_granted: bool) -> (b: bool)
    ensures
        b == (!onboarding_complete || !all_permissions_granted),
{
    !onboarding_complete || !all_permissions_granted
}

/// The messages handled at start-up, in order: the invisible window that keeps the application
/// alive, then the onboarding window when it is needed, else the main window.
pub fn startup_messages(onboarding_complete: bool, all_permissions_granted: bool) -> (messages: Vec<
    OrchestratorMessage,
>)
    ensures
        messages@.len() == 2,
        messages@[0] is CreateHiddenWindow,
        if !onboarding_complete || !all_permissions_granted {
            messages@[1] is OpenOnboarding
        } else {
            messages@[1] is OpenMainWindow
        },
{
    let mut messages: Vec<OrchestratorMessage> = Vec::new();
    messages.push(OrchestratorMessage::CreateHiddenWindow);
    if needs_onboarding(onboarding_complete, all_permissions_granted) {
        messages.push(OrchestratorMessage::OpenOnboarding);
    } else {
        messages.push(OrchestratorMessage::OpenMainWindow);
    }
    messages
}

/// The process identifier a lock file holds: its trimmed contents read as a decimal `u32`.
pub open spec fn lock_file_pid(contents: Seq<char>) -> Option<u32> {
    match parsed_u64(trim(contents)) {
        Some(v) => if v <= u32::MAX {
            Some(v as u32)
        } else {
            None
        },
        None => None,
    }
}

/// The process identifier written in a lock file, if its contents are one.
pub fn pid_in_lock_file(contents: &str) -> (pid: Option<u32>)
    ensures
        pid == lock_file_pid(contents@),
{
    match parse_u64(&trim_chars(&chars_of(contents))) {
        Some(v) => if v <= 0xffff_ffffu64 {
            Some(v as u32)
        } else {
            None
        },
        None => None,
    }
}

/// What a lock file holds for process `pid`: its decimal notation.
pub fn lock_file_contents(pid: u32) -> (contents: String)
    ensures
        contents@ == decimal_digits(pid as nat),
{
    string_from_chars(&decimal_text(pid as u64))
}

/// Reading a lock file gives back the process identifier written into it.
pub proof fn law_lock_file_round_trip(pid: u32)
    ensures
        lock_file_pid(decimal_digits(pid as nat)) == Some(pid),
{
    let s = decimal_digits(pid as nat);
    lemma_decimal_digits(pid as nat);
    assert(!is_unicode_whitespace(s[0]));
    assert(!is_unicode_whitespace(s.last()));
    assert(trim_start(s) == s);
    assert(trim_end(s) == s);
    assert(trim(s) == s);
    assert(s[0] != '+');
    assert(unsigned_digits(s) == s);
}

} // verus!
