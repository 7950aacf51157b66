//! Locating the macOS application bundle that contains the running executable.
use vstd::prelude::*;

use crate::text::{
    chars_of, concat_chars, find_first, is_first_occurrence, prefix_chars, string_from_chars,
};

verus! {

/// The path fragment between a bundle and the executable inside it.
pub const APP_BUNDLE_EXECUTABLE_MARKER: &'static str = ".app/Contents/MacOS/";

/// Where, inside a bundle, the install identifier is kept.
pub const INSTALL_ID_BUNDLE_SUFFIX: &'static str = ".app/Contents/Resources/.install_id";

/// The bundle path for an executable path: everything before the first bundle marker, with
/// `.app` appended; an executable outside a bundle is its own launch path.
pub open spec fn app_bundle_path(exe_path: Seq<char>) -> Seq<char> {
    let marker = APP_BUNDLE_EXECUTABLE_MARKER@;
    if exists|i: int| is_first_occurrence(exe_path, marker, i) {
        let i = choose|i: int| is_first_occurrence(exe_path, marker, i);
        exe_path.take(i) + ".app"@
    } else {
        exe_path
    }
}

proof fn lemma_first_occurrence_unique(s: Seq<char>, pat: Seq<char>, i: int, j: int)
    requires
        is_first_occurrence(s, pat, i),
        is_first_occurrence(s, pat, j),
    ensures
        i == j,
{
}

/// The path to register for launch at login: the enclosing `.app` bundle when the executable
/// runs from one, else the executable itself.
pub fn find_macos_app_bundle_path(exe_path: &str) -> (path: String)
    ensures
        path@ == app_bundle_path(exe_path@),
{
    let exe = chars_of(exe_path);
    let marker = chars_of(APP_BUNDLE_EXECUTABLE_MARKER);
    match find_first(&exe, &marker) {
        Some(i) => {
            let prefix = prefix_chars(&exe, i);
            proof {
                let j = choose|j: int| is_first_occurrence(exe@, marker@, j);
                lemma_first_occurrence_unique(exe@, marker@, i as int, j);
            }
            string_from_chars(&concat_chars(&prefix, &chars_of(".app")))
        },
        None => {
            proof {
                assert forall|j: int| !is_first_occurrence(exe@, marker@, j) by {}
            }
            String::from_str(exe_path)
        },
    }
}

/// The install-identifier file of the bundle that contains the executable, if it runs from
/// one.
pub open spec fn bundle_install_id_path(exe_path: Seq<char>) -> Option<Seq<char>> {
    let marker = APP_BUNDLE_EXECUTABLE_MARKER@;
    if exists|i: int| is_first_occurrence(exe_path, marker, i) {
        let i = choose|i: int| is_first_occurrence(exe_path, marker, i);
        Some(exe_path.take(i) + INSTALL_ID_BUNDLE_SUFFIX@)
    } else {
        None
    }
}

/// Where the install identifier of a bundled macOS executable is kept.
pub fn install_id_path_in_bundle(exe_path: &str) -> (path: Option<String>)
    ensures
        match path {
            Some(p) => bundle_install_id_path(exe_path@) == Some(p@),
            None => bundle_install_id_path(exe_path@) is None,
        },
{
    let exe = chars_of(exe_path);
    let marker = chars_of(APP_BUNDLE_EXECUTABLE_MARKER);
    match find_first(&exe, &marker) {
        Some(i) => {
            let prefix = prefix_chars(&exe, i);
            proof {
                let j = choose|j: int| is_first_occurrence(exe@, marker@, j);
                lemma_first_occurrence_unique(exe@, marker@, i as int, j);
            }
            Some(string_from_chars(&concat_chars(&prefix, &chars_of(INSTALL_ID_BUNDLE_SUFFIX))))
        },
        None => {
            proof {
                assert forall|j: int| !is_first_occurrence(exe@, marker@, j) by {}
            }
            None
        },
    }
}

/// The path registered for launch at login: on macOS the enclosing `.app` bundle of the
/// executable (when there is one), elsewhere the executable itself.
pub fn auto_launch_path(exe_path: &str, on_macos: bool) -> (path: String)
    ensures
        path@ == if on_macos {
            app_bundle_path(exe_path@)
        } else {
            exe_path@
        },
{
    if on_macos {
        find_macos_app_bundle_path(exe_path)
    } else {
        String::from_str(exe_path)
    }
}

} // verus!
