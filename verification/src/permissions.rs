//! macOS privacy permissions and dock behaviour: which System Settings pane belongs to a
//! permission, and how the answers of the system frameworks are read.
use vstd::prelude::*;

verus! {

/// The System Settings pane for Screen Recording.
pub const PANE_SCREEN_RECORDING: &'static str =
    "x-apple.systempreferences:com.apple.preference.security?Privacy_ScreenCapture";

/// The System Settings pane for Accessibility.
pub const PANE_ACCESSIBILITY: &'static str =
    "x-apple.systempreferences:com.apple.preference.security?Privacy_Accessibility";

/// The System Settings pane for Input Monitoring.
pub const PANE_INPUT_MONITORING: &'static str =
    "x-apple.systempreferences:com.apple.preference.security?Privacy_ListenEvent";

/// The Privacy & Security pane itself.
pub const PANE_SECURITY: &'static str = "x-apple.systempreferences:com.apple.preference.security";

/// The value by which `IOHIDCheckAccess` reports that access is granted.
pub const IOHID_ACCESS_GRANTED: u32 = 0;

/// The pane that `open_system_preferences` opens for a permission name.
pub open spec fn preferences_pane(permission_type: Seq<char>) -> Seq<char> {
    if permission_type == "Screen Recording"@ {
        PANE_SCREEN_RECORDING@
    } else if permission_type == "Accessibility"@ {
        PANE_ACCESSIBILITY@
    } else if permission_type == "Input Monitoring"@ {
        PANE_INPUT_MONITORING@
    } else {
        PANE_SECURITY@
    }
}

/// The System Settings address for a permission named `Screen Recording`, `Accessibility` or
/// `Input Monitoring`; any other name opens Privacy & Security.
pub fn system_preferences_pane(permission_type: &str) -> (pane: &'static str)
    ensures
        pane@ == preferences_pane(permission_type@),
{
    let name = String::from_str(permission_type);
    if name == String::from_str("Screen Recording") {
        PANE_SCREEN_RECORDING
    } else if name == String::from_str("Accessibility") {
        PANE_ACCESSIBILITY
    } else if name == String::from_str("Input Monitoring") {
        PANE_INPUT_MONITORING
    } else {
        PANE_SECURITY
    }
}

/// Reads the Screen Recording answer: the preflight check when the system offers it, else
/// whether a display stream could be created; with neither available, not granted.
pub fn screen_recording_granted(preflight: Option<bool>, stream_created: Option<bool>) -> (granted:
    bool)
    ensures
        granted == match preflight {
            Some(p) => p,
            None => stream_created == Some(true),
        },
{
    match preflight {
        Some(p) => p,
        None => match stream_created {
            Some(created) => created,
            None => false,
        },
    }
}

/// Reads the Accessibility answer: the trust check when it can be made, else granted.
pub fn accessibility_granted(trusted: Option<bool>) -> (granted: bool)
    ensures
        granted == match trusted {
            Some(t) => t,
            None => true,
        },
{
    match trusted {
        Some(t) => t,
        None => true,
    }
}

/// Reads the Input Monitoring answer: granted exactly when `IOHIDCheckAccess` reports access
/// granted; when the check is unavailable, the Accessibility answer stands in.
pub fn input_monitoring_granted(check_access: Option<u32>, accessibility: bool) -> (granted: bool)
    ensures
        granted == match check_access {
            Some(code) => code == IOHID_ACCESS_GRANTED,
            None => accessibility,
        },
{
    match check_access {
        Some(code) => code == IOHID_ACCESS_GRANTED,
        None => accessibility,
    }
}

/// How the application presents itself in the dock.
#[derive(Debug, Clone, Copy, PartialEq, Eq, Structural)]
pub enum ActivationPolicy {
    Regular,
    Accessory,
    Prohibited,
}

impl ActivationPolicy {
    /// The numeric value of the policy in the AppKit enumeration.
    pub fn raw_value(&self) -> (v: u64)
        ensures
            v == match *self {
                ActivationPolicy::Regular => 0u64,
                ActivationPolicy::Accessory => 1u64,
                ActivationPolicy::Prohibited => 2u64,
            },
    {
        match self {
            ActivationPolicy::Regular => 0,
            ActivationPolicy::Accessory => 1,
            ActivationPolicy::Prohibited => 2,
        }
    }

    /// The policy that hides the dock icon.
    pub fn hidden_dock_icon() -> (p: Self)
        ensures
            p == ActivationPolicy::Accessory,
    {
        ActivationPolicy::Accessory
    }

    /// The policy that shows the dock icon.
    pub fn visible_dock_icon() -> (p: Self)
        ensures
            p == ActivationPolicy::Regular,
    {
        ActivationPolicy::Regular
    }
}

/// The permissions the application needs are all granted.
pub fn all_permissions_granted(screen_recording: bool, accessibility: bool) -> (b: bool)
    ensures
        b == (screen_recording && accessibility),
{
    screen_recording && accessibility
}

} // verus!
