//! Verified core of the Circle to Search desktop application.
use vstd::prelude::*;

pub mod app_bundle;
pub mod capture_buffer;
pub mod capture_errors;
pub mod circle_to_search;
pub mod constants;
pub mod dispatch;
pub mod display_rules;
pub mod image_hosting;
pub mod keyboard;
pub mod laws;
pub mod numbers;
pub mod permissions;
pub mod ocr_cleanup;
pub mod ocr_text;
pub mod orchestrator;
pub mod screen_region;
pub mod session_flow;
pub mod startup;
pub mod text;
pub mod tray;
pub mod user_settings;
pub mod window_flow;
pub mod window_info;

verus! {
} // verus!
