//! The system-tray menu: its entries and how a clicked entry is recognized.
use vstd::prelude::*;

verus! {

/// A click on one of the tray menu entries.
#[derive(Debug, Clone, Copy, PartialEq, Eq, Structural)]
pub enum TrayEvent {
    ShowWindow,
    OpenSettings,
    Quit,
}

/// The identifiers that the tray menu gave its entries, once the menu exists.
#[derive(Debug, Clone)]
pub struct TrayMenuIds {
    pub show_window: Option<String>,
    pub settings: Option<String>,
    pub quit: Option<String>,
}

/// `id` is the recorded identifier `entry`.
pub open spec fn is_entry(entry: Option<String>, id: Seq<char>) -> bool {
    entry matches Some(e) && e@ == id
}

/// The entry that a menu event with identifier `id` belongs to, checked in menu order.
pub open spec fn tray_event_for(ids: TrayMenuIds, id: Seq<char>) -> Option<TrayEvent> {
    if is_entry(ids.show_window, id) {
        Some(TrayEvent::ShowWindow)
    } else if is_entry(ids.settings, id) {
        Some(TrayEvent::OpenSettings)
    } else if is_entry(ids.quit, id) {
        Some(TrayEvent::Quit)
    } else {
        None
    }
}

/// Whether the recorded entry identifier equals `id`.
fn entry_matches(entry: &Option<String>, id: &String) -> (b: bool)
    ensures
        b == is_entry(*entry, id@),
{
    match entry {
        Some(e) => *e == *id,
        None => false,
    }
}

impl TrayMenuIds {
    /// The tray event for a menu event identifier; `None` for an unknown identifier.
    pub fn event_for(&self, event_id: &str) -> (event: Option<TrayEvent>)
        ensures
            event == tray_event_for(*self, event_id@),
    {
        let id = String::from_str(event_id);
        if entry_matches(&self.show_window, &id) {
            return Some(TrayEvent::ShowWindow);
        }
        if entry_matches(&self.settings, &id) {
            return Some(TrayEvent::OpenSettings);
        }
        if entry_matches(&self.quit, &id) {
            return Some(TrayEvent::Quit);
        }
        None
    }
}

} // verus!
