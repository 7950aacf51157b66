//! Windows of other applications that can be offered for capture.
use vstd::prelude::*;

use crate::text::{chars_of, concat_chars, string_from_chars};

verus! {

/// A small RGBA preview image.
#[derive(Debug, Clone)]
pub struct Thumbnail {
    pub width: u32,
    pub height: u32,
    pub rgba: Vec<u8>,
}

/// A window of another application.
#[derive(Debug, Clone)]
pub struct WindowInfo {
    pub id: u32,
    pub app_name: String,
    pub title: String,
    pub width: u32,
    pub height: u32,
    pub is_minimized: bool,
    pub thumbnail: Option<Thumbnail>,
}

/// The smallest width and height of a window worth offering.
pub const MIN_CAPTURABLE_WINDOW_SIZE: u32 = 50;

/// The label of a window: the application name alone when the title is empty, the title
/// alone when the application name is empty, else `app - title`.
pub open spec fn window_display_name(app_name: Seq<char>, title: Seq<char>) -> Seq<char> {
    if title.len() == 0 {
        app_name
    } else if app_name.len() == 0 {
        title
    } else {
        app_name + " - "@ + title
    }
}

/// A window is offered when it has a name or a title and is at least 50 × 50 pixels.
pub open spec fn is_capturable(app_name: Seq<char>, title: Seq<char>, width: u32, height: u32) -> bool {
    &&& !(app_name.len() == 0 && title.len() == 0)
    &&& width >= MIN_CAPTURABLE_WINDOW_SIZE
    &&& height >= MIN_CAPTURABLE_WINDOW_SIZE
}

impl WindowInfo {
    /// A window description from its parts.
    pub fn build(
        id: u32,
        app_name: String,
        title: String,
        width: u32,
        height: u32,
        is_minimized: bool,
        thumbnail: Option<Thumbnail>,
    ) -> (info: Self)
        ensures
            info.id == id,
            info.app_name == app_name,
            info.title == title,
            info.width == width,
            info.height == height,
            info.is_minimized == is_minimized,
            info.thumbnail == thumbnail,
    {
        Self { id, app_name, title, width, height, is_minimized, thumbnail }
    }

    /// The label shown for the window.
    pub fn display_name(&self) -> (name: String)
        ensures
            name@ == window_display_name(self.app_name@, self.title@),
    {
        if self.title.as_str().is_empty() {
            self.app_name.clone()
        } else if self.app_name.as_str().is_empty() {
            self.title.clone()
        } else {
            let joined = concat_chars(
                &concat_chars(&chars_of(self.app_name.as_str()), &chars_of(" - ")),
                &chars_of(self.title.as_str()),
            );
            string_from_chars(&joined)
        }
    }

    /// Whether a window with these properties is offered for capture.
    pub fn is_capturable_window(app_name: &str, title: &str, width: u32, height: u32) -> (b: bool)
        ensures
            b == is_capturable(app_name@, title@, width, height),
    {
        if app_name.is_empty() && title.is_empty() {
            return false;
        }
        width >= MIN_CAPTURABLE_WINDOW_SIZE && height >= MIN_CAPTURABLE_WINDOW_SIZE
    }
}

/// What the system reports of a window before it is offered: its identifier when it has
/// one, its application name and title (empty when unknown), its size (zero when unknown) and
/// whether it is minimized.
#[derive(Debug, Clone)]
pub struct WindowCandidate {
    pub id: Option<u32>,
    pub app_name: String,
    pub title: String,
    pub width: u32,
    pub height: u32,
    pub is_minimized: bool,
}

/// A reported window is offered when it has an identifier and passes `is_capturable`.
pub open spec fn is_offered(c: WindowCandidate) -> bool {
    c.id is Some && is_capturable(c.app_name@, c.title@, c.width, c.height)
}

/// The reported windows that are offered, in the order reported.
pub open spec fn offered_windows(cs: Seq<WindowCandidate>) -> Seq<WindowCandidate>
    decreases cs.len(),
{
    if cs.len() == 0 {
        Seq::empty()
    } else {
        offered_windows(cs.drop_last()) + if is_offered(cs.last()) {
            seq![cs.last()]
        } else {
            Seq::empty()
        }
    }
}

/// A reported window with an identifier, a name or a title, and a size of at least 50 × 50
/// pixels; whether it is minimized does not enter.
pub open spec fn worth_offering(c: WindowCandidate) -> bool {
    &&& c.id is Some
    &&& (c.app_name@.len() > 0 || c.title@.len() > 0)
    &&& c.width >= 50
    &&& c.height >= 50
}

/// Every reported window worth offering is offered, and only reported windows worth offering
/// are: minimized windows are offered like any other.
pub proof fn law_offered_windows_are_those_worth_offering(cs: Seq<WindowCandidate>)
    ensures
        forall|i: int| 0 <= i < cs.len() && worth_offering(#[trigger] cs[i]) ==> offered_windows(
            cs,
        ).contains(cs[i]),
        forall|j: int|
            0 <= j < offered_windows(cs).len() ==> worth_offering(#[trigger] offered_windows(cs)[j])
                && cs.contains(offered_windows(cs)[j]),
    decreases cs.len(),
{
    if cs.len() > 0 {
        let prefix = cs.drop_last();
        law_offered_windows_are_those_worth_offering(prefix);
        let tail = if is_offered(cs.last()) {
            seq![cs.last()]
        } else {
            Seq::<WindowCandidate>::empty()
        };
        let all = offered_windows(cs);
        assert(all == offered_windows(prefix) + tail);
        assert forall|i: int| 0 <= i < cs.len() && worth_offering(#[trigger] cs[i]) implies all.contains(
            cs[i],
        ) by {
            if i < cs.len() - 1 {
                assert(prefix[i] == cs[i]);
                let k = choose|k: int| 0 <= k < offered_windows(prefix).len() && offered_windows(prefix)[k] == prefix[i];
                assert(all[k] == cs[i]);
            } else {
                assert(all[all.len() - 1] == cs[i]);
            }
        }
        assert forall|j: int| 0 <= j < all.len() implies worth_offering(#[trigger] all[j]) && cs.contains(all[j]) by {
            if j < offered_windows(prefix).len() {
                assert(all[j] == offered_windows(prefix)[j]);
                let k = choose|k: int| 0 <= k < prefix.len() && prefix[k] == all[j];
                assert(cs[k] == all[j]);
            } else {
                assert(all[j] == cs.last());
                assert(cs[cs.len() - 1] == all[j]);
            }
        }
    }
}

/// Keeps the reported windows worth offering for capture, in order.
pub fn select_capturable_windows(candidates: Vec<WindowCandidate>) -> (offered: Vec<WindowCandidate>)
    ensures
        offered@ == offered_windows(candidates@),
        forall|i: int|
            0 <= i < candidates@.len() && worth_offering(#[trigger] candidates@[i]) ==> offered@.contains(
                candidates@[i],
            ),
        forall|j: int|
            0 <= j < offered@.len() ==> worth_offering(#[trigger] offered@[j]) && candidates@.contains(
                offered@[j],
            ),
{
    proof {
        law_offered_windows_are_those_worth_offering(candidates@);
    }
    let mut offered: Vec<WindowCandidate> = Vec::new();
    let mut i: usize = 0;
    while i < candidates.len()
        invariant
            i <= candidates.len(),
            offered@ == offered_windows(candidates@.take(i as int)),
        decreases candidates.len() - i,
    {
        let candidate = &candidates[i];
        let keep = match candidate.id {
            Some(_) => WindowInfo::is_capturable_window(
                candidate.app_name.as_str(),
                candidate.title.as_str(),
                candidate.width,
                candidate.height,
            ),
            None => false,
        };
        proof {
            assert(candidates@.take(i + 1).drop_last() =~= candidates@.take(i as int));
            assert(candidates@.take(i + 1).last() == candidates@[i as int]);
        }
        if keep {
            offered.push(candidate.clone_candidate());
        }
        proof {
            if !keep {
                assert(offered@ =~= offered_windows(candidates@.take(i as int)) + Seq::<WindowCandidate>::empty());
            }
        }
        i = i + 1;
    }
    proof {
        assert(candidates@.take(candidates.len() as int) =~= candidates@);
    }
    offered
}

impl WindowCandidate {
    /// A field-by-field copy.
    pub fn clone_candidate(&self) -> (c: Self)
        ensures
            c == *self,
    {
        WindowCandidate {
            id: self.id,
            app_name: self.app_name.clone(),
            title: self.title.clone(),
            width: self.width,
            height: self.height,
            is_minimized: self.is_minimized,
        }
    }
}

/// The position of the first reported window with identifier `target`.
pub fn find_window_by_id(ids: &Vec<Option<u32>>, target: u32) -> (position: Option<usize>)
    ensures
        match position {
            Some(i) => i < ids@.len() && ids@[i as int] == Some(target) && forall|j: int|
                0 <= j < i ==> ids@[j] != Some(target),
            None => forall|j: int| 0 <= j < ids@.len() ==> ids@[j] != Some(target),
        },
{
    let mut i: usize = 0;
    while i < ids.len()
        invariant
            i <= ids.len(),
            forall|j: int| 0 <= j < i ==> ids@[j] != Some(target),
        decreases ids.len() - i,
    {
        if ids[i] == Some(target) {
            return Some(i);
        }
        i = i + 1;
    }
    None
}

} // verus!
