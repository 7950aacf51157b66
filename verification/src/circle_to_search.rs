//! The capture-and-search service: selection geometry, displays, captured screens and the
//! ports through which the service reaches the screen, the search engine and the clipboard.
use vstd::prelude::*;

use crate::orchestrator::prefixed;

verus! {

/// |v|, as a natural number.
pub open spec fn abs_int(v: int) -> int {
    if v < 0 {
        -v
    } else {
        v
    }
}

/// The smaller of two integers.
pub open spec fn min_int(a: int, b: int) -> int {
    if a <= b {
        a
    } else {
        b
    }
}

/// A rectangle dragged on screen, given by the point where the drag started and ended.
#[derive(Debug, Clone, Copy, PartialEq, Eq)]
pub struct SelectionArea {
    pub start_x: i32,
    pub start_y: i32,
    pub end_x: i32,
    pub end_y: i32,
}

impl SelectionArea {
    /// The horizontal extent of the selection.
    pub fn width(&self) -> (w: u32)
        requires
            i32::MIN < self.end_x - self.start_x <= i32::MAX,
        ensures
            w == abs_int(self.end_x - self.start_x),
    {
        let d = self.end_x - self.start_x;
        if d < 0 {
            (-d) as u32
        } else {
            d as u32
        }
    }

    /// The vertical extent of the selection.
    pub fn height(&self) -> (h: u32)
        requires
            i32::MIN < self.end_y - self.start_y <= i32::MAX,
        ensures
            h == abs_int(self.end_y - self.start_y),
    {
        let d = self.end_y - self.start_y;
        if d < 0 {
            (-d) as u32
        } else {
            d as u32
        }
    }

    /// The left edge of the selection.
    pub fn min_x(&self) -> (x: i32)
        ensures
            x == min_int(self.start_x as int, self.end_x as int),
    {
        if self.start_x <= self.end_x {
            self.start_x
        } else {
            self.end_x
        }
    }

    /// The top edge of the selection.
    pub fn min_y(&self) -> (y: i32)
        ensures
            y == min_int(self.start_y as int, self.end_y as int),
    {
        if self.start_y <= self.end_y {
            self.start_y
        } else {
            self.end_y
        }
    }
}

/// The encoding of a captured image.
#[derive(Debug, Clone, Copy, PartialEq, Eq)]
pub enum ImageFormat {
    PNG,
}

/// A physical display attached to the machine.
#[derive(Debug, Clone, Copy, PartialEq, Eq)]
pub struct Display {
    pub id: u32,
    pub x: i32,
    pub y: i32,
    pub width: u32,
    pub height: u32,
    pub is_primary: bool,
}

/// An encoded screenshot of a display.
#[derive(Debug, Clone)]
pub struct ScreenCapture {
    pub image_data: Vec<u8>,
    pub width: u32,
    pub height: u32,
    pub format: ImageFormat,
}

/// One hit of a reverse image search.
#[derive(Debug, Clone)]
pub struct SearchResult {
    pub title: String,
    pub url: String,
}

/// Copies text to the system clipboard.
pub trait ClipboardPort {
    /// Whether `r` is an outcome this port may report for copying `text`; unless the port
    /// says otherwise, any outcome.
    closed spec fn copy_text_gives(&self, text: Seq<char>, r: Result<bool, String>) -> bool {
        true
    }

    fn copy_text(&self, text: String) -> (r: Result<bool, String>)
        ensures
            self.copy_text_gives(text@, r),
    ;
}

/// Runs a reverse image search on encoded image bytes.
pub trait ImageSearchPort {
    /// Whether `r` is an outcome this port may report for searching `image_data`; unless the
    /// port says otherwise, any outcome.
    closed spec fn search_image_gives(
        &self,
        image_data: Seq<u8>,
        r: Result<Vec<SearchResult>, String>,
    ) -> bool {
        true
    }

    fn search_image(&self, image_data: Vec<u8>) -> (r: Result<Vec<SearchResult>, String>)
        ensures
            self.search_image_gives(image_data@, r),
    ;
}

/// Lists the displays and captures one of them.
pub trait ScreenCapturePort {
    /// Whether `r` is an outcome this port may report for capturing `display`; unless the port
    /// says otherwise, any outcome.
    closed spec fn capture_display_gives(
        &self,
        display: Display,
        r: Result<ScreenCapture, String>,
    ) -> bool {
        true
    }

    /// Whether `r` is an outcome this port may report when asked for the displays; unless the
    /// port says otherwise, any outcome.
    closed spec fn get_all_displays_gives(&self, r: Result<Vec<Display>, String>) -> bool {
        true
    }

    fn capture_display(&self, display: &Display) -> (r: Result<ScreenCapture, String>)
        ensures
            self.capture_display_gives(*display, r),
    ;

    fn get_all_displays(&self) -> (r: Result<Vec<Display>, String>)
        ensures
            self.get_all_displays_gives(r),
    ;
}

/// Captures a display area.
pub trait ScreenCaptureAdapter {
    fn capture_area_in_display(&self, display: &Display) -> Result<ScreenCapture, String>;
}

/// The message given when no display is marked primary.
pub const NO_PRIMARY_DISPLAY_MESSAGE: &'static str = "No primary display found";

/// The message given when the search engine has no API key.
pub const GOOGLE_API_KEY_MISSING_MESSAGE: &'static str = "Google API key not configured";

/// `i` is the index of the first primary display of `displays`.
pub open spec fn is_first_primary(displays: Seq<Display>, i: int) -> bool {
    &&& 0 <= i < displays.len()
    &&& displays[i].is_primary
    &&& forall|j: int| 0 <= j < i ==> !displays[j].is_primary
}

/// A sequence of displays has at most one first primary display.
pub proof fn lemma_first_primary_unique(displays: Seq<Display>, i: int)
    requires
        is_first_primary(displays, i),
    ensures
        forall|j: int| is_first_primary(displays, j) ==> j == i,
{
}

/// What capturing the primary display gives after the port listed `listing`: the listing's
/// error, the missing-primary message, or what the port gives for the first primary display.
pub open spec fn capture_follows_listing<S: ScreenCapturePort>(
    port: &S,
    listing: Result<Vec<Display>, String>,
    r: Result<ScreenCapture, String>,
) -> bool {
    match listing {
        Err(error) => r == Err::<ScreenCapture, String>(error),
        Ok(displays) => if exists|i: int| is_first_primary(displays@, i) {
            port.capture_display_gives(
                displays@[choose|i: int| is_first_primary(displays@, i)],
                r,
            )
        } else {
            r matches Err(msg) && msg@ == NO_PRIMARY_DISPLAY_MESSAGE@
        },
    }
}

/// The first display that is marked primary, or the message that none is.
pub fn find_primary_display(displays: &Vec<Display>) -> (r: Result<Display, String>)
    ensures
        match r {
            Ok(d) => exists|i: int| is_first_primary(displays@, i) && d == displays@[i],
            Err(msg) => msg@ == NO_PRIMARY_DISPLAY_MESSAGE@ && forall|j: int|
                0 <= j < displays@.len() ==> !displays@[j].is_primary,
        },
{
    let mut i: usize = 0;
    while i < displays.len()
        invariant
            i <= displays.len(),
            forall|j: int| 0 <= j < i ==> !displays@[j].is_primary,
        decreases displays.len() - i,
    {
        if displays[i].is_primary {
            proof {
                assert(is_first_primary(displays@, i as int));
            }
            return Ok(displays[i]);
        }
        i = i + 1;
    }
    Err(String::from_str(NO_PRIMARY_DISPLAY_MESSAGE))
}

/// A reverse image search client for Google Lens.
pub struct GoogleLensClient {
    api_key: String,
}

impl View for GoogleLensClient {
    type V = Seq<char>;

    /// The configured API key.
    closed spec fn view(&self) -> Seq<char> {
        self.api_key@
    }
}

impl GoogleLensClient {
    /// A client using `api_key`.
    pub fn new(api_key: String) -> (client: Self)
        ensures
            client@ == api_key@,
    {
        Self { api_key }
    }
}

impl ImageSearchPort for GoogleLensClient {
    /// Without an API key the search fails with the missing-key message; with one, it finds
    /// nothing.
    open spec fn search_image_gives(
        &self,
        image_data: Seq<u8>,
        r: Result<Vec<SearchResult>, String>,
    ) -> bool {
        &&& self@.len() == 0 ==> (r matches Err(msg) && msg@ == GOOGLE_API_KEY_MISSING_MESSAGE@)
        &&& self@.len() != 0 ==> (r matches Ok(results) && results@.len() == 0)
    }

    /// Fails when no API key is configured; otherwise returns no results.
    fn search_image(&self, _image_data: Vec<u8>) -> (r: Result<Vec<SearchResult>, String>)
        ensures
            self@.len() == 0 ==> (r matches Err(msg) && msg@ == GOOGLE_API_KEY_MISSING_MESSAGE@),
            self@.len() != 0 ==> (r matches Ok(results) && results@.len() == 0),
    {
        if self.api_key.as_str().is_empty() {
            return Err(String::from_str(GOOGLE_API_KEY_MISSING_MESSAGE));
        }
        Ok(Vec::new())
    }
}

/// Captures the primary display and hands images and text to the search and clipboard ports.
pub struct CircleToSearchOrchestrator<'a, S: ScreenCapturePort, I: ImageSearchPort, C: ClipboardPort> {
    screen_capture_port: &'a S,
    image_search_port: &'a I,
    clipboard_port: &'a C,
}

impl<'a, S: ScreenCapturePort, I: ImageSearchPort, C: ClipboardPort> CircleToSearchOrchestrator<
    'a,
    S,
    I,
    C,
> {
    /// A service wired to the three ports.
    pub fn new(screen_capture_port: &'a S, image_search_port: &'a I, clipboard_port: &'a C) -> (o:
        Self)
        ensures
            o.screen_capture_port() == screen_capture_port,
            o.image_search_port() == image_search_port,
            o.clipboard_port() == clipboard_port,
    {
        Self { screen_capture_port, image_search_port, clipboard_port }
    }

    /// The screen port in use.
    pub closed spec fn screen_capture_port(&self) -> &'a S {
        self.screen_capture_port
    }

    /// The search port in use.
    pub closed spec fn image_search_port(&self) -> &'a I {
        self.image_search_port
    }

    /// The clipboard port in use.
    pub closed spec fn clipboard_port(&self) -> &'a C {
        self.clipboard_port
    }

    /// Lists the displays, picks the first primary one and captures it. A failure to list
    /// displays, the absence of a primary display, or a failed capture is returned as `Err`.
    pub fn capture_primary_display(&self) -> (r: Result<ScreenCapture, String>)
        ensures
            exists|listing: Result<Vec<Display>, String>|
                #[trigger] self.screen_capture_port().get_all_displays_gives(listing)
                    && capture_follows_listing(self.screen_capture_port(), listing, r),
    {
        let listing = self.screen_capture_port.get_all_displays();
        let displays = match listing {
            Ok(displays) => displays,
            Err(error) => {
                let r = Err(error);
                assert(capture_follows_listing(self.screen_capture_port(), listing, r));
                return r;
            },
        };
        match find_primary_display(&displays) {
            Ok(primary_display) => {
                let r = self.screen_capture_port.capture_display(&primary_display);
                proof {
                    let i = choose|i: int|
                        is_first_primary(displays@, i) && primary_display == displays@[i];
                    lemma_first_primary_unique(displays@, i);
                }
                assert(capture_follows_listing(self.screen_capture_port(), listing, r));
                r
            },
            Err(message) => {
                let r = Err(message);
                assert(capture_follows_listing(self.screen_capture_port(), listing, r));
                r
            },
        }
    }

    /// Searches for an encoded screenshot through the search port.
    pub fn search_screenshot(&self, image_data: Vec<u8>) -> (r: Result<Vec<SearchResult>, String>)
        ensures
            self.image_search_port().search_image_gives(image_data@, r),
    {
        self.image_search_port.search_image(image_data)
    }

    /// Copies text through the clipboard port.
    pub fn copy_selected_text(&self, text: String) -> (r: Result<bool, String>)
        ensures
            self.clipboard_port().copy_text_gives(text@, r),
    {
        self.clipboard_port.copy_text(text)
    }

    /// Searches for the whole screenshot; the selection does not narrow the search.
    pub fn search_selected_area(&self, screenshot: &ScreenCapture, _selection: &SelectionArea) -> (r:
        Result<Vec<SearchResult>, String>)
        ensures
            self.image_search_port().search_image_gives(screenshot.image_data@, r),
    {
        let image_data = screenshot.image_data.clone();
        assert(image_data@ =~= screenshot.image_data@);
        self.image_search_port.search_image(image_data)
    }
}

/// The clipboard handle of `arboard`, carried through unopened.
#[verifier::external_type_specification]
#[verifier::external_body]
pub struct ExClipboard(arboard::Clipboard);

/// Opens the system clipboard with `arboard::Clipboard::new`; on failure, the text of its error.
/// Whether it opens depends on the desktop session, so nothing is claimed of the outcome.
#[verifier::external_body]
fn open_clipboard() -> (r: Result<arboard::Clipboard, String>) {
    arboard::Clipboard::new().map_err(|error| error.to_string())
}

/// Puts `text` on the clipboard with `arboard::Clipboard::set_text`; on failure, the text of its
/// error. Whether it succeeds depends on the desktop session, so nothing is claimed of the
/// outcome.
#[verifier::external_body]
fn set_clipboard_text(clipboard: &mut arboard::Clipboard, text: String) -> (r: Result<(), String>) {
    clipboard.set_text(text).map_err(|error| error.to_string())
}

/// The message prefix when the clipboard cannot be opened.
pub const CLIPBOARD_OPEN_FAILED_PREFIX: &'static str = "Failed to initialize clipboard: ";

/// The message prefix when the text cannot be copied.
pub const CLIPBOARD_COPY_FAILED_PREFIX: &'static str = "Failed to copy text to clipboard: ";

/// The system clipboard.
#[derive(Debug, Clone, Copy)]
pub struct ClipboardProvider;

impl ClipboardPort for ClipboardProvider {
    /// Success is reported as `Ok(true)`; a failure to open the clipboard or to copy is
    /// reported with its prefix and cause.
    open spec fn copy_text_gives(&self, text: Seq<char>, r: Result<bool, String>) -> bool {
        &&& r is Ok ==> r == Ok::<bool, String>(true)
        &&& r matches Err(m) ==> (exists|cause: Seq<char>|
            m@ == CLIPBOARD_OPEN_FAILED_PREFIX@ + cause || m@ == CLIPBOARD_COPY_FAILED_PREFIX@
                + cause)
    }

    /// Copies `text`; a failure to open the clipboard or to copy is reported with its cause.
    fn copy_text(&self, text: String) -> (r: Result<bool, String>)
        ensures
            r is Ok ==> r == Ok::<bool, String>(true),
            r matches Err(m) ==> (exists|cause: Seq<char>|
                m@ == CLIPBOARD_OPEN_FAILED_PREFIX@ + cause || m@ == CLIPBOARD_COPY_FAILED_PREFIX@
                    + cause),
    {
        let mut clipboard = match open_clipboard() {
            Ok(clipboard) => clipboard,
            Err(error) => {
                let message = prefixed(CLIPBOARD_OPEN_FAILED_PREFIX, error.as_str());
                assert(message@ == CLIPBOARD_OPEN_FAILED_PREFIX@ + error@);
                return Err(message);
            },
        };
        match set_clipboard_text(&mut clipboard, text) {
            Ok(()) => Ok(true),
            Err(error) => {
                let message = prefixed(CLIPBOARD_COPY_FAILED_PREFIX, error.as_str());
                assert(message@ == CLIPBOARD_COPY_FAILED_PREFIX@ + error@);
                Err(message)
            },
        }
    }
}

} // verus!
