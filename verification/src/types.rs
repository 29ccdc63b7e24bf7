//! Plain data shared by the copy-mode state machine: text coordinates, pane
//! geometry, keys, endpoint requests and responses.
use vstd::prelude::*;

verus! {

/// A cell in the absolute text coordinates of a pane (row 0 is the oldest
/// scrollback row).
#[derive(Clone, Copy, Debug, PartialEq, Eq, Structural)]
pub struct PaneTextPoint {
    pub row: u32,
    pub col: u16,
}

/// An inclusive span of cells, as the endpoint reports a match or an object.
#[derive(Clone, Copy, Debug, PartialEq, Eq, Structural)]
pub struct PaneTextRange {
    pub start: PaneTextPoint,
    pub end: PaneTextPoint,
}

#[derive(Clone, Copy, Debug, PartialEq, Eq, Structural)]
pub enum PaneCopySearchDirection {
    Forward,
    Backward,
}

/// Endpoint-evaluated cursor motions.
#[derive(Clone, Copy, Debug, PartialEq, Eq, Structural)]
pub enum PaneCopyMotion {
    LineEnd,
    FirstNonBlank,
    NextWordStart,
    NextBigWordStart,
    PreviousWordStart,
    PreviousBigWordStart,
    NextWordEnd,
    NextBigWordEnd,
    PreviousParagraph,
    NextParagraph,
}

/// Text objects (`i(`, `a{`, `iw`, ...) and character finds (`f`, `t`, ...).
#[derive(Clone, Copy, Debug, PartialEq, Eq, Structural)]
pub enum PaneCopyObjectRequest {
    Object { inside: bool, open: char, close: char, count: u32, word: Option<bool> },
    Find { ch: char, direction: PaneCopySearchDirection, till: bool, count: u32, repeat: bool },
}

/// Screen rectangle of a pane's text area.
#[derive(Clone, Copy, Debug, PartialEq, Eq, Structural)]
pub struct SurfaceRect {
    pub x: u16,
    pub y: u16,
    pub width: u16,
    pub height: u16,
}

/// The terminal cursor as the last frame placed it.
#[derive(Clone, Copy, Debug, PartialEq, Eq, Structural)]
pub struct CursorState {
    pub x: u16,
    pub y: u16,
    pub visible: bool,
}

/// Scrollback position of a pane: how far the viewport is above the bottom.
#[derive(Clone, Copy, Debug, PartialEq, Eq, Structural)]
pub struct ScrollMetrics {
    pub offset_from_bottom: usize,
    pub max_offset_from_bottom: usize,
    pub viewport_rows: usize,
}

/// Where a pane was laid out in the last composed frame.
#[derive(Debug)]
pub struct PaneHit {
    pub pane_id: String,
    pub inner_rect: SurfaceRect,
    pub scroll: Option<ScrollMetrics>,
}

/// One pane of the server-rendered surface.
#[derive(Clone, Debug)]
pub struct PaneSurfacePane {
    pub pane_id: String,
    pub content_revision: u64,
    pub alternate_screen_active: bool,
    pub inner_rect: SurfaceRect,
    pub scroll: Option<ScrollMetrics>,
}

/// The rendered surface: panes plus the frame cursor.
#[derive(Clone, Debug)]
pub struct PaneSurface {
    pub surface_revision: u64,
    pub cursor: Option<CursorState>,
    pub panes: Vec<PaneSurfacePane>,
}

/// Hit regions of the last frame.
#[derive(Debug)]
pub struct ShellHitMap {
    pub panes: Vec<PaneHit>,
}

// ---------------------------------------------------------------- keys

#[derive(Clone, Copy, Debug, PartialEq, Eq, Structural)]
pub enum KeyCode {
    Backspace,
    Enter,
    Left,
    Right,
    Up,
    Down,
    Home,
    End,
    PageUp,
    PageDown,
    Tab,
    Delete,
    Esc,
    Char(char),
    Other,
}

/// Modifier bit set, with the terminal's bit layout (shift 1, control 2, alt 4).
#[derive(Clone, Copy, Debug, PartialEq, Eq, Structural)]
pub struct KeyModifiers {
    pub bits: u8,
}

impl KeyModifiers {
    pub open spec fn has(self, other: KeyModifiers) -> bool {
        self.bits & other.bits == other.bits
    }

    pub fn empty() -> (r: KeyModifiers)
        ensures
            r.bits == 0,
    {
        KeyModifiers { bits: 0 }
    }

    pub fn shift() -> (r: KeyModifiers)
        ensures
            r.bits == 1,
    {
        KeyModifiers { bits: 1 }
    }

    pub fn control() -> (r: KeyModifiers)
        ensures
            r.bits == 2,
    {
        KeyModifiers { bits: 2 }
    }

    pub fn alt() -> (r: KeyModifiers)
        ensures
            r.bits == 4,
    {
        KeyModifiers { bits: 4 }
    }

    /// Whether every bit of `other` is set in `self`.
    pub fn contains(&self, other: KeyModifiers) -> (r: bool)
        ensures
            r == self.has(other),
    {
        self.bits & other.bits == other.bits
    }
}

#[derive(Clone, Copy, Debug, PartialEq, Eq, Structural)]
pub struct TerminalKey {
    pub code: KeyCode,
    pub modifiers: KeyModifiers,
}

impl TerminalKey {
    pub fn new(code: KeyCode, modifiers: KeyModifiers) -> (r: TerminalKey)
        ensures
            r.code == code,
            r.modifiers == modifiers,
    {
        TerminalKey { code, modifiers }
    }
}

/// Input as the shell receives it: keys, committed text and pastes.
#[derive(Clone, Debug)]
pub enum RawInputEvent {
    Key(TerminalKey),
    Text(String),
    Paste(String),
}

// ---------------------------------------------------------------- endpoint

#[derive(Clone, Debug, PartialEq, Eq)]
pub struct PaneCopyMotionParams {
    pub pane_id: String,
    pub cursor: PaneTextPoint,
    pub motion: PaneCopyMotion,
    pub content_revision: Option<u64>,
}

#[derive(Clone, Debug, PartialEq, Eq)]
pub struct PaneCopyObjectParams {
    pub pane_id: String,
    pub cursor: PaneTextPoint,
    pub request: PaneCopyObjectRequest,
    pub content_revision: Option<u64>,
}

#[derive(Clone, Debug, PartialEq, Eq)]
pub struct PaneCopySearchParams {
    pub pane_id: String,
    pub query: Vec<char>,
    pub direction: PaneCopySearchDirection,
    pub cursor: PaneTextPoint,
    pub content_revision: u64,
    pub previous: Option<PaneTextRange>,
}

#[derive(Clone, Debug, PartialEq, Eq)]
pub struct PaneScrollParams {
    pub pane_id: String,
    pub offset_from_bottom: usize,
}

#[derive(Clone, Debug, PartialEq, Eq)]
pub struct PaneSelectionReadParams {
    pub pane_id: String,
    pub anchor: PaneTextPoint,
    pub cursor: PaneTextPoint,
    pub content_revision: Option<u64>,
}

/// Endpoint methods the copy-mode pipeline issues.
#[derive(Clone, Debug, PartialEq, Eq)]
pub enum Method {
    PaneCopyMotion(PaneCopyMotionParams),
    PaneCopyObject(PaneCopyObjectParams),
    PaneCopySearch(PaneCopySearchParams),
    PaneScroll(PaneScrollParams),
    PaneSelectionRead(PaneSelectionReadParams),
    PaneSelectionReadBlock(PaneSelectionReadParams),
}

#[derive(Clone, Debug)]
pub struct EndpointRequest {
    pub id: u64,
    pub method: Method,
}

/// Side effects a key or a response asks the host to perform.
#[derive(Clone, Debug)]
pub enum ClientShellAction {
    Endpoint { request: EndpointRequest },
}

/// What handling one input produced: a repaint flag and actions.
#[derive(Debug)]
pub struct ClientShellInput {
    pub repaint: bool,
    pub actions: Vec<ClientShellAction>,
}

impl ClientShellInput {
    pub fn new() -> (r: ClientShellInput)
        ensures
            !r.repaint,
            r.actions@.len() == 0,
    {
        ClientShellInput { repaint: false, actions: Vec::new() }
    }
}

impl Default for ClientShellInput {
    fn default() -> (r: ClientShellInput)
        ensures
            !r.repaint,
            r.actions@.len() == 0,
    {
        ClientShellInput::new()
    }
}

/// Search outcome as the endpoint reports it.
#[derive(Clone, Debug)]
pub struct ClientCopySearchResult {
    pub matches: Vec<PaneTextRange>,
    pub total: usize,
    pub current: Option<usize>,
    pub current_global: Option<usize>,
    pub content_revision: u64,
}

/// Successful endpoint responses the pipeline consumes.
#[derive(Clone, Debug)]
pub enum ResponseResult {
    PaneCopyMotion { pane_id: String, cursor: PaneTextPoint, content_revision: u64 },
    PaneCopyObject { pane_id: String, range: PaneTextRange, content_revision: u64 },
    PaneCopySearch(ClientCopySearchResult),
    PaneScroll { pane_id: String, offset_from_bottom: usize, max_offset_from_bottom: usize },
    Ack,
}

/// Error classes the endpoint reports by code.
#[derive(Clone, Copy, Debug, PartialEq, Eq, Structural)]
pub enum EndpointErrorCode {
    /// A find or text object matched nothing: benign.
    CopyObjectUnavailable,
    /// The pane content changed under the request.
    StaleContent,
    /// The request timed out.
    Timeout,
    Other,
}

#[derive(Clone, Debug)]
pub struct ClientShellEndpointError {
    pub code: Option<EndpointErrorCode>,
    pub message: String,
}

/// Whether two strings hold the same characters.
pub fn str_equal(a: &str, b: &str) -> (r: bool)
    ensures
        r == (a@ == b@),
{
    let n = a.unicode_len();
    if n != b.unicode_len() {
        return false;
    }
    let mut i: usize = 0;
    while i < n
        invariant
            n == a@.len(),
            n == b@.len(),
            i <= n,
            forall|j: int| 0 <= j < i ==> a@[j] == b@[j],
        decreases n - i,
    {
        if a.get_char(i) != b.get_char(i) {
            return false;
        }
        i = i + 1;
    }
    assert(a@ =~= b@);
    true
}

impl EndpointErrorCode {
    /// The class of an endpoint error code as the endpoint spells it.
    pub open spec fn of_code(code: Seq<char>) -> EndpointErrorCode {
        if code == "copy_object_unavailable"@ {
            EndpointErrorCode::CopyObjectUnavailable
        } else if code == "stale_content"@ {
            EndpointErrorCode::StaleContent
        } else if code == "endpoint_timeout"@ {
            EndpointErrorCode::Timeout
        } else {
            EndpointErrorCode::Other
        }
    }

    pub fn from_code(code: &str) -> (r: EndpointErrorCode)
        ensures
            r == EndpointErrorCode::of_code(code@),
    {
        if str_equal(code, "copy_object_unavailable") {
            EndpointErrorCode::CopyObjectUnavailable
        } else if str_equal(code, "stale_content") {
            EndpointErrorCode::StaleContent
        } else if str_equal(code, "endpoint_timeout") {
            EndpointErrorCode::Timeout
        } else {
            EndpointErrorCode::Other
        }
    }
}

} // verus!
