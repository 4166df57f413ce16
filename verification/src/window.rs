//! The main window: a fixed-size frame holding a title bar on top and the
//! merchant back office below it, and where downloads from it are saved.

use vstd::prelude::*;

verus! {

/// Width of the main window, in logical pixels.
pub const WINDOW_WIDTH: u32 = 1280;
/// Height of the main window, in logical pixels.
pub const WINDOW_HEIGHT: u32 = 800;
/// Height of the title bar, in logical pixels.
pub const TITLEBAR_HEIGHT: u32 = 34;

/// A rectangle in logical pixels, from its top-left corner.
#[derive(Clone, Copy, Debug, PartialEq, Eq)]
pub struct Rect {
    pub x: u32,
    pub y: u32,
    pub width: u32,
    pub height: u32,
}

/// Where the two web views of the main window stand.
#[derive(Clone, Copy, Debug, PartialEq, Eq)]
pub struct WindowLayout {
    pub titlebar: Rect,
    pub content: Rect,
}

/// Whether the point (`px`, `py`) lies in `r`.
pub open spec fn contains(r: Rect, px: int, py: int) -> bool {
    r.x <= px < r.x + r.width && r.y <= py < r.y + r.height
}

/// The title bar spans the top of the window at its full width; the content
/// fills the rest below it.
pub fn window_layout() -> (l: WindowLayout)
    ensures
        l.titlebar == (Rect { x: 0, y: 0, width: WINDOW_WIDTH, height: TITLEBAR_HEIGHT }),
        l.content == (Rect {
            x: 0,
            y: TITLEBAR_HEIGHT,
            width: WINDOW_WIDTH,
            height: (WINDOW_HEIGHT - TITLEBAR_HEIGHT) as u32,
        }),
{
    WindowLayout {
        titlebar: Rect { x: 0, y: 0, width: WINDOW_WIDTH, height: TITLEBAR_HEIGHT },
        content: Rect {
            x: 0,
            y: TITLEBAR_HEIGHT,
            width: WINDOW_WIDTH,
            height: WINDOW_HEIGHT - TITLEBAR_HEIGHT,
        },
    }
}

/// Every point of the window lies in exactly one of the two web views.
pub proof fn layout_tiles_window(px: int, py: int)
    requires
        0 <= px < WINDOW_WIDTH,
        0 <= py < WINDOW_HEIGHT,
    ensures
        contains(layout_spec().titlebar, px, py) != contains(layout_spec().content, px, py),
{
}

/// Outside the window no web view reaches.
pub proof fn layout_stays_in_window(px: int, py: int)
    requires
        contains(layout_spec().titlebar, px, py) || contains(layout_spec().content, px, py),
    ensures
        0 <= px < WINDOW_WIDTH,
        0 <= py < WINDOW_HEIGHT,
{
}

/// The layout `window_layout` returns.
pub open spec fn layout_spec() -> WindowLayout {
    WindowLayout {
        titlebar: Rect { x: 0, y: 0, width: WINDOW_WIDTH, height: TITLEBAR_HEIGHT },
        content: Rect {
            x: 0,
            y: TITLEBAR_HEIGHT,
            width: WINDOW_WIDTH,
            height: (WINDOW_HEIGHT - TITLEBAR_HEIGHT) as u32,
        },
    }
}

/// The name offered when a download has none.
pub open spec fn default_download_name() -> Seq<char> {
    "极序排队-海报.png"@
}

/// The file name the save dialog proposes: the download's own name when it
/// has a non-empty one, otherwise the default poster name.
pub open spec fn suggested_name_spec(file_name: Option<Seq<char>>) -> Seq<char> {
    match file_name {
        Some(n) => if n.len() > 0 { n } else { default_download_name() },
        None => default_download_name(),
    }
}

/// The download's own name is proposed whenever it is non-empty; only a
/// missing or empty name gives the poster name.
pub proof fn own_download_name_is_kept(name: Seq<char>)
    ensures
        name.len() > 0 ==> suggested_name_spec(Some(name)) == name,
        name.len() == 0 ==> suggested_name_spec(Some(name)) == "极序排队-海报.png"@,
        suggested_name_spec(None) == "极序排队-海报.png"@,
{
}

/// The file name the save dialog proposes for a download whose destination
/// has the final component `file_name` (none when it has no final component).
pub fn suggested_file_name(file_name: Option<String>) -> (name: String)
    ensures
        name@ == suggested_name_spec(match file_name {
            Some(n) => Some(n@),
            None => None,
        }),
{
    match file_name {
        Some(n) => if n.as_str().is_empty() {
            String::from_str("极序排队-海报.png")
        } else {
            n
        },
        None => String::from_str("极序排队-海报.png"),
    }
}

/// What the save dialog's answer makes of a requested download: `None` when
/// the user cancelled, else the picked file, itself `None` when it is not a
/// plain path. Returns whether to go on with the download, and the new
/// destination if it changes.
pub fn resolve_save_choice<P>(picked: Option<Option<P>>) -> (r: (bool, Option<P>))
    ensures
        r == match picked {
            None => (false, None),
            Some(p) => (true, p),
        },
{
    match picked {
        None => (false, None),
        Some(p) => (true, p),
    }
}

} // verus!
