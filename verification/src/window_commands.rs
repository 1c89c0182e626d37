//! What the commands of a tab window decide: which flags to flip, what to
//! report to the coordinator, which files to show, how to launch one.

use crate::window_config::{TitleBarStyle, WindowConfig, WindowConfigView, WindowUrl, WindowUrlView};
use crate::window_manager::WindowManagerMessage;
use vstd::prelude::*;
use vstd::string::StrSliceExecFns;

verus! {

/// The label of the window that is no tab and shows no files.
pub open spec fn main_label() -> Seq<char> {
    "main"@
}

/// What was read off a live window: its identity, its logical position and
/// size as bit patterns, and its flags.
#[derive(Debug, PartialEq, Eq)]
pub struct WindowSnapshot {
    pub label: String,
    pub title: String,
    pub x: u64,
    pub y: u64,
    pub width: u64,
    pub height: u64,
    pub resizable: bool,
    pub maximizable: bool,
    pub minimizable: bool,
    pub closable: bool,
    pub fullscreen: bool,
    pub focused: bool,
    pub maximized: bool,
    pub visible: bool,
    pub decorated: bool,
}

/// The window that is persisted for `snapshot`: what was read off the window,
/// and for the rest what holds of every tab (it shows the application's first
/// page, files may be dropped on it, it stays off the taskbar, its size has
/// no limits, it is neither centred, transparent, on top nor protected).
pub open spec fn persisted_window(snapshot: WindowSnapshot) -> WindowConfigView {
    WindowConfigView {
        label: snapshot.label@,
        url: WindowUrlView::App("index.html"@),
        user_agent: None,
        title: snapshot.title@,
        x: Some(snapshot.x),
        y: Some(snapshot.y),
        width: snapshot.width,
        height: snapshot.height,
        min_width: None,
        min_height: None,
        max_width: None,
        max_height: None,
        theme: None,
        title_bar_style: TitleBarStyle::Visible,
        tabbing_identifier: None,
        additional_browser_args: None,
        resizable: snapshot.resizable,
        maximizable: snapshot.maximizable,
        minimizable: snapshot.minimizable,
        closable: snapshot.closable,
        fullscreen: snapshot.fullscreen,
        focus: snapshot.focused,
        transparent: false,
        maximized: snapshot.maximized,
        visible: snapshot.visible,
        decorations: snapshot.decorated,
        always_on_top: false,
        content_protected: false,
        skip_taskbar: true,
        hidden_title: false,
        accept_first_mouse: false,
        file_drop_enabled: true,
        center: false,
    }
}

/// The window to persist for a live window.
pub fn inner_config(snapshot: &WindowSnapshot) -> (config: WindowConfig)
    ensures
        config@ == persisted_window(*snapshot),
{
    WindowConfig {
        label: snapshot.label.clone(),
        url: WindowUrl::App("index.html".to_string()),
        user_agent: None,
        title: snapshot.title.clone(),
        x: Some(snapshot.x),
        y: Some(snapshot.y),
        width: snapshot.width,
        height: snapshot.height,
        min_width: None,
        min_height: None,
        max_width: None,
        max_height: None,
        theme: None,
        title_bar_style: TitleBarStyle::Visible,
        tabbing_identifier: None,
        additional_browser_args: None,
        resizable: snapshot.resizable,
        maximizable: snapshot.maximizable,
        minimizable: snapshot.minimizable,
        closable: snapshot.closable,
        fullscreen: snapshot.fullscreen,
        focus: snapshot.focused,
        transparent: false,
        maximized: snapshot.maximized,
        visible: snapshot.visible,
        decorations: snapshot.decorated,
        always_on_top: false,
        content_protected: false,
        skip_taskbar: true,
        hidden_title: false,
        accept_first_mouse: false,
        file_drop_enabled: true,
        center: false,
    }
}

/// The message that reports the state of a live window to the coordinator.
pub fn save_changes(snapshot: &WindowSnapshot) -> (message: WindowManagerMessage)
    ensures
        message matches WindowManagerMessage::SetConfig { label, config } && label@
            == snapshot.label@ && config@ == persisted_window(*snapshot),
{
    WindowManagerMessage::SetConfig { label: snapshot.label.clone(), config: inner_config(snapshot) }
}

/// What pinning or releasing a window comes to.
#[derive(Clone, Copy, Debug, PartialEq, Eq, Structural)]
pub struct WindowFix {
    /// Whether the window has borders and bars from now on.
    pub decorations: bool,
    /// Whether the window can be resized from now on.
    pub resizable: bool,
    /// Whether the window's state is to be saved once the flags are set.
    pub save: bool,
}

/// Toggles a window between being arranged and being pinned. A decorated
/// window is pinned: it loses its decorations, can no longer be resized, and
/// its state is saved. A pinned window is released: it gets both back, and
/// nothing is saved until it is pinned again.
pub fn fix_window(decorated: bool) -> (fix: WindowFix)
    ensures
        fix == (WindowFix { decorations: !decorated, resizable: !decorated, save: decorated }),
{
    if decorated {
        WindowFix { decorations: false, resizable: false, save: true }
    } else {
        WindowFix { decorations: true, resizable: true, save: false }
    }
}

/// The place of the first full stop in `name`, or its length if it has none.
pub open spec fn first_stop(name: Seq<char>) -> int
    decreases name.len(),
{
    if name.len() == 0 || name[0] == '.' {
        0
    } else {
        1 + first_stop(name.drop_first())
    }
}

/// The name under which a file is shown: what stands before its first full
/// stop.
pub open spec fn shown_name(name: Seq<char>) -> Seq<char> {
    name.subrange(0, first_stop(name))
}

/// `first_stop` lies within the name, no full stop stands before it, and one
/// stands at it unless it is the end.
pub proof fn lemma_first_stop(name: Seq<char>)
    ensures
        0 <= first_stop(name) <= name.len(),
        forall|i: int| 0 <= i < first_stop(name) ==> name[i] != '.',
        first_stop(name) < name.len() ==> name[first_stop(name)] == '.',
    decreases name.len(),
{
    if !(name.len() == 0 || name[0] == '.') {
        let rest = name.drop_first();
        lemma_first_stop(rest);
        assert forall|i: int| 0 <= i < first_stop(name) implies name[i] != '.' by {
            if i > 0 {
                assert(rest[i - 1] == name[i]);
            }
        }
        if first_stop(name) < name.len() {
            assert(rest[first_stop(rest)] == name[first_stop(name)]);
        }
    }
}

/// The first place without a full stop before it that holds one, or the end
/// of the name, is `first_stop`.
pub proof fn lemma_first_stop_is(name: Seq<char>, at: int)
    requires
        0 <= at <= name.len(),
        forall|i: int| 0 <= i < at ==> name[i] != '.',
        at < name.len() ==> name[at] == '.',
    ensures
        first_stop(name) == at,
{
    lemma_first_stop(name);
    let found = first_stop(name);
    if found < at {
        assert(name[found] == '.');
    }
    if at < found {
        assert(name[at] != '.');
    }
}

/// The name under which the file called `file_name` is shown.
pub fn display_name(file_name: &str) -> (shown: String)
    ensures
        shown@ == shown_name(file_name@),
{
    let n = file_name.unicode_len();
    let mut i: usize = 0;
    while i < n && file_name.get_char(i) != '.'
        invariant
            n == file_name@.len(),
            i <= n,
            forall|j: int| 0 <= j < i ==> file_name@[j] != '.',
        decreases n - i,
    {
        i += 1;
    }
    proof {
        lemma_first_stop_is(file_name@, i as int);
    }
    file_name.substring_char(0, i).to_string()
}

/// One file of a tab's folder, as it was found: its icon as text, its name
/// and its full path.
#[derive(Debug, PartialEq, Eq)]
pub struct FileItem {
    pub icon: String,
    pub file_name: String,
    pub path: String,
}

/// What is shown of one file: its icon, the name it is shown under, its path.
pub open spec fn shown_file(file: FileItem) -> Seq<Seq<char>> {
    seq![file.icon@, shown_name(file.file_name@), file.path@]
}

/// The views of the strings of `row`.
pub open spec fn row_view(row: Vec<String>) -> Seq<Seq<char>> {
    Seq::new(row@.len(), |i: int| row@[i]@)
}

/// Whether the window labelled `label` shows the files of a folder: every
/// window does but the main one, whose folder need not be looked into.
pub fn shows_files(label: &str) -> (shows: bool)
    ensures
        shows == (label@ != main_label()),
{
    label.to_string() != "main".to_string()
}

/// What the window labelled `label` shows of the files of its folder: of each
/// file its icon, shown name and path, in the order of `files`. The main
/// window shows none.
pub fn get_files(label: &str, files: &Vec<FileItem>) -> (shown: Vec<Vec<String>>)
    ensures
        label@ == main_label() ==> shown@.len() == 0,
        label@ != main_label() ==> shown@.len() == files@.len(),
        forall|i: int| 0 <= i < shown@.len() ==> row_view(#[trigger] shown@[i]) == shown_file(files@[i]),
{
    let mut shown: Vec<Vec<String>> = Vec::new();
    if !shows_files(label) {
        return shown;
    }
    let mut i: usize = 0;
    while i < files.len()
        invariant
            i <= files@.len(),
            shown@.len() == i,
            forall|j: int| 0 <= j < shown@.len() ==> row_view(#[trigger] shown@[j]) == shown_file(files@[j]),
        decreases files@.len() - i,
    {
        let file = &files[i];
        let mut row: Vec<String> = Vec::new();
        row.push(file.icon.clone());
        row.push(display_name(file.file_name.as_str()));
        row.push(file.path.clone());
        assert(row_view(row) =~= shown_file(files@[i as int]));
        shown.push(row);
        i += 1;
    }
    shown
}

/// A program and the arguments that it is started with.
#[derive(Debug, PartialEq, Eq)]
pub struct Launch {
    pub program: String,
    pub arguments: Vec<String>,
}

/// How the file at `path` is opened: the command shell is asked to start it
/// (`cmd /C start "" path`), so that the system picks the program.
pub fn run_app(path: &str) -> (launch: Launch)
    ensures
        launch.program@ == "cmd"@,
        row_view(launch.arguments) == seq!["/C"@, "start"@, ""@, path@],
{
    let mut arguments: Vec<String> = Vec::new();
    arguments.push("/C".to_string());
    arguments.push("start".to_string());
    arguments.push("".to_string());
    arguments.push(path.to_string());
    assert(row_view(arguments) =~= seq!["/C"@, "start"@, ""@, path@]);
    Launch { program: "cmd".to_string(), arguments }
}

} // verus!
