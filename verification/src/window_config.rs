//! The geometry and display flags of one tab window.

use vstd::prelude::*;

verus! {

/// The bit pattern of the logical length 35, the height of a collapsed tab.
pub const COLLAPSED_HEIGHT: u64 = 0x4041_8000_0000_0000;

/// The bit pattern of the logical length 150, where a new tab is placed.
pub const NEW_TAB_POSITION: u64 = 0x4062_C000_0000_0000;

/// The bit pattern of the logical length 300, the height of a new tab.
pub const NEW_TAB_HEIGHT: u64 = 0x4072_C000_0000_0000;

/// The bit pattern of the logical length 400, the width of a new tab.
pub const NEW_TAB_WIDTH: u64 = 0x4079_0000_0000_0000;

/// The bit pattern of the logical length 600, the host's default height.
pub const HOST_DEFAULT_HEIGHT: u64 = 0x4082_C000_0000_0000;

/// The bit pattern of the logical length 800, the host's default width.
pub const HOST_DEFAULT_WIDTH: u64 = 0x4089_0000_0000_0000;

/// What a window shows: a page of the application, or one from elsewhere.
#[derive(Debug, PartialEq, Eq)]
pub enum WindowUrl {
    /// An address outside the application.
    External(String),
    /// The path of a page of the application.
    App(String),
}

/// The mathematical value of a [`WindowUrl`].
pub ghost enum WindowUrlView {
    External(Seq<char>),
    App(Seq<char>),
}

impl View for WindowUrl {
    type V = WindowUrlView;

    open spec fn view(&self) -> WindowUrlView {
        match *self {
            WindowUrl::External(address) => WindowUrlView::External(address@),
            WindowUrl::App(path) => WindowUrlView::App(path@),
        }
    }
}

impl Clone for WindowUrl {
    fn clone(&self) -> (r: WindowUrl)
        ensures
            r == *self,
    {
        match self {
            WindowUrl::External(address) => WindowUrl::External(address.clone()),
            WindowUrl::App(path) => WindowUrl::App(path.clone()),
        }
    }
}

/// The colours in which a window is drawn.
#[derive(Clone, Copy, Debug, PartialEq, Eq, Structural)]
pub enum Theme {
    Light,
    Dark,
}

/// How the title bar of a window is drawn where the system lets it be chosen.
#[derive(Clone, Copy, Debug, PartialEq, Eq, Structural)]
pub enum TitleBarStyle {
    Visible,
    Transparent,
    Overlay,
}

/// The mathematical value of a text that may be missing.
pub open spec fn text_view(text: Option<String>) -> Option<Seq<char>> {
    match text {
        Some(text) => Some(text@),
        None => None,
    }
}

/// A copy of a text that may be missing.
pub fn clone_text(text: &Option<String>) -> (r: Option<String>)
    ensures
        r == *text,
{
    match text {
        Some(text) => Some(text.clone()),
        None => None,
    }
}

/// What the windowing host is told about one window, and what is persisted
/// of it.
///
/// Logical lengths (`x`, `y`, `width`, `height` and the limits of the size)
/// are carried as the IEEE-754 binary64 bit pattern of the host's number. The library copies and compares
/// them and never computes with them, so a record survives any number of
/// round trips unchanged.
#[derive(Debug, PartialEq, Eq)]
pub struct WindowConfig {
    pub label: String,
    pub url: WindowUrl,
    pub user_agent: Option<String>,
    pub title: String,
    pub x: Option<u64>,
    pub y: Option<u64>,
    pub width: u64,
    pub height: u64,
    pub min_width: Option<u64>,
    pub min_height: Option<u64>,
    pub max_width: Option<u64>,
    pub max_height: Option<u64>,
    pub theme: Option<Theme>,
    pub title_bar_style: TitleBarStyle,
    pub tabbing_identifier: Option<String>,
    pub additional_browser_args: Option<String>,
    pub resizable: bool,
    pub maximizable: bool,
    pub minimizable: bool,
    pub closable: bool,
    pub fullscreen: bool,
    pub focus: bool,
    pub transparent: bool,
    pub maximized: bool,
    pub visible: bool,
    pub decorations: bool,
    pub always_on_top: bool,
    pub content_protected: bool,
    pub skip_taskbar: bool,
    pub hidden_title: bool,
    pub accept_first_mouse: bool,
    pub file_drop_enabled: bool,
    pub center: bool,
}

/// The mathematical value of a [`WindowConfig`]: strings as sequences of
/// characters, everything else as it is.
pub ghost struct WindowConfigView {
    pub label: Seq<char>,
    pub url: WindowUrlView,
    pub user_agent: Option<Seq<char>>,
    pub title: Seq<char>,
    pub x: Option<u64>,
    pub y: Option<u64>,
    pub width: u64,
    pub height: u64,
    pub min_width: Option<u64>,
    pub min_height: Option<u64>,
    pub max_width: Option<u64>,
    pub max_height: Option<u64>,
    pub theme: Option<Theme>,
    pub title_bar_style: TitleBarStyle,
    pub tabbing_identifier: Option<Seq<char>>,
    pub additional_browser_args: Option<Seq<char>>,
    pub resizable: bool,
    pub maximizable: bool,
    pub minimizable: bool,
    pub closable: bool,
    pub fullscreen: bool,
    pub focus: bool,
    pub transparent: bool,
    pub maximized: bool,
    pub visible: bool,
    pub decorations: bool,
    pub always_on_top: bool,
    pub content_protected: bool,
    pub skip_taskbar: bool,
    pub hidden_title: bool,
    pub accept_first_mouse: bool,
    pub file_drop_enabled: bool,
    pub center: bool,
}

impl View for WindowConfig {
    type V = WindowConfigView;

    open spec fn view(&self) -> WindowConfigView {
        WindowConfigView {
            label: self.label@,
            url: self.url@,
            user_agent: text_view(self.user_agent),
            title: self.title@,
            x: self.x,
            y: self.y,
            width: self.width,
            height: self.height,
            min_width: self.min_width,
            min_height: self.min_height,
            max_width: self.max_width,
            max_height: self.max_height,
            theme: self.theme,
            title_bar_style: self.title_bar_style,
            tabbing_identifier: text_view(self.tabbing_identifier),
            additional_browser_args: text_view(self.additional_browser_args),
            resizable: self.resizable,
            maximizable: self.maximizable,
            minimizable: self.minimizable,
            closable: self.closable,
            fullscreen: self.fullscreen,
            focus: self.focus,
            transparent: self.transparent,
            maximized: self.maximized,
            visible: self.visible,
            decorations: self.decorations,
            always_on_top: self.always_on_top,
            content_protected: self.content_protected,
            skip_taskbar: self.skip_taskbar,
            hidden_title: self.hidden_title,
            accept_first_mouse: self.accept_first_mouse,
            file_drop_enabled: self.file_drop_enabled,
            center: self.center,
        }
    }
}

impl WindowConfigView {
    /// The same window, drawn at the collapsed height.
    pub open spec fn collapsed(self) -> WindowConfigView {
        WindowConfigView { height: COLLAPSED_HEIGHT, ..self }
    }

    /// The same window under another label.
    pub open spec fn with_label(self, label: Seq<char>) -> WindowConfigView {
        WindowConfigView { label, ..self }
    }
}

/// What the host assumes of a window that it is told nothing about.
pub open spec fn host_default() -> WindowConfigView {
    WindowConfigView {
        label: "main"@,
        url: WindowUrlView::App("index.html"@),
        user_agent: None,
        title: "Tauri App"@,
        x: None,
        y: None,
        width: HOST_DEFAULT_WIDTH,
        height: HOST_DEFAULT_HEIGHT,
        min_width: None,
        min_height: None,
        max_width: None,
        max_height: None,
        theme: None,
        title_bar_style: TitleBarStyle::Visible,
        tabbing_identifier: None,
        additional_browser_args: None,
        resizable: true,
        maximizable: true,
        minimizable: true,
        closable: true,
        fullscreen: false,
        focus: false,
        transparent: false,
        maximized: false,
        visible: true,
        decorations: true,
        always_on_top: false,
        content_protected: false,
        skip_taskbar: false,
        hidden_title: false,
        accept_first_mouse: false,
        file_drop_enabled: true,
        center: false,
    }
}

/// The window of a tab that was just created under `label`: borderless,
/// fixed, kept off the taskbar, 400 by 300 at (150, 150), titled "tab".
pub open spec fn new_tab(label: Seq<char>) -> WindowConfigView {
    WindowConfigView {
        label,
        title: "tab"@,
        decorations: false,
        skip_taskbar: true,
        width: NEW_TAB_WIDTH,
        height: NEW_TAB_HEIGHT,
        x: Some(NEW_TAB_POSITION),
        y: Some(NEW_TAB_POSITION),
        resizable: false,
        closable: false,
        hidden_title: true,
        ..host_default()
    }
}

impl Default for WindowConfig {
    fn default() -> (r: WindowConfig)
        ensures
            r@ == host_default(),
    {
        WindowConfig {
            label: "main".to_string(),
            url: WindowUrl::App("index.html".to_string()),
            user_agent: None,
            title: "Tauri App".to_string(),
            x: None,
            y: None,
            width: HOST_DEFAULT_WIDTH,
            height: HOST_DEFAULT_HEIGHT,
            min_width: None,
            min_height: None,
            max_width: None,
            max_height: None,
            theme: None,
            title_bar_style: TitleBarStyle::Visible,
            tabbing_identifier: None,
            additional_browser_args: None,
            resizable: true,
            maximizable: true,
            minimizable: true,
            closable: true,
            fullscreen: false,
            focus: false,
            transparent: false,
            maximized: false,
            visible: true,
            decorations: true,
            always_on_top: false,
            content_protected: false,
            skip_taskbar: false,
            hidden_title: false,
            accept_first_mouse: false,
            file_drop_enabled: true,
            center: false,
        }
    }
}

impl Clone for WindowConfig {
    fn clone(&self) -> (r: WindowConfig)
        ensures
            r == *self,
    {
        WindowConfig {
            label: self.label.clone(),
            url: self.url.clone(),
            user_agent: clone_text(&self.user_agent),
            title: self.title.clone(),
            x: self.x,
            y: self.y,
            width: self.width,
            height: self.height,
            min_width: self.min_width,
            min_height: self.min_height,
            max_width: self.max_width,
            max_height: self.max_height,
            theme: self.theme,
            title_bar_style: self.title_bar_style,
            tabbing_identifier: clone_text(&self.tabbing_identifier),
            additional_browser_args: clone_text(&self.additional_browser_args),
            resizable: self.resizable,
            maximizable: self.maximizable,
            minimizable: self.minimizable,
            closable: self.closable,
            fullscreen: self.fullscreen,
            focus: self.focus,
            transparent: self.transparent,
            maximized: self.maximized,
            visible: self.visible,
            decorations: self.decorations,
            always_on_top: self.always_on_top,
            content_protected: self.content_protected,
            skip_taskbar: self.skip_taskbar,
            hidden_title: self.hidden_title,
            accept_first_mouse: self.accept_first_mouse,
            file_drop_enabled: self.file_drop_enabled,
            center: self.center,
        }
    }
}

impl WindowConfig {
    /// The window of a new tab under `label`.
    pub fn new_tab(label: String) -> (r: WindowConfig)
        ensures
            r@ == new_tab(label@),
    {
        let mut config = WindowConfig::default();
        config.label = label;
        config.title = "tab".to_string();
        config.decorations = false;
        config.skip_taskbar = true;
        config.width = NEW_TAB_WIDTH;
        config.height = NEW_TAB_HEIGHT;
        config.x = Some(NEW_TAB_POSITION);
        config.y = Some(NEW_TAB_POSITION);
        config.resizable = false;
        config.closable = false;
        config.hidden_title = true;
        config
    }

    /// A copy that opens at the collapsed height, whatever height is stored.
    pub fn collapsed(&self) -> (r: WindowConfig)
        ensures
            r@ == self@.collapsed(),
    {
        let copy = self.clone();
        assert(copy@ == self@);
        WindowConfig { height: COLLAPSED_HEIGHT, ..copy }
    }

    /// A copy under another label.
    pub fn with_label(&self, label: String) -> (r: WindowConfig)
        ensures
            r@ == self@.with_label(label@),
    {
        let copy = self.clone();
        assert(copy@ == self@);
        WindowConfig { label, ..copy }
    }
}

} // verus!
