use mocha_tabs::config_manager::{
    config_file_name, Config, ConfigError, ConfigManager, ExternalConfig, ScanEntry,
};
use mocha_tabs::label::{generate_label, LABEL_LENGTH};
use mocha_tabs::window_config::{
    Theme, TitleBarStyle, WindowConfig, WindowUrl, COLLAPSED_HEIGHT, HOST_DEFAULT_HEIGHT,
    HOST_DEFAULT_WIDTH, NEW_TAB_HEIGHT, NEW_TAB_POSITION, NEW_TAB_WIDTH,
};
use std::path::{Path, PathBuf};
use tauri_utils::config::WindowUrl as HostUrl;

fn tab(label: &str) -> Config {
    Config::new_tab(label.to_string(), &format!("/tabs/{}", label))
}

fn to_host(window: &WindowConfig) -> tauri_utils::config::WindowConfig {
    let mut host = tauri_utils::config::WindowConfig::default();
    host.label = window.label.clone();
    host.url = match &window.url {
        WindowUrl::External(address) => match address.parse() {
            Ok(address) => HostUrl::External(address),
            Err(_) => HostUrl::default(),
        },
        WindowUrl::App(path) => HostUrl::App(PathBuf::from(path)),
    };
    host.user_agent = window.user_agent.clone();
    host.min_width = window.min_width.map(f64::from_bits);
    host.min_height = window.min_height.map(f64::from_bits);
    host.max_width = window.max_width.map(f64::from_bits);
    host.max_height = window.max_height.map(f64::from_bits);
    host.theme = window.theme.map(|theme| match theme {
        Theme::Light => tauri_utils::Theme::Light,
        Theme::Dark => tauri_utils::Theme::Dark,
    });
    host.title_bar_style = match window.title_bar_style {
        TitleBarStyle::Visible => tauri_utils::TitleBarStyle::Visible,
        TitleBarStyle::Transparent => tauri_utils::TitleBarStyle::Transparent,
        TitleBarStyle::Overlay => tauri_utils::TitleBarStyle::Overlay,
    };
    host.tabbing_identifier = window.tabbing_identifier.clone();
    host.additional_browser_args = window.additional_browser_args.clone();
    host.title = window.title.clone();
    host.x = window.x.map(f64::from_bits);
    host.y = window.y.map(f64::from_bits);
    host.width = f64::from_bits(window.width);
    host.height = f64::from_bits(window.height);
    host.resizable = window.resizable;
    host.maximizable = window.maximizable;
    host.minimizable = window.minimizable;
    host.closable = window.closable;
    host.fullscreen = window.fullscreen;
    host.focus = window.focus;
    host.transparent = window.transparent;
    host.maximized = window.maximized;
    host.visible = window.visible;
    host.decorations = window.decorations;
    host.always_on_top = window.always_on_top;
    host.content_protected = window.content_protected;
    host.skip_taskbar = window.skip_taskbar;
    host.hidden_title = window.hidden_title;
    host.accept_first_mouse = window.accept_first_mouse;
    host.file_drop_enabled = window.file_drop_enabled;
    host.center = window.center;
    host
}

fn from_host(host: &tauri_utils::config::WindowConfig) -> WindowConfig {
    WindowConfig {
        label: host.label.clone(),
        url: match &host.url {
            HostUrl::External(address) => WindowUrl::External(address.to_string()),
            HostUrl::App(path) => WindowUrl::App(path.to_string_lossy().into_owned()),
            _ => WindowUrl::App("index.html".to_string()),
        },
        user_agent: host.user_agent.clone(),
        min_width: host.min_width.map(f64::to_bits),
        min_height: host.min_height.map(f64::to_bits),
        max_width: host.max_width.map(f64::to_bits),
        max_height: host.max_height.map(f64::to_bits),
        theme: match host.theme {
            Some(tauri_utils::Theme::Light) => Some(Theme::Light),
            Some(tauri_utils::Theme::Dark) => Some(Theme::Dark),
            _ => None,
        },
        title_bar_style: match host.title_bar_style {
            tauri_utils::TitleBarStyle::Visible => TitleBarStyle::Visible,
            tauri_utils::TitleBarStyle::Transparent => TitleBarStyle::Transparent,
            tauri_utils::TitleBarStyle::Overlay => TitleBarStyle::Overlay,
        },
        tabbing_identifier: host.tabbing_identifier.clone(),
        additional_browser_args: host.additional_browser_args.clone(),
        title: host.title.clone(),
        x: host.x.map(f64::to_bits),
        y: host.y.map(f64::to_bits),
        width: host.width.to_bits(),
        height: host.height.to_bits(),
        resizable: host.resizable,
        maximizable: host.maximizable,
        minimizable: host.minimizable,
        closable: host.closable,
        fullscreen: host.fullscreen,
        focus: host.focus,
        transparent: host.transparent,
        maximized: host.maximized,
        visible: host.visible,
        decorations: host.decorations,
        always_on_top: host.always_on_top,
        content_protected: host.content_protected,
        skip_taskbar: host.skip_taskbar,
        hidden_title: host.hidden_title,
        accept_first_mouse: host.accept_first_mouse,
        file_drop_enabled: host.file_drop_enabled,
        center: host.center,
    }
}

#[test]
fn lengths_are_bit_patterns_of_their_numbers() {
    assert_eq!(f64::from_bits(COLLAPSED_HEIGHT), 35.0);
    assert_eq!(f64::from_bits(NEW_TAB_POSITION), 150.0);
    assert_eq!(f64::from_bits(NEW_TAB_HEIGHT), 300.0);
    assert_eq!(f64::from_bits(NEW_TAB_WIDTH), 400.0);
    assert_eq!(f64::from_bits(HOST_DEFAULT_HEIGHT), 600.0);
    assert_eq!(f64::from_bits(HOST_DEFAULT_WIDTH), 800.0);
}

#[test]
fn default_window_is_the_hosts_default() {
    let ours = WindowConfig::default();
    let theirs = tauri_utils::config::WindowConfig::default();
    assert_eq!(ours, from_host(&theirs));
    assert_eq!(to_host(&ours), theirs);
}

#[test]
fn new_tab_window_has_the_documented_geometry() {
    let window = WindowConfig::new_tab("label".to_string());
    assert_eq!(window.label, "label");
    assert_eq!(window.title, "tab");
    assert_eq!(f64::from_bits(window.width), 400.0);
    assert_eq!(f64::from_bits(window.height), 300.0);
    assert_eq!(window.x.map(f64::from_bits), Some(150.0));
    assert_eq!(window.y.map(f64::from_bits), Some(150.0));
    assert!(!window.decorations);
    assert!(!window.resizable);
    assert!(!window.closable);
    assert!(window.skip_taskbar);
    assert!(window.hidden_title);
    let mut expected = WindowConfig::default();
    expected.label = "label".to_string();
    expected.title = "tab".to_string();
    expected.decorations = false;
    expected.skip_taskbar = true;
    expected.width = 400.0f64.to_bits();
    expected.height = 300.0f64.to_bits();
    expected.x = Some(150.0f64.to_bits());
    expected.y = Some(150.0f64.to_bits());
    expected.resizable = false;
    expected.closable = false;
    expected.hidden_title = true;
    assert_eq!(window, expected);
}

#[test]
fn default_window_shows_the_first_page_without_limits() {
    let window = WindowConfig::default();
    assert_eq!(window.url, WindowUrl::App("index.html".to_string()));
    assert_eq!(window.user_agent, None);
    assert_eq!(window.min_width, None);
    assert_eq!(window.min_height, None);
    assert_eq!(window.max_width, None);
    assert_eq!(window.max_height, None);
    assert_eq!(window.theme, None);
    assert_eq!(window.title_bar_style, TitleBarStyle::Visible);
    assert_eq!(window.tabbing_identifier, None);
    assert_eq!(window.additional_browser_args, None);
}

#[test]
fn copies_keep_every_field() {
    let mut window = WindowConfig::new_tab("label".to_string());
    window.url = WindowUrl::External("https://example.com/".to_string());
    window.user_agent = Some("shelf/1".to_string());
    window.min_height = Some(35.0f64.to_bits());
    window.theme = Some(Theme::Light);
    window.title_bar_style = TitleBarStyle::Transparent;
    window.tabbing_identifier = Some("tabs".to_string());
    window.additional_browser_args = Some("--x".to_string());
    assert_eq!(window.clone(), window);
    let mut collapsed = window.clone();
    collapsed.height = 35.0f64.to_bits();
    assert_eq!(window.collapsed(), collapsed);
    let mut renamed = window.clone();
    renamed.label = "other".to_string();
    assert_eq!(window.with_label("other".to_string()), renamed);
}

#[test]
fn collapsed_window_changes_the_height_only() {
    let window = WindowConfig::new_tab("label".to_string());
    let collapsed = window.collapsed();
    assert_eq!(f64::from_bits(collapsed.height), 35.0);
    let mut expected = window.clone();
    expected.height = 35.0f64.to_bits();
    assert_eq!(collapsed, expected);
    assert_eq!(f64::from_bits(window.height), 300.0);
}

#[test]
fn with_label_changes_the_label_only() {
    let window = WindowConfig::new_tab("one".to_string());
    let renamed = window.with_label("two".to_string());
    let mut expected = window.clone();
    expected.label = "two".to_string();
    assert_eq!(renamed, expected);
}

#[test]
fn generated_label_has_32_letters_and_digits() {
    let label = generate_label();
    assert_eq!(LABEL_LENGTH, 32);
    assert_eq!(label.chars().count(), 32);
    assert!(label.chars().all(|c| c.is_ascii_alphanumeric()));
}

#[test]
fn generated_labels_differ() {
    let labels: Vec<String> = (0..16).map(|_| generate_label()).collect();
    for i in 0..labels.len() {
        for j in 0..i {
            assert_ne!(labels[i], labels[j]);
        }
    }
}

#[test]
fn external_config_keeps_the_path() {
    let external = ExternalConfig::new("/tabs/abc");
    assert_eq!(external.tab_path(), "/tabs/abc");
    assert_eq!(external.clone(), external);
}

#[test]
fn record_from_parts_holds_the_parts() {
    let window = WindowConfig::new_tab("abc".to_string());
    let config = Config::from_parts(window.clone(), ExternalConfig::new("/tabs/abc"));
    assert_eq!(config.get_win_conf(), window);
    assert_eq!(config.tab_path(), "/tabs/abc");
    assert_eq!(config.label(), "abc");
    assert_eq!(config, tab("abc"));
}

#[test]
fn new_record_has_fresh_label_default_window_and_folder_under_the_directory() {
    let config = Config::new("/home/user/.mocha-tabs");
    let label = config.label().clone();
    assert_eq!(label.chars().count(), 32);
    assert!(label.chars().all(|c| c.is_ascii_alphanumeric()));
    assert_eq!(config.get_win_conf(), WindowConfig::new_tab(label.clone()));
    let expected = Path::new("/home/user/.mocha-tabs").join(&label);
    assert_eq!(Path::new(config.tab_path()), expected.as_path());
    assert_ne!(config.tab_path(), "/home/user/.mocha-tabs");
    assert_ne!(config.tab_path(), &label);
}

#[test]
fn record_file_name_is_label_and_suffix() {
    assert_eq!(config_file_name("abc"), "abc.conf.json");
    assert_eq!(config_file_name(""), ".conf.json");
    assert_eq!(tab("xyz").file_name(), "xyz.conf.json");
}

#[test]
fn set_window_config_keeps_label_and_folder() {
    let mut config = tab("abc");
    let mut window = WindowConfig::default();
    window.label = "other".to_string();
    window.width = 123.5f64.to_bits();
    config.set_window_config(window.clone());
    let mut expected = window;
    expected.label = "abc".to_string();
    assert_eq!(config.get_win_conf(), expected);
    assert_eq!(config.label(), "abc");
    assert_eq!(config.tab_path(), "/tabs/abc");
}

#[test]
fn new_store_is_empty() {
    let store = ConfigManager::init();
    assert!(store.get_configs().is_empty());
    assert!(store.get("abc").is_none());
}

#[test]
fn scan_of_empty_directory_loads_nothing() {
    let mut store = ConfigManager::init();
    assert_eq!(store.scan_config_folder(&vec![]), Ok(()));
    assert!(store.get_configs().is_empty());
}

#[test]
fn scan_loads_each_record_under_its_label() {
    let mut store = ConfigManager::init();
    let entries = vec![
        ScanEntry::NotAFile,
        ScanEntry::Record(tab("one")),
        ScanEntry::NotAFile,
        ScanEntry::Record(tab("two")),
    ];
    assert_eq!(store.scan_config_folder(&entries), Ok(()));
    assert_eq!(store.get_configs().len(), 2);
    assert_eq!(store.get("one"), Some(&tab("one")));
    assert_eq!(store.get("two"), Some(&tab("two")));
    assert_eq!(store.get("three"), None);
    assert_eq!(store.get_configs()[0], tab("one"));
    assert_eq!(store.get_configs()[1], tab("two"));
}

#[test]
fn scan_keeps_the_later_of_two_records_with_one_label() {
    let mut store = ConfigManager::init();
    let mut later = tab("one");
    let mut window = WindowConfig::new_tab("one".to_string());
    window.width = 640.0f64.to_bits();
    later.set_window_config(window);
    let entries = vec![ScanEntry::Record(tab("one")), ScanEntry::Record(later.clone())];
    assert_eq!(store.scan_config_folder(&entries), Ok(()));
    assert_eq!(store.get_configs().len(), 1);
    assert_eq!(store.get("one"), Some(&later));
}

#[test]
fn scan_with_malformed_file_fails_with_parse_error_and_loads_nothing() {
    let mut store = ConfigManager::init();
    store.add_config(tab("kept"));
    let entries = vec![ScanEntry::Record(tab("one")), ScanEntry::Malformed, ScanEntry::Record(tab("two"))];
    assert_eq!(store.scan_config_folder(&entries), Err(ConfigError::Parse));
    assert_eq!(store.get_configs().len(), 1);
    assert_eq!(store.get("kept"), Some(&tab("kept")));
    assert_eq!(store.get("one"), None);
    assert_eq!(store.get("two"), None);
    assert_eq!(store.scan_config_folder(&entries), Err(ConfigError::Parse));
}

#[test]
fn scan_with_one_malformed_file_alone_fails_with_parse_error() {
    let mut store = ConfigManager::init();
    assert_eq!(store.scan_config_folder(&vec![ScanEntry::Malformed]), Err(ConfigError::Parse));
    assert!(store.get_configs().is_empty());
}

#[test]
fn scan_with_unreadable_file_fails_with_io_error() {
    let mut store = ConfigManager::init();
    let entries = vec![ScanEntry::Record(tab("one")), ScanEntry::Unreadable];
    assert_eq!(store.scan_config_folder(&entries), Err(ConfigError::Io));
    assert!(store.get_configs().is_empty());
}

#[test]
fn scan_reports_the_first_failure() {
    let mut store = ConfigManager::init();
    let io_first = vec![ScanEntry::Unreadable, ScanEntry::Malformed];
    assert_eq!(store.scan_config_folder(&io_first), Err(ConfigError::Io));
    let parse_first = vec![ScanEntry::NotAFile, ScanEntry::Malformed, ScanEntry::Unreadable];
    assert_eq!(store.scan_config_folder(&parse_first), Err(ConfigError::Parse));
}

#[test]
fn add_config_replaces_the_record_of_the_same_label() {
    let mut store = ConfigManager::init();
    store.add_config(tab("one"));
    store.add_config(tab("two"));
    let replacement = Config::new_tab("one".to_string(), "/elsewhere/one");
    store.add_config(replacement.clone());
    assert_eq!(store.get_configs().len(), 2);
    assert_eq!(store.get("one"), Some(&replacement));
    assert_eq!(store.get("two"), Some(&tab("two")));
}

#[test]
fn create_config_returns_a_new_record_and_keeps_it() {
    let mut store = ConfigManager::init();
    store.add_config(tab("kept"));
    let created = store.create_config("/home/user/.mocha-tabs");
    let label = created.label().clone();
    assert_eq!(label.chars().count(), 32);
    assert_ne!(label, "kept");
    assert_eq!(created.get_win_conf(), WindowConfig::new_tab(label.clone()));
    assert_eq!(store.get(&label), Some(&created));
    assert_eq!(store.get("kept"), Some(&tab("kept")));
    assert_eq!(store.get_configs().len(), 2);
}

#[test]
fn create_config_twice_gives_two_records() {
    let mut store = ConfigManager::init();
    let first = store.create_config("/tabs");
    assert!(store.get(first.label()).is_some());
    let second = store.create_config("/tabs");
    assert_ne!(first.label(), second.label());
    assert_eq!(store.get_configs().len(), 2);
    assert_eq!(store.get(first.label()), Some(&first));
    assert_eq!(store.get(second.label()), Some(&second));
}

#[test]
fn update_of_absent_label_is_not_found_and_changes_nothing() {
    let mut store = ConfigManager::init();
    store.add_config(tab("one"));
    assert_eq!(store.update("two", WindowConfig::default()), Err(ConfigError::NotFound));
    assert_eq!(store.get_configs().len(), 1);
    assert_eq!(store.get("one"), Some(&tab("one")));
    assert_eq!(store.get("two"), None);
    let mut empty = ConfigManager::init();
    assert_eq!(empty.update("one", WindowConfig::default()), Err(ConfigError::NotFound));
    assert!(empty.get_configs().is_empty());
}

#[test]
fn update_replaces_the_window_and_keeps_label_and_folder() {
    let mut store = ConfigManager::init();
    store.add_config(tab("one"));
    store.add_config(tab("two"));
    let mut window = WindowConfig::new_tab("one".to_string());
    window.x = Some(10.25f64.to_bits());
    window.height = 512.0f64.to_bits();
    window.decorations = true;
    assert_eq!(store.update("one", window.clone()), Ok(()));
    let kept = store.get("one").unwrap();
    assert_eq!(kept.get_win_conf(), window);
    assert_eq!(kept.tab_path(), "/tabs/one");
    assert_eq!(store.get("two"), Some(&tab("two")));
    let mut stray = window.clone();
    stray.label = "two".to_string();
    assert_eq!(store.update("one", stray), Ok(()));
    assert_eq!(store.get("one").unwrap().get_win_conf(), window);
    assert_eq!(store.get("two"), Some(&tab("two")));
}

#[test]
fn record_survives_writing_and_reloading() {
    let mut store = ConfigManager::init();
    let created = store.create_config("/home/user/.mocha-tabs");
    let mut window = created.get_win_conf();
    window.x = Some(12.75f64.to_bits());
    window.y = Some((-3.5f64).to_bits());
    window.width = 333.25f64.to_bits();
    window.url = WindowUrl::External("https://example.com/shelf".to_string());
    window.user_agent = Some("shelf/1".to_string());
    window.min_width = Some(120.0f64.to_bits());
    window.max_height = Some(900.5f64.to_bits());
    window.theme = Some(Theme::Dark);
    window.title_bar_style = TitleBarStyle::Overlay;
    window.tabbing_identifier = Some("tabs".to_string());
    window.additional_browser_args = Some("--disable-gpu".to_string());
    assert_eq!(store.update(created.label(), window), Ok(()));
    let kept = store.get(created.label()).unwrap().clone();

    let mut document = serde_json::Map::new();
    document.insert(
        "window_config".to_string(),
        serde_json::to_value(to_host(&kept.get_win_conf())).unwrap(),
    );
    let mut external = serde_json::Map::new();
    external.insert("tab_path".to_string(), serde_json::Value::String(kept.tab_path().clone()));
    document.insert("external".to_string(), serde_json::Value::Object(external));
    let text = serde_json::to_string(&serde_json::Value::Object(document)).unwrap();

    let parsed: serde_json::Value = serde_json::from_str(&text).unwrap();
    let host: tauri_utils::config::WindowConfig =
        serde_json::from_value(parsed["window_config"].clone()).unwrap();
    let tab_path = parsed["external"]["tab_path"].as_str().unwrap();
    let reloaded = Config::from_parts(from_host(&host), ExternalConfig::new(tab_path));

    let mut fresh = ConfigManager::init();
    assert_eq!(fresh.scan_config_folder(&vec![ScanEntry::Record(reloaded)]), Ok(()));
    assert_eq!(fresh.get(kept.label()), Some(&kept));
    assert_eq!(fresh.get_configs().len(), 1);
}

#[test]
fn closing_a_window_leaves_its_record() {
    let mut store = ConfigManager::init();
    let created = store.create_config("/tabs");
    assert_eq!(store.scan_config_folder(&vec![]), Ok(()));
    assert_eq!(store.get(created.label()), Some(&created));
}

#[test]
fn errors_have_words() {
    assert_eq!(ConfigError::Io.message(), "a file could not be read or written");
    assert_eq!(ConfigError::Parse.message(), "a file does not hold a tab record");
    assert_eq!(ConfigError::NotFound.message(), "no tab has this label");
}
