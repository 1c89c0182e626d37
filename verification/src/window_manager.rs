//! The coordinator of the tabs: the one owner of the store of records, which
//! takes the requests of all windows one at a time and answers each with the
//! work that is to be done outside.

use crate::config_manager::{
    config_file_name, loaded, record_suffix, Config, ConfigError, ConfigManager, ConfigView, ScanEntry,
};
use crate::label::is_label;
use crate::paths::{join_path, joined_path, last_component, last_component_of};
use crate::window_config::{new_tab, WindowConfig, WindowConfigView};
use vstd::prelude::*;
use vstd::string::StringExecFns;

verus! {

/// A request to the coordinator.
#[derive(Debug, PartialEq, Eq)]
pub enum WindowManagerMessage {
    /// Make a new tab.
    CreateWindow,
    /// Show the directory of records in the file browser.
    OpenConfigFolder,
    /// Load what a walk through the directory of records found.
    ScanConfigFolder { entries: Vec<ScanEntry> },
    /// Open a window for every record that is loaded.
    OpenLoadWindows,
    /// Take `config` for the window of the tab `label`.
    SetConfig { label: String, config: WindowConfig },
    /// Tell the size that is kept for the tab `label`.
    GetWindowCurrentSize { label: String },
    /// Copy the file at `path` into the folder of the tab `label`.
    CopyReq { path: String, label: String },
}

/// The mathematical value of a [`WindowManagerMessage`].
pub ghost enum MessageView {
    CreateWindow,
    OpenConfigFolder,
    ScanConfigFolder { entries: Seq<ScanEntry> },
    OpenLoadWindows,
    SetConfig { label: Seq<char>, config: WindowConfigView },
    GetWindowCurrentSize { label: Seq<char> },
    CopyReq { path: Seq<char>, label: Seq<char> },
}

impl View for WindowManagerMessage {
    type V = MessageView;

    open spec fn view(&self) -> MessageView {
        match *self {
            WindowManagerMessage::CreateWindow => MessageView::CreateWindow,
            WindowManagerMessage::OpenConfigFolder => MessageView::OpenConfigFolder,
            WindowManagerMessage::ScanConfigFolder { entries } => MessageView::ScanConfigFolder {
                entries: entries@,
            },
            WindowManagerMessage::OpenLoadWindows => MessageView::OpenLoadWindows,
            WindowManagerMessage::SetConfig { label, config } => MessageView::SetConfig {
                label: label@,
                config: config@,
            },
            WindowManagerMessage::GetWindowCurrentSize { label } => MessageView::GetWindowCurrentSize {
                label: label@,
            },
            WindowManagerMessage::CopyReq { path, label } => MessageView::CopyReq {
                path: path@,
                label: label@,
            },
        }
    }
}

/// Work that the coordinator asks for and does not do itself.
#[derive(Debug, PartialEq, Eq)]
pub enum Action {
    /// Open a window as `window` says.
    OpenWindow { window: WindowConfig },
    /// Write `config` to the file `file_name` of the directory of records,
    /// in place of what is there.
    WriteConfig { file_name: String, config: Config },
    /// Make the folder `path`.
    CreateFolder { path: String },
    /// Show the folder `path` in the file browser.
    OpenFolder { path: String },
    /// Answer the window that waits for a size: width and height of its tab,
    /// or nothing where the tab is not known.
    ReplySize { size: Option<(u64, u64)> },
    /// Copy the file `source` to `destination`.
    CopyFile { source: String, destination: String },
    /// Tell that a request failed with `error`.
    Report { error: ConfigError },
    /// Show the user a dialog.
    ShowDialog { title: String, message: String },
}

/// The mathematical value of an [`Action`].
pub ghost enum ActionView {
    OpenWindow { window: WindowConfigView },
    WriteConfig { file_name: Seq<char>, config: ConfigView },
    CreateFolder { path: Seq<char> },
    OpenFolder { path: Seq<char> },
    ReplySize { size: Option<(u64, u64)> },
    CopyFile { source: Seq<char>, destination: Seq<char> },
    Report { error: ConfigError },
    ShowDialog { title: Seq<char>, message: Seq<char> },
}

impl View for Action {
    type V = ActionView;

    open spec fn view(&self) -> ActionView {
        match *self {
            Action::OpenWindow { window } => ActionView::OpenWindow { window: window@ },
            Action::WriteConfig { file_name, config } => ActionView::WriteConfig {
                file_name: file_name@,
                config: config@,
            },
            Action::CreateFolder { path } => ActionView::CreateFolder { path: path@ },
            Action::OpenFolder { path } => ActionView::OpenFolder { path: path@ },
            Action::ReplySize { size } => ActionView::ReplySize { size },
            Action::CopyFile { source, destination } => ActionView::CopyFile {
                source: source@,
                destination: destination@,
            },
            Action::Report { error } => ActionView::Report { error },
            Action::ShowDialog { title, message } => ActionView::ShowDialog {
                title: title@,
                message: message@,
            },
        }
    }
}

/// The values of a sequence of actions.
pub open spec fn action_views(actions: Seq<Action>) -> Seq<ActionView> {
    Seq::new(actions.len(), |i: int| actions[i]@)
}

/// The mathematical value of a [`WindowManager`]: the directory of records
/// and the records that are loaded.
pub ghost struct WindowManagerView {
    pub config_path: Seq<char>,
    pub configs: Map<Seq<char>, ConfigView>,
}

/// The directory of records of the user `username`.
pub open spec fn config_folder_of(username: Seq<char>) -> Seq<char> {
    "C:\\users\\"@ + username + "\\.mocha-tabs"@
}

/// Whether `actions` are those of a new tab and `after` is `before` with its
/// record: the record is written, its folder made in the directory of
/// records under the tab's label, and its window opened collapsed, in this
/// order.
pub open spec fn created(
    before: WindowManagerView,
    after: WindowManagerView,
    actions: Seq<ActionView>,
) -> bool {
    &&& actions.len() == 3
    &&& actions[0] matches ActionView::WriteConfig { file_name, config }
    &&& is_label(config.label())
    &&& config.window_config == new_tab(config.label())
    &&& config.tab_path == joined_path(before.config_path, config.label())
    &&& file_name == config.label() + record_suffix()
    &&& actions[1] == (ActionView::CreateFolder { path: config.tab_path })
    &&& actions[2] == (ActionView::OpenWindow { window: config.window_config.collapsed() })
    &&& after.config_path == before.config_path
    &&& after.configs == before.configs.insert(config.label(), config)
}

/// Whether `actions` open one window for each record of `configs`, each
/// collapsed.
pub open spec fn opens_all(configs: Map<Seq<char>, ConfigView>, actions: Seq<ActionView>) -> bool {
    &&& forall|i: int|
        0 <= i < actions.len() ==> {
            &&& (#[trigger] actions[i]) matches ActionView::OpenWindow { window }
            &&& configs.contains_key(window.label)
            &&& window == configs[window.label].window_config.collapsed()
        }
    &&& forall|i: int, j: int|
        0 <= i < j < actions.len() ==> (#[trigger] actions[i])->window.label
            != (#[trigger] actions[j])->window.label
    &&& forall|label: Seq<char>| #[trigger]
        configs.contains_key(label) ==> exists|i: int|
            0 <= i < actions.len() && (#[trigger] actions[i])->window.label == label
}

/// Whether `after` and `actions` are what a scan of `entries` leaves: every
/// record loaded and nothing to do, or, where an entry could not be read or
/// holds no record, nothing loaded and the first such entry's error told.
pub open spec fn scanned(
    before: WindowManagerView,
    entries: Seq<ScanEntry>,
    after: WindowManagerView,
    actions: Seq<ActionView>,
) -> bool {
    &&& after.config_path == before.config_path
    &&& if forall|i: int| 0 <= i < entries.len() ==> (#[trigger] entries[i]).failure() is None {
        &&& after.configs == loaded(before.configs, entries)
        &&& actions.len() == 0
    } else {
        &&& after.configs == before.configs
        &&& exists|i: int|
            {
                &&& 0 <= i < entries.len()
                &&& (#[trigger] entries[i]).failure() is Some
                &&& forall|j: int| 0 <= j < i ==> (#[trigger] entries[j]).failure() is None
                &&& actions == seq![ActionView::Report { error: entries[i].failure()->0 }]
            }
    }
}

/// Whether `after` and `actions` are what taking `window` for the tab `label`
/// leaves: the record holds the window and is written out, or, where no tab
/// has the label, nothing changes and that is told.
pub open spec fn config_set(
    before: WindowManagerView,
    label: Seq<char>,
    window: WindowConfigView,
    after: WindowManagerView,
    actions: Seq<ActionView>,
) -> bool {
    &&& after.config_path == before.config_path
    &&& if before.configs.contains_key(label) {
        &&& after.configs == before.configs.insert(label, before.configs[label].with_window(window))
        &&& actions == seq![
            ActionView::WriteConfig {
                file_name: label + record_suffix(),
                config: before.configs[label].with_window(window),
            },
        ]
    } else {
        &&& after.configs == before.configs
        &&& actions == seq![ActionView::Report { error: ConfigError::NotFound }]
    }
}

/// Where a file that is dropped on the tab `label` lands: in the folder of
/// that label in the directory of records, under the name `name`.
pub open spec fn drop_place(config_path: Seq<char>, label: Seq<char>, name: Seq<char>) -> Seq<char> {
    joined_path(joined_path(config_path, label), name)
}

/// What is asked for when the file at `path` is dropped on the tab `label`:
/// a copy of it into the tab's folder under the name it has, or, where the
/// path names no file, the telling that nothing could be copied.
pub open spec fn copy_of(config_path: Seq<char>, path: Seq<char>, label: Seq<char>) -> ActionView {
    match last_component_of(path) {
        Some(name) => ActionView::CopyFile {
            source: path,
            destination: drop_place(config_path, label, name),
        },
        None => ActionView::Report { error: ConfigError::Io },
    }
}

/// The size that is kept for the tab `label`: width and height.
pub open spec fn kept_size(configs: Map<Seq<char>, ConfigView>, label: Seq<char>) -> Option<(u64, u64)> {
    if configs.contains_key(label) {
        Some((configs[label].window_config.width, configs[label].window_config.height))
    } else {
        None
    }
}

/// Whether a coordinator that was `before` and took `message` is `after` and
/// asked for `actions`.
pub open spec fn handled(
    before: WindowManagerView,
    message: MessageView,
    after: WindowManagerView,
    actions: Seq<ActionView>,
) -> bool {
    match message {
        MessageView::CreateWindow => created(before, after, actions),
        MessageView::OpenConfigFolder => {
            &&& after == before
            &&& actions == seq![ActionView::OpenFolder { path: before.config_path }]
        },
        MessageView::ScanConfigFolder { entries } => scanned(before, entries, after, actions),
        MessageView::OpenLoadWindows => {
            &&& after == before
            &&& opens_all(before.configs, actions)
        },
        MessageView::SetConfig { label, config } => config_set(before, label, config, after, actions),
        MessageView::GetWindowCurrentSize { label } => {
            &&& after == before
            &&& actions == seq![ActionView::ReplySize { size: kept_size(before.configs, label) }]
        },
        MessageView::CopyReq { path, label } => {
            &&& after == before
            &&& actions == seq![copy_of(before.config_path, path, label)]
        },
    }
}

/// The values of a sequence of requests.
pub open spec fn message_views(messages: Seq<WindowManagerMessage>) -> Seq<MessageView> {
    Seq::new(messages.len(), |i: int| messages[i]@)
}

/// Whether the coordinator passed through `states` and asked for `asked`
/// while it took `messages` one after the other: each request was taken on
/// the records as the one before left them.
pub open spec fn taken_in_turn(
    messages: Seq<MessageView>,
    states: Seq<WindowManagerView>,
    asked: Seq<Seq<ActionView>>,
) -> bool {
    &&& states.len() == messages.len() + 1
    &&& asked.len() == messages.len()
    &&& forall|i: int|
        0 <= i < messages.len() ==> handled(states[i], messages[i], states[i + 1], #[trigger] asked[i])
}

/// Whether a coordinator that was `before` and took `messages` one after the
/// other, each on the records as the one before left them, is `after` and
/// asked for `actions`: those of the first request, then those of the second,
/// and so on.
pub open spec fn handled_all(
    before: WindowManagerView,
    messages: Seq<MessageView>,
    after: WindowManagerView,
    actions: Seq<ActionView>,
) -> bool {
    exists|states: Seq<WindowManagerView>, asked: Seq<Seq<ActionView>>|
        {
            &&& #[trigger] taken_in_turn(messages, states, asked)
            &&& states[0] == before
            &&& states[messages.len() as int] == after
            &&& actions == asked.flatten()
        }
}

/// Requests are taken in the order in which they come: when a new tab was
/// asked for and then `window` was sent for the label that the tab got, the
/// record of that label holds `window`, under its label, and the folder it
/// was created with.
pub proof fn lemma_create_then_set_config(
    start: WindowManagerView,
    made: WindowManagerView,
    first: Seq<ActionView>,
    window: WindowConfigView,
    end: WindowManagerView,
    second: Seq<ActionView>,
)
    requires
        handled(start, MessageView::CreateWindow, made, first),
        handled(
            made,
            MessageView::SetConfig { label: first[0]->config.label(), config: window },
            end,
            second,
        ),
    ensures
        end.configs.contains_key(first[0]->config.label()),
        end.configs[first[0]->config.label()].window_config == window.with_label(
            first[0]->config.label(),
        ),
        end.configs[first[0]->config.label()].tab_path
            == first[0]->config.tab_path,
        window.label == first[0]->config.label() ==> end.configs[window.label].window_config
            == window,
{
}

/// The coordinator: where the records lie, and the records that are loaded.
pub struct WindowManager {
    config_path: String,
    config_manager: ConfigManager,
}

impl View for WindowManager {
    type V = WindowManagerView;

    closed spec fn view(&self) -> WindowManagerView {
        WindowManagerView { config_path: self.config_path@, configs: self.config_manager@ }
    }
}

impl WindowManager {
    /// The coordinator of the user `username`, with no record loaded.
    pub fn init(username: &str) -> (r: WindowManager)
        ensures
            r@.config_path == config_folder_of(username@),
            r@.configs == Map::<Seq<char>, ConfigView>::empty(),
    {
        let config_path = "C:\\users\\".to_string().concat(username).concat("\\.mocha-tabs");
        WindowManager { config_path, config_manager: ConfigManager::init() }
    }

    /// The directory of records.
    pub fn get_config_folder(&self) -> (path: String)
        ensures
            path@ == self@.config_path,
    {
        self.config_path.clone()
    }

    /// The store of records.
    pub fn config_manager(&self) -> (store: &ConfigManager)
        ensures
            store@ == self@.configs,
    {
        &self.config_manager
    }

    /// Makes a new tab: its record is kept, and it is to be written, its
    /// folder made and its window opened collapsed.
    pub fn create_window(&mut self) -> (actions: Vec<Action>)
        ensures
            created(old(self)@, final(self)@, action_views(actions@)),
    {
        let config = self.config_manager.create_config(self.config_path.as_str());
        let mut actions: Vec<Action> = Vec::new();
        let file_name = config.file_name();
        let path = config.tab_path().clone();
        let window = config.get_win_conf().collapsed();
        actions.push(Action::WriteConfig { file_name, config });
        actions.push(Action::CreateFolder { path });
        actions.push(Action::OpenWindow { window });
        actions
    }

    /// Asks for one window for each record that is loaded, each collapsed,
    /// whatever height is kept for it.
    pub fn load_windows(&self) -> (actions: Vec<Action>)
        ensures
            opens_all(self@.configs, action_views(actions@)),
    {
        let configs = self.config_manager.get_configs();
        let mut actions: Vec<Action> = Vec::new();
        let mut i: usize = 0;
        while i < configs.len()
            invariant
                i <= configs@.len(),
                actions@.len() == i,
                forall|j: int|
                    0 <= j < i ==> (#[trigger] actions@[j])@ == (ActionView::OpenWindow {
                        window: configs@[j]@.window_config.collapsed(),
                    }),
            decreases configs@.len() - i,
        {
            let window = configs[i].get_win_conf().collapsed();
            actions.push(Action::OpenWindow { window });
            i += 1;
        }
        proof {
            let views = action_views(actions@);
            assert forall|j: int| 0 <= j < views.len() implies {
                &&& (#[trigger] views[j]) matches ActionView::OpenWindow { window }
                &&& self@.configs.contains_key(window.label)
                &&& window == self@.configs[window.label].window_config.collapsed()
            } by {
                crate::config_manager::lemma_records_at(configs@, j);
                assert(views[j] == actions@[j]@);
            }
            assert forall|j: int, k: int| 0 <= j < k < views.len() implies (#[trigger] views[j])->window.label
                != (#[trigger] views[k])->window.label by {
                assert(views[j] == actions@[j]@);
                assert(views[k] == actions@[k]@);
            }
            assert forall|label: Seq<char>| #[trigger]
                self@.configs.contains_key(label) implies exists|j: int|
                0 <= j < views.len() && (#[trigger] views[j])->window.label == label by {
                let j = choose|j: int| 0 <= j < configs@.len() && (#[trigger] configs@[j])@.label() == label;
                assert(views[j] == actions@[j]@);
            }
        }
        actions
    }

    /// What is to be written for the tab `label`: its record as it is kept.
    /// Nothing where no tab has the label.
    pub fn save_config(&self, label: &str) -> (r: Option<Action>)
        ensures
            match r {
                Some(action) => self@.configs.contains_key(label@) && action@ == (
                ActionView::WriteConfig {
                    file_name: label@ + record_suffix(),
                    config: self@.configs[label@],
                }),
                None => !self@.configs.contains_key(label@),
            },
    {
        match self.config_manager.get(label) {
            Some(config) => Some(
                Action::WriteConfig { file_name: config_file_name(label), config: config.clone() },
            ),
            None => None,
        }
    }

    /// Takes `config` for the window of the tab `label` and asks for the
    /// record to be written at once.
    pub fn set_config(&mut self, label: &str, config: WindowConfig) -> (actions: Vec<Action>)
        ensures
            config_set(old(self)@, label@, config@, final(self)@, action_views(actions@)),
    {
        let mut actions: Vec<Action> = Vec::new();
        match self.config_manager.update(label, config) {
            Ok(()) => {
                match self.save_config(label) {
                    Some(action) => {
                        actions.push(action);
                    },
                    None => {},
                }
            },
            Err(error) => {
                actions.push(Action::Report { error });
            },
        }
        proof {
            let views = action_views(actions@);
            if old(self)@.configs.contains_key(label@) {
                assert(views =~= seq![
                    ActionView::WriteConfig {
                        file_name: label@ + record_suffix(),
                        config: old(self)@.configs[label@].with_window(config@),
                    },
                ]);
            } else {
                assert(views =~= seq![ActionView::Report { error: ConfigError::NotFound }]);
            }
        }
        actions
    }

    /// What the user is shown when the folder of a new tab could not be
    /// made: a dialog with the reason. The tab stays as it is.
    pub fn folder_not_created(reason: &str) -> (action: Action)
        ensures
            action@ == (ActionView::ShowDialog { title: "Error"@, message: reason@ }),
    {
        Action::ShowDialog { title: "Error".to_string(), message: reason.to_string() }
    }

    /// Takes the requests `messages` in their order, one at a time, and tells
    /// what is to be done for them, in the same order.
    pub fn run_all(&mut self, messages: Vec<WindowManagerMessage>) -> (actions: Vec<Action>)
        ensures
            handled_all(old(self)@, message_views(messages@), final(self)@, action_views(actions@)),
    {
        let mut waiting = messages;
        let mut actions: Vec<Action> = Vec::new();
        let ghost mut states: Seq<WindowManagerView> = seq![self@];
        let ghost mut asked: Seq<Seq<ActionView>> = Seq::empty();
        assert(action_views(actions@) =~= asked.flatten());
        while waiting.len() > 0
            invariant
                asked.len() <= messages@.len(),
                waiting@ == messages@.subrange(asked.len() as int, messages@.len() as int),
                taken_in_turn(message_views(messages@.subrange(0, asked.len() as int)), states, asked),
                states[0] == old(self)@,
                states[asked.len() as int] == self@,
                action_views(actions@) == asked.flatten(),
            decreases waiting@.len(),
        {
            let ghost taken = asked.len() as int;
            let ghost earlier = action_views(actions@);
            let next = waiting.remove(0);
            assert(next == messages@[taken]);
            let mut last = self.run(next);
            proof {
                let front = message_views(messages@.subrange(0, taken + 1));
                let chunk = action_views(last@);
                asked.lemma_flatten_push(chunk);
                assert forall|i: int| 0 <= i < front.len() implies handled(
                    states.push(self@)[i],
                    front[i],
                    states.push(self@)[i + 1],
                    #[trigger] asked.push(chunk)[i],
                ) by {
                    if i < taken {
                        assert(handled(states[i], message_views(messages@.subrange(0, taken))[i], states[i + 1], asked[i]));
                    }
                }
                states = states.push(self@);
                asked = asked.push(chunk);
                assert(waiting@ =~= messages@.subrange(taken + 1, messages@.len() as int));
            }
            let ghost chunk = action_views(last@);
            actions.append(&mut last);
            assert(action_views(actions@) =~= earlier + chunk);
        }
        assert(messages@.subrange(0, asked.len() as int) =~= messages@);
        assert(taken_in_turn(message_views(messages@), states, asked));
        actions
    }

    /// What is to be done when the file at `path` is dropped on the tab
    /// `label`. Whether a tab has the label is not asked.
    pub fn copy_file(&self, path: String, label: &str) -> (action: Action)
        ensures
            action@ == copy_of(self@.config_path, path@, label@),
    {
        match last_component(path.as_str()) {
            Some(name) => {
                let folder = join_path(self.config_path.as_str(), label);
                let destination = join_path(folder.as_str(), name.as_str());
                Action::CopyFile { source: path, destination }
            },
            None => Action::Report { error: ConfigError::Io },
        }
    }

    /// Takes one request and tells what is to be done for it. Requests are
    /// taken one at a time, each on the records as the one before left them.
    pub fn run(&mut self, message: WindowManagerMessage) -> (actions: Vec<Action>)
        ensures
            handled(old(self)@, message@, final(self)@, action_views(actions@)),
    {
        match message {
            WindowManagerMessage::CreateWindow => self.create_window(),
            WindowManagerMessage::OpenConfigFolder => {
                let mut actions: Vec<Action> = Vec::new();
                actions.push(Action::OpenFolder { path: self.config_path.clone() });
                assert(action_views(actions@) =~= seq![
                    ActionView::OpenFolder { path: self@.config_path },
                ]);
                actions
            },
            WindowManagerMessage::ScanConfigFolder { entries } => {
                let mut actions: Vec<Action> = Vec::new();
                match self.config_manager.scan_config_folder(&entries) {
                    Ok(()) => {},
                    Err(error) => {
                        actions.push(Action::Report { error });
                        assert(action_views(actions@) =~= seq![ActionView::Report { error }]);
                    },
                }
                actions
            },
            WindowManagerMessage::OpenLoadWindows => self.load_windows(),
            WindowManagerMessage::SetConfig { label, config } => self.set_config(label.as_str(), config),
            WindowManagerMessage::GetWindowCurrentSize { label } => {
                let size = match self.config_manager.get(label.as_str()) {
                    Some(config) => {
                        let window = config.get_win_conf();
                        Some((window.width, window.height))
                    },
                    None => None,
                };
                let mut actions: Vec<Action> = Vec::new();
                actions.push(Action::ReplySize { size });
                assert(action_views(actions@) =~= seq![
                    ActionView::ReplySize { size: kept_size(self@.configs, label@) },
                ]);
                actions
            },
            WindowManagerMessage::CopyReq { path, label } => {
                let mut actions: Vec<Action> = Vec::new();
                let ghost wanted = seq![copy_of(self@.config_path, path@, label@)];
                actions.push(self.copy_file(path, label.as_str()));
                assert(action_views(actions@) =~= wanted);
                actions
            },
        }
    }
}

} // verus!
