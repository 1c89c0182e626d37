//! The store of tab records: one record per label, created, replaced and
//! looked up by label.

use crate::label::{generate_label, is_label};
use crate::paths::{join_path, joined_path};
use crate::window_config::{new_tab, WindowConfig, WindowConfigView};
use vstd::string::StringExecFns;
use vstd::prelude::*;

verus! {

/// The ending of the file that holds one record.
pub open spec fn record_suffix() -> Seq<char> {
    ".conf.json"@
}

/// Why an operation on the store did not go through.
#[derive(Clone, Copy, Debug, PartialEq, Eq, Structural)]
pub enum ConfigError {
    /// A file could not be read or written.
    Io,
    /// A file does not hold a record.
    Parse,
    /// No record has the label that was named.
    NotFound,
}

impl ConfigError {
    /// The error in words, for a report.
    pub fn message(&self) -> (text: String)
        ensures
            text@ == match *self {
                ConfigError::Io => "a file could not be read or written"@,
                ConfigError::Parse => "a file does not hold a tab record"@,
                ConfigError::NotFound => "no tab has this label"@,
            },
    {
        match self {
            ConfigError::Io => "a file could not be read or written".to_string(),
            ConfigError::Parse => "a file does not hold a tab record".to_string(),
            ConfigError::NotFound => "no tab has this label".to_string(),
        }
    }
}

/// What a record keeps beside the window: where the tab's folder lies.
#[derive(Debug, PartialEq, Eq)]
pub struct ExternalConfig {
    tab_path: String,
}

impl View for ExternalConfig {
    type V = Seq<char>;

    closed spec fn view(&self) -> Seq<char> {
        self.tab_path@
    }
}

impl ExternalConfig {
    /// Keeps `path` as the folder of a tab.
    pub fn new(path: &str) -> (r: ExternalConfig)
        ensures
            r@ == path@,
    {
        ExternalConfig { tab_path: path.to_string() }
    }

    /// The folder of the tab.
    pub fn tab_path(&self) -> (path: &String)
        ensures
            path@ == self@,
    {
        &self.tab_path
    }
}

impl Clone for ExternalConfig {
    fn clone(&self) -> (r: ExternalConfig)
        ensures
            r == *self,
    {
        ExternalConfig { tab_path: self.tab_path.clone() }
    }
}

/// The mathematical value of a [`Config`].
pub ghost struct ConfigView {
    pub window_config: WindowConfigView,
    pub tab_path: Seq<char>,
}

impl ConfigView {
    /// The label under which the store keeps this record.
    pub open spec fn label(self) -> Seq<char> {
        self.window_config.label
    }

    /// The record after its window was replaced by `window`. The label is
    /// assigned once and stays.
    pub open spec fn with_window(self, window: WindowConfigView) -> ConfigView {
        ConfigView { window_config: window.with_label(self.label()), ..self }
    }
}

/// One tab as it is persisted: its window and its folder.
#[derive(Debug, PartialEq, Eq)]
pub struct Config {
    window_config: WindowConfig,
    external: ExternalConfig,
}

impl View for Config {
    type V = ConfigView;

    closed spec fn view(&self) -> ConfigView {
        ConfigView { window_config: self.window_config@, tab_path: self.external@ }
    }
}

impl Clone for Config {
    fn clone(&self) -> (r: Config)
        ensures
            r == *self,
    {
        Config { window_config: self.window_config.clone(), external: self.external.clone() }
    }
}

impl Config {
    /// The record of a tab from its parts.
    pub fn from_parts(window_config: WindowConfig, external: ExternalConfig) -> (r: Config)
        ensures
            r@ == (ConfigView { window_config: window_config@, tab_path: external@ }),
    {
        Config { window_config, external }
    }

    /// The record of a new tab labelled `label`, whose folder is `tab_path`.
    pub fn new_tab(label: String, tab_path: &str) -> (r: Config)
        ensures
            r@ == (ConfigView { window_config: new_tab(label@), tab_path: tab_path@ }),
    {
        Config { window_config: WindowConfig::new_tab(label), external: ExternalConfig::new(tab_path) }
    }

    /// The record of a new tab under the directory `path`: a fresh label, the
    /// window of a new tab, and for its folder the label adjoined to `path`
    /// as the platform writes paths.
    pub fn new(path: &str) -> (r: Config)
        ensures
            is_label(r@.label()),
            r@.window_config == new_tab(r@.label()),
            r@.tab_path == joined_path(path@, r@.label()),
    {
        let label = generate_label();
        let tab_path = join_path(path, label.as_str());
        Config::new_tab(label, tab_path.as_str())
    }

    /// The label of the tab.
    pub fn label(&self) -> (label: &String)
        ensures
            label@ == self@.label(),
    {
        &self.window_config.label
    }

    /// The folder of the tab.
    pub fn tab_path(&self) -> (path: &String)
        ensures
            path@ == self@.tab_path,
    {
        self.external.tab_path()
    }

    /// A copy of the tab's window.
    pub fn get_win_conf(&self) -> (window: WindowConfig)
        ensures
            window@ == self@.window_config,
    {
        self.window_config.clone()
    }

    /// Replaces the tab's window by `window_config`, all but the label, which
    /// stays as it was assigned.
    pub fn set_window_config(&mut self, window_config: WindowConfig)
        ensures
            final(self)@ == old(self)@.with_window(window_config@),
    {
        let label = self.window_config.label.clone();
        self.window_config = window_config.with_label(label);
    }

    /// The name of the file that holds this record: the label, then
    /// `.conf.json`.
    pub fn file_name(&self) -> (name: String)
        ensures
            name@ == self@.label() + record_suffix(),
    {
        config_file_name(self.window_config.label.as_str())
    }
}

/// The name of the file that holds the record of `label`.
pub fn config_file_name(label: &str) -> (name: String)
    ensures
        name@ == label@ + record_suffix(),
{
    label.to_string().concat(".conf.json")
}

/// What was found of one entry of the directory of records.
#[derive(Debug, PartialEq, Eq)]
pub enum ScanEntry {
    /// The entry is no regular file. It is passed over.
    NotAFile,
    /// The file could not be read.
    Unreadable,
    /// The file was read and does not hold a record.
    Malformed,
    /// The file holds this record.
    Record(Config),
}

impl ScanEntry {
    /// The error that this entry stands for, if it stands for one.
    pub open spec fn failure(self) -> Option<ConfigError> {
        match self {
            ScanEntry::Unreadable => Some(ConfigError::Io),
            ScanEntry::Malformed => Some(ConfigError::Parse),
            _ => None,
        }
    }

    /// Whether the entry holds a record labelled `label`.
    pub open spec fn holds(self, label: Seq<char>) -> bool {
        self matches ScanEntry::Record(config) && config@.label() == label
    }
}

/// The records `m` after each record among `entries` was put under its
/// label, in the order of `entries`: of two with one label the later stays.
pub open spec fn loaded(m: Map<Seq<char>, ConfigView>, entries: Seq<ScanEntry>) -> Map<
    Seq<char>,
    ConfigView,
>
    decreases entries.len(),
{
    if entries.len() == 0 {
        m
    } else {
        let before = loaded(m, entries.drop_last());
        match entries.last() {
            ScanEntry::Record(config) => before.insert(config@.label(), config@),
            _ => before,
        }
    }
}

/// A label is among the loaded records exactly if it was among the records
/// before or some entry holds a record under it.
pub proof fn lemma_loaded_keys(m: Map<Seq<char>, ConfigView>, entries: Seq<ScanEntry>, label: Seq<char>)
    ensures
        loaded(m, entries).contains_key(label) <==> (m.contains_key(label) || exists|i: int|
            0 <= i < entries.len() && (#[trigger] entries[i]).holds(label)),
    decreases entries.len(),
{
    if entries.len() > 0 {
        let front = entries.drop_last();
        lemma_loaded_keys(m, front, label);
        if exists|i: int| 0 <= i < front.len() && (#[trigger] front[i]).holds(label) {
            let i = choose|i: int| 0 <= i < front.len() && (#[trigger] front[i]).holds(label);
            assert(entries[i].holds(label));
        }
        if exists|i: int| 0 <= i < entries.len() && (#[trigger] entries[i]).holds(label) {
            let i = choose|i: int| 0 <= i < entries.len() && (#[trigger] entries[i]).holds(label);
            if i < front.len() {
                assert(front[i].holds(label));
            }
        }
    }
}

/// A record that no later entry replaces is loaded as it stands in its entry.
pub proof fn lemma_loaded_value(m: Map<Seq<char>, ConfigView>, entries: Seq<ScanEntry>, at: int)
    requires
        0 <= at < entries.len(),
        entries[at] is Record,
        forall|j: int| at < j < entries.len() ==> !(#[trigger] entries[j]).holds(entries[at]->0@.label()),
    ensures
        loaded(m, entries).contains_key(entries[at]->0@.label()),
        loaded(m, entries)[entries[at]->0@.label()] == entries[at]->0@,
    decreases entries.len(),
{
    let label = entries[at]->0@.label();
    if at < entries.len() - 1 {
        let front = entries.drop_last();
        assert(front[at] == entries[at]);
        assert forall|j: int| at < j < front.len() implies !(#[trigger] front[j]).holds(label) by {
            assert(front[j] == entries[j]);
        }
        lemma_loaded_value(m, front, at);
        assert(!entries.last().holds(label));
    }
}

/// A fresh store that scans a directory without an unreadable or malformed
/// file holds exactly the records that the files hold, each under its label;
/// where several files hold one label, the one that the walk met last.
pub proof fn lemma_scan_loads_exactly_the_files(entries: Seq<ScanEntry>)
    ensures
        forall|label: Seq<char>| #[trigger]
            loaded(Map::empty(), entries).contains_key(label) <==> exists|i: int|
                0 <= i < entries.len() && (#[trigger] entries[i]).holds(label),
        forall|i: int|
            0 <= i < entries.len() && (#[trigger] entries[i]) is Record && (forall|j: int|
                i < j < entries.len() ==> !(#[trigger] entries[j]).holds(entries[i]->0@.label()))
                ==> loaded(Map::empty(), entries)[entries[i]->0@.label()] == entries[i]->0@,
        entries.len() == 0 ==> loaded(Map::empty(), entries) == Map::<Seq<char>, ConfigView>::empty(),
{
    assert forall|label: Seq<char>| #[trigger]
        loaded(Map::empty(), entries).contains_key(label) <==> exists|i: int|
            0 <= i < entries.len() && (#[trigger] entries[i]).holds(label) by {
        lemma_loaded_keys(Map::empty(), entries, label);
    }
    assert forall|i: int|
        0 <= i < entries.len() && (#[trigger] entries[i]) is Record && (forall|j: int|
            i < j < entries.len() ==> !(#[trigger] entries[j]).holds(
                entries[i]->0@.label(),
            )) implies loaded(Map::empty(), entries)[entries[i]->0@.label()] == entries[i]->0@ by {
        lemma_loaded_value(Map::empty(), entries, i);
    }
}

/// A record that is written out and is the only entry that a fresh store
/// scans stands in that store as it stood before: its window and its folder
/// are the same.
pub proof fn lemma_record_survives_reload(config: Config)
    ensures
        loaded(Map::empty(), seq![ScanEntry::Record(config)]) == Map::<
            Seq<char>,
            ConfigView,
        >::empty().insert(config@.label(), config@),
        loaded(Map::empty(), seq![ScanEntry::Record(config)])[config@.label()] == config@,
{
    let entries = seq![ScanEntry::Record(config)];
    assert(entries.drop_last() =~= Seq::<ScanEntry>::empty());
    assert(entries.last() == ScanEntry::Record(config));
    reveal_with_fuel(loaded, 2);
}

/// Keeping a record whose label is not in the store adds that record and
/// touches no other: the store then holds it under its label, and one record
/// more than before.
pub proof fn lemma_new_label_adds_one(before: Map<Seq<char>, ConfigView>, config: ConfigView)
    requires
        !before.contains_key(config.label()),
    ensures
        before.insert(config.label(), config).contains_key(config.label()),
        before.insert(config.label(), config)[config.label()] == config,
        before.insert(config.label(), config).dom() == before.dom().insert(config.label()),
        forall|other: Seq<char>| #[trigger]
            before.contains_key(other) ==> before.insert(config.label(), config)[other]
                == before[other],
        before.dom().finite() ==> before.insert(config.label(), config).len() == before.len() + 1,
{
}

/// Whether no two records of `s` have the same label.
pub open spec fn distinct_labels(s: Seq<Config>) -> bool {
    forall|i: int, j: int| 0 <= i < j < s.len() ==> s[i]@.label() != s[j]@.label()
}

/// Whether some record of `s` has the label `label`.
pub open spec fn has_label(s: Seq<Config>, label: Seq<char>) -> bool {
    exists|i: int| 0 <= i < s.len() && (#[trigger] s[i])@.label() == label
}

/// The records of `s`, each under its label.
pub open spec fn records(s: Seq<Config>) -> Map<Seq<char>, ConfigView> {
    Map::new(
        |label: Seq<char>| has_label(s, label),
        |label: Seq<char>| s[choose|i: int| 0 <= i < s.len() && (#[trigger] s[i])@.label() == label]@,
    )
}

/// In a sequence without a repeated label, each record is found under its
/// own label.
pub proof fn lemma_records_at(s: Seq<Config>, i: int)
    requires
        distinct_labels(s),
        0 <= i < s.len(),
    ensures
        records(s).contains_key(s[i]@.label()),
        records(s)[s[i]@.label()] == s[i]@,
{
    let label = s[i]@.label();
    let j = choose|j: int| 0 <= j < s.len() && (#[trigger] s[j])@.label() == label;
    assert(j == i);
}

/// Putting a record with a new label at the end adds it to the records.
pub proof fn lemma_records_push(s: Seq<Config>, c: Config)
    requires
        distinct_labels(s),
        !has_label(s, c@.label()),
    ensures
        distinct_labels(s.push(c)),
        records(s.push(c)) == records(s).insert(c@.label(), c@),
{
    let t = s.push(c);
    assert forall|i: int, j: int| 0 <= i < j < t.len() implies t[i]@.label() != t[j]@.label() by {
        if j == s.len() {
            assert(s[i]@.label() != c@.label());
        }
    }
    assert forall|label: Seq<char>| has_label(t, label) <==> (label == c@.label() || has_label(
        s,
        label,
    )) by {
        if has_label(t, label) {
            let i = choose|i: int| 0 <= i < t.len() && (#[trigger] t[i])@.label() == label;
            if i < s.len() {
                assert(s[i]@.label() == label);
            }
        }
        if has_label(s, label) {
            let i = choose|i: int| 0 <= i < s.len() && (#[trigger] s[i])@.label() == label;
            assert(t[i]@.label() == label);
        }
        if label == c@.label() {
            assert(t[s.len() as int]@.label() == label);
        }
    }
    assert forall|label: Seq<char>| has_label(t, label) implies #[trigger] records(t)[label]
        == records(s).insert(c@.label(), c@)[label] by {
        let i = choose|i: int| 0 <= i < t.len() && (#[trigger] t[i])@.label() == label;
        lemma_records_at(t, i);
        if i < s.len() {
            lemma_records_at(s, i);
        }
    }
    assert(records(t) =~= records(s).insert(c@.label(), c@));
}

/// Replacing a record by one of the same label replaces it in the records.
pub proof fn lemma_records_update(s: Seq<Config>, at: int, c: Config)
    requires
        distinct_labels(s),
        0 <= at < s.len(),
        s[at]@.label() == c@.label(),
    ensures
        distinct_labels(s.update(at, c)),
        records(s.update(at, c)) == records(s).insert(c@.label(), c@),
{
    let t = s.update(at, c);
    assert forall|i: int, j: int| 0 <= i < j < t.len() implies t[i]@.label() != t[j]@.label() by {
        assert(s[i]@.label() != s[j]@.label());
    }
    assert forall|label: Seq<char>| has_label(t, label) <==> (label == c@.label() || has_label(
        s,
        label,
    )) by {
        if has_label(t, label) {
            let i = choose|i: int| 0 <= i < t.len() && (#[trigger] t[i])@.label() == label;
            assert(s[i]@.label() == label);
        }
        if has_label(s, label) {
            let i = choose|i: int| 0 <= i < s.len() && (#[trigger] s[i])@.label() == label;
            assert(t[i]@.label() == label);
        }
        if label == c@.label() {
            assert(t[at]@.label() == label);
        }
    }
    assert forall|label: Seq<char>| has_label(t, label) implies #[trigger] records(t)[label]
        == records(s).insert(c@.label(), c@)[label] by {
        let i = choose|i: int| 0 <= i < t.len() && (#[trigger] t[i])@.label() == label;
        lemma_records_at(t, i);
        lemma_records_at(s, i);
    }
    assert(records(t) =~= records(s).insert(c@.label(), c@));
}

/// The tab records that are loaded, one under each label.
pub struct ConfigManager {
    configs: Vec<Config>,
}

impl View for ConfigManager {
    type V = Map<Seq<char>, ConfigView>;

    closed spec fn view(&self) -> Map<Seq<char>, ConfigView> {
        records(self.configs@)
    }
}

impl ConfigManager {
    #[verifier::type_invariant]
    spec fn well_formed(self) -> bool {
        distinct_labels(self.configs@)
    }

    /// A store without records.
    pub fn init() -> (r: ConfigManager)
        ensures
            r@ == Map::<Seq<char>, ConfigView>::empty(),
    {
        let r = ConfigManager { configs: Vec::new() };
        assert(r@ =~= Map::<Seq<char>, ConfigView>::empty());
        r
    }

    /// Hands out the records and leaves the store empty.
    fn take(&mut self) -> (configs: Vec<Config>)
        ensures
            configs@ == old(self).configs@,
            final(self).configs@ == Seq::<Config>::empty(),
    {
        let mut configs: Vec<Config> = Vec::new();
        core::mem::swap(&mut self.configs, &mut configs);
        configs
    }

    /// Takes `configs` for the records of the store.
    fn put(&mut self, configs: Vec<Config>)
        requires
            distinct_labels(configs@),
        ensures
            final(self).configs@ == configs@,
    {
        let mut configs = configs;
        core::mem::swap(&mut self.configs, &mut configs);
    }

    /// Where the record of `label` stands, if there is one.
    fn position(&self, label: &str) -> (r: Option<usize>)
        ensures
            match r {
                Some(i) => i < self.configs@.len() && self.configs@[i as int]@.label() == label@,
                None => !has_label(self.configs@, label@),
            },
    {
        let wanted = label.to_string();
        let mut i: usize = 0;
        while i < self.configs.len()
            invariant
                wanted@ == label@,
                i <= self.configs@.len(),
                forall|j: int| 0 <= j < i ==> (#[trigger] self.configs@[j])@.label() != label@,
            decreases self.configs@.len() - i,
        {
            if self.configs[i].window_config.label == wanted {
                return Some(i);
            }
            i += 1;
        }
        None
    }

    /// Puts `config` under its label, in place of the record that was there
    /// if there was one.
    pub fn add_config(&mut self, config: Config)
        ensures
            final(self)@ == old(self)@.insert(config@.label(), config@),
    {
        proof {
            use_type_invariant(&*self);
        }
        match self.position(config.window_config.label.as_str()) {
            Some(i) => {
                proof {
                    lemma_records_update(self.configs@, i as int, config);
                }
                let mut configs = self.take();
                configs.set(i, config);
                self.put(configs);
            },
            None => {
                proof {
                    lemma_records_push(self.configs@, config);
                }
                let mut configs = self.take();
                configs.push(config);
                self.put(configs);
            },
        }
    }

    /// Makes the record of a new tab under the directory `path` and keeps it.
    /// The label is drawn at random and not compared with those in the store:
    /// should it be there already, the new record takes the place of the old.
    pub fn create_config(&mut self, path: &str) -> (config: Config)
        ensures
            is_label(config@.label()),
            config@.window_config == new_tab(config@.label()),
            config@.tab_path == joined_path(path@, config@.label()),
            final(self)@ == old(self)@.insert(config@.label(), config@),
    {
        let config = Config::new(path);
        self.add_config(config.clone());
        config
    }

    /// Loads what a walk through the directory of records found. Where an
    /// entry could not be read or holds no record, nothing is loaded and the
    /// first such entry decides the error. Else every record is put under
    /// its label, in the order of `entries`.
    pub fn scan_config_folder(&mut self, entries: &Vec<ScanEntry>) -> (r: Result<(), ConfigError>)
        ensures
            match r {
                Ok(()) => {
                    &&& forall|i: int| 0 <= i < entries@.len() ==> (#[trigger] entries@[i]).failure() is None
                    &&& final(self)@ == loaded(old(self)@, entries@)
                },
                Err(e) => {
                    &&& exists|i: int|
                        {
                            &&& 0 <= i < entries@.len()
                            &&& (#[trigger] entries@[i]).failure() == Some(e)
                            &&& forall|j: int| 0 <= j < i ==> (#[trigger] entries@[j]).failure() is None
                        }
                    &&& final(self)@ == old(self)@
                },
            },
    {
        let mut i: usize = 0;
        while i < entries.len()
            invariant
                i <= entries@.len(),
                forall|j: int| 0 <= j < i ==> (#[trigger] entries@[j]).failure() is None,
            decreases entries@.len() - i,
        {
            match &entries[i] {
                ScanEntry::Unreadable => {
                    return Err(ConfigError::Io);
                },
                ScanEntry::Malformed => {
                    return Err(ConfigError::Parse);
                },
                _ => {},
            }
            i += 1;
        }
        let mut k: usize = 0;
        assert(entries@.subrange(0, 0) =~= Seq::<ScanEntry>::empty());
        while k < entries.len()
            invariant
                k <= entries@.len(),
                self@ == loaded(old(self)@, entries@.subrange(0, k as int)),
            decreases entries@.len() - k,
        {
            assert(entries@.subrange(0, k + 1).drop_last() =~= entries@.subrange(0, k as int));
            match &entries[k] {
                ScanEntry::Record(config) => {
                    self.add_config(config.clone());
                },
                _ => {},
            }
            k += 1;
        }
        assert(entries@.subrange(0, k as int) =~= entries@);
        Ok(())
    }

    /// The record of `label`, if there is one.
    pub fn get(&self, label: &str) -> (r: Option<&Config>)
        ensures
            match r {
                Some(config) => self@.contains_key(label@) && config@ == self@[label@],
                None => !self@.contains_key(label@),
            },
    {
        proof {
            use_type_invariant(self);
        }
        match self.position(label) {
            Some(i) => {
                proof {
                    lemma_records_at(self.configs@, i as int);
                }
                Some(&self.configs[i])
            },
            None => None,
        }
    }

    /// Replaces the window of the record of `label` by `window_config`; the
    /// record keeps its label and its folder. Without such a record nothing
    /// changes.
    pub fn update(&mut self, label: &str, window_config: WindowConfig) -> (r: Result<(), ConfigError>)
        ensures
            match r {
                Ok(()) => {
                    &&& old(self)@.contains_key(label@)
                    &&& final(self)@ == old(self)@.insert(
                        label@,
                        old(self)@[label@].with_window(window_config@),
                    )
                },
                Err(e) => {
                    &&& e == ConfigError::NotFound
                    &&& !old(self)@.contains_key(label@)
                    &&& final(self)@ == old(self)@
                },
            },
    {
        proof {
            use_type_invariant(&*self);
        }
        match self.position(label) {
            Some(i) => {
                let mut config = self.configs[i].clone();
                config.set_window_config(window_config);
                proof {
                    lemma_records_at(self.configs@, i as int);
                    lemma_records_update(self.configs@, i as int, config);
                }
                let mut configs = self.take();
                configs.set(i, config);
                self.put(configs);
                Ok(())
            },
            None => Err(ConfigError::NotFound),
        }
    }

    /// All records, each once.
    pub fn get_configs(&self) -> (all: &Vec<Config>)
        ensures
            distinct_labels(all@),
            records(all@) == self@,
    {
        proof {
            use_type_invariant(self);
        }
        &self.configs
    }
}

} // verus!
