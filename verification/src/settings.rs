//! The settings of the application and the records of its history, as plain
//! values. Reading and writing them is the caller's business.

use vstd::prelude::*;

verus! {

/// The deadline of a job where nothing else is configured, in milliseconds.
pub const DEFAULT_TIMEOUT_MS: u64 = 60_000;

/// How the external program is run.
#[derive(Debug, Clone, PartialEq, Eq)]
pub struct PlamoCfg {
    pub precision: String,
    pub server: bool,
    pub bin_path: Option<String>,
}

/// How the quick shortcut behaves.
#[derive(Debug, Clone, PartialEq, Eq)]
pub struct DoubleCopy {
    pub enabled: bool,
    pub paste_mode: String,
    pub auto_copy: bool,
    pub shortcut: Option<String>,
}

/// The settings of the application.
#[derive(Debug, Clone, PartialEq, Eq)]
pub struct Settings {
    pub engine: String,
    pub plamo: PlamoCfg,
    pub style_preset: String,
    pub glossary_path: Option<String>,
    pub timeout_ms: u64,
    pub double_copy: DoubleCopy,
}

/// One completed translation, as it is kept in the history.
#[derive(Debug, Clone, PartialEq, Eq)]
pub struct HistoryItem {
    pub id: String,
    pub input: String,
    pub output: String,
    pub from: Option<String>,
    pub to: String,
    pub created_at: u64,
}

/// Whether an optional string holds exactly the given text.
pub open spec fn holds(value: Option<String>, text: Seq<char>) -> bool {
    value matches Some(s) && s@ == text
}

/// The settings of an installation that has none stored.
pub open spec fn is_default(s: Settings) -> bool {
    &&& s.engine@ == "plamo"@
    &&& s.plamo.precision@ == "4bit"@
    &&& !s.plamo.server
    &&& s.plamo.bin_path is None
    &&& s.style_preset@ == "business"@
    &&& s.glossary_path is None
    &&& s.timeout_ms == DEFAULT_TIMEOUT_MS
    &&& s.double_copy.enabled
    &&& s.double_copy.paste_mode@ == "popup"@
    &&& !s.double_copy.auto_copy
    &&& holds(s.double_copy.shortcut, "cmd-shift-c"@)
}

impl Default for Settings {
    fn default() -> (s: Self)
        ensures
            is_default(s),
    {
        Settings {
            engine: String::from_str("plamo"),
            plamo: PlamoCfg { precision: String::from_str("4bit"), server: false, bin_path: None },
            style_preset: String::from_str("business"),
            glossary_path: None,
            timeout_ms: DEFAULT_TIMEOUT_MS,
            double_copy: DoubleCopy {
                enabled: true,
                paste_mode: String::from_str("popup"),
                auto_copy: false,
                shortcut: Some(String::from_str("cmd-shift-c")),
            },
        }
    }
}

impl Settings {
    /// The deadline of a job under these settings, in milliseconds.
    pub fn deadline_ms(&self) -> (ms: u64)
        ensures
            ms == self.timeout_ms,
    {
        self.timeout_ms
    }

    /// The name of the quick shortcut under these settings: the one that is
    /// set, and `cmd-shift-c` where none is.
    pub fn shortcut_name(&self) -> (name: String)
        ensures
            name@ == (match self.double_copy.shortcut {
                Some(s) => s@,
                None => "cmd-shift-c"@,
            }),
    {
        match &self.double_copy.shortcut {
            Some(s) => s.clone(),
            None => String::from_str("cmd-shift-c"),
        }
    }
}

/// The settings to work with, given what was stored, if anything could be
/// read: the stored settings, with the shortcut set to `cmd-shift-c` where
/// they name none, and the default settings where nothing was stored.
pub fn effective_settings(stored: Option<Settings>) -> (s: Settings)
    ensures
        match stored {
            Some(cfg) => {
                &&& s.engine == cfg.engine
                &&& s.plamo == cfg.plamo
                &&& s.style_preset == cfg.style_preset
                &&& s.glossary_path == cfg.glossary_path
                &&& s.timeout_ms == cfg.timeout_ms
                &&& s.double_copy.enabled == cfg.double_copy.enabled
                &&& s.double_copy.paste_mode == cfg.double_copy.paste_mode
                &&& s.double_copy.auto_copy == cfg.double_copy.auto_copy
                &&& match cfg.double_copy.shortcut {
                    Some(name) => s.double_copy.shortcut == Some(name),
                    None => holds(s.double_copy.shortcut, "cmd-shift-c"@),
                }
            },
            None => is_default(s),
        },
{
    match stored {
        Some(cfg) => {
            let mut cfg = cfg;
            if cfg.double_copy.shortcut.is_none() {
                cfg.double_copy.shortcut = Some(String::from_str("cmd-shift-c"));
            }
            cfg
        },
        None => Settings::default(),
    }
}

/// The line that a record takes in the history: the record, then a line
/// terminator.
pub fn history_line(record: &str) -> (line: String)
    ensures
        line@ == record@ + seq!['\n'],
{
    proof {
        reveal_strlit("\n");
        assert("\n"@ =~= seq!['\n']);
    }
    let mut line = String::from_str(record);
    line.append("\n");
    line
}

/// What is kept of the lines of a history: each line that could be read as a
/// record, in order.
pub open spec fn kept(read: Seq<Option<HistoryItem>>) -> Seq<HistoryItem>
    decreases read.len(),
{
    if read.len() == 0 {
        Seq::empty()
    } else {
        match read.last() {
            Some(item) => kept(read.drop_last()).push(item),
            None => kept(read.drop_last()),
        }
    }
}

/// The records of a history, given what reading each of its lines gave: the
/// lines that could be read as a record, in order. A line that could not is
/// passed over.
pub fn readable_items(read: Vec<Option<HistoryItem>>) -> (items: Vec<HistoryItem>)
    ensures
        items@ == kept(read@),
{
    let mut items: Vec<HistoryItem> = Vec::new();
    let ghost all = read@;
    proof {
        assert(all.subrange(0, 0) =~= Seq::empty());
    }
    for r in it: read.into_iter()
        invariant
            it.seq() == all,
            items@ == kept(all.subrange(0, it.index() as int)),
    {
        proof {
            let k = it.index() as int;
            assert(all.subrange(0, k + 1).drop_last() =~= all.subrange(0, k));
        }
        match r {
            Some(item) => {
                items.push(item);
            },
            None => {},
        }
    }
    proof {
        assert(all.subrange(0, all.len() as int) =~= all);
    }
    items
}

} // verus!
