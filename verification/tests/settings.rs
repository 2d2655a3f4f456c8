use translate_supervisor::notify::{Notification, Outcome};
use translate_supervisor::settings::{
    effective_settings, history_line, readable_items, DoubleCopy, HistoryItem, PlamoCfg, Settings,
    DEFAULT_TIMEOUT_MS,
};

fn s(text: &str) -> String {
    text.to_string()
}

fn item(id: &str, created_at: u64) -> HistoryItem {
    HistoryItem {
        id: s(id),
        input: s("hello"),
        output: s("konnichiwa"),
        from: Some(s("en")),
        to: s("ja"),
        created_at,
    }
}

fn custom() -> Settings {
    Settings {
        engine: s("other"),
        plamo: PlamoCfg { precision: s("8bit"), server: true, bin_path: Some(s("/opt/plamo")) },
        style_preset: s("casual"),
        glossary_path: Some(s("/tmp/glossary.csv")),
        timeout_ms: 50,
        double_copy: DoubleCopy {
            enabled: false,
            paste_mode: s("inline"),
            auto_copy: true,
            shortcut: None,
        },
    }
}

#[test]
fn default_settings() {
    let d = Settings::default();
    assert_eq!(
        d,
        Settings {
            engine: s("plamo"),
            plamo: PlamoCfg { precision: s("4bit"), server: false, bin_path: None },
            style_preset: s("business"),
            glossary_path: None,
            timeout_ms: 60_000,
            double_copy: DoubleCopy {
                enabled: true,
                paste_mode: s("popup"),
                auto_copy: false,
                shortcut: Some(s("cmd-shift-c")),
            },
        }
    );
    assert_eq!(DEFAULT_TIMEOUT_MS, 60_000);
    assert_eq!(d.deadline_ms(), 60_000);
    assert_eq!(d.shortcut_name(), "cmd-shift-c");
}

#[test]
fn nothing_stored_gives_the_defaults() {
    assert_eq!(effective_settings(None), Settings::default());
}

#[test]
fn stored_settings_without_shortcut_get_the_default_shortcut() {
    let mut expected = custom();
    expected.double_copy.shortcut = Some(s("cmd-shift-c"));
    assert_eq!(effective_settings(Some(custom())), expected);
}

#[test]
fn stored_settings_with_shortcut_stay_as_they_are() {
    let mut stored = custom();
    stored.double_copy.shortcut = Some(s("Control+Alt+K"));
    assert_eq!(effective_settings(Some(stored.clone())), stored);
    assert_eq!(stored.shortcut_name(), "Control+Alt+K");
    assert_eq!(stored.deadline_ms(), 50);
}

#[test]
fn shortcut_name_falls_back() {
    assert_eq!(custom().shortcut_name(), "cmd-shift-c");
}

#[test]
fn history_line_ends_with_a_terminator() {
    assert_eq!(history_line("{\"id\":\"a\"}"), "{\"id\":\"a\"}\n");
    assert_eq!(history_line(""), "\n");
}

#[test]
fn unreadable_lines_are_passed_over() {
    let read = vec![None, Some(item("a", 1)), None, None, Some(item("b", 2)), Some(item("a", 3))];
    assert_eq!(readable_items(read), vec![item("a", 1), item("b", 2), item("a", 3)]);
    assert_eq!(readable_items(vec![None, None]), Vec::<HistoryItem>::new());
    assert_eq!(readable_items(Vec::new()), Vec::<HistoryItem>::new());
}

#[test]
fn event_names() {
    let chunk = Notification::Chunk { id: s("j/1"), line: s("x") };
    let fin = Notification::Final { id: s(""), text: s("x\n") };
    let done = Notification::Done { id: s("日本"), outcome: Outcome::TimedOut };
    assert_eq!(chunk.event_name(), "translate:j/1:chunk");
    assert_eq!(fin.event_name(), "translate::final");
    assert_eq!(done.event_name(), "translate:日本:done");
    assert_eq!(chunk.id(), "j/1");
    assert!(!chunk.is_terminal());
    assert!(!fin.is_terminal());
    assert!(done.is_terminal());
}
