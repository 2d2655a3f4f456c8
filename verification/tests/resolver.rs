use translate_supervisor::resolver::{
    advance, check_report, choose_binary, is_explicit_path, reported_path, start_search,
    BinaryCheck, Form, Probe, ResolvedBinary, Search,
};

fn s(text: &str) -> String {
    text.to_string()
}

/// Carries a search through against a table of what exists, as a caller would
/// against the file system.
fn search(table: &[(bool, bool)], suffix: bool) -> Option<Probe> {
    let mut state = start_search(table.len());
    loop {
        match state {
            Search::Ask(at) => {
                let exists = match at.form {
                    Form::Plain => table[at.dir].0,
                    Form::Suffixed => table[at.dir].1,
                };
                state = advance(at, exists, table.len(), suffix);
            }
            Search::Found(p) => return Some(p),
            Search::NotFound => return None,
        }
    }
}

#[test]
fn environment_override_wins_over_all() {
    let bin = choose_binary(Some(s("/env/plamo")), Some(s("/cfg/plamo")), s("plamo-translate"));
    assert_eq!(bin, "/env/plamo");
}

#[test]
fn configured_path_wins_over_bare_name() {
    let bin = choose_binary(None, Some(s("/cfg/plamo")), s("plamo-translate"));
    assert_eq!(bin, "/cfg/plamo");
}

#[test]
fn bare_name_is_the_last_resort() {
    assert_eq!(choose_binary(None, None, s("plamo-translate")), "plamo-translate");
    assert_eq!(choose_binary(Some(s("/env/p")), None, s("plamo-translate")), "/env/p");
}

#[test]
fn bare_name_in_the_only_directory_is_found_there() {
    assert_eq!(start_search(1), Search::Ask(Probe { dir: 0, form: Form::Plain }));
    assert_eq!(search(&[(true, false)], false), Some(Probe { dir: 0, form: Form::Plain }));
    assert_eq!(reported_path(s("/usr/bin/plamo-translate"), None), "/usr/bin/plamo-translate");
}

#[test]
fn first_match_wins() {
    let table = [(false, false), (true, false), (true, true)];
    assert_eq!(search(&table, false), Some(Probe { dir: 1, form: Form::Plain }));
    assert_eq!(search(&table, true), Some(Probe { dir: 1, form: Form::Plain }));
}

#[test]
fn suffixed_form_is_tried_before_the_next_directory() {
    let table = [(false, true), (true, false)];
    assert_eq!(search(&table, true), Some(Probe { dir: 0, form: Form::Suffixed }));
    // Where the platform has no suffix, the suffixed form is never asked for.
    assert_eq!(search(&table, false), Some(Probe { dir: 1, form: Form::Plain }));
}

#[test]
fn nothing_is_found_where_nothing_exists() {
    assert_eq!(search(&[], true), None);
    assert_eq!(search(&[(false, false), (false, false)], true), None);
    assert_eq!(search(&[(false, true)], false), None);
    assert_eq!(start_search(0), Search::NotFound);
}

#[test]
fn advance_steps_exactly() {
    let plain = Probe { dir: 2, form: Form::Plain };
    let suffixed = Probe { dir: 2, form: Form::Suffixed };
    assert_eq!(advance(plain, true, 5, true), Search::Found(plain));
    assert_eq!(advance(plain, false, 5, true), Search::Ask(suffixed));
    assert_eq!(advance(plain, false, 5, false), Search::Ask(Probe { dir: 3, form: Form::Plain }));
    assert_eq!(advance(suffixed, false, 5, true), Search::Ask(Probe { dir: 3, form: Form::Plain }));
    assert_eq!(advance(suffixed, true, 5, true), Search::Found(suffixed));
    assert_eq!(advance(plain, false, 3, false), Search::NotFound);
    assert_eq!(advance(suffixed, false, 3, true), Search::NotFound);
    let last = Probe { dir: usize::MAX, form: Form::Plain };
    assert_eq!(advance(last, false, usize::MAX, false), Search::NotFound);
}

#[test]
fn path_with_a_separator_is_explicit() {
    assert!(is_explicit_path("/usr/local/bin/plamo-translate", true));
    assert!(is_explicit_path("./plamo-translate", false));
    assert!(is_explicit_path("bin\\plamo.exe", false));
    assert!(is_explicit_path("trailing/", false));
    assert!(!is_explicit_path("plamo-translate", false));
    assert!(!is_explicit_path("", false));
    assert!(!is_explicit_path("plamo+translate", false));
    // What the platform takes for absolute is explicit, whatever it holds.
    assert!(is_explicit_path("plamo-translate", true));
}

#[test]
fn canonical_path_is_preferred() {
    assert_eq!(reported_path(s("bin/../bin/p"), Some(s("/opt/bin/p"))), "/opt/bin/p");
    assert_eq!(reported_path(s("bin/../bin/p"), None), "bin/../bin/p");
}

#[test]
fn check_report_of_a_program_that_ran() {
    let binary = ResolvedBinary { raw: s("plamo-translate"), resolved: Some(s("/usr/bin/plamo-translate")) };
    assert!(binary.is_resolved());
    assert_eq!(
        check_report(binary.clone(), Ok(true)),
        BinaryCheck {
            ok: true,
            bin: s("plamo-translate"),
            resolved: Some(s("/usr/bin/plamo-translate")),
            error: None,
        }
    );
    assert_eq!(
        check_report(binary, Ok(false)),
        BinaryCheck {
            ok: false,
            bin: s("plamo-translate"),
            resolved: Some(s("/usr/bin/plamo-translate")),
            error: None,
        }
    );
}

#[test]
fn check_report_of_a_program_that_is_missing() {
    let binary = ResolvedBinary { raw: s("plamo-translate"), resolved: None };
    assert!(!binary.is_resolved());
    assert_eq!(
        check_report(binary, Err(s("No such file or directory (os error 2)"))),
        BinaryCheck {
            ok: false,
            bin: s("plamo-translate"),
            resolved: None,
            error: Some(s("No such file or directory (os error 2)")),
        }
    );
}
