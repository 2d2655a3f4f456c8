use translate_supervisor::launcher::{build_args, launch, LaunchError, Spawned, TranslateOptions};
use translate_supervisor::notify::{Notification, Outcome};
use translate_supervisor::registry::Registry;
use translate_supervisor::supervisor::{abort, on_deadline, Action, Streamer};

fn id(s: &str) -> String {
    s.to_string()
}

fn done_count<H>(actions: &[Action<H>]) -> usize {
    actions
        .iter()
        .filter(|a| match a {
            Action::Emit(n) => n.is_terminal(),
            _ => false,
        })
        .count()
}

fn start(registry: &mut Registry<u32>, job: &str, handle: u32) -> Streamer {
    match launch(registry, id(job), Spawned::Started(handle)) {
        Ok(l) => {
            assert_eq!(l.displaced, None);
            l.streamer
        }
        Err(e) => panic!("launch refused: {:?}", e),
    }
}

#[test]
fn program_missing_reports_launch_failure_and_emits_nothing() {
    let opts = TranslateOptions {
        id: id("t1"),
        input: id("hello world"),
        from: None,
        to: id("ja"),
        precision: None,
        style: None,
        glossary: None,
    };
    assert_eq!(build_args(&opts), vec![id("--to"), id("ja"), id("--input"), id("hello world")]);

    let mut registry: Registry<u32> = Registry::new();
    let r = launch(
        &mut registry,
        opts.id.clone(),
        Spawned::Failed(id("No such file or directory (os error 2)")),
    );
    match r {
        Err(e) => {
            assert_eq!(e, LaunchError::Spawn(id("No such file or directory (os error 2)")));
            assert_eq!(
                e.message(),
                "failed to start plamo-translate: No such file or directory (os error 2)"
            );
        }
        Ok(_) => panic!("a job was launched without a process"),
    }
    assert_eq!(registry.len(), 0);
    assert!(!registry.contains(&id("t1")));
    // Nothing was started, so the watcher and an abort find nothing to act on.
    assert!(on_deadline(&mut registry, &id("t1")).is_empty());
    assert!(abort(&mut registry, &id("t1")).is_empty());
}

#[test]
fn two_lines_then_exit() {
    let mut registry: Registry<u32> = Registry::new();
    let mut streamer = start(&mut registry, "t2", 7);
    assert!(registry.contains(&id("t2")));

    let first = streamer.on_line(id("konnichiwa"));
    let second = streamer.on_line(id("sekai"));
    assert_eq!(first, Notification::Chunk { id: id("t2"), line: id("konnichiwa") });
    assert_eq!(second, Notification::Chunk { id: id("t2"), line: id("sekai") });
    assert_eq!(first.event_name(), "translate:t2:chunk");

    let (notes, cleanup) = streamer.finish();
    assert_eq!(
        notes,
        vec![
            Notification::Final { id: id("t2"), text: id("konnichiwa\nsekai\n") },
            Notification::Done { id: id("t2"), outcome: Outcome::Completed },
        ]
    );
    assert_eq!(notes[0].event_name(), "translate:t2:final");
    assert_eq!(notes[1].event_name(), "translate:t2:done");
    assert!(Outcome::Completed.ok());
    assert_eq!(Outcome::Completed.reason(), None);

    let actions = cleanup.release(&mut registry);
    assert_eq!(actions, vec![Action::Release(7)]);
    assert!(!registry.contains(&id("t2")));
}

#[test]
fn deadline_kills_a_job_that_is_still_running() {
    let mut registry: Registry<u32> = Registry::new();
    let mut streamer = start(&mut registry, "t3", 11);
    let chunk = streamer.on_line(id("partial"));
    assert_eq!(chunk, Notification::Chunk { id: id("t3"), line: id("partial") });

    let actions = on_deadline(&mut registry, &id("t3"));
    assert_eq!(
        actions,
        vec![
            Action::Kill(11),
            Action::Emit(Notification::Done { id: id("t3"), outcome: Outcome::TimedOut }),
        ]
    );
    assert_eq!(done_count(&actions), 1);
    assert!(!Outcome::TimedOut.ok());
    assert_eq!(Outcome::TimedOut.reason(), Some(id("timeout")));
    assert!(!registry.contains(&id("t3")));

    // The timer fires once; were it to fire again, it would find nothing.
    assert!(on_deadline(&mut registry, &id("t3")).is_empty());
}

#[test]
fn natural_exit_is_not_killed_and_reports_success_once() {
    let mut registry: Registry<u32> = Registry::new();
    let streamer = start(&mut registry, "job", 3);
    let (notes, cleanup) = streamer.finish();
    let released = cleanup.release(&mut registry);
    let late = on_deadline(&mut registry, &id("job"));
    let aborted = abort(&mut registry, &id("job"));

    assert_eq!(
        notes,
        vec![
            Notification::Final { id: id("job"), text: String::new() },
            Notification::Done { id: id("job"), outcome: Outcome::Completed },
        ]
    );
    assert_eq!(released, vec![Action::Release(3)]);
    assert!(late.is_empty());
    assert!(aborted.is_empty());
    let dones = notes.iter().filter(|n| n.is_terminal()).count() + done_count(&late);
    assert_eq!(dones, 1);
}

#[test]
fn handle_goes_to_one_party_only() {
    // Whoever comes first takes the handle; the two others get nothing.
    let mut registry: Registry<u32> = Registry::new();
    let streamer = start(&mut registry, "a", 1);
    let (_, cleanup) = streamer.finish();
    assert_eq!(abort(&mut registry, &id("a")), vec![Action::Kill(1)]);
    assert!(on_deadline(&mut registry, &id("a")).is_empty());
    assert!(cleanup.release(&mut registry).is_empty());

    let streamer = start(&mut registry, "b", 2);
    let (_, cleanup) = streamer.finish();
    assert_eq!(on_deadline(&mut registry, &id("b")).len(), 2);
    assert!(abort(&mut registry, &id("b")).is_empty());
    assert!(cleanup.release(&mut registry).is_empty());
}

#[test]
fn stream_of_a_killed_process_still_announces_its_end() {
    // The watcher wins, the process is killed, its output closes, and the
    // streamer announces the end as it does for every stream.
    let mut registry: Registry<u32> = Registry::new();
    let mut streamer = start(&mut registry, "slow", 9);
    let _ = streamer.on_line(id("one"));
    let timed_out = on_deadline(&mut registry, &id("slow"));
    let (notes, cleanup) = streamer.finish();
    let released = cleanup.release(&mut registry);

    assert_eq!(done_count(&timed_out), 1);
    assert_eq!(notes.iter().filter(|n| n.is_terminal()).count(), 1);
    assert_eq!(notes[0], Notification::Final { id: id("slow"), text: id("one\n") });
    assert!(released.is_empty());
}

#[test]
fn abort_of_unknown_job_is_no_error() {
    let mut registry: Registry<u32> = Registry::new();
    let _ = start(&mut registry, "kept", 5);
    assert!(abort(&mut registry, &id("missing")).is_empty());
    assert_eq!(registry.len(), 1);
    assert!(registry.contains(&id("kept")));
}

#[test]
fn abort_twice_is_abort_once() {
    let mut registry: Registry<u32> = Registry::new();
    let _ = start(&mut registry, "x", 21);
    assert_eq!(abort(&mut registry, &id("x")), vec![Action::Kill(21)]);
    assert!(abort(&mut registry, &id("x")).is_empty());
    assert_eq!(registry.len(), 0);
}

#[test]
fn abort_emits_nothing() {
    let mut registry: Registry<u32> = Registry::new();
    let _ = start(&mut registry, "quiet", 4);
    let actions = abort(&mut registry, &id("quiet"));
    assert_eq!(done_count(&actions), 0);
    assert!(actions.iter().all(|a| !matches!(a, Action::Emit(_))));
}

#[test]
fn chunks_with_terminators_make_the_final_text() {
    let lines = ["alpha", "", "  beta gamma  ", "\u{1b}[31mred\u{1b}[0m", "日本語"];
    let mut registry: Registry<u32> = Registry::new();
    let mut streamer = start(&mut registry, "ordered", 1);
    let mut chunks: Vec<String> = Vec::new();
    for line in lines {
        match streamer.on_line(line.to_string()) {
            Notification::Chunk { id: job, line } => {
                assert_eq!(job, "ordered");
                chunks.push(line);
            }
            other => panic!("not a chunk: {:?}", other),
        }
    }
    assert_eq!(chunks, lines);

    let (notes, _) = streamer.finish();
    let mut rebuilt = String::new();
    for c in &chunks {
        rebuilt.push_str(c);
        rebuilt.push('\n');
    }
    assert_eq!(notes[0], Notification::Final { id: id("ordered"), text: rebuilt });
    assert_eq!(
        notes[0],
        Notification::Final {
            id: id("ordered"),
            text: id("alpha\n\n  beta gamma  \n\u{1b}[31mred\u{1b}[0m\n日本語\n"),
        }
    );
}

#[test]
fn jobs_do_not_disturb_each_other() {
    let mut registry: Registry<u32> = Registry::new();
    let mut one = start(&mut registry, "one", 1);
    let mut two = start(&mut registry, "two", 2);
    let _ = one.on_line(id("a"));
    let _ = two.on_line(id("b"));
    assert_eq!(on_deadline(&mut registry, &id("one"))[0], Action::Kill(1));
    assert!(registry.contains(&id("two")));
    let (notes, cleanup) = two.finish();
    assert_eq!(notes[0], Notification::Final { id: id("two"), text: id("b\n") });
    assert_eq!(cleanup.release(&mut registry), vec![Action::Release(2)]);
    assert_eq!(registry.len(), 0);
}

#[test]
fn launch_without_output_is_refused() {
    let mut registry: Registry<u32> = Registry::new();
    match launch(&mut registry, id("n"), Spawned::NoOutput(8)) {
        Err(e) => {
            assert_eq!(e, LaunchError::NoStdout);
            assert_eq!(e.message(), "failed to take stdout");
        }
        Ok(_) => panic!("launched without output"),
    }
    assert_eq!(registry.len(), 0);
}

#[test]
fn launch_under_a_used_identifier_hands_back_the_old_handle() {
    let mut registry: Registry<u32> = Registry::new();
    let _ = start(&mut registry, "dup", 1);
    match launch(&mut registry, id("dup"), Spawned::Started(2)) {
        Ok(l) => {
            assert_eq!(l.displaced, Some(1));
            assert_eq!(l.streamer.id(), "dup");
        }
        Err(e) => panic!("launch refused: {:?}", e),
    }
    assert_eq!(registry.len(), 1);
    assert_eq!(abort(&mut registry, &id("dup")), vec![Action::Kill(2)]);
}

#[test]
fn build_args_with_every_option() {
    let opts = TranslateOptions {
        id: id("full"),
        input: id("text"),
        from: Some(id("en")),
        to: id("ja"),
        precision: Some(id("8bit")),
        style: Some(id("casual")),
        glossary: Some(id("/tmp/g.csv")),
    };
    assert_eq!(
        build_args(&opts),
        vec![
            id("--from"),
            id("en"),
            id("--to"),
            id("ja"),
            id("--precision"),
            id("8bit"),
            id("--input"),
            id("text"),
        ]
    );
}

#[test]
fn build_args_keeps_input_last() {
    let opts = TranslateOptions {
        id: id("p"),
        input: id("--to"),
        from: None,
        to: id("en"),
        precision: Some(id("4bit")),
        style: None,
        glossary: None,
    };
    let args = build_args(&opts);
    assert_eq!(args.len(), 6);
    assert_eq!(args[4], "--input");
    assert_eq!(args[5], "--to");
}
