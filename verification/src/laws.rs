//! What holds of every run of a job.
//!
//! The laws speak of `run`: a job right after its launch, a sequence of
//! events in any order, and the effects that come of it. They are stated over
//! what the trace holds: whether the stream ends in it, and which of the three
//! parties is the first to take the job out of the registry.

use vstd::prelude::*;
use crate::model::{
    chunk_note, emits, end_notes, launched, run, step, with_line, Effect, Event, Job, Phase,
    Remover,
};
use crate::notify::{Body, Outcome};

verus! {

/// Keeps of each effect what `f` picks from it, in order.
pub open spec fn pick<H, T>(fx: Seq<Effect<H>>, f: spec_fn(Effect<H>) -> Option<T>) -> Seq<T>
    decreases fx.len(),
{
    if fx.len() == 0 {
        Seq::empty()
    } else {
        let head = match f(fx[0]) {
            Some(t) => seq![t],
            None => Seq::empty(),
        };
        head + pick(fx.drop_first(), f)
    }
}

/// Picks the handle of a kill.
pub open spec fn kill_of<H>() -> spec_fn(Effect<H>) -> Option<H> {
    |e: Effect<H>|
        match e {
            Effect::Kill(h) => Some(h),
            _ => None,
        }
}

/// Picks the handle of a release.
pub open spec fn release_of<H>() -> spec_fn(Effect<H>) -> Option<H> {
    |e: Effect<H>|
        match e {
            Effect::Release(h) => Some(h),
            _ => None,
        }
}

/// Picks the outcome of a terminal notification.
pub open spec fn done_of<H>() -> spec_fn(Effect<H>) -> Option<Outcome> {
    |e: Effect<H>|
        match e {
            Effect::Emit(n) => match n.body {
                Body::Done(o) => Some(o),
                _ => None,
            },
            _ => None,
        }
}

/// Picks the line of a chunk notification.
pub open spec fn chunk_of<H>() -> spec_fn(Effect<H>) -> Option<Seq<char>> {
    |e: Effect<H>|
        match e {
            Effect::Emit(n) => match n.body {
                Body::Chunk(line) => Some(line),
                _ => None,
            },
            _ => None,
        }
}

/// Picks the text of a final notification.
pub open spec fn final_of<H>() -> spec_fn(Effect<H>) -> Option<Seq<char>> {
    |e: Effect<H>|
        match e {
            Effect::Emit(n) => match n.body {
                Body::Final(text) => Some(text),
                _ => None,
            },
            _ => None,
        }
}

/// The handles of the processes that were killed, in order.
pub open spec fn kills<H>(fx: Seq<Effect<H>>) -> Seq<H> {
    pick(fx, kill_of())
}

/// The handles that were released, in order.
pub open spec fn releases<H>(fx: Seq<Effect<H>>) -> Seq<H> {
    pick(fx, release_of())
}

/// The outcomes of the terminal notifications that were emitted, in order.
pub open spec fn dones<H>(fx: Seq<Effect<H>>) -> Seq<Outcome> {
    pick(fx, done_of())
}

/// The lines of the chunk notifications that were emitted, in order.
pub open spec fn chunks<H>(fx: Seq<Effect<H>>) -> Seq<Seq<char>> {
    pick(fx, chunk_of())
}

/// The texts of the final notifications that were emitted, in order.
pub open spec fn finals<H>(fx: Seq<Effect<H>>) -> Seq<Seq<char>> {
    pick(fx, final_of())
}

/// How often an outcome occurs.
pub open spec fn count(outcomes: Seq<Outcome>, o: Outcome) -> nat
    decreases outcomes.len(),
{
    if outcomes.len() == 0 {
        0
    } else {
        (if outcomes[0] == o {
            1nat
        } else {
            0nat
        }) + count(outcomes.drop_first(), o)
    }
}

/// The lines, each followed by its terminator, one after the other.
pub open spec fn joined(lines: Seq<Seq<char>>) -> Seq<char>
    decreases lines.len(),
{
    if lines.len() == 0 {
        Seq::empty()
    } else {
        with_line(Seq::empty(), lines[0]) + joined(lines.drop_first())
    }
}

/// The party that an event makes take the job out of the registry, given the
/// phase the streamer is in.
pub open spec fn remover_of(phase: Phase, event: Event) -> Option<Remover> {
    match event {
        Event::DeadlineElapsed => Some(Remover::Watcher),
        Event::AbortRequested => Some(Remover::Canceller),
        Event::Cleanup => if phase == Phase::Finishing {
            Some(Remover::Streamer)
        } else {
            None
        },
        _ => None,
    }
}

/// The phase of the streamer after an event.
pub open spec fn phase_after(phase: Phase, event: Event) -> Phase {
    match event {
        Event::StreamEnded => if phase == Phase::Streaming {
            Phase::Finishing
        } else {
            phase
        },
        Event::Cleanup => if phase == Phase::Finishing {
            Phase::Closed
        } else {
            phase
        },
        _ => phase,
    }
}

/// The first party in the trace to take the job out of the registry.
pub open spec fn first_remover(phase: Phase, trace: Seq<Event>) -> Option<Remover>
    decreases trace.len(),
{
    if trace.len() == 0 {
        None
    } else {
        match remover_of(phase, trace[0]) {
            Some(r) => Some(r),
            None => first_remover(phase_after(phase, trace[0]), trace.drop_first()),
        }
    }
}

/// Whether the stream ends in the trace.
pub open spec fn stream_ends(trace: Seq<Event>) -> bool {
    exists|i: int| 0 <= i < trace.len() && trace[i] == Event::StreamEnded
}

/// The lines that are read before the stream ends.
pub open spec fn lines_read(trace: Seq<Event>) -> Seq<Seq<char>>
    decreases trace.len(),
{
    if trace.len() == 0 {
        Seq::empty()
    } else {
        match trace[0] {
            Event::StreamEnded => Seq::empty(),
            Event::Line(line) => seq![line] + lines_read(trace.drop_first()),
            _ => lines_read(trace.drop_first()),
        }
    }
}

/// What is picked from two sequences of effects, one after the other, is what
/// is picked from the first, then what is picked from the second.
pub proof fn lemma_pick_add<H, T>(
    a: Seq<Effect<H>>,
    b: Seq<Effect<H>>,
    f: spec_fn(Effect<H>) -> Option<T>,
)
    ensures
        pick(a + b, f) == pick(a, f) + pick(b, f),
    decreases a.len(),
{
    if a.len() == 0 {
        assert(a + b =~= b);
        assert(pick(a, f) + pick(b, f) =~= pick(b, f));
    } else {
        assert((a + b).drop_first() =~= a.drop_first() + b);
        lemma_pick_add(a.drop_first(), b, f);
        assert(pick(a + b, f) =~= pick(a, f) + pick(b, f));
    }
}

/// Counting distributes over concatenation.
pub proof fn lemma_count_add(a: Seq<Outcome>, b: Seq<Outcome>, o: Outcome)
    ensures
        count(a + b, o) == count(a, o) + count(b, o),
    decreases a.len(),
{
    if a.len() == 0 {
        assert(a + b =~= b);
    } else {
        assert((a + b).drop_first() =~= a.drop_first() + b);
        lemma_count_add(a.drop_first(), b, o);
    }
}

/// Every outcome is one of the two.
pub proof fn lemma_count_total(outcomes: Seq<Outcome>)
    ensures
        outcomes.len() == count(outcomes, Outcome::Completed) + count(outcomes, Outcome::TimedOut),
    decreases outcomes.len(),
{
    if outcomes.len() > 0 {
        lemma_count_total(outcomes.drop_first());
    }
}

/// The stream ends in a trace if it ends with the first event or in the rest.
pub proof fn lemma_stream_ends_unfold(trace: Seq<Event>)
    ensures
        stream_ends(trace) <==> trace.len() > 0 && (trace[0] == Event::StreamEnded || stream_ends(
            trace.drop_first(),
        )),
{
    let rest = trace.drop_first();
    if stream_ends(trace) {
        let i = choose|i: int| 0 <= i < trace.len() && trace[i] == Event::StreamEnded;
        if i > 0 {
            assert(rest[i - 1] == Event::StreamEnded);
        }
    }
    if trace.len() > 0 && stream_ends(rest) {
        let j = choose|j: int| 0 <= j < rest.len() && rest[j] == Event::StreamEnded;
        assert(trace[j + 1] == Event::StreamEnded);
    }
}

/// What one step contributes to each projection.
pub proof fn lemma_step_projections<H>(job: Job<H>, event: Event)
    ensures
        ({
            let fx = step(job, event).1;
            let who = remover_of(job.phase, event);
            &&& kills(fx) == (if job.handle is Some && (who == Some(Remover::Watcher) || who
                == Some(Remover::Canceller)) {
                seq![job.handle.unwrap()]
            } else {
                Seq::empty()
            })
            &&& releases(fx) == (if job.handle is Some && who == Some(Remover::Streamer) {
                seq![job.handle.unwrap()]
            } else {
                Seq::empty()
            })
            &&& dones(fx) == (if job.phase == Phase::Streaming && event == Event::StreamEnded {
                seq![Outcome::Completed]
            } else if job.handle is Some && event == Event::DeadlineElapsed {
                seq![Outcome::TimedOut]
            } else {
                Seq::empty()
            })
            &&& chunks(fx) == (match event {
                Event::Line(line) if job.phase == Phase::Streaming => seq![line],
                _ => Seq::empty(),
            })
            &&& finals(fx) == (if job.phase == Phase::Streaming && event == Event::StreamEnded {
                seq![job.buffer]
            } else {
                Seq::empty()
            })
        }),
{
    let fx = step(job, event).1;
    reveal_with_fuel(pick, 3);
    match event {
        Event::Line(line) => {
            assert(emits::<H>(seq![chunk_note(job.id, line)]) =~= seq![
                Effect::Emit(chunk_note(job.id, line)),
            ]);
        },
        Event::StreamEnded => {
            let notes = end_notes(job.id, job.buffer);
            assert(emits::<H>(notes) =~= seq![Effect::Emit(notes[0]), Effect::Emit(notes[1])]);
        },
        _ => {},
    }
    if fx.len() == 1 {
        assert(fx.drop_first() =~= Seq::empty());
    } else if fx.len() == 2 {
        assert(fx.drop_first().drop_first() =~= Seq::empty());
    }
    assert(kills(fx) =~= (if job.handle is Some && (remover_of(job.phase, event) == Some(
        Remover::Watcher,
    ) || remover_of(job.phase, event) == Some(Remover::Canceller)) {
        seq![job.handle.unwrap()]
    } else {
        Seq::empty()
    }));
    assert(releases(fx) =~= (if job.handle is Some && remover_of(job.phase, event) == Some(
        Remover::Streamer,
    ) {
        seq![job.handle.unwrap()]
    } else {
        Seq::empty()
    }));
    assert(dones(fx) =~= (if job.phase == Phase::Streaming && event == Event::StreamEnded {
        seq![Outcome::Completed]
    } else if job.handle is Some && event == Event::DeadlineElapsed {
        seq![Outcome::TimedOut]
    } else {
        Seq::empty()
    }));
    assert(chunks(fx) =~= (match event {
        Event::Line(line) if job.phase == Phase::Streaming => seq![line],
        _ => Seq::empty(),
    }));
    assert(finals(fx) =~= (if job.phase == Phase::Streaming && event == Event::StreamEnded {
        seq![job.buffer]
    } else {
        Seq::empty()
    }));
}

/// What a run from any state comes to, told from the state and the trace.
///
/// A handle is killed or released only by the first party to take the job,
/// and only if the job is registered at the start. A timeout is reported only
/// where the watcher is that party. The end is announced, and the collected
/// output sent, only where the stream ends while it is open; the lines that
/// are forwarded are those read before that, in order.
pub proof fn lemma_run_accounts<H>(job: Job<H>, trace: Seq<Event>)
    ensures
        ({
            let fx = run(job, trace).1;
            let who = first_remover(job.phase, trace);
            let open = job.phase == Phase::Streaming;
            &&& kills(fx) == (if job.handle is Some && (who == Some(Remover::Watcher) || who
                == Some(Remover::Canceller)) {
                seq![job.handle.unwrap()]
            } else {
                Seq::empty()
            })
            &&& releases(fx) == (if job.handle is Some && who == Some(Remover::Streamer) {
                seq![job.handle.unwrap()]
            } else {
                Seq::empty()
            })
            &&& count(dones(fx), Outcome::TimedOut) == (if job.handle is Some && who == Some(
                Remover::Watcher,
            ) {
                1nat
            } else {
                0nat
            })
            &&& count(dones(fx), Outcome::Completed) == (if open && stream_ends(trace) {
                1nat
            } else {
                0nat
            })
            &&& chunks(fx) == (if open {
                lines_read(trace)
            } else {
                Seq::empty()
            })
            &&& finals(fx) == (if open && stream_ends(trace) {
                seq![job.buffer + joined(lines_read(trace))]
            } else {
                Seq::empty()
            })
        }),
    decreases trace.len(),
{
    let fx = run(job, trace).1;
    if trace.len() == 0 {
        assert(fx =~= Seq::empty());
        assert(!stream_ends(trace));
    } else {
        let event = trace[0];
        let rest = trace.drop_first();
        let (next, first) = step(job, event);
        let more = run(next, rest).1;
        assert(fx == first + more);
        lemma_run_accounts(next, rest);
        lemma_step_projections(job, event);
        lemma_stream_ends_unfold(trace);
        lemma_pick_add(first, more, kill_of());
        lemma_pick_add(first, more, release_of());
        lemma_pick_add(first, more, done_of());
        lemma_pick_add(first, more, chunk_of());
        lemma_pick_add(first, more, final_of());
        lemma_count_add(dones(first), dones(more), Outcome::TimedOut);
        lemma_count_add(dones(first), dones(more), Outcome::Completed);
        reveal_with_fuel(count, 2);
        assert(next.phase == phase_after(job.phase, event));
        assert(kills(fx) =~= kills(first) + kills(more));
        assert(releases(fx) =~= releases(first) + releases(more));
        if job.phase == Phase::Streaming {
            match event {
                Event::Line(line) => {
                    let later = lines_read(rest);
                    assert(lines_read(trace) == seq![line] + later);
                    assert((seq![line] + later).drop_first() =~= later);
                    assert(joined(seq![line] + later) == with_line(Seq::empty(), line) + joined(
                        later,
                    ));
                    assert(next.buffer + joined(later) =~= job.buffer + joined(
                        lines_read(trace),
                    ));
                },
                Event::StreamEnded => {
                    assert(job.buffer + joined(lines_read(trace)) =~= job.buffer);
                },
                _ => {},
            }
        }
        assert(chunks(fx) =~= (if job.phase == Phase::Streaming {
            lines_read(trace)
        } else {
            Seq::empty()
        }));
        assert(finals(fx) =~= (if job.phase == Phase::Streaming && stream_ends(trace) {
            seq![job.buffer + joined(lines_read(trace))]
        } else {
            Seq::empty()
        }));
    }
}

/// The streamer can only be the first to take the job if the stream has
/// ended.
pub proof fn lemma_streamer_removes_after_end(phase: Phase, trace: Seq<Event>)
    requires
        phase == Phase::Streaming,
        first_remover(phase, trace) == Some(Remover::Streamer),
    ensures
        stream_ends(trace),
    decreases trace.len(),
{
    lemma_stream_ends_unfold(trace);
    if trace[0] != Event::StreamEnded {
        lemma_streamer_removes_after_end(phase, trace.drop_first());
    }
}

/// The handle of a job goes to one party at most: over a whole run, whatever
/// the order of the events, at most one kill or release is done, on the handle
/// that the job was launched with, and one is done exactly if some party takes
/// the job out of the registry.
pub proof fn lemma_exclusive_removal<H>(id: Seq<char>, handle: H, trace: Seq<Event>)
    ensures
        ({
            let fx = run(launched(id, handle), trace).1;
            let taken = first_remover(Phase::Streaming, trace) is Some;
            &&& kills(fx).len() + releases(fx).len() == (if taken {
                1nat
            } else {
                0nat
            })
            &&& forall|i: int| 0 <= i < kills(fx).len() ==> kills(fx)[i] == handle
            &&& forall|i: int| 0 <= i < releases(fx).len() ==> releases(fx)[i] == handle
        }),
{
    let fx = run(launched(id, handle), trace).1;
    lemma_run_accounts(launched(id, handle), trace);
    match first_remover(Phase::Streaming, trace) {
        Some(Remover::Streamer) => {
            assert(kills(fx).len() == 0 && releases(fx).len() == 1);
        },
        Some(Remover::Watcher) => {
            assert(kills(fx).len() == 1 && releases(fx).len() == 0);
        },
        Some(Remover::Canceller) => {
            assert(kills(fx).len() == 1 && releases(fx).len() == 0);
        },
        None => {
            assert(kills(fx).len() == 0 && releases(fx).len() == 0);
        },
    }
}

/// The number of terminal notifications of a run: one if the stream ends, and
/// one more if the watcher is the first to take the job.
pub proof fn lemma_done_count<H>(id: Seq<char>, handle: H, trace: Seq<Event>)
    ensures
        dones(run(launched(id, handle), trace).1).len() == (if stream_ends(trace) {
            1nat
        } else {
            0nat
        }) + (if first_remover(Phase::Streaming, trace) == Some(Remover::Watcher) {
            1nat
        } else {
            0nat
        }),
{
    let fx = run(launched(id, handle), trace).1;
    lemma_run_accounts(launched(id, handle), trace);
    lemma_count_total(dones(fx));
}

/// At most one terminal notification is emitted for a job, unless the watcher
/// takes the job and the stream ends as well: the streamer announces the end
/// of every stream, also that of a process that was killed.
pub proof fn lemma_at_most_one_done<H>(id: Seq<char>, handle: H, trace: Seq<Event>)
    requires
        !(stream_ends(trace) && first_remover(Phase::Streaming, trace) == Some(Remover::Watcher)),
    ensures
        dones(run(launched(id, handle), trace).1).len() <= 1,
{
    lemma_done_count(id, handle, trace);
}

/// The watcher emits at most one terminal notification, whatever the trace.
pub proof fn lemma_at_most_one_timeout<H>(id: Seq<char>, handle: H, trace: Seq<Event>)
    ensures
        count(dones(run(launched(id, handle), trace).1), Outcome::TimedOut) <= 1,
        count(dones(run(launched(id, handle), trace).1), Outcome::Completed) <= 1,
{
    lemma_run_accounts(launched(id, handle), trace);
}

/// A job that the streamer is the first to take ended by itself: exactly one
/// terminal notification is emitted, it reports success, no process is
/// killed, and the handle is released.
pub proof fn lemma_natural_exit<H>(id: Seq<char>, handle: H, trace: Seq<Event>)
    requires
        first_remover(Phase::Streaming, trace) == Some(Remover::Streamer),
    ensures
        dones(run(launched(id, handle), trace).1) == seq![Outcome::Completed],
        kills(run(launched(id, handle), trace).1) == Seq::<H>::empty(),
        releases(run(launched(id, handle), trace).1) == seq![handle],
{
    let fx = run(launched(id, handle), trace).1;
    lemma_run_accounts(launched(id, handle), trace);
    lemma_streamer_removes_after_end(Phase::Streaming, trace);
    lemma_count_total(dones(fx));
    reveal_with_fuel(count, 2);
    assert(dones(fx) =~= seq![Outcome::Completed]);
}

/// A job that the watcher is the first to take ran into its deadline: its
/// process is killed, once, nothing is released, and exactly one terminal
/// notification reports the timeout.
pub proof fn lemma_timeout<H>(id: Seq<char>, handle: H, trace: Seq<Event>)
    requires
        first_remover(Phase::Streaming, trace) == Some(Remover::Watcher),
    ensures
        kills(run(launched(id, handle), trace).1) == seq![handle],
        releases(run(launched(id, handle), trace).1) == Seq::<H>::empty(),
        count(dones(run(launched(id, handle), trace).1), Outcome::TimedOut) == 1,
{
    lemma_run_accounts(launched(id, handle), trace);
}

/// A job that is aborted first is killed, once, and its abort emits no
/// terminal notification: the only one that can follow is that of the
/// streamer, when the stream of the killed process ends.
pub proof fn lemma_abort<H>(id: Seq<char>, handle: H, trace: Seq<Event>)
    requires
        first_remover(Phase::Streaming, trace) == Some(Remover::Canceller),
    ensures
        kills(run(launched(id, handle), trace).1) == seq![handle],
        releases(run(launched(id, handle), trace).1) == Seq::<H>::empty(),
        count(dones(run(launched(id, handle), trace).1), Outcome::TimedOut) == 0,
{
    lemma_run_accounts(launched(id, handle), trace);
}

/// An abort of a job that is not registered does nothing, so a second abort
/// changes nothing after the first.
pub proof fn lemma_abort_idempotent<H>(job: Job<H>)
    ensures
        job.handle is None ==> step(job, Event::AbortRequested) == (job, Seq::<Effect<H>>::empty()),
        step(step(job, Event::AbortRequested).0, Event::AbortRequested) == (
            step(job, Event::AbortRequested).0,
            Seq::<Effect<H>>::empty(),
        ),
{
}

/// The chunk notifications carry the lines that were read before the end of
/// the stream, in the order in which they were read. If a final notification
/// is emitted, there is one, and its text is the lines of all chunk
/// notifications, each followed by its terminator.
pub proof fn lemma_chunks_make_final<H>(id: Seq<char>, handle: H, trace: Seq<Event>)
    ensures
        ({
            let fx = run(launched(id, handle), trace).1;
            &&& chunks(fx) == lines_read(trace)
            &&& finals(fx) == (if stream_ends(trace) {
                seq![joined(chunks(fx))]
            } else {
                Seq::empty()
            })
        }),
{
    let fx = run(launched(id, handle), trace).1;
    lemma_run_accounts(launched(id, handle), trace);
    assert(Seq::<char>::empty() + joined(lines_read(trace)) =~= joined(lines_read(trace)));
}

} // verus!
