//! One job as a state machine.
//!
//! A job starts registered, with its stream open and nothing collected. Three
//! parties act on it: the streamer, which forwards lines and, when the stream
//! has closed, announces the end and then gives the job up; the watcher, which
//! acts once when the deadline has elapsed; and whoever asks for an abort. The
//! handle can be taken out of the registry once, so exactly one of the three
//! ends up owning the process.

use vstd::prelude::*;
use crate::notify::{Body, Note, Outcome};

verus! {

/// How far the streamer of a job has come.
#[derive(Debug, Clone, Copy, PartialEq, Eq, Structural)]
pub enum Phase {
    /// The stream is open; lines are forwarded as they arrive.
    Streaming,
    /// The stream has closed and the end was announced; the job has not yet
    /// been given up.
    Finishing,
    /// The streamer is done with the job.
    Closed,
}

/// A job: its identifier, its handle while it is registered, the phase of its
/// streamer and the output collected so far.
pub struct Job<H> {
    pub id: Seq<char>,
    pub handle: Option<H>,
    pub phase: Phase,
    pub buffer: Seq<char>,
}

/// What can happen to a job.
pub enum Event {
    /// The streamer read one line, given without its terminator.
    Line(Seq<char>),
    /// The streamer read a line that could not be decoded.
    Undecodable,
    /// The stream is exhausted.
    StreamEnded,
    /// The streamer, having announced the end, gives the job up.
    Cleanup,
    /// The deadline of the job has elapsed.
    DeadlineElapsed,
    /// Somebody asked for the job to be aborted.
    AbortRequested,
}

/// What the supervisor does in answer to an event.
pub enum Effect<H> {
    /// Publish a notification.
    Emit(Note),
    /// Terminate the process by force.
    Kill(H),
    /// Let go of the handle; the process is left alone.
    Release(H),
}

/// The three parties that may take a job out of the registry.
#[derive(Debug, Clone, Copy, PartialEq, Eq, Structural)]
pub enum Remover {
    Streamer,
    Watcher,
    Canceller,
}

/// The collected output after one more line: the line, then its terminator.
pub open spec fn with_line(buffer: Seq<char>, line: Seq<char>) -> Seq<char> {
    buffer + line + seq!['\n']
}

/// A line is forwarded as it is.
pub open spec fn chunk_note(id: Seq<char>, line: Seq<char>) -> Note {
    Note { id, body: Body::Chunk(line) }
}

/// At the end of the stream the collected output is sent, then the terminal
/// notification, which reports success.
pub open spec fn end_notes(id: Seq<char>, buffer: Seq<char>) -> Seq<Note> {
    seq![
        Note { id, body: Body::Final(buffer) },
        Note { id, body: Body::Done(Outcome::Completed) },
    ]
}

/// The terminal notification of a job that ran into its deadline.
pub open spec fn timeout_note(id: Seq<char>) -> Note {
    Note { id, body: Body::Done(Outcome::TimedOut) }
}

/// The effects of publishing each note, in order.
pub open spec fn emits<H>(notes: Seq<Note>) -> Seq<Effect<H>> {
    notes.map_values(|n: Note| Effect::Emit(n))
}

/// The streamer lets go of the handle if the job is still registered.
pub open spec fn cleanup_effects<H>(handle: Option<H>) -> Seq<Effect<H>> {
    match handle {
        Some(h) => seq![Effect::Release(h)],
        None => Seq::empty(),
    }
}

/// The watcher kills a job that is still registered and reports the timeout;
/// it does nothing to one that is gone.
pub open spec fn deadline_effects<H>(id: Seq<char>, handle: Option<H>) -> Seq<Effect<H>> {
    match handle {
        Some(h) => seq![Effect::Kill(h), Effect::Emit(timeout_note(id))],
        None => Seq::empty(),
    }
}

/// An abort kills a job that is still registered and reports nothing; it does
/// nothing to one that is gone.
pub open spec fn abort_effects<H>(handle: Option<H>) -> Seq<Effect<H>> {
    match handle {
        Some(h) => seq![Effect::Kill(h)],
        None => Seq::empty(),
    }
}

/// A job right after its launch.
pub open spec fn launched<H>(id: Seq<char>, handle: H) -> Job<H> {
    Job { id, handle: Some(handle), phase: Phase::Streaming, buffer: Seq::empty() }
}

/// One event: the job after it, and what is done in answer.
///
/// An event that cannot occur in the phase the streamer is in (a line after
/// the end of the stream, a second end) changes nothing.
pub open spec fn step<H>(job: Job<H>, event: Event) -> (Job<H>, Seq<Effect<H>>) {
    match event {
        Event::Line(line) => if job.phase == Phase::Streaming {
            (
                Job { buffer: with_line(job.buffer, line), ..job },
                emits(seq![chunk_note(job.id, line)]),
            )
        } else {
            (job, Seq::empty())
        },
        Event::Undecodable => (job, Seq::empty()),
        Event::StreamEnded => if job.phase == Phase::Streaming {
            (Job { phase: Phase::Finishing, ..job }, emits(end_notes(job.id, job.buffer)))
        } else {
            (job, Seq::empty())
        },
        Event::Cleanup => if job.phase == Phase::Finishing {
            (Job { phase: Phase::Closed, handle: None, ..job }, cleanup_effects(job.handle))
        } else {
            (job, Seq::empty())
        },
        Event::DeadlineElapsed => (
            Job { handle: None, ..job },
            deadline_effects(job.id, job.handle),
        ),
        Event::AbortRequested => (Job { handle: None, ..job }, abort_effects(job.handle)),
    }
}

/// A sequence of events, one after the other: the job at the end, and all
/// that was done, in order.
pub open spec fn run<H>(job: Job<H>, trace: Seq<Event>) -> (Job<H>, Seq<Effect<H>>)
    decreases trace.len(),
{
    if trace.len() == 0 {
        (job, Seq::empty())
    } else {
        let (next, first) = step(job, trace[0]);
        let (last, rest) = run(next, trace.drop_first());
        (last, first + rest)
    }
}

} // verus!
