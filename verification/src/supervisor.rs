//! The decisions of the supervisor, one function for each thing that can
//! happen to a job.
//!
//! The caller does the outside work: it spawns the process, reads its output,
//! sleeps until the deadline, and carries out the actions that these functions
//! hand back, in the order given. The registry is to be locked for the length
//! of one call and no longer.

use vstd::prelude::*;
use crate::model::{
    abort_effects, chunk_note, cleanup_effects, deadline_effects, end_notes, with_line, Effect,
};
use crate::notify::{Note, Notification, Outcome};
use crate::registry::Registry;

verus! {

/// Something for the caller to carry out.
#[derive(Debug, PartialEq, Eq)]
pub enum Action<H> {
    /// Publish the notification.
    Emit(Notification),
    /// Terminate the process by force.
    Kill(H),
    /// Drop the handle and leave the process alone.
    Release(H),
}

impl<H> View for Action<H> {
    type V = Effect<H>;

    open spec fn view(&self) -> Effect<H> {
        match *self {
            Action::Emit(n) => Effect::Emit(n@),
            Action::Kill(h) => Effect::Kill(h),
            Action::Release(h) => Effect::Release(h),
        }
    }
}

/// The actions as plain values, in order.
pub open spec fn effects<H>(actions: Seq<Action<H>>) -> Seq<Effect<H>> {
    actions.map_values(|a: Action<H>| a@)
}

/// The notifications as plain values, in order.
pub open spec fn notes(notifications: Seq<Notification>) -> Seq<Note> {
    notifications.map_values(|n: Notification| n@)
}

/// The handle registered under an identifier, if there is one.
pub open spec fn lookup<H>(registry: Map<Seq<char>, H>, id: Seq<char>) -> Option<H> {
    if registry.contains_key(id) {
        Some(registry[id])
    } else {
        None
    }
}

/// The state of the streamer of one job while its stream is open: the job's
/// identifier and the output collected so far.
#[derive(Debug)]
pub struct Streamer {
    id: String,
    buffer: String,
}

/// What is left of a streamer once the end of its stream has been announced:
/// the duty to give the job up.
#[derive(Debug)]
pub struct Cleanup {
    id: String,
}

impl Streamer {
    /// The identifier of the job.
    pub closed spec fn job_id(&self) -> Seq<char> {
        self.id@
    }

    /// The output collected so far.
    pub closed spec fn collected(&self) -> Seq<char> {
        self.buffer@
    }

    /// The streamer of a job whose stream has just been opened.
    pub fn new(id: String) -> (s: Self)
        ensures
            s.job_id() == id@,
            s.collected() == Seq::<char>::empty(),
    {
        Streamer { id, buffer: String::new() }
    }

    /// The identifier of the job.
    pub fn id(&self) -> (id: &String)
        ensures
            id@ == self.job_id(),
    {
        &self.id
    }

    /// One line was read. It is added to the collected output, followed by a
    /// line terminator, and forwarded unchanged.
    pub fn on_line(&mut self, line: String) -> (emit: Notification)
        ensures
            final(self).job_id() == old(self).job_id(),
            final(self).collected() == with_line(old(self).collected(), line@),
            emit@ == chunk_note(old(self).job_id(), line@),
    {
        proof {
            reveal_strlit("\n");
            assert("\n"@ =~= seq!['\n']);
        }
        self.buffer.append(line.as_str());
        self.buffer.append("\n");
        Notification::Chunk { id: self.id.clone(), line }
    }

    /// The stream is exhausted. The collected output is to be sent, then the
    /// terminal notification, which reports success; after that the job is
    /// to be given up with what is handed back here.
    pub fn finish(self) -> (end: (Vec<Notification>, Cleanup))
        ensures
            notes(end.0@) == end_notes(self.job_id(), self.collected()),
            end.1.job_id() == self.job_id(),
    {
        let mut out: Vec<Notification> = Vec::new();
        out.push(Notification::Final { id: self.id.clone(), text: self.buffer });
        out.push(Notification::Done { id: self.id.clone(), outcome: Outcome::Completed });
        assert(notes(out@) =~= end_notes(self.job_id(), self.collected()));
        (out, Cleanup { id: self.id })
    }
}

impl Cleanup {
    /// The identifier of the job.
    pub closed spec fn job_id(&self) -> Seq<char> {
        self.id@
    }

    /// The streamer gives the job up. If the job is still registered, it is
    /// taken out and its handle released: the process has closed its output
    /// and is left alone. If somebody else took it, nothing is done.
    pub fn release<H>(self, registry: &mut Registry<H>) -> (actions: Vec<Action<H>>)
        ensures
            final(registry)@ == old(registry)@.remove(self.job_id()),
            effects(actions@) == cleanup_effects(lookup(old(registry)@, self.job_id())),
    {
        let mut actions: Vec<Action<H>> = Vec::new();
        match registry.remove(&self.id) {
            Some(handle) => {
                actions.push(Action::Release(handle));
            },
            None => {},
        }
        assert(effects(actions@) =~= cleanup_effects(lookup(old(registry)@, self.job_id())));
        actions
    }
}

/// The deadline of a job has elapsed. If the job is still registered, it is
/// taken out, its process is to be killed, and the terminal notification
/// reports the timeout. If the job is gone, nothing is done and nothing is
/// emitted.
pub fn on_deadline<H>(registry: &mut Registry<H>, id: &String) -> (actions: Vec<Action<H>>)
    ensures
        final(registry)@ == old(registry)@.remove(id@),
        effects(actions@) == deadline_effects(id@, lookup(old(registry)@, id@)),
{
    let mut actions: Vec<Action<H>> = Vec::new();
    match registry.remove(id) {
        Some(handle) => {
            actions.push(Action::Kill(handle));
            actions.push(
                Action::Emit(Notification::Done { id: id.clone(), outcome: Outcome::TimedOut }),
            );
        },
        None => {},
    }
    assert(effects(actions@) =~= deadline_effects(id@, lookup(old(registry)@, id@)));
    actions
}

/// Somebody asked for a job to be aborted. If the job is registered, it is
/// taken out and its process is to be killed; nothing is emitted. Aborting a
/// job that is not registered is no error: nothing is done, and the registry
/// stays as it is.
pub fn abort<H>(registry: &mut Registry<H>, id: &String) -> (actions: Vec<Action<H>>)
    ensures
        final(registry)@ == old(registry)@.remove(id@),
        effects(actions@) == abort_effects(lookup(old(registry)@, id@)),
        !old(registry)@.contains_key(id@) ==> final(registry)@ == old(registry)@ && actions@.len()
            == 0,
{
    let mut actions: Vec<Action<H>> = Vec::new();
    match registry.remove(id) {
        Some(handle) => {
            actions.push(Action::Kill(handle));
        },
        None => {
            assert(old(registry)@.remove(id@) =~= old(registry)@);
        },
    }
    assert(effects(actions@) =~= abort_effects(lookup(old(registry)@, id@)));
    actions
}

} // verus!
