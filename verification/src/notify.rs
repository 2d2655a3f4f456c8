//! What the supervisor tells its consumer about a job.
//!
//! Every notification belongs to one job and is published under a name that
//! holds the job's identifier. Delivery is fire and forget.

use vstd::prelude::*;

verus! {

/// How a job ended, as far as its consumer is told.
#[derive(Debug, Clone, Copy, PartialEq, Eq, Structural)]
pub enum Outcome {
    /// The output stream closed.
    Completed,
    /// The deadline elapsed while the job was still registered.
    TimedOut,
}

impl Outcome {
    /// The success flag of the terminal notification.
    pub open spec fn spec_ok(self) -> bool {
        self == Outcome::Completed
    }

    /// The success flag of the terminal notification.
    #[verifier::when_used_as_spec(spec_ok)]
    pub fn ok(self) -> (b: bool)
        ensures
            b == self.spec_ok(),
    {
        match self {
            Outcome::Completed => true,
            Outcome::TimedOut => false,
        }
    }

    /// The reason given with a failure: `"timeout"`, and nothing on success.
    pub open spec fn spec_reason(self) -> Option<Seq<char>> {
        match self {
            Outcome::Completed => None,
            Outcome::TimedOut => Some("timeout"@),
        }
    }

    /// The reason given with a failure: `"timeout"`, and nothing on success.
    pub fn reason(self) -> (r: Option<String>)
        ensures
            r.is_some() == self.spec_reason().is_some(),
            r matches Some(s) ==> self.spec_reason() == Some(s@),
    {
        match self {
            Outcome::Completed => None,
            Outcome::TimedOut => Some(String::from_str("timeout")),
        }
    }
}

/// The content of a notification.
pub enum Body {
    /// One line of output, as the program wrote it.
    Chunk(Seq<char>),
    /// The whole output, each line followed by its terminator.
    Final(Seq<char>),
    /// The terminal notification.
    Done(Outcome),
}

/// A notification as a plain value: the job it belongs to and its content.
pub struct Note {
    pub id: Seq<char>,
    pub body: Body,
}

/// A notification for the consumer.
#[derive(Debug, Clone, PartialEq, Eq)]
pub enum Notification {
    /// One line of output.
    Chunk { id: String, line: String },
    /// The accumulated output, sent when the stream has closed.
    Final { id: String, text: String },
    /// The terminal notification of a job.
    Done { id: String, outcome: Outcome },
}

/// The last part of the name under which each kind of notification is
/// published.
pub open spec fn kind_suffix(body: Body) -> Seq<char> {
    match body {
        Body::Chunk(_) => ":chunk"@,
        Body::Final(_) => ":final"@,
        Body::Done(_) => ":done"@,
    }
}

/// The name under which a notification is published.
pub open spec fn spec_event_name(note: Note) -> Seq<char> {
    "translate:"@ + note.id + kind_suffix(note.body)
}

impl View for Notification {
    type V = Note;

    open spec fn view(&self) -> Note {
        match *self {
            Notification::Chunk { id, line } => Note { id: id@, body: Body::Chunk(line@) },
            Notification::Final { id, text } => Note { id: id@, body: Body::Final(text@) },
            Notification::Done { id, outcome } => Note { id: id@, body: Body::Done(outcome) },
        }
    }
}

impl Notification {
    /// The identifier of the job that the notification belongs to.
    pub fn id(&self) -> (id: &String)
        ensures
            id@ == self@.id,
    {
        match self {
            Notification::Chunk { id, .. } => id,
            Notification::Final { id, .. } => id,
            Notification::Done { id, .. } => id,
        }
    }

    /// The name under which the notification is published: `translate:`, the
    /// job's identifier, and `:chunk`, `:final` or `:done`.
    pub fn event_name(&self) -> (name: String)
        ensures
            name@ == spec_event_name(self@),
    {
        let mut name = String::from_str("translate:");
        name.append(self.id().as_str());
        match self {
            Notification::Chunk { .. } => name.append(":chunk"),
            Notification::Final { .. } => name.append(":final"),
            Notification::Done { .. } => name.append(":done"),
        }
        name
    }

    /// Whether this is the terminal notification of its job.
    pub fn is_terminal(&self) -> (b: bool)
        ensures
            b == (self@.body is Done),
    {
        match self {
            Notification::Done { .. } => true,
            _ => false,
        }
    }
}

} // verus!
