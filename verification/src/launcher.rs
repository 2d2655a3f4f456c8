//! Launching a job: the argument vector of its process, and its entry into
//! the registry.
//!
//! A job is registered as soon as its process has been spawned and before any
//! of its output is read, so that an abort that comes right after the launch
//! finds it. A process that could not be spawned is not registered, and
//! nothing is started or emitted for it.

use vstd::prelude::*;
use crate::registry::Registry;
use crate::supervisor::{lookup, Streamer};

verus! {

/// What one job asks of the external program.
#[derive(Debug, Clone, PartialEq, Eq)]
pub struct TranslateOptions {
    pub id: String,
    pub input: String,
    pub from: Option<String>,
    pub to: String,
    pub precision: Option<String>,
    pub style: Option<String>,
    pub glossary: Option<String>,
}

/// A flag followed by its value, or nothing when the value is absent.
pub open spec fn optional_flag(flag: Seq<char>, value: Option<String>) -> Seq<Seq<char>> {
    match value {
        Some(v) => seq![flag, v@],
        None => Seq::empty(),
    }
}

/// The argument vector of a request: the source language if given, the target
/// language, the precision if given, and last the input.
pub open spec fn spec_args(opts: TranslateOptions) -> Seq<Seq<char>> {
    optional_flag("--from"@, opts.from)
        + seq!["--to"@, opts.to@]
        + optional_flag("--precision"@, opts.precision)
        + seq!["--input"@, opts.input@]
}

/// The views of a vector of strings, in order.
pub open spec fn views(v: Seq<String>) -> Seq<Seq<char>> {
    v.map_values(|s: String| s@)
}

/// Builds the argument vector of a request.
pub fn build_args(opts: &TranslateOptions) -> (args: Vec<String>)
    ensures
        views(args@) == spec_args(*opts),
{
    let mut args: Vec<String> = Vec::new();
    match &opts.from {
        Some(from) => {
            args.push(String::from_str("--from"));
            args.push(from.clone());
        },
        None => {},
    }
    args.push(String::from_str("--to"));
    args.push(opts.to.clone());
    match &opts.precision {
        Some(p) => {
            args.push(String::from_str("--precision"));
            args.push(p.clone());
        },
        None => {},
    }
    args.push(String::from_str("--input"));
    args.push(opts.input.clone());
    assert(views(args@) =~= spec_args(*opts));
    args
}

/// What spawning the process of a job gave.
#[derive(Debug)]
pub enum Spawned<H> {
    /// The process runs, and its output can be read.
    Started(H),
    /// The process runs, but its output cannot be had.
    NoOutput(H),
    /// The operating system could not start the process, for this reason.
    Failed(String),
}

/// Why a job could not be launched.
#[derive(Debug, Clone, PartialEq, Eq)]
pub enum LaunchError {
    /// The operating system could not start the process, for this reason.
    Spawn(String),
    /// The process was started, but its output could not be had.
    NoStdout,
}

/// The message of a launch error.
pub open spec fn spec_message(error: LaunchError) -> Seq<char> {
    match error {
        LaunchError::Spawn(reason) => "failed to start plamo-translate: "@ + reason@,
        LaunchError::NoStdout => "failed to take stdout"@,
    }
}

impl LaunchError {
    /// The message of the error, as it is reported to the caller.
    pub fn message(&self) -> (text: String)
        ensures
            text@ == spec_message(*self),
    {
        match self {
            LaunchError::Spawn(reason) => {
                let mut text = String::from_str("failed to start plamo-translate: ");
                text.append(reason.as_str());
                text
            },
            LaunchError::NoStdout => String::from_str("failed to take stdout"),
        }
    }
}

/// A job that was launched: the streamer that is to read its output, and the
/// handle of an earlier job that was registered under the same identifier, if
/// there was one.
pub struct Launch<H> {
    pub streamer: Streamer,
    pub displaced: Option<H>,
}

/// Takes what spawning gave and lets the job in, or refuses it.
///
/// A process that runs and can be read is registered under the job's
/// identifier, and a streamer with nothing collected is handed back. In the
/// two other cases the registry stays as it is and the error says which of
/// them it was.
pub fn launch<H>(registry: &mut Registry<H>, id: String, spawned: Spawned<H>) -> (r: Result<
    Launch<H>,
    LaunchError,
>)
    ensures
        match spawned {
            Spawned::Started(handle) => {
                &&& r matches Ok(launch)
                &&& final(registry)@ == old(registry)@.insert(id@, handle)
                &&& launch.streamer.job_id() == id@
                &&& launch.streamer.collected() == Seq::<char>::empty()
                &&& launch.displaced == lookup(old(registry)@, id@)
            },
            Spawned::NoOutput(_) => {
                &&& r matches Err(LaunchError::NoStdout)
                &&& final(registry)@ == old(registry)@
            },
            Spawned::Failed(reason) => {
                &&& r matches Err(LaunchError::Spawn(why))
                &&& why@ == reason@
                &&& final(registry)@ == old(registry)@
            },
        },
{
    match spawned {
        Spawned::Started(handle) => {
            let streamer = Streamer::new(id.clone());
            let displaced = registry.insert(id, handle);
            Ok(Launch { streamer, displaced })
        },
        Spawned::NoOutput(_) => Err(LaunchError::NoStdout),
        Spawned::Failed(reason) => Err(LaunchError::Spawn(reason)),
    }
}

} // verus!
