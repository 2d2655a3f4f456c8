//! Finding the executable to run.
//!
//! Three sources name the program, in this order of precedence: an override
//! from the environment, the path that the user configured, and a bare name.
//! A name that holds a directory separator is a path and is used as it is. A
//! bare name is looked for in each directory of the search-path list, in
//! order. The caller asks the file system; what to ask next, and when to
//! stop, is decided here.

use vstd::prelude::*;

verus! {

/// The program that is chosen among the three sources.
pub open spec fn spec_choose(
    env_override: Option<String>,
    configured: Option<String>,
    bare: String,
) -> Seq<char> {
    match env_override {
        Some(path) => path@,
        None => match configured {
            Some(path) => path@,
            None => bare@,
        },
    }
}

/// Chooses the program to run: the override from the environment if there is
/// one, else the configured path if there is one, else the bare name.
pub fn choose_binary(env_override: Option<String>, configured: Option<String>, bare: String) -> (bin:
    String)
    ensures
        bin@ == spec_choose(env_override, configured, bare),
{
    match env_override {
        Some(path) => path,
        None => match configured {
            Some(path) => path,
            None => bare,
        },
    }
}

/// Whether a character separates directories in a path.
pub open spec fn is_separator(c: char) -> bool {
    c == '/' || c == '\\'
}

/// Whether a name holds a directory separator.
pub open spec fn has_separator(name: Seq<char>) -> bool {
    exists|i: int| 0 <= i < name.len() && is_separator(#[trigger] name[i])
}

/// Whether a name is a path, to be used as it is, and not a bare name to be
/// searched for: it is one if it holds a directory separator or if the
/// platform takes it for an absolute path.
pub fn is_explicit_path(name: &str, absolute: bool) -> (explicit: bool)
    ensures
        explicit == (has_separator(name@) || absolute),
{
    let mut found = false;
    for c in it: name.chars()
        invariant
            it.seq() == name@,
            found == exists|i: int| 0 <= i < it.index() && is_separator(#[trigger] name@[i]),
    {
        if c == '/' || c == '\\' {
            found = true;
        }
    }
    found || absolute
}

/// The path that is reported for a candidate: its canonical form if the file
/// system gave one, else the candidate as it is.
pub fn reported_path(candidate: String, canonical: Option<String>) -> (path: String)
    ensures
        path@ == (match canonical {
            Some(c) => c@,
            None => candidate@,
        }),
{
    match canonical {
        Some(c) => c,
        None => candidate,
    }
}

/// The form in which a bare name is looked for in a directory.
#[derive(Debug, Clone, Copy, PartialEq, Eq, Structural)]
pub enum Form {
    /// The name as it is.
    Plain,
    /// The name with the suffix that the platform gives to executable files.
    Suffixed,
}

/// One question to the file system: does the name exist, in this form, in the
/// directory at this position of the search-path list?
#[derive(Debug, Clone, Copy, PartialEq, Eq, Structural)]
pub struct Probe {
    pub dir: usize,
    pub form: Form,
}

/// Where a search stands.
#[derive(Debug, Clone, Copy, PartialEq, Eq, Structural)]
pub enum Search {
    /// The file system is to be asked this next.
    Ask(Probe),
    /// The name was found here.
    Found(Probe),
    /// The name is in none of the directories.
    NotFound,
}

/// Where a search starts: at the plain form in the first directory, if there
/// is a directory.
pub open spec fn spec_start(dirs: usize) -> Search {
    if dirs > 0 {
        Search::Ask(Probe { dir: 0, form: Form::Plain })
    } else {
        Search::NotFound
    }
}

/// Where a search goes on after an answer of the file system. A name that
/// exists is found. For one that does not, the suffixed form is tried in the
/// same directory where the platform has such a suffix, and after that the
/// plain form in the next directory.
pub open spec fn spec_advance(at: Probe, exists: bool, dirs: usize, suffix: bool) -> Search {
    if exists {
        Search::Found(at)
    } else if at.form == Form::Plain && suffix {
        Search::Ask(Probe { dir: at.dir, form: Form::Suffixed })
    } else if at.dir + 1 < dirs {
        Search::Ask(Probe { dir: (at.dir + 1) as usize, form: Form::Plain })
    } else {
        Search::NotFound
    }
}

/// Starts a search through `dirs` directories.
pub fn start_search(dirs: usize) -> (s: Search)
    ensures
        s == spec_start(dirs),
{
    if dirs > 0 {
        Search::Ask(Probe { dir: 0, form: Form::Plain })
    } else {
        Search::NotFound
    }
}

/// Takes the answer of the file system to the probe `at` and says how the
/// search goes on. `suffix` says whether the platform gives executable files
/// a suffix.
pub fn advance(at: Probe, exists: bool, dirs: usize, suffix: bool) -> (s: Search)
    ensures
        s == spec_advance(at, exists, dirs, suffix),
{
    if exists {
        Search::Found(at)
    } else if matches!(at.form, Form::Plain) && suffix {
        Search::Ask(Probe { dir: at.dir, form: Form::Suffixed })
    } else if at.dir < usize::MAX && at.dir + 1 < dirs {
        Search::Ask(Probe { dir: at.dir + 1, form: Form::Plain })
    } else {
        Search::NotFound
    }
}

/// Whether a probe is one that a search through `dirs` directories asks.
pub open spec fn in_range(p: Probe, dirs: usize, suffix: bool) -> bool {
    p.dir < dirs && (p.form == Form::Suffixed ==> suffix)
}

/// Whether one probe comes before another in a search: directories in listed
/// order, and in each the plain form first.
pub open spec fn before(a: Probe, b: Probe) -> bool {
    a.dir < b.dir || (a.dir == b.dir && a.form == Form::Plain && b.form == Form::Suffixed)
}

/// How many probes a search may still ask, at most.
pub open spec fn probes_left(s: Search, dirs: usize) -> nat {
    match s {
        Search::Ask(at) => if at.dir < dirs {
            (2 * (dirs - at.dir) - (if at.form == Form::Suffixed {
                1int
            } else {
                0int
            })) as nat
        } else {
            0
        },
        _ => 0,
    }
}

/// Where a search ends if the file system answers each probe as `facts` says.
pub open spec fn outcome(
    s: Search,
    facts: spec_fn(Probe) -> bool,
    dirs: usize,
    suffix: bool,
) -> Option<Probe>
    decreases probes_left(s, dirs),
{
    match s {
        Search::Ask(at) => if at.dir < dirs {
            outcome(spec_advance(at, facts(at), dirs, suffix), facts, dirs, suffix)
        } else {
            None
        },
        Search::Found(p) => Some(p),
        Search::NotFound => None,
    }
}

/// A search that has asked every probe before `at` in vain ends at the first
/// probe from `at` on that the file system answers with yes, and finds nothing
/// only if there is none.
pub proof fn lemma_search_from(at: Probe, facts: spec_fn(Probe) -> bool, dirs: usize, suffix: bool)
    requires
        in_range(at, dirs, suffix),
        forall|q: Probe| in_range(q, dirs, suffix) && before(q, at) ==> !#[trigger] facts(q),
    ensures
        match outcome(Search::Ask(at), facts, dirs, suffix) {
            Some(p) => {
                &&& in_range(p, dirs, suffix)
                &&& facts(p)
                &&& forall|q: Probe|
                    in_range(q, dirs, suffix) && before(q, p) ==> !#[trigger] facts(q)
            },
            None => forall|q: Probe| in_range(q, dirs, suffix) ==> !#[trigger] facts(q),
        },
    decreases probes_left(Search::Ask(at), dirs),
{
    let next = spec_advance(at, facts(at), dirs, suffix);
    assert(outcome(Search::Ask(at), facts, dirs, suffix) == outcome(next, facts, dirs, suffix));
    match next {
        Search::Ask(then) => {
            assert forall|q: Probe| in_range(q, dirs, suffix) && before(q, then) implies !#[trigger] facts(
                q,
            ) by {
                if !before(q, at) {
                    assert(q == at);
                }
            }
            lemma_search_from(then, facts, dirs, suffix);
        },
        Search::Found(p) => {},
        Search::NotFound => {
            assert forall|q: Probe| in_range(q, dirs, suffix) implies !#[trigger] facts(q) by {
                if !before(q, at) {
                    assert(q == at);
                }
            }
        },
    }
}

/// The first match wins: a search from the start ends at a probe that the file
/// system answers with yes and before which it answers every probe with no,
/// and it finds nothing only if the name is in no directory in any form that
/// is asked for.
pub proof fn lemma_first_match_wins(facts: spec_fn(Probe) -> bool, dirs: usize, suffix: bool)
    ensures
        match outcome(spec_start(dirs), facts, dirs, suffix) {
            Some(p) => {
                &&& in_range(p, dirs, suffix)
                &&& facts(p)
                &&& forall|q: Probe|
                    in_range(q, dirs, suffix) && before(q, p) ==> !#[trigger] facts(q)
            },
            None => forall|q: Probe| in_range(q, dirs, suffix) ==> !#[trigger] facts(q),
        },
{
    if dirs > 0 {
        lemma_search_from(Probe { dir: 0, form: Form::Plain }, facts, dirs, suffix);
    }
}

/// What the resolver reports: the program as it will be handed to the
/// launcher, and the path where it was found, for diagnostics only.
#[derive(Debug, Clone, PartialEq, Eq)]
pub struct ResolvedBinary {
    pub raw: String,
    pub resolved: Option<String>,
}

impl ResolvedBinary {
    /// Whether the program was found.
    pub fn is_resolved(&self) -> (b: bool)
        ensures
            b == self.resolved.is_some(),
    {
        self.resolved.is_some()
    }
}

/// The answer to a diagnostic probe of the program.
#[derive(Debug, Clone, PartialEq, Eq)]
pub struct BinaryCheck {
    pub ok: bool,
    pub bin: String,
    pub resolved: Option<String>,
    pub error: Option<String>,
}

/// Puts the answer to a diagnostic probe together. `status` is what running
/// the program gave: whether it exited with success, or why it could not be
/// run. The probe is passed if the program ran and reported success; the
/// reason is reported only where it could not be run.
pub fn check_report(binary: ResolvedBinary, status: Result<bool, String>) -> (report: BinaryCheck)
    ensures
        report.ok == (status == Ok::<bool, String>(true)),
        report.bin == binary.raw,
        report.resolved == binary.resolved,
        report.error == (match status {
            Ok(_) => None,
            Err(e) => Some(e),
        }),
{
    match status {
        Ok(success) => BinaryCheck {
            ok: success,
            bin: binary.raw,
            resolved: binary.resolved,
            error: None,
        },
        Err(e) => BinaryCheck {
            ok: false,
            bin: binary.raw,
            resolved: binary.resolved,
            error: Some(e),
        },
    }
}

} // verus!
