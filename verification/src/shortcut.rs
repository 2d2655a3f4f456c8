//! The quick shortcut: which key combination a shortcut name stands for, and
//! whether two presses make a double press.
//!
//! A name that holds a `+` is a key combination written out, and is handed to
//! the binder as it is. Any other name is one of a few symbolic names, whose
//! combination depends on the platform only in the modifier that stands for
//! "command".

use vstd::prelude::*;

verus! {

/// The platform that a combination is resolved for.
#[derive(Debug, Clone, Copy, PartialEq, Eq, Structural)]
pub enum Platform {
    MacOs,
    Other,
}

/// The key of a combination.
#[derive(Debug, Clone, Copy, PartialEq, Eq, Structural)]
pub enum Key {
    C,
    K,
}

/// The modifiers of a combination.
#[derive(Debug, Clone, Copy, PartialEq, Eq, Structural)]
pub struct Modifiers {
    pub control: bool,
    pub shift: bool,
    pub alt: bool,
    pub meta: bool,
}

/// What is handed to the binder of global shortcuts.
#[derive(Debug, Clone, PartialEq, Eq)]
pub enum Binding {
    /// A combination written out, such as `Control+Alt+K`.
    Raw(String),
    /// A combination of modifiers and a key.
    Combo { modifiers: Modifiers, key: Key },
}

/// Whether a shortcut is a combination written out: it is one if it holds a
/// `+`.
pub open spec fn is_raw(shortcut: Seq<char>) -> bool {
    exists|i: int| 0 <= i < shortcut.len() && #[trigger] shortcut[i] == '+'
}

/// The modifier that stands for "command": the meta key on macOS, the control
/// key elsewhere.
pub open spec fn command(platform: Platform) -> Modifiers {
    match platform {
        Platform::MacOs => Modifiers { control: false, shift: false, alt: false, meta: true },
        Platform::Other => Modifiers { control: true, shift: false, alt: false, meta: false },
    }
}

/// The combination of a symbolic name. A name that is not known stands for
/// what `cmd-shift-c` stands for.
pub open spec fn spec_combo(shortcut: Seq<char>, platform: Platform) -> (Modifiers, Key) {
    if shortcut == "cmd-alt-c"@ {
        (Modifiers { alt: true, ..command(platform) }, Key::C)
    } else if shortcut == "cmd-k"@ {
        (command(platform), Key::K)
    } else {
        (Modifiers { shift: true, ..command(platform) }, Key::C)
    }
}

/// Whether a string is the given name.
fn is_name(s: &str, name: &str) -> (b: bool)
    ensures
        b == (s@ == name@),
{
    String::from_str(s) == String::from_str(name)
}

/// Whether a string holds a `+`.
fn holds_plus(s: &str) -> (b: bool)
    ensures
        b == is_raw(s@),
{
    let mut found = false;
    for c in it: s.chars()
        invariant
            it.seq() == s@,
            found == exists|i: int| 0 <= i < it.index() && #[trigger] s@[i] == '+',
    {
        if c == '+' {
            found = true;
        }
    }
    found
}

/// The modifier that stands for "command" on a platform.
pub fn command_modifier(platform: Platform) -> (m: Modifiers)
    ensures
        m == command(platform),
{
    match platform {
        Platform::MacOs => Modifiers { control: false, shift: false, alt: false, meta: true },
        Platform::Other => Modifiers { control: true, shift: false, alt: false, meta: false },
    }
}

/// Resolves a shortcut for a platform: a combination written out stays as it
/// is, a symbolic name becomes its combination.
pub fn resolve_shortcut(shortcut: &str, platform: Platform) -> (binding: Binding)
    ensures
        match binding {
            Binding::Raw(text) => is_raw(shortcut@) && text@ == shortcut@,
            Binding::Combo { modifiers, key } => !is_raw(shortcut@) && (modifiers, key)
                == spec_combo(shortcut@, platform),
        },
{
    if holds_plus(shortcut) {
        return Binding::Raw(String::from_str(shortcut));
    }
    let base = command_modifier(platform);
    if is_name(shortcut, "cmd-alt-c") {
        Binding::Combo {
            modifiers: Modifiers { control: base.control, shift: false, alt: true, meta: base.meta },
            key: Key::C,
        }
    } else if is_name(shortcut, "cmd-k") {
        Binding::Combo { modifiers: base, key: Key::K }
    } else {
        Binding::Combo {
            modifiers: Modifiers { control: base.control, shift: true, alt: false, meta: base.meta },
            key: Key::C,
        }
    }
}

/// Two presses make a double press if the second comes less than this many
/// milliseconds after the first.
pub const DOUBLE_PRESS_WINDOW_MS: u64 = 500;

/// The time from one instant to a later one, in milliseconds, and zero if the
/// second is not later.
pub open spec fn elapsed(earlier: u64, later: u64) -> int {
    if later >= earlier {
        later - earlier
    } else {
        0
    }
}

/// Whether a press at `now` makes a double press with the press before it.
pub open spec fn spec_is_double(last: Option<u64>, now: u64) -> bool {
    match last {
        Some(t) => elapsed(t, now) < DOUBLE_PRESS_WINDOW_MS,
        None => false,
    }
}

/// When the shortcut was last pressed, in milliseconds on the caller's clock,
/// if it was pressed at all.
#[derive(Debug, Clone, Copy, PartialEq, Eq)]
pub struct DoubleCopyState {
    pub last: Option<u64>,
}

/// What a press of the shortcut comes to.
#[derive(Debug, Clone, Copy, PartialEq, Eq, Structural)]
pub struct Press {
    /// Whether the press came within the window after the one before.
    pub is_double: bool,
    /// Whether the clipboard is to be read and sent now. A single press is
    /// enough for that, so this is always so.
    pub fire: bool,
}

impl DoubleCopyState {
    /// The state before any press.
    pub fn new() -> (s: Self)
        ensures
            s.last is None,
    {
        DoubleCopyState { last: None }
    }

    /// The shortcut was pressed at `now_ms`. The press is remembered, and the
    /// answer says whether it made a double press. The shortcut fires on
    /// every press.
    pub fn press(&mut self, now_ms: u64) -> (p: Press)
        ensures
            p.is_double == spec_is_double(old(self).last, now_ms),
            p.fire,
            final(self).last == Some(now_ms),
    {
        let is_double = match self.last {
            Some(t) => now_ms >= t && now_ms - t < DOUBLE_PRESS_WINDOW_MS || now_ms < t,
            None => false,
        };
        self.last = Some(now_ms);
        Press { is_double, fire: true }
    }
}

} // verus!
