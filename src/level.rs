//! Severity levels and their console badges.
use vstd::prelude::*;

verus! {

/// The five ordered severity tiers, most severe first.
#[derive(Clone, Copy, Debug, PartialEq, Eq, Structural)]
pub enum Level {
    Error,
    Warn,
    Info,
    Debug,
    Trace,
}

/// Position of a level in the tier order: `Error` is 0, `Trace` is 4.
pub open spec fn level_rank(level: Level) -> nat {
    match level {
        Level::Error => 0,
        Level::Warn => 1,
        Level::Info => 2,
        Level::Debug => 3,
        Level::Trace => 4,
    }
}

/// Position of `level` in the tier order.
pub fn level_to_index(level: &Level) -> (r: usize)
    ensures
        r == level_rank(*level),
        r < 5,
{
    match *level {
        Level::Error => 0,
        Level::Warn => 1,
        Level::Info => 2,
        Level::Debug => 3,
        Level::Trace => 4,
    }
}


/// The badge of a level: `[ERROR]`, `[WARN]`, `[INFO]`, `[DEBUG]` or `[TRACE]`.
pub open spec fn badge(level: Level) -> Seq<char> {
    match level {
        Level::Error => "[ERROR]"@,
        Level::Warn => "[WARN]"@,
        Level::Info => "[INFO]"@,
        Level::Debug => "[DEBUG]"@,
        Level::Trace => "[TRACE]"@,
    }
}

/// The badge of an informational event that reports a success.
pub open spec fn success_badge() -> Seq<char> {
    "[SUCCESS]"@
}

/// The badge shown for an event at `level`, successful or not.
pub open spec fn event_badge(level: Level, is_success: bool) -> Seq<char> {
    if is_success {
        success_badge()
    } else {
        badge(level)
    }
}

/// The badge of `level`.
pub fn badge_text(level: &Level) -> (r: &'static str)
    ensures
        r@ == badge(*level),
{
    match *level {
        Level::Error => "[ERROR]",
        Level::Warn => "[WARN]",
        Level::Info => "[INFO]",
        Level::Debug => "[DEBUG]",
        Level::Trace => "[TRACE]",
    }
}

/// Number of visible characters in the badge shown for `level`.
pub fn get_level_visual_length(level: &Level, is_success: bool) -> (r: usize)
    ensures
        r == event_badge(*level, is_success).len(),
{
    proof {
        reveal_strlit("[ERROR]");
        reveal_strlit("[WARN]");
        reveal_strlit("[INFO]");
        reveal_strlit("[DEBUG]");
        reveal_strlit("[TRACE]");
        reveal_strlit("[SUCCESS]");
    }
    if is_success {
        return 9;
    }
    match *level {
        Level::Error | Level::Debug | Level::Trace => 7,
        Level::Warn | Level::Info => 6,
    }
}

} // verus!
