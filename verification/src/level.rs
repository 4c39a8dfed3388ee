use vstd::prelude::*;

verus! {

/// Verbosity threshold for a module override or for the root logger.
#[derive(Clone, Copy, Debug, PartialEq, Eq, Structural)]
pub enum Level {
    Off,
    Error,
    Warn,
    Info,
    Debug,
    Trace,
}

/// Code point of `c`, with ASCII upper-case letters folded to lower case.
pub open spec fn lower_code(c: char) -> int {
    if 65 <= c as int && c as int <= 90 {
        c as int + 32
    } else {
        c as int
    }
}

/// `s` and `t` are equal once ASCII case is ignored.
pub open spec fn eq_ignore_case(s: Seq<char>, t: Seq<char>) -> bool {
    s.len() == t.len() && (forall|i: int| 0 <= i < s.len() ==> lower_code(s[i]) == lower_code(t[i]))
}

/// The level that `s` names, compared case-insensitively among the six
/// level names; `None` when `s` names no level.
pub open spec fn spec_level_of(s: Seq<char>) -> Option<Level> {
    if eq_ignore_case(s, "off"@) {
        Some(Level::Off)
    } else if eq_ignore_case(s, "error"@) {
        Some(Level::Error)
    } else if eq_ignore_case(s, "warn"@) {
        Some(Level::Warn)
    } else if eq_ignore_case(s, "info"@) {
        Some(Level::Info)
    } else if eq_ignore_case(s, "debug"@) {
        Some(Level::Debug)
    } else if eq_ignore_case(s, "trace"@) {
        Some(Level::Trace)
    } else {
        None
    }
}

fn lower_code_of(c: char) -> (r: u32)
    ensures
        r as int == lower_code(c),
{
    let u = c as u32;
    if 65 <= u && u <= 90 {
        u + 32
    } else {
        u
    }
}

fn chars_eq_ignore_case(s: &str, t: &str) -> (r: bool)
    ensures
        r == eq_ignore_case(s@, t@),
{
    let n = s.unicode_len();
    if n != t.unicode_len() {
        return false;
    }
    let mut i: usize = 0;
    while i < n
        invariant
            n == s@.len(),
            n == t@.len(),
            i <= n,
            forall|j: int| 0 <= j < i ==> lower_code(s@[j]) == lower_code(t@[j]),
        decreases n - i,
    {
        let a = lower_code_of(s.get_char(i));
        let b = lower_code_of(t.get_char(i));
        if a != b {
            return false;
        }
        i += 1;
    }
    true
}

/// Parse a level name, ignoring ASCII case, as the `log` crate's
/// `LevelFilter::from_str` does.
pub fn level_from_str(s: &str) -> (r: Option<Level>)
    ensures
        r == spec_level_of(s@),
{
    if chars_eq_ignore_case(s, "off") {
        Some(Level::Off)
    } else if chars_eq_ignore_case(s, "error") {
        Some(Level::Error)
    } else if chars_eq_ignore_case(s, "warn") {
        Some(Level::Warn)
    } else if chars_eq_ignore_case(s, "info") {
        Some(Level::Info)
    } else if chars_eq_ignore_case(s, "debug") {
        Some(Level::Debug)
    } else if chars_eq_ignore_case(s, "trace") {
        Some(Level::Trace)
    } else {
        None
    }
}

} // verus!
