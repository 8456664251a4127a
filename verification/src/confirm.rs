//! Interpreting operator confirmations.
//!
//! A yes/no question is asked with a default; the operator's line is
//! matched, once its trailing line terminator is removed, against a
//! fixed case-sensitive token table: the empty answer resolves to the
//! default, `yes`, `y` and `Y` to yes, `no`, `n` and `N` to no. Any
//! other line — a whitespace-only or whitespace-padded one included —
//! resolves nothing and the question is asked again; end of input
//! resolves to a decline, so the question cannot block forever.

use vstd::prelude::*;
use vstd::string::*;

verus! {

/// The line with its trailing terminator removed: one final line feed
/// is dropped, together with a carriage return right before it.
/// Nothing else is removed.
pub open spec fn chomped(s: Seq<char>) -> Seq<char> {
    if s.len() > 0 && s.last() == '\n' {
        if s.len() > 1 && s[s.len() - 2] == '\r' {
            s.drop_last().drop_last()
        } else {
            s.drop_last()
        }
    } else {
        s
    }
}

/// The fixed token table, applied to the line once its trailing
/// terminator is removed: empty resolves to the default, `y`, `Y` and
/// `yes` to yes, `n`, `N` and `no` to no, and anything else — even a
/// line of nothing but spaces, or a space-padded token — to nothing.
pub open spec fn answer_of(line: Seq<char>, default: bool) -> Option<bool> {
    let t = chomped(line);
    if t.len() == 0 {
        Option::Some(default)
    } else if t.len() == 1 && (t[0] == 'y' || t[0] == 'Y') {
        Option::Some(true)
    } else if t.len() == 1 && (t[0] == 'n' || t[0] == 'N') {
        Option::Some(false)
    } else if t.len() == 2 && t[0] == 'n' && t[1] == 'o' {
        Option::Some(false)
    } else if t.len() == 3 && t[0] == 'y' && t[1] == 'e' && t[2] == 's' {
        Option::Some(true)
    } else {
        Option::None
    }
}

/// Matches one line from the operator against the token table.
pub fn interpret_line(line: &str, default: bool) -> (r: Option<bool>)
    ensures
        r == answer_of(line@, default),
{
    let n = line.unicode_len();
    let hi: usize;
    if n > 0 && line.get_char(n - 1) == '\n' {
        if n > 1 && line.get_char(n - 2) == '\r' {
            hi = n - 2;
            proof {
                assert(chomped(line@) == line@.drop_last().drop_last());
                assert(line@.drop_last().drop_last() =~= line@.subrange(0, hi as int));
            }
        } else {
            hi = n - 1;
            proof {
                assert(chomped(line@) == line@.drop_last());
                assert(line@.drop_last() =~= line@.subrange(0, hi as int));
            }
        }
    } else {
        hi = n;
        proof {
            assert(chomped(line@) =~= line@.subrange(0, hi as int));
        }
    }
    if hi == 0 {
        Some(default)
    } else if hi == 1 {
        let c = line.get_char(0);
        if c == 'y' || c == 'Y' {
            Some(true)
        } else if c == 'n' || c == 'N' {
            Some(false)
        } else {
            None
        }
    } else if hi == 2 {
        if line.get_char(0) == 'n' && line.get_char(1) == 'o' {
            Some(false)
        } else {
            None
        }
    } else if hi == 3 {
        if line.get_char(0) == 'y' && line.get_char(1) == 'e' && line.get_char(2) == 's' {
            Some(true)
        } else {
            None
        }
    } else {
        None
    }
}

/// What the operator handed the waiting question: one line, or the end
/// of input.
pub enum ConfirmEvent {
    Line(String),
    EndOfInput,
}

/// How one event resolves the question: a recognized line resolves per
/// the token table, an unrecognized one resolves nothing (the question
/// repeats), and end of input resolves to a decline.
pub open spec fn confirm_resolution(event: ConfirmEvent, default: bool) -> Option<bool> {
    match event {
        ConfirmEvent::Line(l) => answer_of(l@, default),
        ConfirmEvent::EndOfInput => Option::Some(false),
    }
}

/// One step of the confirmation loop: feeds one event to the waiting
/// question. `None` means the question is still open and must be asked
/// again.
pub fn confirm_step(event: &ConfirmEvent, default: bool) -> (r: Option<bool>)
    ensures
        r == confirm_resolution(*event, default),
{
    match event {
        ConfirmEvent::Line(l) => interpret_line(l.as_str(), default),
        ConfirmEvent::EndOfInput => Some(false),
    }
}

/// The hint displayed beside the question, marking the default.
pub open spec fn hint_model(default: bool) -> Seq<char> {
    if default {
        "Y/n"@
    } else {
        "y/N"@
    }
}

/// The hint displayed beside the question.
pub fn default_hint(default: bool) -> (r: &'static str)
    ensures
        r@ == hint_model(default),
{
    if default {
        "Y/n"
    } else {
        "y/N"
    }
}

/// The full line displayed to ask the question.
pub open spec fn prompt_model(prompt: Seq<char>, default: bool) -> Seq<char> {
    prompt + " ["@ + hint_model(default) + "] > "@
}

/// Renders the question with its default hint.
pub fn render_prompt(prompt: &str, default: bool) -> (r: String)
    ensures
        r@ == prompt_model(prompt@, default),
{
    String::from_str(prompt).concat(" [").concat(default_hint(default)).concat("] > ")
}

} // verus!
