//! Log lines: the prefix of an instant, ` - `, and the message as it was
//! given.

use crate::calendar::{Moment, UtcInstant};
use crate::stamp::{date_text, lemma_timestamp_opens_with_date, timestamp, timestamp_text};
use vstd::prelude::*;
use vstd::string::*;

verus! {

/// A prefix and a message, joined by ` - `. The message stands in the line
/// unchanged, and nothing follows it.
pub open spec fn line_text(prefix: Seq<char>, message: Seq<char>) -> Seq<char> {
    prefix + seq![' ', '-', ' '] + message
}

/// Joins a prefix and a message into a line.
pub fn compose_line(prefix: &str, message: &str) -> (r: String)
    ensures
        r@ == line_text(prefix@, message@),
{
    proof {
        reveal_strlit(" - ");
    }
    let mut line = String::from_str(prefix);
    line.append(" - ");
    line.append(message);
    assert(line@ =~= line_text(prefix@, message@));
    line
}

/// The log line of `to_log` at the instant `t`.
pub fn log_line(t: &UtcInstant, to_log: &str) -> (r: String)
    ensures
        r@ == line_text(timestamp_text(t@), to_log@),
{
    let prefix = timestamp(t);
    compose_line(prefix.as_str(), to_log)
}

/// The log line of `to_log` at the instant that the clock shows: the line of
/// some moment that exists.
pub fn mk_str(to_log: &str) -> (r: String)
    ensures
        exists|m: Moment| m.valid() && r@ == line_text(#[trigger] timestamp_text(m), to_log@),
{
    let t = UtcInstant::now();
    log_line(&t, to_log)
}

/// A line is as long as its prefix, the three characters of ` - ` and its
/// message; it opens with the prefix and closes with the message, unchanged.
pub proof fn lemma_line_parts(prefix: Seq<char>, message: Seq<char>)
    ensures
        line_text(prefix, message).len() == prefix.len() + 3 + message.len(),
        line_text(prefix, message).subrange(0, prefix.len() as int) == prefix,
        line_text(prefix, message).subrange(
            (prefix.len() + 3) as int,
            line_text(prefix, message).len() as int,
        ) == message,
{
    let line = line_text(prefix, message);
    assert(line.subrange(0, prefix.len() as int) =~= prefix);
    assert(line.subrange((prefix.len() + 3) as int, line.len() as int) =~= message);
}

/// The log line of a moment opens with the moment's date in square
/// brackets, whatever the message.
pub proof fn lemma_line_opens_with_date(m: Moment, message: Seq<char>)
    ensures
        date_text(m).len() + 2 <= line_text(timestamp_text(m), message).len(),
        line_text(timestamp_text(m), message).subrange(0, (date_text(m).len() + 2) as int)
            == seq!['['] + date_text(m) + seq![']'],
{
    lemma_timestamp_opens_with_date(m);
    let prefix = timestamp_text(m);
    let line = line_text(prefix, message);
    let n = (date_text(m).len() + 2) as int;
    assert(line.subrange(0, n) =~= prefix.subrange(0, n));
}

} // verus!
