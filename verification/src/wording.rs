//! The console lines of the `open_url` command, as sequences of characters
//! and as the strings built from them.

use vstd::prelude::*;

verus! {

/// The line written to standard output before `url` goes to the handler.
pub open spec fn attempt_text(url: Seq<char>) -> Seq<char> {
    "Attempting to open URL: "@ + url
}

/// The line written to the diagnostic stream when the handler could not open
/// `url` and gave `reason` for it.
pub open spec fn failure_text(url: Seq<char>, reason: Seq<char>) -> Seq<char> {
    "Failed to open URL "@ + url + ": "@ + reason
}

/// `part` stands somewhere in `whole`, character for character and unbroken.
pub open spec fn occurs_in(part: Seq<char>, whole: Seq<char>) -> bool {
    exists|at: int| occurs_at(part, whole, at)
}

/// `part` stands in `whole` from position `at` on.
pub open spec fn occurs_at(part: Seq<char>, whole: Seq<char>, at: int) -> bool {
    &&& 0 <= at
    &&& at + part.len() <= whole.len()
    &&& whole.subrange(at, at + part.len()) == part
}

/// Builds the announcement for `url`.
pub fn attempt_line(url: &str) -> (line: String)
    ensures
        line@ == attempt_text(url@),
{
    let mut line = String::from_str("Attempting to open URL: ");
    line.append(url);
    line
}

/// Builds the diagnostic for `url` and the handler's `reason`.
pub fn failure_line(url: &str, reason: &str) -> (line: String)
    ensures
        line@ == failure_text(url@, reason@),
{
    let mut line = String::from_str("Failed to open URL ");
    line.append(url);
    line.append(": ");
    line.append(reason);
    line
}

/// A failure diagnostic holds the address and the reason in full: the address
/// after the fixed opening of 19 characters, the reason at the very end, two
/// characters after the address.
pub proof fn failure_text_holds_both(url: Seq<char>, reason: Seq<char>)
    ensures
        failure_text(url, reason).len() == 21 + url.len() + reason.len(),
        occurs_at(url, failure_text(url, reason), 19),
        occurs_at(reason, failure_text(url, reason), 21 + url.len() as int),
        occurs_in(url, failure_text(url, reason)),
        occurs_in(reason, failure_text(url, reason)),
{
    reveal_strlit("Failed to open URL ");
    reveal_strlit(": ");
    let line = failure_text(url, reason);
    let tail: int = 21 + url.len() as int;
    assert(line.subrange(19, 19 + url.len() as int) =~= url);
    assert(line.subrange(tail, tail + reason.len() as int) =~= reason);
    assert(occurs_at(url, line, 19));
    assert(occurs_at(reason, line, tail));
}

} // verus!
