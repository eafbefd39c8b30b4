//! The `open_url` command as two decisions around one launch.
//!
//! Before the launch, [`open_url`] fixes what is announced and what goes to
//! the handler. After it, [`OpenRequest::conclude`] turns the handler's answer
//! into the diagnostic to write, if any. The host does the rest: it prints the
//! announcement, asks the operating system to open the target, and prints the
//! diagnostic.

use vstd::prelude::*;
use crate::wording::{attempt_line, attempt_text, failure_line, failure_text, failure_text_holds_both, occurs_in};

verus! {

/// What the operating system's default handler answered to one launch.
#[derive(Debug)]
pub enum Outcome {
    /// The handler took the target.
    Opened,
    /// The handler failed; the text is its error, as it would be displayed.
    Failed(String),
}

/// An [`Outcome`] with the error as a sequence of characters.
pub enum OutcomeView {
    Opened,
    Failed(Seq<char>),
}

impl View for Outcome {
    type V = OutcomeView;

    open spec fn view(&self) -> OutcomeView {
        match self {
            Outcome::Opened => OutcomeView::Opened,
            Outcome::Failed(reason) => OutcomeView::Failed(reason@),
        }
    }
}

/// One invocation of the command, ready for its launch.
#[derive(Debug)]
pub struct OpenRequest {
    /// The line for standard output, written before the launch.
    pub announcement: String,
    /// What the handler is asked to open.
    pub target: String,
}

/// An [`OpenRequest`] with both strings as sequences of characters.
pub struct OpenRequestView {
    pub announcement: Seq<char>,
    pub target: Seq<char>,
}

impl View for OpenRequest {
    type V = OpenRequestView;

    open spec fn view(&self) -> OpenRequestView {
        OpenRequestView { announcement: self.announcement@, target: self.target@ }
    }
}

/// The request that an invocation with `url` makes: the address goes to the
/// handler as it came, whatever it holds.
pub open spec fn request_for(url: Seq<char>) -> OpenRequestView {
    OpenRequestView { announcement: attempt_text(url), target: url }
}

/// What is written to the diagnostic stream once the handler has answered
/// `outcome` to a launch of `target`: nothing on success, one line on failure.
pub open spec fn diagnostic_for(target: Seq<char>, outcome: OutcomeView) -> Option<Seq<char>> {
    match outcome {
        OutcomeView::Opened => None,
        OutcomeView::Failed(reason) => Some(failure_text(target, reason)),
    }
}

/// Starts the command for `url`. No address is rejected or rewritten, the
/// empty one included.
pub fn open_url(url: String) -> (request: OpenRequest)
    ensures
        request.target@ == url@,
        request@ == request_for(url@),
{
    let announcement = attempt_line(url.as_str());
    OpenRequest { announcement, target: url }
}

impl OpenRequest {
    /// Finishes the command with the handler's answer and returns the line for
    /// the diagnostic stream. A failure ends here: it is reported in that line
    /// and nowhere else. The request is used up, so each launch is concluded
    /// once.
    pub fn conclude(self, outcome: Outcome) -> (diagnostic: Option<String>)
        ensures
            outcome@ is Opened ==> diagnostic is None,
            outcome@ matches OutcomeView::Failed(reason) ==> diagnostic matches Some(line)
                && line@ == failure_text(self.target@, reason),
            diagnostic.deep_view() == diagnostic_for(self.target@, outcome@),
    {
        match outcome {
            Outcome::Opened => None,
            Outcome::Failed(reason) => Some(failure_line(self.target.as_str(), reason.as_str())),
        }
    }
}

/// Every invocation asks the handler for exactly the address it was given.
pub proof fn launch_targets_the_input(url: Seq<char>)
    ensures
        request_for(url).target == url,
{
}

/// When the handler fails, one diagnostic is written, and it contains both the
/// address that the command was invoked with and the handler's error text.
pub proof fn failure_is_reported_once(url: Seq<char>, reason: Seq<char>)
    ensures
        diagnostic_for(request_for(url).target, OutcomeView::Failed(reason)) == Some(
            failure_text(url, reason),
        ),
        occurs_in(url, failure_text(url, reason)),
        occurs_in(reason, failure_text(url, reason)),
{
    failure_text_holds_both(url, reason);
}

/// When the handler succeeds, nothing is written to the diagnostic stream.
pub proof fn success_is_silent(url: Seq<char>)
    ensures
        diagnostic_for(request_for(url).target, OutcomeView::Opened) is None,
{
}

} // verus!
