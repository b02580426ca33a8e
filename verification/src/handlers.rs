//! The three endpoints, each as a function from what was received to what is
//! answered and logged.

use vstd::prelude::*;
use crate::model::canned_report;
use crate::model::EmailAddressInfo;
use crate::model::EmailRequest;
use crate::model::EmailRequestView;
use crate::reply::Body;
use crate::reply::BodyView;
use crate::reply::Handled;
use crate::reply::HandledView;
use crate::reply::Reply;
use crate::reply::ReplyView;
use crate::reply::STATUS_BAD_REQUEST;
use crate::reply::STATUS_OK;

verus! {

/// What became of decoding the form of a "send email" request.
#[derive(Clone, Debug, PartialEq, Eq)]
pub enum Submission {
    /// Every field was present and decoded.
    Decoded(EmailRequest),
    /// The body could not be decoded; the text says why.
    Malformed(String),
}

/// The mathematical content of a [`Submission`].
pub enum SubmissionView {
    Decoded(EmailRequestView),
    Malformed(Seq<char>),
}

impl View for Submission {
    type V = SubmissionView;

    open spec fn view(&self) -> SubmissionView {
        match self {
            Submission::Decoded(request) => SubmissionView::Decoded(request@),
            Submission::Malformed(reason) => SubmissionView::Malformed(reason@),
        }
    }
}

/// The text of the health check.
pub open spec fn greeting() -> Seq<char> {
    "Hello from email-mock!"@
}

/// The log line of a "send email" request: its text and the provider it named.
pub open spec fn send_notice(text: Seq<char>, which: Seq<char>) -> Seq<char> {
    "Request: "@ + text + ", method: "@ + which
}

/// The log line of an address check.
pub open spec fn check_notice(email: Seq<char>) -> Seq<char> {
    "Requested email validation: "@ + email
}

/// What `get_email` gives for a provider name and a decoding outcome.
pub open spec fn get_email_outcome(which: Seq<char>, submission: SubmissionView) -> HandledView {
    match submission {
        SubmissionView::Decoded(request) => HandledView {
            notice: Some(send_notice(request.text, which)),
            reply: ReplyView { status: STATUS_OK, body: BodyView::Empty },
        },
        SubmissionView::Malformed(reason) => HandledView {
            notice: None,
            reply: ReplyView { status: STATUS_BAD_REQUEST, body: BodyView::Text(reason) },
        },
    }
}

/// What `check_email` gives for an address.
pub open spec fn check_email_outcome(email: Seq<char>) -> HandledView {
    HandledView {
        notice: Some(check_notice(email)),
        reply: ReplyView { status: STATUS_OK, body: BodyView::Json(canned_report(email)) },
    }
}

/// What `healthcheck` gives.
pub open spec fn healthcheck_outcome() -> HandledView {
    HandledView {
        notice: None,
        reply: ReplyView { status: STATUS_OK, body: BodyView::Text(greeting()) },
    }
}

/// Handles a "send email" request for the provider `which`.
///
/// A decoded form is accepted whatever it holds and whatever `which` is: the
/// reply is 200 with no body, and the request's text and `which` are logged.
/// Nothing is sent anywhere. A form that could not be decoded is answered
/// with 400 and the reason, and leaves no log line.
pub fn get_email(which: &str, submission: &Submission) -> (handled: Handled)
    ensures
        handled@ == get_email_outcome(which@, submission@),
        submission is Decoded <==> handled.reply.status == 200,
        submission is Malformed <==> handled.reply.status == 400,
        submission is Decoded ==> handled.reply.body is Empty,
{
    match submission {
        Submission::Decoded(request) => {
            let mut line = String::from_str("Request: ");
            line.append(request.text.as_str());
            line.append(", method: ");
            line.append(which);
            Handled { notice: Some(line), reply: Reply { status: STATUS_OK, body: Body::Empty } }
        },
        Submission::Malformed(reason) => Handled {
            notice: None,
            reply: Reply { status: STATUS_BAD_REQUEST, body: Body::Text(reason.clone()) },
        },
    }
}

/// Handles an address check.
///
/// Every address, well formed or not, gets 200 and the same favourable
/// report with the address echoed in it; the address is logged.
pub fn check_email(email: &str) -> (handled: Handled)
    ensures
        handled@ == check_email_outcome(email@),
        handled.reply.status == 200,
        handled.reply.body matches Body::Json(info) && info.result && info.checks.all_true(),
{
    let mut line = String::from_str("Requested email validation: ");
    line.append(email);
    Handled {
        notice: Some(line),
        reply: Reply { status: STATUS_OK, body: Body::Json(EmailAddressInfo::for_address(email)) },
    }
}

/// Handles a health check: 200 and the greeting, with nothing logged.
pub fn healthcheck() -> (handled: Handled)
    ensures
        handled@ == healthcheck_outcome(),
        handled.reply.status == 200,
        handled.notice is None,
{
    Handled {
        notice: None,
        reply: Reply {
            status: STATUS_OK,
            body: Body::Text(String::from_str("Hello from email-mock!")),
        },
    }
}

} // verus!
