//! What a handler hands back: the answer to send and the line to log.

use vstd::prelude::*;
use crate::model::EmailAddressInfo;
use crate::model::EmailAddressInfoView;

verus! {

/// The status of a request that was served.
pub const STATUS_OK: u16 = 200;

/// The status of a request whose form could not be decoded.
pub const STATUS_BAD_REQUEST: u16 = 400;

/// The payload of a reply.
#[derive(Clone, Debug, PartialEq, Eq)]
pub enum Body {
    /// Nothing at all.
    Empty,
    /// Plain text.
    Text(String),
    /// A validity report, to be sent as a JSON object.
    Json(EmailAddressInfo),
}

/// The mathematical content of a [`Body`].
pub enum BodyView {
    Empty,
    Text(Seq<char>),
    Json(EmailAddressInfoView),
}

impl View for Body {
    type V = BodyView;

    open spec fn view(&self) -> BodyView {
        match self {
            Body::Empty => BodyView::Empty,
            Body::Text(text) => BodyView::Text(text@),
            Body::Json(info) => BodyView::Json(info@),
        }
    }
}

/// An HTTP answer: a status code and a payload.
#[derive(Clone, Debug, PartialEq, Eq)]
pub struct Reply {
    pub status: u16,
    pub body: Body,
}

/// The mathematical content of a [`Reply`].
pub struct ReplyView {
    pub status: u16,
    pub body: BodyView,
}

impl View for Reply {
    type V = ReplyView;

    open spec fn view(&self) -> ReplyView {
        ReplyView { status: self.status, body: self.body@ }
    }
}

/// The outcome of handling one request: the line to write to the log, if the
/// request leaves one, and the reply to send.
#[derive(Clone, Debug, PartialEq, Eq)]
pub struct Handled {
    pub notice: Option<String>,
    pub reply: Reply,
}

/// The mathematical content of a [`Handled`].
pub struct HandledView {
    pub notice: Option<Seq<char>>,
    pub reply: ReplyView,
}

impl View for Handled {
    type V = HandledView;

    open spec fn view(&self) -> HandledView {
        HandledView {
            notice: match self.notice {
                Some(line) => Some(line@),
                None => None,
            },
            reply: self.reply@,
        }
    }
}

} // verus!
