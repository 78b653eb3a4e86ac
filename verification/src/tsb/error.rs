//! Errors of the TSB transport.
use crate::text::{decimal, decimal_of, join3};
use vstd::prelude::*;

verus! {

/// Errors from the TSB transport.
#[derive(Debug)]
pub enum TsbError {
    /// The TSB API returned a non-success status.
    Api {
        /// HTTP status code.
        status: u16,
        /// Response body (may carry a Securosys `reason`/`message`).
        body: String,
    },
    /// Response decoding failure (bad base64, wrong length, missing field).
    Decode(String),
    /// Why the HTTP exchange failed.
    Http(String),
}

/// A [`TsbError`] with its texts as character sequences.
pub enum TsbErrorView {
    Api { status: u16, body: Seq<char> },
    Decode(Seq<char>),
    Http(Seq<char>),
}

impl View for TsbError {
    type V = TsbErrorView;

    open spec fn view(&self) -> TsbErrorView {
        match *self {
            TsbError::Api { status, body } => TsbErrorView::Api { status, body: body@ },
            TsbError::Decode(reason) => TsbErrorView::Decode(reason@),
            TsbError::Http(reason) => TsbErrorView::Http(reason@),
        }
    }
}

impl TsbErrorView {
    /// What the error reads.
    pub open spec fn message(self) -> Seq<char> {
        match self {
            TsbErrorView::Api { status, body } => "TSB API error (HTTP "@ + decimal(status as nat)
                + "): "@ + body,
            TsbErrorView::Decode(reason) => "TSB decode error: "@ + reason,
            TsbErrorView::Http(reason) => reason,
        }
    }
}

impl TsbError {
    /// What the error reads.
    pub fn message(&self) -> (text: String)
        ensures
            text@ == self@.message(),
    {
        match self {
            TsbError::Api { status, body } => {
                let code = decimal_of(*status as u64);
                let mut text = join3("TSB API error (HTTP ", code.as_str(), "): ");
                text.append(body.as_str());
                text
            },
            TsbError::Decode(reason) => {
                let mut text = "TSB decode error: ".to_owned();
                text.append(reason.as_str());
                text
            },
            TsbError::Http(reason) => reason.clone(),
        }
    }
}

/// The view of an error is of the same variant and holds the same status and text.
pub proof fn law_error_is_seen_whole(e: TsbError)
    ensures
        e is Api ==> e@ is Api && e@->status == e->status && e@->body == e->body@,
        e is Decode ==> e@ == TsbErrorView::Decode(e->Decode_0@),
        e is Http ==> e@ == TsbErrorView::Http(e->Http_0@),
{
}

/// An error reads as what went wrong, with the status in decimal, followed by
/// the text it holds.
pub proof fn law_error_message(status: u16, text: Seq<char>)
    ensures
        (TsbErrorView::Api { status, body: text }).message() == "TSB API error (HTTP "@ + decimal(
            status as nat,
        ) + "): "@ + text,
        TsbErrorView::Decode(text).message() == "TSB decode error: "@ + text,
        TsbErrorView::Http(text).message() == text,
{
}

} // verus!
