//! The avatar resolver's decision: what the answer to the request for an
//! avatar's URL gives the submission.

use crate::db::Blob;
use crate::text::bytes_view;
use vstd::prelude::*;

verus! {

/// The `Content-Type` header of an answer.
#[derive(Debug, PartialEq, Eq)]
pub enum HeaderText {
    /// The answer carried no such header.
    Absent,
    /// The header was there, and its value was not text.
    Unreadable,
    /// The header's value.
    Text(String),
}

pub enum HeaderTextView {
    Absent,
    Unreadable,
    Text(Seq<char>),
}

impl View for HeaderText {
    type V = HeaderTextView;

    open spec fn view(&self) -> HeaderTextView {
        match self {
            HeaderText::Absent => HeaderTextView::Absent,
            HeaderText::Unreadable => HeaderTextView::Unreadable,
            HeaderText::Text(text) => HeaderTextView::Text(text@),
        }
    }
}

/// How the one attempt to fetch a URL ended.
#[derive(Debug, PartialEq, Eq)]
pub enum FetchOutcome {
    /// No answer came: the request could not be sent, or it timed out.
    Failed,
    /// The remote end answered. `body` is `None` where reading it broke off.
    Answered { status: u16, content_type: HeaderText, body: Option<Vec<u8>> },
}

pub enum FetchOutcomeView {
    Failed,
    Answered { status: u16, content_type: HeaderTextView, body: Option<Seq<u8>> },
}

impl View for FetchOutcome {
    type V = FetchOutcomeView;

    open spec fn view(&self) -> FetchOutcomeView {
        match self {
            FetchOutcome::Failed => FetchOutcomeView::Failed,
            FetchOutcome::Answered { status, content_type, body } => FetchOutcomeView::Answered {
                status: *status,
                content_type: content_type@,
                body: bytes_view(*body),
            },
        }
    }
}

/// A file on its way into the blob store.
#[derive(Debug, PartialEq, Eq)]
pub struct NewBlob {
    pub content_type: String,
    pub content: Vec<u8>,
}

impl View for NewBlob {
    type V = Blob;

    open spec fn view(&self) -> Blob {
        Blob { content_type: self.content_type@, content: self.content@ }
    }
}

/// The avatar could not be had from its URL.
#[derive(Clone, Copy, Debug, PartialEq, Eq, Structural)]
pub struct AvatarFetchFailure {}

/// The status codes that count as success: 200 to 299.
pub open spec fn is_success(status: u16) -> bool {
    200 <= status <= 299
}

/// What an answer gives: a blob to store, no avatar (the body was empty), or
/// a failure. Only a successful answer with a readable media type and a
/// complete body gives anything but a failure.
pub open spec fn fetched_avatar(outcome: FetchOutcomeView) -> Result<
    Option<Blob>,
    AvatarFetchFailure,
> {
    match outcome {
        FetchOutcomeView::Answered {
            status,
            content_type: HeaderTextView::Text(media_type),
            body: Some(bytes),
        } => {
            if !is_success(status) {
                Err(AvatarFetchFailure {  })
            } else if bytes.len() == 0 {
                Ok(None)
            } else {
                Ok(Some(Blob { content_type: media_type, content: bytes }))
            }
        },
        _ => Err(AvatarFetchFailure {  }),
    }
}

/// Decides what the outcome of a fetch gives the submission.
pub fn avatar_of(outcome: FetchOutcome) -> (avatar: Result<Option<NewBlob>, AvatarFetchFailure>)
    ensures
        match avatar {
            Ok(Some(blob)) => fetched_avatar(outcome@) == Ok::<Option<Blob>, AvatarFetchFailure>(
                Some(blob@),
            ),
            Ok(None) => fetched_avatar(outcome@) == Ok::<Option<Blob>, AvatarFetchFailure>(None),
            Err(_) => fetched_avatar(outcome@) is Err,
        },
{
    match outcome {
        FetchOutcome::Answered { status, content_type: HeaderText::Text(media_type), body: Some(bytes) } => {
            if status < 200 || status > 299 {
                Err(AvatarFetchFailure {  })
            } else if bytes.len() == 0 {
                Ok(None)
            } else {
                Ok(Some(NewBlob { content_type: media_type, content: bytes }))
            }
        },
        _ => Err(AvatarFetchFailure {  }),
    }
}

} // verus!
