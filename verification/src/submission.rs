//! The submission pipeline as a state machine. The caller reads the form's
//! fields, fetches, stores and answers; the machine decides, from what it is
//! told, what is to be done next.

use crate::avatar::{avatar_of, fetched_avatar, FetchOutcome, FetchOutcomeView, NewBlob};
use crate::db::{Blob, StorageFailure};
use crate::ident::BlobId;
use crate::sanitize::{encode_text, escaped};
use crate::text::{bytes_view, text_view};
use vstd::prelude::*;

verus! {

/// The media type of an uploaded image that declares none.
pub const DEFAULT_IMAGE_TYPE: &'static str = "image/png";

/// Why a submission was turned down.
#[derive(Clone, Copy, Debug, PartialEq, Eq, Structural)]
pub enum Rejection {
    BadUsername,
    BadContent,
    BadUserAvatar,
    BadImage,
    BadRequest,
}

impl Rejection {
    /// The reason as the client is told it.
    pub open spec fn text(self) -> Seq<char> {
        match self {
            Rejection::BadUsername => "bad username"@,
            Rejection::BadContent => "bad content"@,
            Rejection::BadUserAvatar => "bad user avatar"@,
            Rejection::BadImage => "bad image"@,
            Rejection::BadRequest => "bad request"@,
        }
    }

    pub fn message(&self) -> (message: &'static str)
        ensures
            message@ == self.text(),
    {
        match self {
            Rejection::BadUsername => "bad username",
            Rejection::BadContent => "bad content",
            Rejection::BadUserAvatar => "bad user avatar",
            Rejection::BadImage => "bad image",
            Rejection::BadRequest => "bad request",
        }
    }
}

/// How a submission ended.
#[derive(Clone, Copy, Debug, PartialEq, Eq, Structural)]
pub enum Verdict {
    Accepted,
    Rejected(Rejection),
}

/// The form fields that the pipeline knows.
#[derive(Clone, Copy, Debug, PartialEq, Eq, Structural)]
pub enum FieldKind {
    Username,
    UserAvatar,
    Content,
    Image,
    /// Any other name: such a field is passed over.
    Other,
}

pub open spec fn field_kind_of(name: Seq<char>) -> FieldKind {
    if name == "username"@ {
        FieldKind::Username
    } else if name == "useravatar"@ {
        FieldKind::UserAvatar
    } else if name == "content"@ {
        FieldKind::Content
    } else if name == "image"@ {
        FieldKind::Image
    } else {
        FieldKind::Other
    }
}

/// Which field a name stands for. A field without a name has the empty name.
pub fn field_kind(name: &str) -> (kind: FieldKind)
    ensures
        kind == field_kind_of(name@),
{
    if *name == *"username" {
        FieldKind::Username
    } else if *name == *"useravatar" {
        FieldKind::UserAvatar
    } else if *name == *"content" {
        FieldKind::Content
    } else if *name == *"image" {
        FieldKind::Image
    } else {
        FieldKind::Other
    }
}

/// What the machine is waiting for.
#[derive(Clone, Copy, Debug, PartialEq, Eq, Structural)]
pub enum Phase {
    /// The next field, or the end of the form.
    Reading,
    /// The outcome of fetching the avatar.
    Fetching,
    /// The outcome of storing the fetched avatar.
    StoringAvatar,
    /// The outcome of storing the uploaded image.
    StoringImage,
    /// The outcome of writing the post.
    Committing,
    /// Nothing: the submission has ended.
    Finished(Verdict),
}

/// What the caller tells the machine.
#[derive(Debug, PartialEq, Eq)]
pub enum Event {
    /// The `username` field arrived; `None` where it could not be read as text.
    Username(Option<String>),
    /// The `useravatar` field arrived.
    UserAvatar(Option<String>),
    /// The `content` field arrived.
    Content(Option<String>),
    /// The `image` field arrived, with the media type that the part declares;
    /// `data` is `None` where its bytes could not be read.
    Image { content_type: Option<String>, data: Option<Vec<u8>> },
    /// A field with another name arrived.
    Other,
    /// The form holds no further field.
    End,
    /// The fetch that the machine asked for has ended.
    Fetched(FetchOutcome),
    /// The blob store has answered.
    Stored(Result<BlobId, StorageFailure>),
    /// The post repository has answered.
    Committed(Result<(), StorageFailure>),
}

pub enum EventView {
    Username(Option<Seq<char>>),
    UserAvatar(Option<Seq<char>>),
    Content(Option<Seq<char>>),
    Image { content_type: Option<Seq<char>>, data: Option<Seq<u8>> },
    Other,
    End,
    Fetched(FetchOutcomeView),
    Stored(Result<BlobId, StorageFailure>),
    Committed(Result<(), StorageFailure>),
}

impl View for Event {
    type V = EventView;

    open spec fn view(&self) -> EventView {
        match self {
            Event::Username(text) => EventView::Username(text_view(*text)),
            Event::UserAvatar(text) => EventView::UserAvatar(text_view(*text)),
            Event::Content(text) => EventView::Content(text_view(*text)),
            Event::Image { content_type, data } => EventView::Image {
                content_type: text_view(*content_type),
                data: bytes_view(*data),
            },
            Event::Other => EventView::Other,
            Event::End => EventView::End,
            Event::Fetched(outcome) => EventView::Fetched(outcome@),
            Event::Stored(stored) => EventView::Stored(*stored),
            Event::Committed(written) => EventView::Committed(*written),
        }
    }
}

/// A post on its way into the repository: the username as given, the content
/// escaped, and the identifiers of the blobs stored for it.
#[derive(Debug, PartialEq, Eq)]
pub struct NewPost {
    pub username: String,
    pub useravatar: Option<BlobId>,
    pub content: String,
    pub image: Option<BlobId>,
}

pub struct NewPostView {
    pub username: Seq<char>,
    pub useravatar: Option<BlobId>,
    pub content: Seq<char>,
    pub image: Option<BlobId>,
}

impl View for NewPost {
    type V = NewPostView;

    open spec fn view(&self) -> NewPostView {
        NewPostView {
            username: self.username@,
            useravatar: self.useravatar,
            content: self.content@,
            image: self.image,
        }
    }
}

/// What the machine asks of the caller.
#[derive(Debug, PartialEq, Eq)]
pub enum Action {
    /// Read the next field and report it, or report the end of the form.
    Next,
    /// Fetch this URL, once, and report the outcome.
    Fetch(String),
    /// Store this blob and report the outcome.
    Store(NewBlob),
    /// Write this post and report the outcome.
    Commit(NewPost),
    /// Answer the client; the submission is over.
    Respond(Verdict),
}

pub enum ActionView {
    Next,
    Fetch(Seq<char>),
    Store(Blob),
    Commit(NewPostView),
    Respond(Verdict),
}

impl View for Action {
    type V = ActionView;

    open spec fn view(&self) -> ActionView {
        match self {
            Action::Next => ActionView::Next,
            Action::Fetch(url) => ActionView::Fetch(url@),
            Action::Store(blob) => ActionView::Store(blob@),
            Action::Commit(post) => ActionView::Commit(post@),
            Action::Respond(verdict) => ActionView::Respond(*verdict),
        }
    }
}

/// One submission in progress.
pub struct Submission {
    phase: Phase,
    username: String,
    useravatar: Option<BlobId>,
    content: String,
    image: Option<BlobId>,
}

pub struct SubmissionView {
    pub phase: Phase,
    pub username: Seq<char>,
    pub useravatar: Option<BlobId>,
    pub content: Seq<char>,
    pub image: Option<BlobId>,
}

impl View for Submission {
    type V = SubmissionView;

    closed spec fn view(&self) -> SubmissionView {
        SubmissionView {
            phase: self.phase,
            username: self.username@,
            useravatar: self.useravatar,
            content: self.content@,
            image: self.image,
        }
    }
}

/// A submission of which nothing has arrived yet.
pub open spec fn fresh() -> SubmissionView {
    SubmissionView {
        phase: Phase::Reading,
        username: Seq::empty(),
        useravatar: None,
        content: Seq::empty(),
        image: None,
    }
}

/// The submission ends, turned down for `why`.
pub open spec fn rejected(s: SubmissionView, why: Rejection) -> (SubmissionView, ActionView) {
    (
        SubmissionView { phase: Phase::Finished(Verdict::Rejected(why)), ..s },
        ActionView::Respond(Verdict::Rejected(why)),
    )
}

/// The submission goes on with the next field.
pub open spec fn resumed(s: SubmissionView) -> (SubmissionView, ActionView) {
    (SubmissionView { phase: Phase::Reading, ..s }, ActionView::Next)
}

/// The media type of an uploaded image: the declared one, else the default.
pub open spec fn image_type(declared: Option<Seq<char>>) -> Seq<char> {
    match declared {
        Some(media_type) => media_type,
        None => DEFAULT_IMAGE_TYPE@,
    }
}

/// The post that a submission commits.
pub open spec fn post_of(s: SubmissionView) -> NewPostView {
    NewPostView {
        username: s.username,
        useravatar: s.useravatar,
        content: escaped(s.content),
        image: s.image,
    }
}

/// The transition taken while fields are read.
pub open spec fn on_field(s: SubmissionView, e: EventView) -> (SubmissionView, ActionView) {
    match e {
        EventView::Username(Some(text)) => resumed(SubmissionView { username: text, ..s }),
        EventView::Username(None) => rejected(s, Rejection::BadUsername),
        EventView::Content(Some(text)) => resumed(SubmissionView { content: text, ..s }),
        EventView::Content(None) => rejected(s, Rejection::BadContent),
        EventView::UserAvatar(Some(url)) => if url.len() == 0 {
            resumed(s)
        } else {
            (SubmissionView { phase: Phase::Fetching, ..s }, ActionView::Fetch(url))
        },
        EventView::UserAvatar(None) => rejected(s, Rejection::BadUserAvatar),
        EventView::Image { content_type, data: Some(bytes) } => if bytes.len() == 0 {
            resumed(s)
        } else {
            (
                SubmissionView { phase: Phase::StoringImage, ..s },
                ActionView::Store(Blob { content_type: image_type(content_type), content: bytes }),
            )
        },
        EventView::Image { content_type, data: None } => rejected(s, Rejection::BadImage),
        EventView::Other => resumed(s),
        EventView::End => if s.username.len() == 0 || s.content.len() == 0 {
            rejected(s, Rejection::BadRequest)
        } else {
            (SubmissionView { phase: Phase::Committing, ..s }, ActionView::Commit(post_of(s)))
        },
        _ => rejected(s, Rejection::BadRequest),
    }
}

/// The transition taken on the outcome of a fetch.
pub open spec fn on_fetched(s: SubmissionView, outcome: FetchOutcomeView) -> (
    SubmissionView,
    ActionView,
) {
    match fetched_avatar(outcome) {
        Ok(Some(blob)) => (
            SubmissionView { phase: Phase::StoringAvatar, ..s },
            ActionView::Store(blob),
        ),
        Ok(None) => resumed(s),
        Err(_) => rejected(s, Rejection::BadUserAvatar),
    }
}

/// The machine's transition function: the state and the action that follow
/// from a state and an event. An event that the machine did not ask for ends
/// the submission as a bad request; once ended, a submission repeats its
/// verdict whatever it is told.
pub open spec fn step_spec(s: SubmissionView, e: EventView) -> (SubmissionView, ActionView) {
    match s.phase {
        Phase::Reading => on_field(s, e),
        Phase::Fetching => match e {
            EventView::Fetched(outcome) => on_fetched(s, outcome),
            _ => rejected(s, Rejection::BadRequest),
        },
        Phase::StoringAvatar => match e {
            EventView::Stored(Ok(id)) => resumed(SubmissionView { useravatar: Some(id), ..s }),
            EventView::Stored(Err(_)) => rejected(s, Rejection::BadUserAvatar),
            _ => rejected(s, Rejection::BadRequest),
        },
        Phase::StoringImage => match e {
            EventView::Stored(Ok(id)) => resumed(SubmissionView { image: Some(id), ..s }),
            EventView::Stored(Err(_)) => rejected(s, Rejection::BadImage),
            _ => rejected(s, Rejection::BadRequest),
        },
        Phase::Committing => match e {
            EventView::Committed(Ok(_)) => (
                SubmissionView { phase: Phase::Finished(Verdict::Accepted), ..s },
                ActionView::Respond(Verdict::Accepted),
            ),
            _ => rejected(s, Rejection::BadRequest),
        },
        Phase::Finished(verdict) => (s, ActionView::Respond(verdict)),
    }
}

impl Submission {
    /// A submission of which nothing has arrived yet.
    pub fn new() -> (submission: Submission)
        ensures
            submission@ == fresh(),
    {
        Submission {
            phase: Phase::Reading,
            username: String::new(),
            useravatar: None,
            content: String::new(),
            image: None,
        }
    }

    /// What the machine is waiting for.
    pub fn phase(&self) -> (phase: Phase)
        ensures
            phase == self@.phase,
    {
        self.phase
    }

    fn reject(&mut self, why: Rejection) -> (action: Action)
        ensures
            (final(self)@, action@) == rejected(old(self)@, why),
    {
        self.phase = Phase::Finished(Verdict::Rejected(why));
        Action::Respond(Verdict::Rejected(why))
    }

    fn resume(&mut self) -> (action: Action)
        ensures
            (final(self)@, action@) == resumed(old(self)@),
    {
        self.phase = Phase::Reading;
        Action::Next
    }

    fn take_field(&mut self, event: Event) -> (action: Action)
        ensures
            (final(self)@, action@) == on_field(old(self)@, event@),
    {
        match event {
            Event::Username(Some(text)) => {
                self.username = text;
                self.resume()
            },
            Event::Username(None) => self.reject(Rejection::BadUsername),
            Event::Content(Some(text)) => {
                self.content = text;
                self.resume()
            },
            Event::Content(None) => self.reject(Rejection::BadContent),
            Event::UserAvatar(Some(url)) => {
                if url.as_str().is_empty() {
                    self.resume()
                } else {
                    self.phase = Phase::Fetching;
                    Action::Fetch(url)
                }
            },
            Event::UserAvatar(None) => self.reject(Rejection::BadUserAvatar),
            Event::Image { content_type, data: Some(bytes) } => {
                if bytes.len() == 0 {
                    self.resume()
                } else {
                    let media_type = match content_type {
                        Some(declared) => declared,
                        None => DEFAULT_IMAGE_TYPE.to_owned(),
                    };
                    self.phase = Phase::StoringImage;
                    Action::Store(NewBlob { content_type: media_type, content: bytes })
                }
            },
            Event::Image { content_type, data: None } => self.reject(Rejection::BadImage),
            Event::Other => self.resume(),
            Event::End => {
                if self.username.as_str().is_empty() || self.content.as_str().is_empty() {
                    self.reject(Rejection::BadRequest)
                } else {
                    let post = NewPost {
                        username: self.username.clone(),
                        useravatar: self.useravatar,
                        content: encode_text(self.content.as_str()),
                        image: self.image,
                    };
                    self.phase = Phase::Committing;
                    Action::Commit(post)
                }
            },
            _ => self.reject(Rejection::BadRequest),
        }
    }

    fn take_fetched(&mut self, outcome: FetchOutcome) -> (action: Action)
        ensures
            (final(self)@, action@) == on_fetched(old(self)@, outcome@),
    {
        match avatar_of(outcome) {
            Ok(Some(blob)) => {
                self.phase = Phase::StoringAvatar;
                Action::Store(blob)
            },
            Ok(None) => self.resume(),
            Err(_) => self.reject(Rejection::BadUserAvatar),
        }
    }

    /// Takes an event and says what is to be done next.
    pub fn step(&mut self, event: Event) -> (action: Action)
        ensures
            (final(self)@, action@) == step_spec(old(self)@, event@),
    {
        match self.phase {
            Phase::Reading => self.take_field(event),
            Phase::Fetching => match event {
                Event::Fetched(outcome) => self.take_fetched(outcome),
                _ => self.reject(Rejection::BadRequest),
            },
            Phase::StoringAvatar => match event {
                Event::Stored(Ok(id)) => {
                    self.useravatar = Some(id);
                    self.resume()
                },
                Event::Stored(Err(_)) => self.reject(Rejection::BadUserAvatar),
                _ => self.reject(Rejection::BadRequest),
            },
            Phase::StoringImage => match event {
                Event::Stored(Ok(id)) => {
                    self.image = Some(id);
                    self.resume()
                },
                Event::Stored(Err(_)) => self.reject(Rejection::BadImage),
                _ => self.reject(Rejection::BadRequest),
            },
            Phase::Committing => match event {
                Event::Committed(Ok(_)) => {
                    self.phase = Phase::Finished(Verdict::Accepted);
                    Action::Respond(Verdict::Accepted)
                },
                _ => self.reject(Rejection::BadRequest),
            },
            Phase::Finished(verdict) => Action::Respond(verdict),
        }
    }
}

} // verus!
