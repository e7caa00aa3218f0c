//! The service's endpoints, run against the in-memory database: showing the
//! listing, taking a submission and handing out a stored file.

use crate::avatar::{fetched_avatar, FetchOutcome, FetchOutcomeView};
use crate::db::{
    fetch_all_posts, get_file, insert_file, insert_post, Blob, Database, NotFound, PostView,
};
use crate::ident::BlobId;
use crate::page::{page, render};
use crate::sanitize::escaped;
use crate::submission::{
    image_type, Action, Event, Phase, Rejection, Submission, SubmissionView, Verdict,
};
use crate::text::{bytes_view, text_view};
use crate::FRONTPAGE_LOCATION;
use vstd::pervasive::unreached;
use vstd::prelude::*;

verus! {

/// What an endpoint answers.
#[derive(Debug, PartialEq, Eq)]
pub enum Response {
    /// 303: the client is sent on to `location`.
    Redirect { location: String },
    /// 400, with a short reason as plain text.
    BadRequest { reason: String },
    /// 404, with a short reason as plain text.
    NotFound { reason: String },
    /// 200: a stored file and its media type.
    File { content_type: String, data: Vec<u8> },
}

pub enum ResponseView {
    Redirect { location: Seq<char> },
    BadRequest { reason: Seq<char> },
    NotFound { reason: Seq<char> },
    File { content_type: Seq<char>, data: Seq<u8> },
}

impl View for Response {
    type V = ResponseView;

    open spec fn view(&self) -> ResponseView {
        match self {
            Response::Redirect { location } => ResponseView::Redirect { location: location@ },
            Response::BadRequest { reason } => ResponseView::BadRequest { reason: reason@ },
            Response::NotFound { reason } => ResponseView::NotFound { reason: reason@ },
            Response::File { content_type, data } => ResponseView::File {
                content_type: content_type@,
                data: data@,
            },
        }
    }
}

impl Response {
    /// The HTTP status code of the answer.
    pub fn status(&self) -> (code: u16)
        ensures
            code == match self@ {
                ResponseView::Redirect { .. } => 303u16,
                ResponseView::BadRequest { .. } => 400u16,
                ResponseView::NotFound { .. } => 404u16,
                ResponseView::File { .. } => 200u16,
            },
    {
        match self {
            Response::Redirect { .. } => 303,
            Response::BadRequest { .. } => 400,
            Response::NotFound { .. } => 404,
            Response::File { .. } => 200,
        }
    }
}

/// The answer that a verdict on a submission stands for.
pub open spec fn response_to(verdict: Verdict) -> ResponseView {
    match verdict {
        Verdict::Accepted => ResponseView::Redirect { location: FRONTPAGE_LOCATION@ },
        Verdict::Rejected(why) => ResponseView::BadRequest { reason: why.text() },
    }
}

/// Answers a submission: an accepted one is sent on to the listing, a
/// rejected one is told why.
pub fn respond(verdict: Verdict) -> (response: Response)
    ensures
        response@ == response_to(verdict),
{
    match verdict {
        Verdict::Accepted => Response::Redirect { location: FRONTPAGE_LOCATION.to_owned() },
        Verdict::Rejected(why) => Response::BadRequest { reason: why.message().to_owned() },
    }
}

/// One field of a submitted form, as it arrived.
#[derive(Debug, PartialEq, Eq)]
pub enum Part {
    /// The `username` field; `None` where it could not be read as text.
    Username(Option<String>),
    /// The `useravatar` field, and how the fetch of its URL ends if the
    /// pipeline asks for one.
    UserAvatar { url: Option<String>, fetched: FetchOutcome },
    /// The `content` field.
    Content(Option<String>),
    /// The `image` field with its declared media type; `data` is `None` where
    /// its bytes could not be read.
    Image { content_type: Option<String>, data: Option<Vec<u8>> },
    /// A field with any other name.
    Other,
}

pub enum PartView {
    Username(Option<Seq<char>>),
    UserAvatar { url: Option<Seq<char>>, fetched: FetchOutcomeView },
    Content(Option<Seq<char>>),
    Image { content_type: Option<Seq<char>>, data: Option<Seq<u8>> },
    Other,
}

impl View for Part {
    type V = PartView;

    open spec fn view(&self) -> PartView {
        match self {
            Part::Username(text) => PartView::Username(text_view(*text)),
            Part::UserAvatar { url, fetched } => PartView::UserAvatar {
                url: text_view(*url),
                fetched: fetched@,
            },
            Part::Content(text) => PartView::Content(text_view(*text)),
            Part::Image { content_type, data } => PartView::Image {
                content_type: text_view(*content_type),
                data: bytes_view(*data),
            },
            Part::Other => PartView::Other,
        }
    }
}

/// The views of a form's parts, in the order of their arrival.
pub open spec fn part_views(parts: Seq<Part>) -> Seq<PartView> {
    parts.map_values(|p: Part| p@)
}

/// What a submission has gathered so far.
pub struct Draft {
    pub username: Seq<char>,
    pub useravatar: Option<BlobId>,
    pub content: Seq<char>,
    pub image: Option<BlobId>,
}

/// A submission part-way through its form: the blob store as it stands, the
/// draft, and the reason for which the submission was turned down, if it was.
pub struct Progress {
    pub files: Map<BlobId, Blob>,
    pub draft: Draft,
    pub rejection: Option<Rejection>,
}

/// The start of a submission over a blob store.
pub open spec fn begin(files: Map<BlobId, Blob>) -> Progress {
    Progress {
        files,
        draft: Draft {
            username: Seq::empty(),
            useravatar: None,
            content: Seq::empty(),
            image: None,
        },
        rejection: None,
    }
}

/// The submission is turned down; what it stored so far stays stored.
pub open spec fn fail(p: Progress, why: Rejection) -> Progress {
    Progress { rejection: Some(why), ..p }
}

/// What one part does to a submission. `id` is the identifier that the blob
/// store draws if the part has it store a blob; a draw that is already taken
/// is a failed write. After a rejection nothing is done any more.
pub open spec fn absorb(p: Progress, part: PartView, id: BlobId) -> Progress {
    if p.rejection is Some {
        p
    } else {
        match part {
            PartView::Username(Some(text)) => Progress {
                draft: Draft { username: text, ..p.draft },
                ..p
            },
            PartView::Username(None) => fail(p, Rejection::BadUsername),
            PartView::Content(Some(text)) => Progress {
                draft: Draft { content: text, ..p.draft },
                ..p
            },
            PartView::Content(None) => fail(p, Rejection::BadContent),
            PartView::UserAvatar { url: Some(url), fetched } => if url.len() == 0 {
                p
            } else {
                match fetched_avatar(fetched) {
                    Ok(Some(blob)) => if p.files.contains_key(id) {
                        fail(p, Rejection::BadUserAvatar)
                    } else {
                        Progress {
                            files: p.files.insert(id, blob),
                            draft: Draft { useravatar: Some(id), ..p.draft },
                            ..p
                        }
                    },
                    Ok(None) => p,
                    Err(_) => fail(p, Rejection::BadUserAvatar),
                }
            },
            PartView::UserAvatar { url: None, fetched } => fail(p, Rejection::BadUserAvatar),
            PartView::Image { content_type, data: Some(bytes) } => if bytes.len() == 0 {
                p
            } else if p.files.contains_key(id) {
                fail(p, Rejection::BadImage)
            } else {
                Progress {
                    files: p.files.insert(
                        id,
                        Blob { content_type: image_type(content_type), content: bytes },
                    ),
                    draft: Draft { image: Some(id), ..p.draft },
                    ..p
                }
            },
            PartView::Image { content_type, data: None } => fail(p, Rejection::BadImage),
            PartView::Other => p,
        }
    }
}

/// What a form's parts do to a submission, taken in the order of their
/// arrival; `ids[i]` is the blob store's draw for part `i`.
pub open spec fn absorb_all(p: Progress, parts: Seq<PartView>, ids: Seq<BlobId>) -> Progress
    decreases parts.len(),
{
    if parts.len() == 0 {
        p
    } else {
        absorb(absorb_all(p, parts.drop_last(), ids.drop_last()), parts.last(), ids.last())
    }
}

/// What the end of the form does: the posts afterwards, and the verdict. A
/// submission that was not turned down and has a username and a content
/// appends one post, its content escaped; any other appends nothing.
pub open spec fn conclude(p: Progress, posts: Seq<PostView>, date: Seq<char>) -> (
    Seq<PostView>,
    Verdict,
) {
    match p.rejection {
        Some(why) => (posts, Verdict::Rejected(why)),
        None => if p.draft.username.len() == 0 || p.draft.content.len() == 0 {
            (posts, Verdict::Rejected(Rejection::BadRequest))
        } else {
            (
                posts.push(
                    PostView {
                        username: p.draft.username,
                        useravatar: p.draft.useravatar,
                        date,
                        content: escaped(p.draft.content),
                        image: p.draft.image,
                    },
                ),
                Verdict::Accepted,
            )
        },
    }
}

/// A submission of `parts` at time `date`, with `ids` the blob store's draws,
/// takes the stores from `posts` and `files` to `posts_after` and
/// `files_after` and is answered by `response`.
pub open spec fn submitted(
    posts: Seq<PostView>,
    files: Map<BlobId, Blob>,
    parts: Seq<PartView>,
    ids: Seq<BlobId>,
    date: Seq<char>,
    posts_after: Seq<PostView>,
    files_after: Map<BlobId, Blob>,
    response: ResponseView,
) -> bool {
    let end = absorb_all(begin(files), parts, ids);
    &&& ids.len() == parts.len()
    &&& files_after == end.files
    &&& posts_after == conclude(end, posts, date).0
    &&& response == response_to(conclude(end, posts, date).1)
}

/// Once a submission is turned down, the rest of the form changes nothing:
/// the parts up to the one that failed decide the outcome.
pub proof fn lemma_rejection_is_final(
    p: Progress,
    parts: Seq<PartView>,
    ids: Seq<BlobId>,
    k: int,
)
    requires
        0 <= k <= parts.len(),
        ids.len() == parts.len(),
        absorb_all(p, parts.take(k), ids.take(k)).rejection is Some,
    ensures
        absorb_all(p, parts, ids) == absorb_all(p, parts.take(k), ids.take(k)),
    decreases parts.len(),
{
    if k == parts.len() {
        assert(parts.take(k) == parts);
        assert(ids.take(k) == ids);
    } else {
        assert(parts.drop_last().take(k) == parts.take(k));
        assert(ids.drop_last().take(k) == ids.take(k));
        lemma_rejection_is_final(p, parts.drop_last(), ids.drop_last(), k);
    }
}

/// The progress that a state of the submission machine stands for.
spec fn progress_of(files: Map<BlobId, Blob>, s: SubmissionView) -> Progress {
    Progress {
        files,
        draft: Draft {
            username: s.username,
            useravatar: s.useravatar,
            content: s.content,
            image: s.image,
        },
        rejection: match s.phase {
            Phase::Finished(Verdict::Rejected(why)) => Some(why),
            _ => None,
        },
    }
}

/// Takes a submission: runs the form's parts through the pipeline, in the
/// order of their arrival, stores the blobs that they carry and, if nothing
/// was amiss, appends the post, dated `date`. The first part that fails ends
/// the submission; blobs stored for earlier parts stay in the store.
pub fn add_post(db: &mut Database, parts: Vec<Part>, date: &str) -> (response: Response)
    ensures
        exists|ids: Seq<BlobId>| #[trigger]
            submitted(
                old(db).posts(),
                old(db).files(),
                part_views(parts@),
                ids,
                date@,
                final(db).posts(),
                final(db).files(),
                response@,
            ),
{
    let ghost whole = parts@;
    let ghost all = part_views(parts@);
    let ghost start = begin(db.files());
    let ghost mut ids: Seq<BlobId> = Seq::empty();
    let mut submission = Submission::new();
    assert(all.take(0) == Seq::<PartView>::empty());
    assert(progress_of(db.files(), submission@) == start);
    for part in it: parts.into_iter()
        invariant
            it.seq() == whole,
            all == part_views(whole),
            start == begin(old(db).files()),
            ids.len() == it.index(),
            submission@.phase == Phase::Reading,
            db.posts() == old(db).posts(),
            absorb_all(start, all.take(it.index() as int), ids) == progress_of(
                db.files(),
                submission@,
            ),
    {
        let ghost k = it.index() as int;
        let ghost before = progress_of(db.files(), submission@);
        let ghost files_before = db.files();
        let ghost mut id = BlobId { value: 0 };
        assert(all[k] == part@);
        let asked = match part {
            Part::Username(text) => submission.step(Event::Username(text)),
            Part::Content(text) => submission.step(Event::Content(text)),
            Part::Image { content_type, data } => submission.step(
                Event::Image { content_type, data },
            ),
            Part::Other => submission.step(Event::Other),
            Part::UserAvatar { url, fetched } => match submission.step(Event::UserAvatar(url)) {
                Action::Fetch(_) => submission.step(Event::Fetched(fetched)),
                other => other,
            },
        };
        let action = match asked {
            Action::Store(blob) => {
                let stored = insert_file(db, blob.content_type.as_str(), blob.content);
                proof {
                    id =
                    match stored {
                        Ok(drawn) => drawn,
                        Err(_) => choose|taken: BlobId| files_before.contains_key(taken),
                    };
                }
                submission.step(Event::Stored(stored))
            },
            other => other,
        };
        proof {
            assert(all.take(k + 1).drop_last() == all.take(k));
            assert(ids.push(id).drop_last() == ids);
            assert(progress_of(db.files(), submission@) == absorb(before, all[k], id));
            ids = ids.push(id);
        }
        match action {
            Action::Next => {},
            Action::Respond(verdict) => {
                proof {
                    let n = all.len() as int;
                    let full = ids + Seq::new((n - (k + 1)) as nat, |j: int| id);
                    assert(full.take(k + 1) == ids);
                    lemma_rejection_is_final(start, all, full, k + 1);
                    assert(submitted(
                        old(db).posts(),
                        old(db).files(),
                        all,
                        full,
                        date@,
                        db.posts(),
                        db.files(),
                        response_to(verdict),
                    ));
                }
                return respond(verdict);
            },
            _ => {
                return unreached();
            },
        }
    }
    assert(all.take(all.len() as int) == all);
    let ghost end = progress_of(db.files(), submission@);
    let verdict = match submission.step(Event::End) {
        Action::Commit(post) => {
            let written = insert_post(
                db,
                post.username.as_str(),
                &post.useravatar,
                post.content.as_str(),
                &post.image,
                date,
            );
            match submission.step(Event::Committed(written)) {
                Action::Respond(verdict) => verdict,
                _ => unreached(),
            }
        },
        Action::Respond(verdict) => verdict,
        _ => unreached(),
    };
    assert(submitted(
        old(db).posts(),
        old(db).files(),
        all,
        ids,
        date@,
        db.posts(),
        db.files(),
        response_to(verdict),
    ));
    respond(verdict)
}

/// Why a request for a stored file found nothing.
#[derive(Clone, Copy, Debug, PartialEq, Eq, Structural)]
pub enum Missing {
    /// The path did not hold an identifier.
    InvalidId,
    /// No file is stored under the identifier, or what is stored cannot be
    /// served.
    DataNotFound,
}

impl Missing {
    /// The reason as the client is told it.
    pub open spec fn text(self) -> Seq<char> {
        match self {
            Missing::InvalidId => "invalid id"@,
            Missing::DataNotFound => "data not found"@,
        }
    }

    pub fn message(&self) -> (message: &'static str)
        ensures
            message@ == self.text(),
    {
        match self {
            Missing::InvalidId => "invalid id",
            Missing::DataNotFound => "data not found",
        }
    }
}

/// A character that may stand in the value of an HTTP header: anything but
/// the control characters, of which only the tab is let through.
pub open spec fn is_header_char(c: char) -> bool {
    (c as u32 >= 32 && c as u32 != 127) || c as u32 == 9
}

/// A text that can be sent as the value of an HTTP header.
pub open spec fn is_header_text(text: Seq<char>) -> bool {
    forall|i: int| 0 <= i < text.len() ==> is_header_char(#[trigger] text[i])
}

/// Asks `http::HeaderValue::from_str` (as axum hands it on) whether it takes
/// the text. Trusted: it turns down a text exactly when one of its bytes is
/// a control character other than the tab; no byte of a character beyond
/// ASCII is one.
#[verifier::external_body]
fn is_header_value(text: &str) -> (valid: bool)
    ensures
        valid == is_header_text(text@),
{
    axum::http::HeaderValue::from_str(text).is_ok()
}

/// The "not found" answer for a reason.
pub fn not_found(why: Missing) -> (response: Response)
    ensures
        response@ == (ResponseView::NotFound { reason: why.text() }),
{
    Response::NotFound { reason: why.message().to_owned() }
}

/// The answer for what the store holds under an identifier.
pub open spec fn file_response_of(found: Option<Blob>) -> ResponseView {
    match found {
        Some(blob) => if is_header_text(blob.content_type) {
            ResponseView::File { content_type: blob.content_type, data: blob.content }
        } else {
            ResponseView::NotFound { reason: Missing::DataNotFound.text() }
        },
        None => ResponseView::NotFound { reason: Missing::DataNotFound.text() },
    }
}

/// The answer to a request for a stored file, by its path parameter.
pub open spec fn served(files: Map<BlobId, Blob>, file_id: Seq<char>) -> ResponseView {
    match BlobId::parsed(file_id) {
        None => ResponseView::NotFound { reason: Missing::InvalidId.text() },
        Some(id) => file_response_of(
            if files.contains_key(id) {
                Some(files[id])
            } else {
                None
            },
        ),
    }
}

/// Answers with what a lookup in the blob store gave: the file with its
/// media type, or "not found" where nothing was found or where the stored
/// media type cannot be sent as a header.
pub fn file_response(found: Result<(String, Vec<u8>), NotFound>) -> (response: Response)
    ensures
        response@ == file_response_of(
            match found {
                Ok((content_type, data)) => Some(
                    Blob { content_type: content_type@, content: data@ },
                ),
                Err(_) => None,
            },
        ),
{
    match found {
        Ok((content_type, data)) => {
            if is_header_value(content_type.as_str()) {
                Response::File { content_type, data }
            } else {
                not_found(Missing::DataNotFound)
            }
        },
        Err(_) => not_found(Missing::DataNotFound),
    }
}

/// Hands out the file stored under the identifier that `file_id` denotes.
pub fn serve_data(db: &Database, file_id: &str) -> (response: Response)
    ensures
        response@ == served(db.files(), file_id@),
{
    match BlobId::parse(file_id) {
        None => not_found(Missing::InvalidId),
        Some(id) => file_response(get_file(db, &id)),
    }
}

/// The listing page for the posts in the database, oldest first.
pub fn frontpage(db: &Database) -> (html: String)
    ensures
        html@ == page(db.posts()),
{
    let posts = fetch_all_posts(db);
    render(&posts)
}

} // verus!
