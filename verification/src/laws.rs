//! What holds of the stores and of the pipeline on every input.

use crate::avatar::{fetched_avatar, FetchOutcomeView};
use crate::db::{get, post_views, put, Blob, Database, NotFound, Post, PostView, StorageFailure};
use crate::endpoints::{
    absorb, absorb_all, begin, conclude, served, submitted, Draft, Missing, PartView, Progress,
    ResponseView,
};
use crate::ident::BlobId;
use crate::sanitize::{escaped, lemma_escaped_len};
use crate::submission::{
    image_type, step_spec, ActionView, EventView, Phase, Rejection, SubmissionView, Verdict,
};
use vstd::prelude::*;

verus! {

/// A blob that was stored is handed out again as it went in: the same media
/// type and the same bytes.
pub proof fn law_stored_blob_is_returned(files: Map<BlobId, Blob>, id: BlobId, blob: Blob)
    requires
        put(files, id, blob) is Ok,
    ensures
        get(put(files, id, blob)->Ok_0, id) == Ok::<Blob, NotFound>(blob),
{
}

/// Storing a blob changes nothing that was stored before: every other
/// identifier gives what it gave.
pub proof fn law_stored_blobs_stay(files: Map<BlobId, Blob>, id: BlobId, blob: Blob, other: BlobId)
    requires
        put(files, id, blob) is Ok,
        other != id,
    ensures
        get(put(files, id, blob)->Ok_0, other) == get(files, other),
{
}

/// Two writes that both succeed, one after the other, have different
/// identifiers, whatever they store.
pub proof fn law_identifiers_are_unique(
    files: Map<BlobId, Blob>,
    first: BlobId,
    first_blob: Blob,
    second: BlobId,
    second_blob: Blob,
)
    requires
        put(files, first, first_blob) is Ok,
        put(put(files, first, first_blob)->Ok_0, second, second_blob) is Ok,
    ensures
        first != second,
{
}

/// An identifier under which nothing was stored gives nothing.
pub proof fn law_unknown_identifier_is_not_found(files: Map<BlobId, Blob>, id: BlobId)
    requires
        !files.contains_key(id),
    ensures
        get(files, id) is Err,
{
}

/// Listing twice, with no write in between, shows the same posts in the same
/// order.
pub proof fn law_listing_is_repeatable(db: Database, first: Vec<Post>, second: Vec<Post>)
    requires
        post_views(first@) == db.posts(),
        post_views(second@) == db.posts(),
    ensures
        first.len() == second.len(),
        forall|i: int| 0 <= i < first.len() ==> first[i]@ == second[i]@,
{
    assert(post_views(first@).len() == first@.len());
    assert(post_views(second@).len() == second@.len());
    assert forall|i: int| 0 <= i < first.len() implies first[i]@ == second[i]@ by {
        assert(post_views(first@)[i] == first[i]@);
        assert(post_views(second@)[i] == second[i]@);
    }
}

/// The username that a form gives: the text of its last `username` part.
pub open spec fn last_username(parts: Seq<PartView>) -> Seq<char>
    decreases parts.len(),
{
    if parts.len() == 0 {
        Seq::empty()
    } else {
        match parts.last() {
            PartView::Username(Some(text)) => text,
            _ => last_username(parts.drop_last()),
        }
    }
}

/// The content that a form gives: the text of its last `content` part.
pub open spec fn last_content(parts: Seq<PartView>) -> Seq<char>
    decreases parts.len(),
{
    if parts.len() == 0 {
        Seq::empty()
    } else {
        match parts.last() {
            PartView::Content(Some(text)) => text,
            _ => last_content(parts.drop_last()),
        }
    }
}

/// A form that carries nothing but readable text: no avatar, no image.
pub open spec fn is_plain(parts: Seq<PartView>) -> bool {
    forall|i: int|
        0 <= i < parts.len() ==> match #[trigger] parts[i] {
            PartView::Username(Some(_)) => true,
            PartView::Content(Some(_)) => true,
            PartView::Other => true,
            _ => false,
        }
}

/// A submission that is not turned down on the way holds the last username
/// and the last content that its form gave.
pub proof fn lemma_draft_holds_last_texts(
    files: Map<BlobId, Blob>,
    parts: Seq<PartView>,
    ids: Seq<BlobId>,
)
    requires
        absorb_all(begin(files), parts, ids).rejection is None,
    ensures
        absorb_all(begin(files), parts, ids).draft.username == last_username(parts),
        absorb_all(begin(files), parts, ids).draft.content == last_content(parts),
    decreases parts.len(),
{
    if parts.len() > 0 {
        let before = absorb_all(begin(files), parts.drop_last(), ids.drop_last());
        if before.rejection is None {
            lemma_draft_holds_last_texts(files, parts.drop_last(), ids.drop_last());
        }
    }
}

/// A plain form is never turned down on the way, stores no blob and refers
/// to none.
pub proof fn lemma_plain_form_stores_nothing(
    files: Map<BlobId, Blob>,
    parts: Seq<PartView>,
    ids: Seq<BlobId>,
)
    requires
        is_plain(parts),
    ensures
        absorb_all(begin(files), parts, ids).rejection is None,
        absorb_all(begin(files), parts, ids).files == files,
        absorb_all(begin(files), parts, ids).draft.useravatar is None,
        absorb_all(begin(files), parts, ids).draft.image is None,
    decreases parts.len(),
{
    if parts.len() > 0 {
        let rest = parts.drop_last();
        assert forall|i: int| 0 <= i < rest.len() implies match #[trigger] rest[i] {
            PartView::Username(Some(_)) => true,
            PartView::Content(Some(_)) => true,
            PartView::Other => true,
            _ => false,
        } by {
            assert(rest[i] == parts[i]);
        }
        lemma_plain_form_stores_nothing(files, rest, ids.drop_last());
        assert(parts.last() == parts[parts.len() - 1]);
    }
}

/// A plain form with a username and a content is accepted: one post is
/// appended, its username as given, its content the escaped form of the
/// content given, without avatar and without image; the blob store is left
/// as it was.
pub proof fn law_plain_submission_is_stored_escaped(
    posts: Seq<PostView>,
    files: Map<BlobId, Blob>,
    parts: Seq<PartView>,
    ids: Seq<BlobId>,
    date: Seq<char>,
    posts_after: Seq<PostView>,
    files_after: Map<BlobId, Blob>,
    response: ResponseView,
)
    requires
        submitted(posts, files, parts, ids, date, posts_after, files_after, response),
        is_plain(parts),
        last_username(parts).len() > 0,
        last_content(parts).len() > 0,
    ensures
        response is Redirect,
        files_after == files,
        posts_after == posts.push(
            PostView {
                username: last_username(parts),
                useravatar: None,
                date,
                content: escaped(last_content(parts)),
                image: None,
            },
        ),
{
    lemma_plain_form_stores_nothing(files, parts, ids);
    lemma_draft_holds_last_texts(files, parts, ids);
}

/// A form that gives no username, or an empty one, or no content, or an
/// empty one, is turned down and appends no post, whatever else it carries.
pub proof fn law_empty_submission_is_rejected(
    posts: Seq<PostView>,
    files: Map<BlobId, Blob>,
    parts: Seq<PartView>,
    ids: Seq<BlobId>,
    date: Seq<char>,
    posts_after: Seq<PostView>,
    files_after: Map<BlobId, Blob>,
    response: ResponseView,
)
    requires
        submitted(posts, files, parts, ids, date, posts_after, files_after, response),
        last_username(parts).len() == 0 || last_content(parts).len() == 0,
    ensures
        response is BadRequest,
        posts_after == posts,
{
    let end = absorb_all(begin(files), parts, ids);
    if end.rejection is None {
        lemma_draft_holds_last_texts(files, parts, ids);
    }
}

/// Whatever the form, a submission that is turned down appends no post, and
/// one that is accepted appends exactly one.
pub proof fn law_one_post_or_none(
    posts: Seq<PostView>,
    files: Map<BlobId, Blob>,
    parts: Seq<PartView>,
    ids: Seq<BlobId>,
    date: Seq<char>,
    posts_after: Seq<PostView>,
    files_after: Map<BlobId, Blob>,
    response: ResponseView,
)
    requires
        submitted(posts, files, parts, ids, date, posts_after, files_after, response),
    ensures
        response is Redirect || response is BadRequest,
        response is BadRequest ==> posts_after == posts,
        response is Redirect ==> posts_after.len() == posts.len() + 1 && posts_after.drop_last()
            == posts,
{
    let end = absorb_all(begin(files), parts, ids);
    if conclude(end, posts, date).1 is Accepted {
        assert(posts_after.drop_last() =~= posts);
    }
}

/// An uploaded image with bytes is stored under the identifier drawn, with
/// its bytes as uploaded and its declared media type, or `image/png` where it
/// declares none; the submission then refers to it, and the store hands it
/// out under that identifier.
pub proof fn law_image_is_stored(
    p: Progress,
    content_type: Option<Seq<char>>,
    bytes: Seq<u8>,
    id: BlobId,
)
    requires
        p.rejection is None,
        bytes.len() > 0,
        !p.files.contains_key(id),
    ensures
        ({
            let after = absorb(p, PartView::Image { content_type, data: Some(bytes) }, id);
            let blob = Blob { content_type: image_type(content_type), content: bytes };
            &&& after.rejection is None
            &&& after.draft.image == Some(id)
            &&& put(p.files, id, blob) == Ok::<Map<BlobId, Blob>, StorageFailure>(after.files)
            &&& get(after.files, id) == Ok::<Blob, NotFound>(blob)
        }),
{
}

/// An uploaded image without bytes stores nothing and leaves the submission
/// as it was.
pub proof fn law_empty_image_is_dropped(p: Progress, content_type: Option<Seq<char>>, id: BlobId)
    ensures
        absorb(p, PartView::Image { content_type, data: Some(Seq::<u8>::empty()) }, id) == p,
{
}

/// An empty avatar URL asks for no fetch and leaves the submission as it was:
/// what a fetch would have given makes no difference.
pub proof fn law_empty_avatar_url_is_no_avatar(
    p: Progress,
    s: SubmissionView,
    fetched: FetchOutcomeView,
    id: BlobId,
)
    requires
        s.phase == Phase::Reading,
    ensures
        absorb(p, PartView::UserAvatar { url: Some(Seq::<char>::empty()), fetched }, id) == p,
        step_spec(s, EventView::UserAvatar(Some(Seq::<char>::empty()))) == (s, ActionView::Next),
{
}

/// A non-empty avatar URL is fetched, and the answer decides. An answer with
/// a body is stored under the identifier drawn and referred to; an answer
/// with an empty body leaves the submission without avatar; a failed fetch
/// ends the submission.
pub proof fn law_avatar_follows_the_fetch(
    p: Progress,
    url: Seq<char>,
    fetched: FetchOutcomeView,
    id: BlobId,
)
    requires
        p.rejection is None,
        url.len() > 0,
        !p.files.contains_key(id),
    ensures
        ({
            let after = absorb(p, PartView::UserAvatar { url: Some(url), fetched }, id);
            match fetched_avatar(fetched) {
                Ok(Some(blob)) => {
                    &&& after.rejection is None
                    &&& after.draft.useravatar == Some(id)
                    &&& put(p.files, id, blob) == Ok::<Map<BlobId, Blob>, StorageFailure>(
                        after.files,
                    )
                    &&& get(after.files, id) == Ok::<Blob, NotFound>(blob)
                },
                Ok(None) => after == p,
                Err(_) => after.rejection == Some(Rejection::BadUserAvatar) && after.files
                    == p.files,
            }
        }),
{
}

/// `after` holds everything that `before` holds, unchanged.
pub open spec fn extends(before: Map<BlobId, Blob>, after: Map<BlobId, Blob>) -> bool {
    forall|id: BlobId| #[trigger]
        before.contains_key(id) ==> after.contains_key(id) && after[id] == before[id]
}

/// The blobs that a draft refers to are in the store.
pub open spec fn refers_to_stored(draft: Draft, files: Map<BlobId, Blob>) -> bool {
    &&& draft.useravatar matches Some(id) ==> files.contains_key(id)
    &&& draft.image matches Some(id) ==> files.contains_key(id)
}

/// Every post has a username and a content, and the blobs that it refers to
/// are in the store.
pub open spec fn is_consistent(posts: Seq<PostView>, files: Map<BlobId, Blob>) -> bool {
    forall|i: int|
        0 <= i < posts.len() ==> {
            &&& (#[trigger] posts[i]).username.len() > 0
            &&& posts[i].content.len() > 0
            &&& posts[i].useravatar matches Some(id) ==> files.contains_key(id)
            &&& posts[i].image matches Some(id) ==> files.contains_key(id)
        }
}

/// Taking a form in only adds to the blob store, and what the draft refers
/// to is stored.
pub proof fn lemma_absorbing_only_adds(p: Progress, parts: Seq<PartView>, ids: Seq<BlobId>)
    requires
        refers_to_stored(p.draft, p.files),
    ensures
        extends(p.files, absorb_all(p, parts, ids).files),
        refers_to_stored(absorb_all(p, parts, ids).draft, absorb_all(p, parts, ids).files),
    decreases parts.len(),
{
    if parts.len() > 0 {
        lemma_absorbing_only_adds(p, parts.drop_last(), ids.drop_last());
    }
}

/// A submission, accepted or not, takes nothing out of the blob store and
/// changes no blob in it; blobs that it stored before it was turned down stay.
pub proof fn law_blobs_are_never_lost(
    posts: Seq<PostView>,
    files: Map<BlobId, Blob>,
    parts: Seq<PartView>,
    ids: Seq<BlobId>,
    date: Seq<char>,
    posts_after: Seq<PostView>,
    files_after: Map<BlobId, Blob>,
    response: ResponseView,
)
    requires
        submitted(posts, files, parts, ids, date, posts_after, files_after, response),
    ensures
        extends(files, files_after),
{
    lemma_absorbing_only_adds(begin(files), parts, ids);
}

/// Stores in which every post has a username and a content and refers only
/// to stored blobs are still such stores after a submission.
pub proof fn law_submission_keeps_consistency(
    posts: Seq<PostView>,
    files: Map<BlobId, Blob>,
    parts: Seq<PartView>,
    ids: Seq<BlobId>,
    date: Seq<char>,
    posts_after: Seq<PostView>,
    files_after: Map<BlobId, Blob>,
    response: ResponseView,
)
    requires
        submitted(posts, files, parts, ids, date, posts_after, files_after, response),
        is_consistent(posts, files),
    ensures
        is_consistent(posts_after, files_after),
{
    let end = absorb_all(begin(files), parts, ids);
    lemma_absorbing_only_adds(begin(files), parts, ids);
    lemma_escaped_len(end.draft.content);
    assert forall|i: int| 0 <= i < posts_after.len() implies {
        &&& (#[trigger] posts_after[i]).username.len() > 0
        &&& posts_after[i].content.len() > 0
        &&& posts_after[i].useravatar matches Some(id) ==> files_after.contains_key(id)
        &&& posts_after[i].image matches Some(id) ==> files_after.contains_key(id)
    } by {
        if i < posts.len() {
            assert(posts_after[i] == posts[i]);
        }
    }
}

/// A path that holds no identifier, and an identifier under which nothing is
/// stored, are both answered "not found".
pub proof fn law_unknown_file_is_not_found(files: Map<BlobId, Blob>, file_id: Seq<char>)
    requires
        BlobId::parsed(file_id) matches Some(id) ==> !files.contains_key(id),
    ensures
        served(files, file_id) is NotFound,
{
}

} // verus!
