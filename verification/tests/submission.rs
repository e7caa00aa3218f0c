use miniblog::avatar::{FetchOutcome, HeaderText, NewBlob};
use miniblog::db::StorageFailure;
use miniblog::ident::BlobId;
use miniblog::submission::{
    field_kind, Action, Event, FieldKind, NewPost, Phase, Rejection, Submission, Verdict,
    DEFAULT_IMAGE_TYPE,
};

fn text(s: &str) -> Option<String> {
    Some(s.to_string())
}

fn rejected(why: Rejection) -> Action {
    Action::Respond(Verdict::Rejected(why))
}

#[test]
fn field_names_are_told_apart() {
    assert_eq!(field_kind("username"), FieldKind::Username);
    assert_eq!(field_kind("useravatar"), FieldKind::UserAvatar);
    assert_eq!(field_kind("content"), FieldKind::Content);
    assert_eq!(field_kind("image"), FieldKind::Image);
    assert_eq!(field_kind(""), FieldKind::Other);
    assert_eq!(field_kind("Username"), FieldKind::Other);
    assert_eq!(field_kind("username "), FieldKind::Other);
    assert_eq!(field_kind("file"), FieldKind::Other);
}

#[test]
fn reasons_have_their_fixed_wording() {
    assert_eq!(Rejection::BadUsername.message(), "bad username");
    assert_eq!(Rejection::BadContent.message(), "bad content");
    assert_eq!(Rejection::BadUserAvatar.message(), "bad user avatar");
    assert_eq!(Rejection::BadImage.message(), "bad image");
    assert_eq!(Rejection::BadRequest.message(), "bad request");
    assert_eq!(DEFAULT_IMAGE_TYPE, "image/png");
}

#[test]
fn a_plain_submission_commits_the_escaped_content() {
    let mut s = Submission::new();
    assert_eq!(s.phase(), Phase::Reading);
    assert_eq!(s.step(Event::Username(text("alice"))), Action::Next);
    assert_eq!(s.step(Event::Content(text("<b>hi</b>"))), Action::Next);
    assert_eq!(
        s.step(Event::End),
        Action::Commit(NewPost {
            username: "alice".to_string(),
            useravatar: None,
            content: "&lt;b&gt;hi&lt;/b&gt;".to_string(),
            image: None,
        })
    );
    assert_eq!(s.phase(), Phase::Committing);
    assert_eq!(s.step(Event::Committed(Ok(()))), Action::Respond(Verdict::Accepted));
    assert_eq!(s.phase(), Phase::Finished(Verdict::Accepted));
}

#[test]
fn escaping_touches_three_characters_only() {
    let mut s = Submission::new();
    s.step(Event::Username(text("<u&me>")));
    s.step(Event::Content(text("a > b && a < c \"q\" 'r' / é ü")));
    assert_eq!(
        s.step(Event::End),
        Action::Commit(NewPost {
            username: "<u&me>".to_string(),
            useravatar: None,
            content: "a &gt; b &amp;&amp; a &lt; c \"q\" 'r' / é ü".to_string(),
            image: None,
        })
    );
}

#[test]
fn the_last_value_of_a_field_counts() {
    let mut s = Submission::new();
    s.step(Event::Username(text("alice")));
    s.step(Event::Content(text("one")));
    s.step(Event::Username(text("bob")));
    s.step(Event::Content(text("two")));
    assert_eq!(
        s.step(Event::End),
        Action::Commit(NewPost {
            username: "bob".to_string(),
            useravatar: None,
            content: "two".to_string(),
            image: None,
        })
    );
}

#[test]
fn a_missing_or_empty_required_field_is_a_bad_request() {
    let mut s = Submission::new();
    assert_eq!(s.step(Event::End), rejected(Rejection::BadRequest));

    let mut s = Submission::new();
    s.step(Event::Username(text("")));
    s.step(Event::Content(text("hello")));
    assert_eq!(s.step(Event::End), rejected(Rejection::BadRequest));

    let mut s = Submission::new();
    s.step(Event::Username(text("alice")));
    s.step(Event::Content(text("")));
    assert_eq!(s.step(Event::End), rejected(Rejection::BadRequest));

    let mut s = Submission::new();
    s.step(Event::Username(text("alice")));
    assert_eq!(s.step(Event::End), rejected(Rejection::BadRequest));
    assert_eq!(s.phase(), Phase::Finished(Verdict::Rejected(Rejection::BadRequest)));
}

#[test]
fn an_unreadable_field_ends_the_submission_at_once() {
    let mut s = Submission::new();
    assert_eq!(s.step(Event::Username(None)), rejected(Rejection::BadUsername));
    assert_eq!(s.step(Event::Content(text("late"))), rejected(Rejection::BadUsername));

    let mut s = Submission::new();
    assert_eq!(s.step(Event::Content(None)), rejected(Rejection::BadContent));

    let mut s = Submission::new();
    assert_eq!(s.step(Event::UserAvatar(None)), rejected(Rejection::BadUserAvatar));

    let mut s = Submission::new();
    assert_eq!(
        s.step(Event::Image { content_type: None, data: None }),
        rejected(Rejection::BadImage)
    );
}

#[test]
fn unknown_fields_are_passed_over() {
    let mut s = Submission::new();
    assert_eq!(s.step(Event::Other), Action::Next);
    assert_eq!(s.phase(), Phase::Reading);
}

#[test]
fn an_empty_avatar_url_asks_for_no_fetch() {
    let mut s = Submission::new();
    assert_eq!(s.step(Event::UserAvatar(text(""))), Action::Next);
    assert_eq!(s.phase(), Phase::Reading);
}

#[test]
fn an_avatar_is_fetched_stored_and_referred_to() {
    let id = BlobId { value: 77 };
    let mut s = Submission::new();
    assert_eq!(
        s.step(Event::UserAvatar(text("http://example.org/a.png"))),
        Action::Fetch("http://example.org/a.png".to_string())
    );
    assert_eq!(s.phase(), Phase::Fetching);
    let outcome = FetchOutcome::Answered {
        status: 200,
        content_type: HeaderText::Text("image/gif".to_string()),
        body: Some(vec![9, 8, 7]),
    };
    assert_eq!(
        s.step(Event::Fetched(outcome)),
        Action::Store(NewBlob { content_type: "image/gif".to_string(), content: vec![9, 8, 7] })
    );
    assert_eq!(s.phase(), Phase::StoringAvatar);
    assert_eq!(s.step(Event::Stored(Ok(id))), Action::Next);
    s.step(Event::Username(text("alice")));
    s.step(Event::Content(text("hi")));
    assert_eq!(
        s.step(Event::End),
        Action::Commit(NewPost {
            username: "alice".to_string(),
            useravatar: Some(id),
            content: "hi".to_string(),
            image: None,
        })
    );
}

#[test]
fn the_machine_resumes_after_an_avatar_with_an_empty_body() {
    let mut s = Submission::new();
    s.step(Event::UserAvatar(text("http://example.org/a.png")));
    let outcome = FetchOutcome::Answered {
        status: 200,
        content_type: HeaderText::Text("image/gif".to_string()),
        body: Some(Vec::new()),
    };
    assert_eq!(s.step(Event::Fetched(outcome)), Action::Next);
    assert_eq!(s.phase(), Phase::Reading);
}

#[test]
fn a_failed_fetch_or_store_of_the_avatar_ends_the_submission() {
    let mut s = Submission::new();
    s.step(Event::UserAvatar(text("http://example.org/a.png")));
    assert_eq!(s.step(Event::Fetched(FetchOutcome::Failed)), rejected(Rejection::BadUserAvatar));

    let mut s = Submission::new();
    s.step(Event::UserAvatar(text("http://example.org/a.png")));
    s.step(Event::Fetched(FetchOutcome::Answered {
        status: 200,
        content_type: HeaderText::Text("image/gif".to_string()),
        body: Some(vec![1]),
    }));
    assert_eq!(
        s.step(Event::Stored(Err(StorageFailure {}))),
        rejected(Rejection::BadUserAvatar)
    );
}

#[test]
fn an_image_is_stored_with_its_type_or_the_default() {
    let id = BlobId { value: 5 };
    let mut s = Submission::new();
    assert_eq!(
        s.step(Event::Image { content_type: text("image/jpeg"), data: Some(vec![1, 2]) }),
        Action::Store(NewBlob { content_type: "image/jpeg".to_string(), content: vec![1, 2] })
    );
    assert_eq!(s.phase(), Phase::StoringImage);
    assert_eq!(s.step(Event::Stored(Ok(id))), Action::Next);

    let mut s = Submission::new();
    assert_eq!(
        s.step(Event::Image { content_type: None, data: Some(vec![3]) }),
        Action::Store(NewBlob { content_type: "image/png".to_string(), content: vec![3] })
    );
    assert_eq!(s.step(Event::Stored(Err(StorageFailure {}))), rejected(Rejection::BadImage));
}

#[test]
fn an_image_without_bytes_stores_nothing() {
    let mut s = Submission::new();
    assert_eq!(
        s.step(Event::Image { content_type: text("image/jpeg"), data: Some(Vec::new()) }),
        Action::Next
    );
    s.step(Event::Username(text("alice")));
    s.step(Event::Content(text("hi")));
    assert_eq!(
        s.step(Event::End),
        Action::Commit(NewPost {
            username: "alice".to_string(),
            useravatar: None,
            content: "hi".to_string(),
            image: None,
        })
    );
}

#[test]
fn a_failed_commit_is_a_bad_request() {
    let mut s = Submission::new();
    s.step(Event::Username(text("alice")));
    s.step(Event::Content(text("hi")));
    s.step(Event::End);
    assert_eq!(s.step(Event::Committed(Err(StorageFailure {}))), rejected(Rejection::BadRequest));
}

#[test]
fn an_event_that_was_not_asked_for_ends_the_submission() {
    let mut s = Submission::new();
    assert_eq!(s.step(Event::Stored(Ok(BlobId { value: 1 }))), rejected(Rejection::BadRequest));

    let mut s = Submission::new();
    s.step(Event::UserAvatar(text("http://example.org/a.png")));
    assert_eq!(s.step(Event::Username(text("alice"))), rejected(Rejection::BadRequest));
}

#[test]
fn a_finished_submission_repeats_its_verdict() {
    let mut s = Submission::new();
    s.step(Event::Username(text("alice")));
    s.step(Event::Content(text("hi")));
    s.step(Event::End);
    s.step(Event::Committed(Ok(())));
    assert_eq!(s.step(Event::End), Action::Respond(Verdict::Accepted));
    assert_eq!(s.step(Event::Username(text("bob"))), Action::Respond(Verdict::Accepted));
}
