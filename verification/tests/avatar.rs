use miniblog::avatar::{avatar_of, AvatarFetchFailure, FetchOutcome, HeaderText, NewBlob};

fn answered(status: u16, content_type: HeaderText, body: Option<Vec<u8>>) -> FetchOutcome {
    FetchOutcome::Answered { status, content_type, body }
}

fn png() -> HeaderText {
    HeaderText::Text("image/png".to_string())
}

#[test]
fn an_answer_with_a_body_gives_a_blob() {
    let avatar = avatar_of(answered(200, png(), Some(vec![1, 2, 3])));
    assert_eq!(
        avatar,
        Ok(Some(NewBlob { content_type: "image/png".to_string(), content: vec![1, 2, 3] }))
    );
}

#[test]
fn an_empty_body_is_no_avatar() {
    assert_eq!(avatar_of(answered(200, png(), Some(Vec::new()))), Ok(None));
}

#[test]
fn a_request_that_failed_is_a_failure() {
    assert_eq!(avatar_of(FetchOutcome::Failed), Err(AvatarFetchFailure {}));
}

#[test]
fn a_missing_or_unreadable_media_type_is_a_failure() {
    assert_eq!(
        avatar_of(answered(200, HeaderText::Absent, Some(vec![1]))),
        Err(AvatarFetchFailure {})
    );
    assert_eq!(
        avatar_of(answered(200, HeaderText::Unreadable, Some(vec![1]))),
        Err(AvatarFetchFailure {})
    );
}

#[test]
fn a_body_that_broke_off_is_a_failure() {
    assert_eq!(avatar_of(answered(200, png(), None)), Err(AvatarFetchFailure {}));
}

#[test]
fn only_statuses_from_200_to_299_count() {
    for status in [200u16, 204, 299] {
        assert!(avatar_of(answered(status, png(), Some(vec![1]))).is_ok());
    }
    for status in [0u16, 199, 300, 404, 500, u16::MAX] {
        assert_eq!(
            avatar_of(answered(status, png(), Some(vec![1]))),
            Err(AvatarFetchFailure {})
        );
        assert_eq!(
            avatar_of(answered(status, png(), Some(Vec::new()))),
            Err(AvatarFetchFailure {})
        );
    }
}
