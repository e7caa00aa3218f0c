use miniblog::db::{
    fetch_all_posts, get_file, insert_file, insert_file_with_id, insert_post, posts_or_empty,
    setup_database, NotFound, Post, StorageFailure,
};
use miniblog::ident::BlobId;

const DATE: &str = "2024-05-06T07:08:09Z";

#[test]
fn a_new_database_is_empty() {
    let db = setup_database();
    assert!(fetch_all_posts(&db).is_empty());
    assert_eq!(get_file(&db, &BlobId { value: 1 }), Err(NotFound {}));
}

#[test]
fn put_then_get_gives_back_what_went_in() {
    let mut db = setup_database();
    let bytes = vec![0u8, 1, 2, 255, 0];
    let id = insert_file(&mut db, "image/jpeg", bytes.clone()).unwrap();
    assert_eq!(get_file(&db, &id), Ok(("image/jpeg".to_string(), bytes)));
}

#[test]
fn put_then_get_with_a_single_byte_and_an_odd_type() {
    let mut db = setup_database();
    let id = insert_file(&mut db, "x", vec![7]).unwrap();
    assert_eq!(get_file(&db, &id), Ok(("x".to_string(), vec![7])));
}

#[test]
fn two_puts_of_the_same_content_have_different_identifiers() {
    let mut db = setup_database();
    let first = insert_file(&mut db, "image/png", vec![1, 2, 3]).unwrap();
    let second = insert_file(&mut db, "image/png", vec![1, 2, 3]).unwrap();
    assert_ne!(first, second);
    assert_eq!(get_file(&db, &first), Ok(("image/png".to_string(), vec![1, 2, 3])));
    assert_eq!(get_file(&db, &second), Ok(("image/png".to_string(), vec![1, 2, 3])));
}

#[test]
fn a_taken_identifier_is_a_failed_write() {
    let mut db = setup_database();
    let id = BlobId { value: 42 };
    assert_eq!(insert_file_with_id(&mut db, id, "text/plain", vec![1]), Ok(()));
    assert_eq!(insert_file_with_id(&mut db, id, "image/gif", vec![2, 3]), Err(StorageFailure {}));
    assert_eq!(get_file(&db, &id), Ok(("text/plain".to_string(), vec![1])));
}

#[test]
fn a_write_leaves_other_blobs_alone() {
    let mut db = setup_database();
    let a = BlobId { value: 1 };
    let b = BlobId { value: 2 };
    insert_file_with_id(&mut db, a, "a/a", vec![10]).unwrap();
    insert_file_with_id(&mut db, b, "b/b", vec![20, 21]).unwrap();
    assert_eq!(get_file(&db, &a), Ok(("a/a".to_string(), vec![10])));
    assert_eq!(get_file(&db, &b), Ok(("b/b".to_string(), vec![20, 21])));
    assert_eq!(get_file(&db, &BlobId { value: 3 }), Err(NotFound {}));
}

#[test]
fn an_identifier_never_issued_is_not_found() {
    let mut db = setup_database();
    insert_file(&mut db, "image/png", vec![1]).unwrap();
    assert_eq!(get_file(&db, &BlobId { value: 0 }), Err(NotFound {}));
}

#[test]
fn posts_are_listed_in_insertion_order() {
    let mut db = setup_database();
    let avatar = Some(BlobId { value: 9 });
    assert_eq!(insert_post(&mut db, "alice", &None, "first", &None, DATE), Ok(()));
    assert_eq!(insert_post(&mut db, "bob", &avatar, "second", &None, "2024-05-06T07:08:10Z"), Ok(()));
    let posts = fetch_all_posts(&db);
    assert_eq!(
        posts,
        vec![
            Post {
                username: "alice".to_string(),
                useravatar: None,
                date: DATE.to_string(),
                content: "first".to_string(),
                image: None,
            },
            Post {
                username: "bob".to_string(),
                useravatar: avatar,
                date: "2024-05-06T07:08:10Z".to_string(),
                content: "second".to_string(),
                image: None,
            },
        ]
    );
}

#[test]
fn listing_twice_gives_the_same() {
    let mut db = setup_database();
    insert_post(&mut db, "alice", &None, "one", &None, DATE).unwrap();
    insert_post(&mut db, "bob", &None, "two", &Some(BlobId { value: 5 }), DATE).unwrap();
    let first = fetch_all_posts(&db);
    let second = fetch_all_posts(&db);
    assert_eq!(first, second);
    assert_eq!(first.len(), 2);
}

#[test]
fn writing_posts_leaves_the_blobs_alone() {
    let mut db = setup_database();
    let id = insert_file(&mut db, "image/png", vec![4, 5]).unwrap();
    insert_post(&mut db, "alice", &Some(id), "hello", &None, DATE).unwrap();
    assert_eq!(get_file(&db, &id), Ok(("image/png".to_string(), vec![4, 5])));
}

#[test]
fn a_failed_read_shows_no_posts() {
    assert!(posts_or_empty(Err(StorageFailure {})).is_empty());
    let db = {
        let mut db = setup_database();
        insert_post(&mut db, "alice", &None, "one", &None, DATE).unwrap();
        db
    };
    let read = fetch_all_posts(&db);
    assert_eq!(posts_or_empty(Ok(fetch_all_posts(&db))), read);
}
