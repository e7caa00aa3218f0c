use miniblog::db::{insert_post, setup_database, Post};
use miniblog::ident::BlobId;
use miniblog::endpoints::frontpage;
use miniblog::page::{push_decimal, render, PAGE_END, PAGE_START};
use miniblog::DATA_LOCATION;

fn decimal(n: usize) -> String {
    let mut out = String::new();
    push_decimal(&mut out, n);
    out
}

#[test]
fn numbers_are_written_in_decimal() {
    assert_eq!(decimal(0), "0");
    assert_eq!(decimal(7), "7");
    assert_eq!(decimal(10), "10");
    assert_eq!(decimal(109), "109");
    assert_eq!(decimal(1234567890), "1234567890");
    assert_eq!(decimal(usize::MAX), usize::MAX.to_string());
}

#[test]
fn decimal_is_appended_to_what_is_there() {
    let mut out = "n=".to_string();
    push_decimal(&mut out, 42);
    assert_eq!(out, "n=42");
}

#[test]
fn a_page_without_posts_is_the_frame() {
    let page = render(&Vec::new());
    assert_eq!(page, format!("{}{}", PAGE_START, PAGE_END));
    assert!(page.starts_with("<html>"));
    assert!(page.contains("<form method=\"POST\" action=\"#\" enctype=\"multipart/form-data\">"));
    assert!(page.trim_end().ends_with("</html>"));
}

#[test]
fn a_post_is_shown_with_its_number_and_its_images() {
    let avatar = BlobId { value: 0xa1a2a3a4_b1b2_c1c2_d1d2_d3d4d5d6d7d8 };
    let posts = vec![
        Post {
            username: "alice".to_string(),
            useravatar: Some(avatar),
            date: "2024-05-06T07:08:09Z".to_string(),
            content: "&lt;b&gt;hi&lt;/b&gt;".to_string(),
            image: None,
        },
        Post {
            username: "bob".to_string(),
            useravatar: None,
            date: "2024-05-06T07:08:10Z".to_string(),
            content: "second".to_string(),
            image: Some(BlobId { value: 1 }),
        },
    ];
    let entry_one = "<div class=\"blog-post\" post-order=\"1\">
                <div class=\"user-info\"><img src=\"/data/a1a2a3a4-b1b2-c1c2-d1d2-d3d4d5d6d7d8\"><span>User: alice</span></div>
                <div class=\"post-info\"><div class=\"post-info2\"><span class=\"post-date\" post-date=\"2024-05-06T07:08:09Z\">Posted on: ???</span><span>#1</span></div><hr>
                <p>&lt;b&gt;hi&lt;/b&gt;</p></div>
            </div>";
    let entry_two = "<div class=\"blog-post\" post-order=\"2\">
                <div class=\"user-info\"><span>User: bob</span></div>
                <div class=\"post-info\"><div class=\"post-info2\"><span class=\"post-date\" post-date=\"2024-05-06T07:08:10Z\">Posted on: ???</span><span>#2</span></div><hr>
                <p>second</p><img src=\"/data/00000000-0000-0000-0000-000000000001\"></div>
            </div>";
    assert_eq!(render(&posts), format!("{}{}{}{}", PAGE_START, entry_one, entry_two, PAGE_END));
    assert_eq!(DATA_LOCATION, "/data");
}

#[test]
fn the_front_page_shows_the_stored_posts() {
    let mut db = setup_database();
    assert_eq!(frontpage(&db), format!("{}{}", PAGE_START, PAGE_END));
    insert_post(&mut db, "alice", &None, "hello", &None, "2024-05-06T07:08:09Z").unwrap();
    let page = frontpage(&db);
    assert!(page.contains("<span>User: alice</span>"));
    assert!(page.contains("<p>hello</p></div>"));
    assert_eq!(frontpage(&db), page);
}
