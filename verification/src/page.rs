//! The listing page: the form, and below it the posts, oldest first.

use crate::db::{post_views, Post, PostView};
use crate::ident::BlobId;
use crate::DATA_LOCATION;
use vstd::prelude::*;
use vstd::string::StringExecFns;

verus! {

/// The page down to the place where the posts go.
pub const PAGE_START: &'static str = r###"<html>
            <head><title>Blog Posts</title></head>
            <style>
                body {
                    background-color: #cccccc;
                }

                .blog-post {
                    display: flex;
                    width: 100%;
                    border: 1px solid black;
                    margin-top: 5px;
                }
                
                .user-info {
                    flex: 0 0 150px;
                    padding: 10px;
                    background-color: #dddddd;
                }
                .user-info > img {
                    width: 100%;
                    border: 1px solid black;
                }
                
                .post-info {
                    flex: 1;
                    min-height: 200px;
                    padding: 10px;
                    background-color: #eeeeee;
                    box-sizing: border-box;
                }
                .post-info2 {
                    display: flex;
                    justify-content: space-between;
                }
                .post-info > * {
                    padding: 5px;
                }
                .post-info > hr {
                    padding: 0;
                }
                .post-info > img {
                    padding: 0px;
                    max-width: 100%;
                }
            </style>
            <body>
                <h1>Blog Posts</h1>
                <form method="POST" action="#" enctype="multipart/form-data">
                    <input type="text" name="username" placeholder="Username*" required/><br/>
                    <input type="url" name="useravatar" placeholder="User avatar link"/><br/>
                    <textarea name="content" placeholder="Post content*" required></textarea><br/>
                    <input type="file" name="image"/><br/><br/>
                    <button type="submit">Add Post</button>
                </form>
                <div>"###;

/// The page from the end of the posts on.
pub const PAGE_END: &'static str = r###"
                </div>
            </body>
            <script>
                window.onload = function() {
                    for (e of document.getElementsByClassName("post-date")) {
                        let date = new Date(`${e.getAttribute("post-date")}`);
                        e.innerText = `Posted on: ${date}`;
                    }
                };
            </script>
        </html>
        "###;

/// Opens a post's entry; the post's number follows.
pub const ENTRY_OPEN: &'static str = r###"<div class="blog-post" post-order=""###;

/// Follows the number; the avatar's image tag follows.
pub const ENTRY_AVATAR: &'static str = r###"">
                <div class="user-info">"###;

/// Follows the avatar; the username follows.
pub const ENTRY_USER: &'static str = r###"<span>User: "###;

/// Follows the username; the date follows.
pub const ENTRY_DATE: &'static str = r###"</span></div>
                <div class="post-info"><div class="post-info2"><span class="post-date" post-date=""###;

/// Follows the date; the post's number follows once more.
pub const ENTRY_NUMBER: &'static str = r###"">Posted on: ???</span><span>#"###;

/// Follows the number; the content follows.
pub const ENTRY_CONTENT: &'static str = r###"</span></div><hr>
                <p>"###;

/// Follows the content; the image's tag follows.
pub const ENTRY_IMAGE: &'static str = r###"</p>"###;

/// Closes a post's entry.
pub const ENTRY_CLOSE: &'static str = r###"</div>
            </div>"###;

/// What opens an image tag; the path of the file follows.
pub const IMAGE_OPEN: &'static str = "<img src=\"";

/// What closes an image tag.
pub const IMAGE_CLOSE: &'static str = "\">";

/// The decimal digit for a number below ten.
pub open spec fn digit_char(d: nat) -> char {
    "0123456789"@[d as int]
}

/// A number in decimal, without leading zeros.
pub open spec fn decimal(n: nat) -> Seq<char>
    decreases n,
{
    if n < 10 {
        seq![digit_char(n)]
    } else {
        decimal(n / 10).push(digit_char(n % 10))
    }
}

/// The image tag for a stored file, or nothing where there is no file.
pub open spec fn image_tag(id: Option<BlobId>) -> Seq<char> {
    match id {
        Some(id) => IMAGE_OPEN@ + DATA_LOCATION@ + "/"@ + id.text() + IMAGE_CLOSE@,
        None => Seq::empty(),
    }
}

/// The entry of the post with number `number`. Username, date and content go
/// in as they are stored.
pub open spec fn entry(number: nat, post: PostView) -> Seq<char> {
    ENTRY_OPEN@ + decimal(number) + ENTRY_AVATAR@ + image_tag(post.useravatar) + ENTRY_USER@
        + post.username + ENTRY_DATE@ + post.date + ENTRY_NUMBER@ + decimal(number)
        + ENTRY_CONTENT@ + post.content + ENTRY_IMAGE@ + image_tag(post.image) + ENTRY_CLOSE@
}

/// The entries of the posts, numbered from one.
pub open spec fn entries(posts: Seq<PostView>) -> Seq<char>
    decreases posts.len(),
{
    if posts.len() == 0 {
        Seq::empty()
    } else {
        entries(posts.drop_last()) + entry(posts.len(), posts.last())
    }
}

/// The whole page for a listing.
pub open spec fn page(posts: Seq<PostView>) -> Seq<char> {
    PAGE_START@ + entries(posts) + PAGE_END@
}

fn digit(d: usize) -> (text: &'static str)
    requires
        d < 10,
    ensures
        text@ == seq![digit_char(d as nat)],
{
    proof {
        reveal_strlit("0123456789");
        reveal_strlit("0");
        reveal_strlit("1");
        reveal_strlit("2");
        reveal_strlit("3");
        reveal_strlit("4");
        reveal_strlit("5");
        reveal_strlit("6");
        reveal_strlit("7");
        reveal_strlit("8");
        reveal_strlit("9");
    }
    let text = if d == 0 {
        "0"
    } else if d == 1 {
        "1"
    } else if d == 2 {
        "2"
    } else if d == 3 {
        "3"
    } else if d == 4 {
        "4"
    } else if d == 5 {
        "5"
    } else if d == 6 {
        "6"
    } else if d == 7 {
        "7"
    } else if d == 8 {
        "8"
    } else {
        "9"
    };
    assert(text@ =~= seq![digit_char(d as nat)]);
    text
}

/// Writes a number in decimal at the end of `out`.
pub fn push_decimal(out: &mut String, n: usize)
    ensures
        final(out)@ == old(out)@ + decimal(n as nat),
    decreases n,
{
    if n < 10 {
        out.append(digit(n));
    } else {
        push_decimal(out, n / 10);
        out.append(digit(n % 10));
        assert(final(out)@ =~= old(out)@ + decimal(n as nat));
    }
}

fn push_image_tag(out: &mut String, id: &Option<BlobId>)
    ensures
        final(out)@ == old(out)@ + image_tag(*id),
{
    match id {
        Some(id) => {
            out.append(IMAGE_OPEN);
            out.append(DATA_LOCATION);
            out.append("/");
            out.append(id.to_text().as_str());
            out.append(IMAGE_CLOSE);
            assert(final(out)@ =~= old(out)@ + image_tag(Some(*id)));
        },
        None => {
            assert(final(out)@ =~= old(out)@ + image_tag(None));
        },
    }
}

fn push_entry(out: &mut String, number: usize, post: &Post)
    ensures
        final(out)@ == old(out)@ + entry(number as nat, post@),
{
    out.append(ENTRY_OPEN);
    push_decimal(out, number);
    out.append(ENTRY_AVATAR);
    push_image_tag(out, &post.useravatar);
    out.append(ENTRY_USER);
    out.append(post.username.as_str());
    out.append(ENTRY_DATE);
    out.append(post.date.as_str());
    out.append(ENTRY_NUMBER);
    push_decimal(out, number);
    out.append(ENTRY_CONTENT);
    out.append(post.content.as_str());
    out.append(ENTRY_IMAGE);
    push_image_tag(out, &post.image);
    out.append(ENTRY_CLOSE);
    assert(final(out)@ =~= old(out)@ + entry(number as nat, post@));
}

/// The listing page for `posts`, the first of them at the top.
pub fn render(posts: &Vec<Post>) -> (html: String)
    ensures
        html@ == page(post_views(posts@)),
{
    let ghost views = post_views(posts@);
    let mut html = PAGE_START.to_owned();
    let mut i: usize = 0;
    assert(views.take(0) =~= Seq::<PostView>::empty());
    while i < posts.len()
        invariant
            i <= posts.len(),
            views == post_views(posts@),
            html@ == PAGE_START@ + entries(views.take(i as int)),
        decreases posts.len() - i,
    {
        push_entry(&mut html, i + 1, &posts[i]);
        proof {
            let next = views.take(i + 1);
            assert(next.drop_last() =~= views.take(i as int));
            assert(next.last() == posts@[i as int]@);
            assert(html@ =~= PAGE_START@ + entries(next));
        }
        i += 1;
    }
    assert(views.take(posts.len() as int) =~= views);
    html.append(PAGE_END);
    html
}

} // verus!
