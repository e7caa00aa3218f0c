//! The two stores of the service: posts, kept in the order in which they were
//! inserted, and files (blobs), keyed by identifier. Both only ever grow.

use crate::ident::BlobId;
use std::collections::HashMap;
use vstd::prelude::*;

verus! {

broadcast use vstd::std_specs::hash::group_hash_axioms;

/// One post as it is stored and listed.
#[derive(Debug, PartialEq, Eq)]
pub struct Post {
    pub username: String,
    pub useravatar: Option<BlobId>,
    /// When the post was stored: `YYYY-MM-DDTHH:MM:SSZ`.
    pub date: String,
    pub content: String,
    pub image: Option<BlobId>,
}

/// A post as specifications see it.
pub struct PostView {
    pub username: Seq<char>,
    pub useravatar: Option<BlobId>,
    pub date: Seq<char>,
    pub content: Seq<char>,
    pub image: Option<BlobId>,
}

impl View for Post {
    type V = PostView;

    open spec fn view(&self) -> PostView {
        PostView {
            username: self.username@,
            useravatar: self.useravatar,
            date: self.date@,
            content: self.content@,
            image: self.image,
        }
    }
}

/// The views of a sequence of posts, in the same order.
pub open spec fn post_views(posts: Seq<Post>) -> Seq<PostView> {
    posts.map_values(|p: Post| p@)
}

/// A stored file as specifications see it: its media type and its bytes.
pub struct Blob {
    pub content_type: Seq<char>,
    pub content: Seq<u8>,
}

/// A row of the file store.
struct StoredFile {
    content_type: String,
    content: Vec<u8>,
}

impl View for StoredFile {
    type V = Blob;

    closed spec fn view(&self) -> Blob {
        Blob { content_type: self.content_type@, content: self.content@ }
    }
}

/// A write that the store did not take.
#[derive(Clone, Copy, Debug, PartialEq, Eq, Structural)]
pub struct StorageFailure {}

/// No file is stored under the identifier asked for.
#[derive(Clone, Copy, Debug, PartialEq, Eq, Structural)]
pub struct NotFound {}

/// The post repository and the blob store, held in memory.
pub struct Database {
    posts: Vec<Post>,
    files: HashMap<u128, StoredFile>,
}

impl Database {
    /// The posts, oldest first.
    pub closed spec fn posts(&self) -> Seq<PostView> {
        post_views(self.posts@)
    }

    /// The stored files by identifier.
    pub closed spec fn files(&self) -> Map<BlobId, Blob> {
        Map::new(
            |id: BlobId| self.files@.contains_key(id.value),
            |id: BlobId| self.files@[id.value]@,
        )
    }
}

/// What storing `blob` under `id` makes of a blob store: the store with the
/// blob added, or a failure where the identifier is taken.
pub open spec fn put(files: Map<BlobId, Blob>, id: BlobId, blob: Blob) -> Result<
    Map<BlobId, Blob>,
    StorageFailure,
> {
    if files.contains_key(id) {
        Err(StorageFailure {  })
    } else {
        Ok(files.insert(id, blob))
    }
}

/// What a blob store holds under `id`.
pub open spec fn get(files: Map<BlobId, Blob>, id: BlobId) -> Result<Blob, NotFound> {
    if files.contains_key(id) {
        Ok(files[id])
    } else {
        Err(NotFound {  })
    }
}

fn copy_post(post: &Post) -> (copy: Post)
    ensures
        copy@ == post@,
{
    Post {
        username: post.username.clone(),
        useravatar: post.useravatar,
        date: post.date.clone(),
        content: post.content.clone(),
        image: post.image,
    }
}

fn copy_bytes(bytes: &Vec<u8>) -> (copy: Vec<u8>)
    ensures
        copy@ == bytes@,
{
    let mut copy: Vec<u8> = Vec::with_capacity(bytes.len());
    let mut i: usize = 0;
    while i < bytes.len()
        invariant
            i <= bytes.len(),
            copy@ == bytes@.take(i as int),
        decreases bytes.len() - i,
    {
        copy.push(bytes[i]);
        assert(bytes@.take(i + 1) == bytes@.take(i as int).push(bytes@[i as int]));
        i += 1;
    }
    assert(bytes@.take(bytes.len() as int) == bytes@);
    copy
}

/// A database with both stores empty.
pub fn setup_database() -> (db: Database)
    ensures
        db.posts() == Seq::<PostView>::empty(),
        db.files() == Map::<BlobId, Blob>::empty(),
{
    let db = Database { posts: Vec::new(), files: HashMap::new() };
    assert(db.posts() =~= Seq::<PostView>::empty());
    assert(db.files() =~= Map::<BlobId, Blob>::empty());
    db
}

/// Appends a post. `date` is the time of the write as the caller's clock
/// gives it. The in-memory store takes every write.
pub fn insert_post(
    db: &mut Database,
    username: &str,
    useravatar: &Option<BlobId>,
    content: &str,
    image: &Option<BlobId>,
    date: &str,
) -> (written: Result<(), StorageFailure>)
    ensures
        written is Ok,
        final(db).posts() == old(db).posts().push(
            PostView {
                username: username@,
                useravatar: *useravatar,
                date: date@,
                content: content@,
                image: *image,
            },
        ),
        final(db).files() == old(db).files(),
{
    let post = Post {
        username: username.to_owned(),
        useravatar: *useravatar,
        date: date.to_owned(),
        content: content.to_owned(),
        image: *image,
    };
    db.posts.push(post);
    assert(final(db).posts() =~= old(db).posts().push(post@));
    Ok(())
}

/// All posts, oldest first. The store is left as it is.
pub fn fetch_all_posts(db: &Database) -> (posts: Vec<Post>)
    ensures
        post_views(posts@) == db.posts(),
{
    let mut posts: Vec<Post> = Vec::with_capacity(db.posts.len());
    let mut i: usize = 0;
    while i < db.posts.len()
        invariant
            i <= db.posts.len(),
            posts.len() == i,
            forall|j: int| 0 <= j < i ==> (#[trigger] posts@[j])@ == db.posts@[j]@,
        decreases db.posts.len() - i,
    {
        let copy = copy_post(&db.posts[i]);
        posts.push(copy);
        i += 1;
    }
    assert(post_views(posts@) =~= post_views(db.posts@));
    posts
}

/// What a listing shows for the outcome of reading the posts: the posts read,
/// or nothing at all where the read failed.
pub fn posts_or_empty(read: Result<Vec<Post>, StorageFailure>) -> (posts: Vec<Post>)
    ensures
        match read {
            Ok(found) => posts == found,
            Err(_) => posts@ == Seq::<Post>::empty(),
        },
{
    match read {
        Ok(found) => found,
        Err(_) => Vec::new(),
    }
}

/// Stores a file under an identifier that the caller chose. The store keeps
/// one file per identifier and never replaces one: a taken identifier is a
/// failed write.
pub fn insert_file_with_id(
    db: &mut Database,
    id: BlobId,
    content_type: &str,
    content: Vec<u8>,
) -> (written: Result<(), StorageFailure>)
    ensures
        final(db).posts() == old(db).posts(),
        match put(old(db).files(), id, Blob { content_type: content_type@, content: content@ }) {
            Ok(files) => written is Ok && final(db).files() == files,
            Err(_) => written is Err && final(db).files() == old(db).files(),
        },
{
    if db.files.contains_key(&id.value) {
        return Err(StorageFailure {  });
    }
    let file = StoredFile { content_type: content_type.to_owned(), content };
    db.files.insert(id.value, file);
    assert(final(db).files() =~= old(db).files().insert(id, file@));
    Ok(())
}

/// Stores a file under a newly drawn identifier and returns the identifier.
/// The write fails only where the draw hit an identifier that is taken.
pub fn insert_file(db: &mut Database, content_type: &str, content: Vec<u8>) -> (written: Result<
    BlobId,
    StorageFailure,
>)
    ensures
        final(db).posts() == old(db).posts(),
        match written {
            Ok(id) => {
                &&& id.is_time_ordered()
                &&& put(
                    old(db).files(),
                    id,
                    Blob { content_type: content_type@, content: content@ },
                ) == Ok::<Map<BlobId, Blob>, StorageFailure>(final(db).files())
            },
            Err(_) => {
                &&& final(db).files() == old(db).files()
                &&& exists|id: BlobId| #[trigger] old(db).files().contains_key(id)
            },
        },
{
    let id = BlobId::generate();
    match insert_file_with_id(db, id, content_type, content) {
        Ok(()) => Ok(id),
        Err(failure) => {
            assert(old(db).files().contains_key(id));
            Err(failure)
        },
    }
}

/// The media type and the bytes stored under `id`.
pub fn get_file(db: &Database, id: &BlobId) -> (found: Result<(String, Vec<u8>), NotFound>)
    ensures
        match found {
            Ok((content_type, content)) => get(db.files(), *id) == Ok::<Blob, NotFound>(
                Blob { content_type: content_type@, content: content@ },
            ),
            Err(_) => get(db.files(), *id) is Err,
        },
{
    match db.files.get(&id.value) {
        Some(file) => Ok((file.content_type.clone(), copy_bytes(&file.content))),
        None => Err(NotFound {  }),
    }
}

} // verus!
