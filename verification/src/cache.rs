//! The newest posts, kept in memory so that the first pages of the blog are
//! served without asking the database.
use rusqlite::Connection;
use vstd::prelude::*;

use crate::posts::{Database, Post};
use crate::sqlite::DbError;

verus! {

/// The posts of list page `offset` (counted from 1): ten a page, in the order kept.
pub open spec fn page_of(posts: Seq<Post>, offset: int) -> Seq<Post> {
    let start = if (offset - 1) * 10 <= posts.len() { (offset - 1) * 10 } else { posts.len() as int };
    let end = if start + 10 <= posts.len() { start + 10 } else { posts.len() as int };
    posts.subrange(start, end)
}

/// Some post of `posts` has id `id`.
pub open spec fn holds_post(posts: Seq<Post>, id: int) -> bool {
    exists|i: int| 0 <= i < posts.len() && posts[i].id == id
}

/// `i` is the first position of `posts` whose post has id `id`.
pub open spec fn first_with_id(posts: Seq<Post>, id: int, i: int) -> bool {
    &&& 0 <= i < posts.len()
    &&& posts[i].id == id
    &&& forall|j: int| 0 <= j < i ==> posts[j].id != id
}

/// The cached posts, newest first.
pub struct Cache {
    posts: Vec<Post>,
}

impl View for Cache {
    type V = Seq<Post>;

    closed spec fn view(&self) -> Seq<Post> {
        self.posts@
    }
}

impl Cache {
    /// Fills a cache with the newest hundred posts of the database.
    pub fn new(con: Connection) -> (r: Result<Self, DbError>)
        ensures
            r matches Ok(c) ==> c@.len() <= 100 && crate::posts::all_read_from_rows(c@),
    {
        match Database::get_cache(con) {
            Ok(posts) => Ok(Cache::from_posts(posts)),
            Err(e) => Err(e),
        }
    }

    /// A cache that holds `posts`, in that order.
    pub fn from_posts(posts: Vec<Post>) -> (c: Self)
        ensures
            c@ == posts@,
    {
        Cache { posts }
    }

    /// Reloads the newest hundred posts; on a failure the cache keeps what it had.
    pub fn db_sync(&mut self, con: Connection) -> (r: Result<(), DbError>)
        ensures
            r is Ok ==> final(self)@.len() <= 100 && crate::posts::all_read_from_rows(final(self)@),
            r is Err ==> final(self)@ == old(self)@,
    {
        self.sync_with(Database::get_cache(con))
    }

    /// Takes in what a reload of the newest posts answered: on success the
    /// cache holds exactly the posts read, in their order (nothing of what it
    /// had is kept); on a failure it keeps what it had and passes the failure on.
    pub fn sync_with(&mut self, fetched: Result<Vec<Post>, DbError>) -> (r: Result<(), DbError>)
        ensures
            match fetched {
                Ok(posts) => r is Ok && final(self)@ == posts@,
                Err(e) => r == Err::<(), DbError>(e) && final(self)@ == old(self)@,
            },
    {
        match fetched {
            Ok(posts) => {
                self.posts = posts;
                Ok(())
            },
            Err(e) => Err(e),
        }
    }

    /// The number of cached posts.
    pub fn len(&self) -> (n: usize)
        ensures
            n == self@.len(),
    {
        self.posts.len()
    }

    /// List page `offset` (counted from 1) of the cached posts: up to ten posts.
    pub fn get_posts(&self, offset: usize) -> (page: Vec<Post>)
        requires
            offset >= 1,
            (offset - 1) * 10 <= usize::MAX,
        ensures
            page@ == page_of(self@, offset as int),
    {
        let skip: usize = (offset - 1) * 10;
        let start: usize = if skip <= self.posts.len() { skip } else { self.posts.len() };
        let end: usize = if self.posts.len() - start >= 10 { start + 10 } else { self.posts.len() };
        let mut page: Vec<Post> = Vec::new();
        let mut i: usize = start;
        while i < end
            invariant
                start <= i <= end,
                end <= self.posts@.len(),
                page@ == self.posts@.subrange(start as int, i as int),
            decreases end - i,
        {
            page.push(self.posts[i].clone());
            i = i + 1;
            assert(page@ =~= self.posts@.subrange(start as int, i as int));
        }
        page
    }

    /// The first position of a cached post with id `id`, if one is cached.
    fn position(&self, id: usize) -> (r: Option<usize>)
        ensures
            match r {
                Some(i) => first_with_id(self@, id as int, i as int),
                None => !holds_post(self@, id as int),
            },
    {
        let mut i: usize = 0;
        while i < self.posts.len()
            invariant
                i <= self.posts@.len(),
                forall|j: int| 0 <= j < i ==> self.posts@[j].id != id,
            decreases self.posts@.len() - i,
        {
            if self.posts[i].id == id {
                return Some(i);
            }
            i = i + 1;
        }
        None
    }

    /// Whether the post with id `id` is cached.
    pub fn holds_id(&self, id: usize) -> (r: bool)
        ensures
            r == holds_post(self@, id as int),
    {
        self.position(id).is_some()
    }

    /// The cached post with id `id`.
    pub fn get_by_id(&self, id: usize) -> (post: Post)
        requires
            holds_post(self@, id as int),
        ensures
            post.id == id,
            exists|i: int| first_with_id(self@, id as int, i) && post == self@[i],
    {
        match self.position(id) {
            Some(i) => self.posts[i].clone(),
            None => {
                proof {
                    assert(false);
                }
                self.posts[0].clone()
            },
        }
    }

    /// The id of the newest cached post.
    pub fn fst_id(&self) -> (id: usize)
        requires
            self@.len() > 0,
        ensures
            id == self@[0].id,
    {
        self.posts[0].id
    }
}

/// Law: every cached post is on exactly the list page that its position gives,
/// at its place within the page; no page has more than ten posts.
pub proof fn lemma_pages_tile_the_cache(posts: Seq<Post>, i: int, offset: int)
    requires
        0 <= i < posts.len(),
        offset >= 1,
    ensures
        page_of(posts, offset).len() <= 10,
        page_of(posts, i / 10 + 1).len() > i % 10,
        page_of(posts, i / 10 + 1)[i % 10] == posts[i],
{
}

/// List pages 1 to `k`, one after the other.
pub open spec fn pages_upto(posts: Seq<Post>, k: nat) -> Seq<Post>
    decreases k,
{
    if k == 0 {
        Seq::empty()
    } else {
        pages_upto(posts, (k - 1) as nat) + page_of(posts, k as int)
    }
}

/// Law: list pages 1 to `k` put one after the other are the first `10 * k`
/// cached posts (all of them once `10 * k` reaches their number), in order.
pub proof fn lemma_pages_concatenate(posts: Seq<Post>, k: nat)
    ensures
        pages_upto(posts, k) == posts.subrange(
            0,
            if 10 * k <= posts.len() { 10 * k as int } else { posts.len() as int },
        ),
    decreases k,
{
    if k > 0 {
        lemma_pages_concatenate(posts, (k - 1) as nat);
        let a: int = if 10 * (k - 1) <= posts.len() { 10 * (k - 1) } else { posts.len() as int };
        let b: int = if 10 * k <= posts.len() { 10 * k as int } else { posts.len() as int };
        assert(page_of(posts, k as int) == posts.subrange(a, b));
        assert(posts.subrange(0, a) + posts.subrange(a, b) =~= posts.subrange(0, b));
    } else {
        assert(posts.subrange(0, 0) =~= Seq::<Post>::empty());
    }
}

/// Law: a cached post is found by its own id: the lookup gives a post with that
/// id, and the first one, so when ids are distinct it is that very post.
pub proof fn lemma_lookup_finds_post(posts: Seq<Post>, i: int, found: Post)
    requires
        0 <= i < posts.len(),
        forall|a: int, b: int| 0 <= a < b < posts.len() ==> posts[a].id != posts[b].id,
        exists|k: int| first_with_id(posts, posts[i].id as int, k) && found == posts[k],
    ensures
        holds_post(posts, posts[i].id as int),
        found == posts[i],
{
    let k = choose|k: int| first_with_id(posts, posts[i].id as int, k) && found == posts[k];
    if k != i {
        if k < i {
            assert(posts[k].id != posts[i].id);
        } else {
            assert(posts[i].id != posts[i].id);
        }
    }
}

} // verus!
