//! Blog posts stored in SQLite.
use rusqlite::{Connection, Row, Rows};
use vstd::prelude::*;

use crate::markup::to_html;
use crate::sqlite::{
    row_number, row_text, rows_ahead, column_index, column_text, run_create, run_delete, run_with_texts,
    last_insert_rowid, next_row, prepare, query_by_index, query_all, DbError,
};
use crate::text::usize_text;

verus! {

/// Access to the posts table.
pub struct Database {}

/// A blog post: its id, title, Markdown source, rendered HTML and date.
pub struct Post {
    pub id: usize,
    pub title: String,
    pub content: String,
    pub html_content: String,
    pub date: String,
}

impl Clone for Post {
    fn clone(&self) -> (res: Self)
        ensures
            res == *self,
    {
        Post {
            id: self.id,
            title: self.title.clone(),
            content: self.content.clone(),
            html_content: self.html_content.clone(),
            date: self.date.clone(),
        }
    }
}

impl Post {
    /// The post made of the five columns id, title, content, html_content, date.
    pub fn from_columns(id: usize, title: String, content: String, html_content: String, date: String) -> (p: Post)
        ensures
            p.id == id,
            p.title == title,
            p.content == content,
            p.html_content == html_content,
            p.date == date,
    {
        Post { id, title, content, html_content, date }
    }
}

/// The statement that creates the posts table unless it exists.
pub open spec fn create_sql() -> Seq<char> {
    "CREATE TABLE IF NOT EXISTS posts (id INTEGER PRIMARY KEY, title TEXT NOT NULL, content TEXT NOT NULL, html_content TEXT NOT NULL, date DATE NOT NULL)"@
}

/// The query for a page of posts: newest first, ten posts after an offset.
pub open spec fn list_sql() -> Seq<char> {
    "SELECT id, title, content, html_content, date FROM posts ORDER BY id DESC LIMIT 10 OFFSET ?"@
}

/// The query for the newest hundred posts, newest first.
pub open spec fn cache_sql() -> Seq<char> {
    "SELECT id, title, content, html_content, date FROM posts ORDER BY id DESC LIMIT 100"@
}

/// The query for the post with a given id.
pub open spec fn post_sql() -> Seq<char> {
    "SELECT id, title, content, html_content, date FROM posts WHERE id = ?"@
}

/// The statement that stores a new post dated today.
pub open spec fn insert_sql() -> Seq<char> {
    "INSERT INTO posts (id, title, content, html_content, date) VALUES (NULL, ?, ?, ?, date('now'))"@
}

/// The statement that rewrites a post and dates it today.
pub open spec fn update_sql() -> Seq<char> {
    "UPDATE posts SET title = ?, content = ?, html_content = ?, date = date('now') WHERE id = ?"@
}

/// The statement that deletes a post.
pub open spec fn delete_sql() -> Seq<char> {
    "DELETE FROM posts WHERE id = ?"@
}

/// `p` is what the five columns of `row` read as: id, title, content,
/// html_content and date, in that order.
pub open spec fn read_from(p: Post, row: Row) -> bool {
    &&& p.id == row_number(row, 0)
    &&& p.title@ == row_text(row, 1)
    &&& p.content@ == row_text(row, 2)
    &&& p.html_content@ == row_text(row, 3)
    &&& p.date@ == row_text(row, 4)
}

/// `p` is what some row reads as.
pub open spec fn read_from_a_row(p: Post) -> bool {
    exists|row: Row| #[trigger] read_from(p, row)
}

/// Every post of `posts` is read from some row.
pub open spec fn all_read_from_rows(posts: Seq<Post>) -> bool {
    forall|i: int| 0 <= i < posts.len() ==> #[trigger] read_from_a_row(posts[i])
}

/// Posts read one by one from rows are each read from some row.
proof fn lemma_read_from_rows(posts: Seq<Post>, rows: Seq<Row>)
    requires
        posts.len() <= rows.len(),
        forall|i: int| 0 <= i < posts.len() ==> read_from(#[trigger] posts[i], rows[i]),
    ensures
        all_read_from_rows(posts),
{
    assert forall|i: int| 0 <= i < posts.len() implies #[trigger] read_from_a_row(posts[i]) by {
        assert(read_from(posts[i], rows[i]));
    }
    assert(all_read_from_rows(posts));
}

/// Reads the five columns id, title, content, html_content, date of a row.
fn read_post(row: &Row) -> (r: Result<Post, rusqlite::Error>)
    ensures
        r matches Ok(p) ==> read_from(p, *row),
{
    let id = match column_index(row, 0) {
        Ok(v) => v,
        Err(e) => return Err(e),
    };
    let title = match column_text(row, 1) {
        Ok(v) => v,
        Err(e) => return Err(e),
    };
    let content = match column_text(row, 2) {
        Ok(v) => v,
        Err(e) => return Err(e),
    };
    let html_content = match column_text(row, 3) {
        Ok(v) => v,
        Err(e) => return Err(e),
    };
    let date = match column_text(row, 4) {
        Ok(v) => v,
        Err(e) => return Err(e),
    };
    Ok(Post::from_columns(id, title, content, html_content, date))
}

/// Reads posts from the rows still to come, up to `limit` of them: the posts
/// read are the first rows, in order, and all of them when fewer than `limit`
/// came.
fn read_posts(rows: &mut Rows, limit: usize) -> (r: Result<Vec<Post>, DbError>)
    ensures
        r matches Ok(posts) ==> {
            &&& posts@.len() <= limit
            &&& posts@.len() <= rows_ahead(*old(rows)).len()
            &&& posts@.len() < limit ==> posts@.len() == rows_ahead(*old(rows)).len()
            &&& forall|i: int| 0 <= i < posts@.len() ==> read_from(#[trigger] posts@[i], rows_ahead(*old(rows))[i])
        },
{
    let ghost ahead = rows_ahead(*rows);
    let mut posts: Vec<Post> = Vec::new();
    while posts.len() < limit
        invariant
            posts@.len() <= limit,
            posts@.len() <= ahead.len(),
            ahead == rows_ahead(*old(rows)),
            rows_ahead(*rows) == ahead.skip(posts@.len() as int),
            forall|i: int| 0 <= i < posts@.len() ==> read_from(#[trigger] posts@[i], ahead[i]),
        decreases limit - posts@.len(),
    {
        let ghost before = rows_ahead(*rows);
        match next_row(rows) {
            Ok(Some(row)) => match read_post(row) {
                Ok(p) => {
                    proof {
                        assert(before[0] == ahead[posts@.len() as int]);
                        assert(ahead.skip(posts@.len() as int).drop_first() =~= ahead.skip(posts@.len() + 1 as int));
                    }
                    posts.push(p);
                },
                Err(e) => return Err(DbError::Sqlite(e)),
            },
            Ok(None) => {
                assert(ahead.skip(posts@.len() as int).len() == 0);
                return Ok(posts);
            },
            Err(e) => return Err(DbError::Sqlite(e)),
        }
    }
    Ok(posts)
}

/// The texts bound to a stored post, in the order of the statements' parameters:
/// title, Markdown source, and the HTML rendered from the source.
fn post_texts(title: &str, content_md: &str) -> (texts: Vec<String>)
    ensures
        texts@.len() == 3,
        texts@[0]@ == title@,
        texts@[1]@ == content_md@,
        texts@[2]@ == crate::markup::markdown_html(content_md@),
{
    let mut texts: Vec<String> = Vec::new();
    texts.push(title.to_owned());
    texts.push(content_md.to_owned());
    texts.push(to_html(content_md));
    texts
}

impl Database {
    pub fn create_statement() -> (s: &'static str)
        ensures
            s@ == create_sql(),
    {
        "CREATE TABLE IF NOT EXISTS posts (id INTEGER PRIMARY KEY, title TEXT NOT NULL, content TEXT NOT NULL, html_content TEXT NOT NULL, date DATE NOT NULL)"
    }

    pub fn list_statement() -> (s: &'static str)
        ensures
            s@ == list_sql(),
    {
        "SELECT id, title, content, html_content, date FROM posts ORDER BY id DESC LIMIT 10 OFFSET ?"
    }

    /// The number of posts that list page `page` (counted from 0) skips.
    pub fn list_offset(page: usize) -> (o: usize)
        requires
            page * 10 <= usize::MAX,
        ensures
            o == page * 10,
    {
        page * 10
    }

    pub fn cache_statement() -> (s: &'static str)
        ensures
            s@ == cache_sql(),
    {
        "SELECT id, title, content, html_content, date FROM posts ORDER BY id DESC LIMIT 100"
    }

    pub fn post_statement() -> (s: &'static str)
        ensures
            s@ == post_sql(),
    {
        "SELECT id, title, content, html_content, date FROM posts WHERE id = ?"
    }

    pub fn insert_statement() -> (s: &'static str)
        ensures
            s@ == insert_sql(),
    {
        "INSERT INTO posts (id, title, content, html_content, date) VALUES (NULL, ?, ?, ?, date('now'))"
    }

    pub fn update_statement() -> (s: &'static str)
        ensures
            s@ == update_sql(),
    {
        "UPDATE posts SET title = ?, content = ?, html_content = ?, date = date('now') WHERE id = ?"
    }

    /// The parameters of the update, in the order of its placeholders: the
    /// title, the Markdown source, the HTML rendered from it, and the decimal id.
    pub fn update_params(title: &str, content_md: &str, id: usize) -> (p: Vec<String>)
        ensures
            p@.len() == 4,
            p@[0]@ == title@,
            p@[1]@ == content_md@,
            p@[2]@ == crate::markup::markdown_html(content_md@),
            p@[3]@ == crate::text::decimal_text(id as nat),
    {
        let mut p = post_texts(title, content_md);
        p.push(usize_text(id));
        p
    }

    pub fn delete_statement() -> (s: &'static str)
        ensures
            s@ == delete_sql(),
    {
        "DELETE FROM posts WHERE id = ?"
    }

    /// Creates the posts table if it does not exist yet; answers the number of
    /// rows changed.
    pub fn new(con: Connection) -> (r: Result<usize, DbError>) {
        match run_create(&con, Database::create_statement()) {
            Ok(n) => Ok(n),
            Err(e) => Err(DbError::Sqlite(e)),
        }
    }

    /// Page `page` (counted from 0) of the post list, newest first, ten posts a page.
    pub fn get_list(con: Connection, page: usize) -> (r: Result<Vec<Post>, DbError>)
        requires
            page * 10 <= usize::MAX,
        ensures
            r matches Ok(posts) ==> posts@.len() <= 10 && all_read_from_rows(posts@),
    {
        let mut stmt = match prepare(&con, Database::list_statement()) {
            Ok(s) => s,
            Err(e) => return Err(DbError::Sqlite(e)),
        };
        let mut rows = match query_by_index(&mut stmt, Database::list_offset(page)) {
            Ok(r) => r,
            Err(e) => return Err(DbError::Sqlite(e)),
        };
        let ghost ahead = rows_ahead(rows);
        let r = read_posts(&mut rows, 10);
        proof {
            if r is Ok {
                lemma_read_from_rows(r->Ok_0@, ahead);
            }
        }
        r
    }

    /// The newest hundred posts, newest first: what the cache holds.
    pub fn get_cache(con: Connection) -> (r: Result<Vec<Post>, DbError>)
        ensures
            r matches Ok(posts) ==> posts@.len() <= 100 && all_read_from_rows(posts@),
    {
        let mut stmt = match prepare(&con, Database::cache_statement()) {
            Ok(s) => s,
            Err(e) => return Err(DbError::Sqlite(e)),
        };
        let mut rows = match query_all(&mut stmt) {
            Ok(r) => r,
            Err(e) => return Err(DbError::Sqlite(e)),
        };
        let ghost ahead = rows_ahead(rows);
        let r = read_posts(&mut rows, 100);
        proof {
            if r is Ok {
                lemma_read_from_rows(r->Ok_0@, ahead);
            }
        }
        r
    }

    /// The post with id `id`, if there is one.
    pub fn get_post(con: Connection, id: usize) -> (r: Result<Option<Post>, DbError>)
        ensures
            r matches Ok(Some(p)) ==> read_from_a_row(p),
    {
        let mut stmt = match prepare(&con, Database::post_statement()) {
            Ok(s) => s,
            Err(e) => return Err(DbError::Sqlite(e)),
        };
        let mut rows = match query_by_index(&mut stmt, id) {
            Ok(r) => r,
            Err(e) => return Err(DbError::Sqlite(e)),
        };
        Database::first_post(next_row(&mut rows))
    }

    /// What the first row of the post query gives: no post when there is no
    /// row, the post read from its columns (or the failure to read them) when
    /// there is one; a failure to fetch the row is passed on.
    pub fn first_post(first: Result<Option<&Row>, rusqlite::Error>) -> (r: Result<Option<Post>, DbError>)
        ensures
            first matches Ok(None) ==> r matches Ok(None),
            first matches Ok(Some(row)) ==> match r {
                Ok(Some(p)) => read_from(p, *row),
                Ok(None) => false,
                Err(_) => true,
            },
            first matches Err(e) ==> r == Err::<Option<Post>, DbError>(DbError::Sqlite(e)),
    {
        match first {
            Ok(Some(row)) => match read_post(row) {
                Ok(p) => Ok(Some(p)),
                Err(e) => Err(DbError::Sqlite(e)),
            },
            Ok(None) => Ok(None),
            Err(e) => Err(DbError::Sqlite(e)),
        }
    }

    /// Stores a new post dated today, with the HTML rendered from its Markdown;
    /// answers the rowid of the last insert on the connection. A failure of the
    /// insert itself is not reported (only a failure to prepare it is).
    pub fn push_post(con: Connection, title: &str, content_md: &str) -> (r: Result<i64, DbError>) {
        let mut stmt = match prepare(&con, Database::insert_statement()) {
            Ok(s) => s,
            Err(e) => return Err(DbError::Sqlite(e)),
        };
        let texts = post_texts(title, content_md);
        let _ = run_with_texts(&mut stmt, &texts);
        Ok(last_insert_rowid(&con))
    }

    /// Replaces the title and content of post `id`, re-renders its HTML and
    /// dates it today.
    pub fn edit_post(con: Connection, id: usize, title: &str, content_md: &str) -> (r: Result<(), DbError>) {
        let mut stmt = match prepare(&con, Database::update_statement()) {
            Ok(s) => s,
            Err(e) => return Err(DbError::Sqlite(e)),
        };
        let texts = Database::update_params(title, content_md, id);
        match run_with_texts(&mut stmt, &texts) {
            Ok(_) => Ok(()),
            Err(e) => Err(DbError::Sqlite(e)),
        }
    }

    /// Deletes post `id`.
    pub fn rm_post(con: Connection, id: usize) -> (r: Result<(), DbError>) {
        let mut stmt = match prepare(&con, Database::delete_statement()) {
            Ok(s) => s,
            Err(e) => return Err(DbError::Sqlite(e)),
        };
        match run_delete(&mut stmt, id) {
            Ok(_) => Ok(()),
            Err(e) => Err(DbError::Sqlite(e)),
        }
    }
}

} // verus!
