//! The decisions the web front end makes: where a page of posts or a single post
//! is read from, who may use the API, and how a post is put into the edit form.
use vstd::prelude::*;

use crate::cache::Cache;
use crate::sesser::Sesser;
use crate::text::{replace_char, usize_text};
use crate::users::User;

verus! {

/// Where the posts of a list page are read from.
pub enum ListingSource {
    /// `Cache::get_posts(page)`.
    Cache { page: usize },
    /// `Database::get_list(page)` (pages counted from 0).
    Database { page: usize },
}

/// How a list page is served: its source, the three page numbers shown in the
/// pager (previous, current, next) and the current page.
pub struct Listing {
    pub source: ListingSource,
    pub counter: [usize; 3],
    pub curr_page: usize,
}

/// Where a single post is read from.
pub enum PostSource {
    Cache,
    Database,
}

/// The page a list path shows: the path itself, or 1 for paths 0 and 1.
pub open spec fn listing_offset(path: int) -> int {
    if path > 1 {
        path
    } else {
        1
    }
}

/// Plans the list page at `/posts/{path}`: paths below 11 come from the cache,
/// the others from the database.
pub fn plan_listing(path: usize) -> (l: Listing)
    requires
        path < usize::MAX,
    ensures
        l.curr_page == listing_offset(path as int),
        l.counter@ == seq![(l.curr_page - 1) as usize, l.curr_page, (l.curr_page + 1) as usize],
        path < 11 ==> l.source == (ListingSource::Cache { page: path }),
        path >= 11 ==> l.source == (ListingSource::Database { page: (l.curr_page - 1) as usize }),
{
    let offset: usize = if path > 1 { path } else { 1 };
    let source = if path < 11 {
        ListingSource::Cache { page: path }
    } else {
        ListingSource::Database { page: offset - 1 }
    };
    let counter: [usize; 3] = [offset - 1, offset, offset + 1];
    Listing { source, counter, curr_page: offset }
}

/// Plans the post page at `/post/{pid}`: a post that the cache holds is served
/// from it, any other from the database.
pub fn plan_post(pid: usize, cache: &Cache) -> (s: PostSource)
    ensures
        s == (if crate::cache::holds_post(cache@, pid as int) { PostSource::Cache } else { PostSource::Database }),
{
    if cache.holds_id(pid) {
        PostSource::Cache
    } else {
        PostSource::Database
    }
}

/// Plans the edit page of post `pid`: a post that the cache holds is taken from
/// it, any other from the database.
pub fn plan_edit(pid: usize, cache: &Cache) -> (s: PostSource)
    ensures
        s == (if crate::cache::holds_post(cache@, pid as int) { PostSource::Cache } else { PostSource::Database }),
{
    plan_post(pid, cache)
}

/// `key` is a live API key at `t1` or a live session token at `t2`.
pub open spec fn api_opens(m: crate::sesser::Tables, key: Seq<char>, t1: int, t2: int) -> bool {
    crate::sesser::is_live(m, crate::users::api_keys_table(), key, t1) || crate::sesser::is_live(
        m,
        crate::users::sessions_table(),
        key,
        t2,
    )
}

/// Whether `key` opens the content API: it is an unexpired API key or an
/// unexpired session token (each checked at its own reading of the clock).
pub fn api_access(sesser_db: &Sesser, key: &str) -> (r: bool)
    ensures
        exists|t1: int, t2: int|
            crate::sesser::is_clock_reading(t1) && crate::sesser::is_clock_reading(t2) && r
                == #[trigger] api_opens(sesser_db@, key@, t1, t2),
        r ==> crate::sesser::values_of(sesser_db@, crate::users::api_keys_table()).contains(key@)
            || crate::sesser::values_of(sesser_db@, crate::users::sessions_table()).contains(key@),
{
    let by_key = User::validate_key(sesser_db, key, "api_keys");
    let r = if by_key {
        true
    } else {
        User::validate_key(sesser_db, key, "sessions")
    };
    proof {
        let m = sesser_db@;
        let t1 = choose|t: u128|
            crate::sesser::is_clock_reading(t as int) && by_key == crate::sesser::is_live(
                m,
                "api_keys"@,
                key@,
                t as int,
            );
        let t2: u128 = if by_key {
            0
        } else {
            choose|t: u128|
                crate::sesser::is_clock_reading(t as int) && r == crate::sesser::is_live(
                    m,
                    "sessions"@,
                    key@,
                    t as int,
                )
        };
        let i1: int = t1 as int;
        let i2: int = t2 as int;
        assert(r == api_opens(m, key@, i1, i2));
    }
    r
}

/// Whether an account action is allowed: the master credentials were right, or
/// the password field holds a live session token.
pub fn master_access(credentials_ok: bool, sesser_db: &Sesser, password: &str) -> (r: bool)
    ensures
        credentials_ok ==> r,
        !credentials_ok ==> exists|t: u128|
            crate::sesser::is_clock_reading(t as int) && r == crate::sesser::is_live(
                sesser_db@,
                crate::users::sessions_table(),
                password@,
                t as int,
            ),
{
    credentials_ok || User::validate_key(sesser_db, password, "sessions")
}

/// What a request to rename the master user comes to.
pub enum RenameOutcome {
    /// Neither the credentials nor a session allow it.
    Unauthorized,
    /// The new name is empty, which is refused.
    EmptyName,
    /// The rename goes ahead.
    Rename,
}

/// Decides a request to rename the master user: it needs access, and a name
/// that is not empty.
pub fn plan_rename(access: bool, new_username: &str) -> (o: RenameOutcome)
    ensures
        o == (if !access {
            RenameOutcome::Unauthorized
        } else if new_username@.len() == 0 {
            RenameOutcome::EmptyName
        } else {
            RenameOutcome::Rename
        }),
{
    if !access {
        RenameOutcome::Unauthorized
    } else if new_username.is_empty() {
        RenameOutcome::EmptyName
    } else {
        RenameOutcome::Rename
    }
}

/// `text` with every backtick escaped by a backslash, so that it can stand in a
/// JavaScript template literal.
pub open spec fn backticks_escaped(text: Seq<char>) -> Seq<char> {
    crate::text::replaced(text, '`', "\\`"@)
}

/// Escapes the backticks of a post's Markdown for the edit form.
pub fn escape_backticks(text: &str) -> (r: String)
    ensures
        r@ == backticks_escaped(text@),
{
    replace_char(text, '`', "\\`")
}

/// The form fields that name the post being edited: `id=<decimal id>&`.
pub fn edit_form_fields(id: usize) -> (r: String)
    ensures
        r@ == "id="@ + crate::text::decimal_text(id as nat) + "&"@,
{
    let mut r = "id=".to_owned();
    let digits = usize_text(id);
    r.append(digits.as_str());
    r.append("&");
    r
}

} // verus!
