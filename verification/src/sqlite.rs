//! The calls into SQLite (`rusqlite`) that the blog makes. What a database
//! answers depends on what is stored on disk, so which rows come back, and
//! whether a statement succeeds, is never claimed here; what is claimed is how
//! a cursor hands out its rows and that a column read gives that row's value.
use rusqlite::{Connection, Row, Rows, Statement};
use vstd::prelude::*;

verus! {

#[verifier::external_type_specification]
#[verifier::external_body]
pub struct ExConnection(rusqlite::Connection);

#[verifier::external_type_specification]
#[verifier::external_body]
pub struct ExStatement<'conn>(rusqlite::Statement<'conn>);

#[verifier::external_type_specification]
#[verifier::external_body]
pub struct ExRows<'stmt>(rusqlite::Rows<'stmt>);

#[verifier::external_type_specification]
#[verifier::external_body]
pub struct ExRow<'stmt>(rusqlite::Row<'stmt>);

#[verifier::external_type_specification]
#[verifier::external_body]
pub struct ExSqliteError(rusqlite::Error);

/// A failure of the database, carrying what SQLite reported.
#[derive(Debug)]
pub enum DbError {
    Sqlite(rusqlite::Error),
}

/// Runs one SQL statement without parameters, by `Connection::execute`.
///
/// Trusted: the result (rows changed, or the error) depends on the database;
/// nothing is claimed of it.
#[verifier::external_body]
fn execute_sql(con: &Connection, sql: &str) -> Result<usize, rusqlite::Error> {
    con.execute(sql, [])
}

/// A compiled statement, with the SQL text it was compiled from.
pub struct Prepared<'c> {
    stmt: Statement<'c>,
    sql: Ghost<Seq<char>>,
}

impl<'c> Prepared<'c> {
    /// The SQL text the statement was compiled from.
    pub closed spec fn sql(&self) -> Seq<char> {
        self.sql@
    }
}

/// Compiles one SQL statement, by `Connection::prepare`, and keeps the text
/// it was compiled from beside it.
///
/// Trusted: a statement compiled is recorded with exactly the text handed to
/// `Connection::prepare`; whether it compiles depends on the database's
/// schema, and nothing is claimed of that.
#[verifier::external_body]
pub(crate) fn prepare<'c>(con: &'c Connection, sql: &str) -> (r: Result<Prepared<'c>, rusqlite::Error>)
    ensures
        r matches Ok(p) ==> p.sql() == sql@,
{
    match con.prepare(sql) {
        Ok(stmt) => Ok(Prepared { stmt, sql: Ghost(sql@) }),
        Err(e) => Err(e),
    }
}

/// Runs a prepared statement with text parameters bound in order, by
/// `Statement::execute` over `params_from_iter`.
///
/// Trusted: the result depends on the database; nothing is claimed of it.
#[verifier::external_body]
fn execute_with_texts(stmt: &mut Statement, params: &Vec<String>) -> Result<usize, rusqlite::Error> {
    stmt.execute(rusqlite::params_from_iter(params.iter()))
}

/// Runs a prepared statement with one integer parameter, by `Statement::execute`
/// (an index above `i64::MAX` is refused by rusqlite with an error).
///
/// Trusted: the result depends on the database; nothing is claimed of it.
#[verifier::external_body]
fn execute_with_index(stmt: &mut Statement, param: usize) -> Result<usize, rusqlite::Error> {
    stmt.execute([param])
}

/// Starts a query with one integer parameter, by `Statement::query`.
///
/// Trusted: the result depends on the database; nothing is claimed of it.
#[verifier::external_body]
fn query_with_index<'s>(stmt: &'s mut Statement, param: usize) -> Result<Rows<'s>, rusqlite::Error> {
    stmt.query([param])
}

/// Starts a query with text parameters bound in order, by `Statement::query`
/// over `params_from_iter`.
///
/// Trusted: the result depends on the database; nothing is claimed of it.
#[verifier::external_body]
fn query_with_texts<'s>(stmt: &'s mut Statement, params: &Vec<String>) -> Result<Rows<'s>, rusqlite::Error> {
    stmt.query(rusqlite::params_from_iter(params.iter()))
}

/// Starts a query without parameters, by `Statement::query`.
///
/// Trusted: the result depends on the database; nothing is claimed of it.
#[verifier::external_body]
fn query_without_params<'s>(stmt: &'s mut Statement) -> Result<Rows<'s>, rusqlite::Error> {
    stmt.query([])
}

/// The statements with text parameters that the blog runs, each with the
/// number of texts it binds: a new post, a post rewritten, the master user
/// created, the master user renamed.
pub open spec fn runs_with_texts(sql: Seq<char>, count: int) -> bool {
    ||| sql == crate::posts::insert_sql() && count == 3
    ||| sql == crate::posts::update_sql() && count == 4
    ||| sql == crate::users::master_insert_sql() && count == 1
    ||| sql == crate::users::master_update_sql() && count == 2
}

/// Creates the posts table. Only that statement is run without parameters.
pub(crate) fn run_create(con: &Connection, sql: &str) -> Result<usize, rusqlite::Error>
    requires
        sql@ == crate::posts::create_sql(),
{
    execute_sql(con, sql)
}

/// Runs one of the blog's statements with text parameters, binding exactly the
/// number of texts that statement takes.
pub(crate) fn run_with_texts(p: &mut Prepared, params: &Vec<String>) -> Result<usize, rusqlite::Error>
    requires
        runs_with_texts(old(p).sql(), params@.len() as int),
{
    execute_with_texts(&mut p.stmt, params)
}

/// Runs the statement that deletes the post with the id bound to it; no other
/// statement is run with one integer parameter.
pub(crate) fn run_delete(p: &mut Prepared, id: usize) -> Result<usize, rusqlite::Error>
    requires
        old(p).sql() == crate::posts::delete_sql(),
{
    execute_with_index(&mut p.stmt, id)
}

/// Starts the query for a page of posts (bound to its offset, a whole number
/// of pages of ten) or for one post (bound to its id); no other query takes one
/// integer parameter.
pub(crate) fn query_by_index<'s, 'c>(p: &'s mut Prepared<'c>, param: usize) -> Result<Rows<'s>, rusqlite::Error>
    requires
        old(p).sql() == crate::posts::list_sql() && param % 10 == 0 || old(p).sql() == crate::posts::post_sql(),
{
    query_with_index(&mut p.stmt, param)
}

/// Starts the login query, bound to the login and the password hash.
pub(crate) fn query_by_texts<'s, 'c>(p: &'s mut Prepared<'c>, params: &Vec<String>) -> Result<Rows<'s>, rusqlite::Error>
    requires
        old(p).sql() == crate::users::login_sql(),
        params@.len() == 2,
{
    query_with_texts(&mut p.stmt, params)
}

/// Starts the query for the newest hundred posts, which takes no parameter.
pub(crate) fn query_all<'s, 'c>(p: &'s mut Prepared<'c>) -> Result<Rows<'s>, rusqlite::Error>
    requires
        old(p).sql() == crate::posts::cache_sql(),
{
    query_without_params(&mut p.stmt)
}

/// The rows that a query cursor has still to hand out, in order. Which rows
/// those are is up to the database; this names them so that what is read from
/// them can be stated.
pub uninterp spec fn rows_ahead(rows: Rows) -> Seq<Row>;

/// The text that `Row::get::<usize, String>` reads from column `idx` of a row.
pub uninterp spec fn row_text(row: Row, idx: usize) -> Seq<char>;

/// The integer that `Row::get::<usize, usize>` reads from column `idx` of a row.
pub uninterp spec fn row_number(row: Row, idx: usize) -> usize;

/// The next row of a query, by `Rows::next`.
///
/// Trusted: a row handed out is the first of the rows still to come, and the
/// cursor then holds the rest; no row means none was left. After an error
/// nothing is claimed of the cursor.
#[verifier::external_body]
pub(crate) fn next_row<'r, 's>(rows: &'r mut Rows<'s>) -> (r: Result<Option<&'r Row<'s>>, rusqlite::Error>)
    ensures
        r matches Ok(Some(row)) ==> {
            &&& rows_ahead(*old(rows)).len() > 0
            &&& *row == rows_ahead(*old(rows))[0]
            &&& rows_ahead(*final(rows)) == rows_ahead(*old(rows)).drop_first()
        },
        r matches Ok(None) ==> rows_ahead(*old(rows)).len() == 0,
{
    rows.next()
}

/// A column of a row read as a non-negative integer, by `Row::get::<usize, usize>`.
///
/// Trusted: a value read is the one named `row_number` for that row and
/// column; whether the read succeeds depends on what is stored.
#[verifier::external_body]
pub(crate) fn column_index(row: &Row, idx: usize) -> (r: Result<usize, rusqlite::Error>)
    ensures
        r matches Ok(v) ==> v == row_number(*row, idx),
{
    row.get(idx)
}

/// A column of a row read as text, by `Row::get::<usize, String>`.
///
/// Trusted: a text read is the one named `row_text` for that row and column;
/// whether the read succeeds depends on what is stored.
#[verifier::external_body]
pub(crate) fn column_text(row: &Row, idx: usize) -> (r: Result<String, rusqlite::Error>)
    ensures
        r matches Ok(s) ==> s@ == row_text(*row, idx),
{
    row.get(idx)
}

/// The rowid of the last successful insert on this connection, by
/// `Connection::last_insert_rowid`.
///
/// Trusted: the number depends on the database; nothing is claimed of it.
#[verifier::external_body]
pub(crate) fn last_insert_rowid(con: &Connection) -> i64 {
    con.last_insert_rowid()
}

} // verus!
