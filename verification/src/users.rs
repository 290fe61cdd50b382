//! The master user (kept in SQLite) and the sessions and API keys (kept in a
//! `Sesser` store).
use rusqlite::{Connection, Row};
use vstd::prelude::*;

use crate::crypto::{hex_encode, sha512};
use crate::sesser::{random_seed, Sesser};
use crate::sqlite::{run_with_texts, next_row, prepare, query_by_texts, DbError};

verus! {

/// The table of session tokens.
pub open spec fn sessions_table() -> Seq<char> {
    "sessions"@
}

/// The table of API keys.
pub open spec fn api_keys_table() -> Seq<char> {
    "api_keys"@
}

/// How long a session lasts, in seconds (ten minutes).
pub open spec fn session_secs() -> u64 {
    600
}

/// How long an API key lasts, in seconds (a week).
pub open spec fn api_key_secs() -> u64 {
    604800
}

/// The stored form of a password: the lower-case hex SHA-512 of its UTF-8 bytes.
pub open spec fn password_hash_of(password: Seq<char>) -> Seq<char> {
    crate::crypto::lower_hex(crate::crypto::sha512_digest(vstd::utf8::encode_utf8(password)))
}

/// The statement that creates the master user "Rogger_Admin" with the password
/// hash bound to its parameter, unless a user with id 1 exists.
pub open spec fn master_insert_sql() -> Seq<char> {
    "INSERT OR IGNORE INTO user (id, username, password) VALUES (1, 'Rogger_Admin', ?)"@
}

/// The statement that gives the master user the name and password hash bound
/// to its parameters.
pub open spec fn master_update_sql() -> Seq<char> {
    "UPDATE user SET username = ?, password = ? WHERE id = 1"@
}

/// The query that finds the master user by the name and password hash bound to
/// its parameters.
pub open spec fn login_sql() -> Seq<char> {
    "SELECT * FROM user WHERE id = 1 AND username = ? AND password = ?"@
}

/// The tables of a freshly started store: no sessions and no API keys.
pub open spec fn initial_tables() -> crate::sesser::Tables {
    Map::<Seq<char>, Map<Seq<char>, u128>>::empty().insert(sessions_table(), Map::empty()).insert(
        api_keys_table(),
        Map::empty(),
    )
}

fn hash_password(password: &str) -> (h: String)
    ensures
        h@ == password_hash_of(password@),
{
    let digest = sha512(password.as_bytes());
    hex_encode(digest.as_slice())
}

/// The blog's users: one master user, its sessions and its API keys.
pub struct User {}

impl User {
    pub fn master_insert_statement() -> (s: &'static str)
        ensures
            s@ == master_insert_sql(),
    {
        "INSERT OR IGNORE INTO user (id, username, password) VALUES (1, 'Rogger_Admin', ?)"
    }

    /// The parameter of the master insert: the stored form of `password`.
    pub fn master_insert_params(password: &str) -> (p: Vec<String>)
        ensures
            p@.len() == 1,
            p@[0]@ == password_hash_of(password@),
    {
        let mut p: Vec<String> = Vec::new();
        p.push(hash_password(password));
        p
    }

    pub fn master_update_statement() -> (s: &'static str)
        ensures
            s@ == master_update_sql(),
    {
        "UPDATE user SET username = ?, password = ? WHERE id = 1"
    }

    /// The parameters of the master update: the new name and the stored form
    /// of `password`.
    pub fn master_update_params(username: &str, password: &str) -> (p: Vec<String>)
        ensures
            p@.len() == 2,
            p@[0]@ == username@,
            p@[1]@ == password_hash_of(password@),
    {
        let mut p: Vec<String> = Vec::new();
        p.push(username.to_owned());
        p.push(hash_password(password));
        p
    }

    pub fn login_statement() -> (s: &'static str)
        ensures
            s@ == login_sql(),
    {
        "SELECT * FROM user WHERE id = 1 AND username = ? AND password = ?"
    }

    /// The parameters of the login query: the login and the stored form of
    /// `password`.
    pub fn login_params(login: &str, password: &str) -> (p: Vec<String>)
        ensures
            p@.len() == 2,
            p@[0]@ == login@,
            p@[1]@ == password_hash_of(password@),
    {
        let mut p: Vec<String> = Vec::new();
        p.push(login.to_owned());
        p.push(hash_password(password));
        p
    }

    /// A new random password, and the parameters of the master insert that
    /// store exactly that password.
    pub fn fresh_master_insert() -> (r: (String, Vec<String>))
        ensures
            crate::sesser::is_seed(r.0@),
            r.1@.len() == 1,
            r.1@[0]@ == password_hash_of(r.0@),
    {
        let password = random_seed();
        let params = User::master_insert_params(password.as_str());
        (password, params)
    }

    /// A new random password, and the parameters of the master update that
    /// give the master user the name `username` and exactly that password.
    pub fn fresh_master_update(username: &str) -> (r: (String, Vec<String>))
        ensures
            crate::sesser::is_seed(r.0@),
            r.1@.len() == 2,
            r.1@[0]@ == username@,
            r.1@[1]@ == password_hash_of(r.0@),
    {
        let password = random_seed();
        let params = User::master_update_params(username, password.as_str());
        (password, params)
    }

    /// Creates the master user "Rogger_Admin" with a random password unless it
    /// exists, and starts a store with empty session and API key tables. The
    /// password comes back only when the user was created by this call.
    pub fn init_master(con: Connection) -> (r: Result<(Sesser, Option<String>), DbError>)
        ensures
            r matches Ok((store, password)) ==> {
                &&& store@ == initial_tables()
                &&& password matches Some(p) ==> crate::sesser::is_seed(p@)
            },
    {
        let (rng_str, params) = User::fresh_master_insert();
        let mut stmt = match prepare(&con, User::master_insert_statement()) {
            Ok(st) => st,
            Err(e) => return Err(DbError::Sqlite(e)),
        };
        let changed_rows = match run_with_texts(&mut stmt, &params) {
            Ok(n) => n,
            Err(e) => return Err(DbError::Sqlite(e)),
        };
        Ok(User::init_store(changed_rows, rng_str))
    }

    /// What starting up makes of the insert of the master user: a store with
    /// empty session and API key tables, and the password to show, which is
    /// shown only when the insert changed exactly one row (the user is new).
    pub fn init_store(changed_rows: usize, password: String) -> (r: (Sesser, Option<String>))
        ensures
            r.0@ == initial_tables(),
            r.1 is Some <==> changed_rows == 1,
            r.1 matches Some(p) ==> p@ == password@,
    {
        let mut sesser_db = Sesser::new();
        sesser_db.create_table("sessions");
        sesser_db.create_table("api_keys");
        if changed_rows == 1 {
            (sesser_db, Some(password))
        } else {
            (sesser_db, None)
        }
    }

    /// Gives the master user the name `username` and a new random password, and
    /// answers that password.
    pub fn new_master_user(con: Connection, username: &str) -> (r: Result<String, DbError>)
        ensures
            r matches Ok(p) ==> crate::sesser::is_seed(p@),
    {
        let (rng_str, params) = User::fresh_master_update(username);
        let mut stmt = match prepare(&con, User::master_update_statement()) {
            Ok(st) => st,
            Err(e) => return Err(DbError::Sqlite(e)),
        };
        match run_with_texts(&mut stmt, &params) {
            Ok(_) => Ok(rng_str),
            Err(e) => Err(DbError::Sqlite(e)),
        }
    }

    /// Whether `login` and `password` are the master user's credentials.
    pub fn validate(con: Connection, login: String, password: String) -> (r: Result<bool, DbError>) {
        let params = User::login_params(login.as_str(), password.as_str());
        let mut user_db = match prepare(&con, User::login_statement()) {
            Ok(st) => st,
            Err(e) => return Err(DbError::Sqlite(e)),
        };
        let mut result = match query_by_texts(&mut user_db, &params) {
            Ok(r) => r,
            Err(e) => return Err(DbError::Sqlite(e)),
        };
        User::login_outcome(next_row(&mut result))
    }

    /// What the first row of the login query says: the credentials match when
    /// there is a row, and do not when there is none; a failure to read it is
    /// passed on.
    pub fn login_outcome(first: Result<Option<&Row>, rusqlite::Error>) -> (r: Result<bool, DbError>)
        ensures
            match first {
                Ok(row) => r == Ok::<bool, DbError>(row is Some),
                Err(e) => r == Err::<bool, DbError>(DbError::Sqlite(e)),
            },
    {
        match first {
            Ok(Some(_)) => Ok(true),
            Ok(None) => Ok(false),
            Err(e) => Err(DbError::Sqlite(e)),
        }
    }

    /// A new API key, valid for a week.
    pub fn new_key(sesser_db: &mut Sesser) -> (key: String)
        ensures
            old(sesser_db)@.dom().contains(api_keys_table()) ==> {
                &&& key@.len() == 64
                &&& exists|seed: Seq<char>, now: u128|
                    #![trigger crate::sesser::token_of(seed), crate::sesser::expiry(now, api_key_secs())]
                    {
                        &&& crate::sesser::is_clock_reading(now as int)
                        &&& crate::sesser::is_seed(seed)
                        &&& key@ == crate::sesser::token_of(seed)
                        &&& final(sesser_db)@ == crate::sesser::with_value(
                            old(sesser_db)@,
                            api_keys_table(),
                            key@,
                            crate::sesser::expiry(now, api_key_secs()) as u128,
                        )
                    }
            },
            !old(sesser_db)@.dom().contains(api_keys_table()) ==> key@ == Seq::<char>::empty()
                && final(sesser_db)@ == old(sesser_db)@,
            final(sesser_db).latest_reading() >= old(sesser_db).latest_reading(),
            old(sesser_db)@.dom().contains(api_keys_table()) ==> forall|t: int|
                final(sesser_db).latest_reading() <= t < final(sesser_db).latest_reading() + api_key_secs() * 1_000_000_000
                    ==> #[trigger] crate::sesser::is_live(final(sesser_db)@, api_keys_table(), key@, t),
    {
        let key = sesser_db.generate_value("api_keys", 604800);
        proof {
            if old(sesser_db)@.dom().contains("api_keys"@) {
                let (seed, now) = choose|seed: Seq<char>, now: u128|
                    #![trigger crate::sesser::token_of(seed), crate::sesser::expiry(now, 604800)]
                    {
                        &&& crate::sesser::is_clock_reading(now as int)
                        &&& crate::sesser::is_seed(seed)
                        &&& key@ == crate::sesser::token_of(seed)
                        &&& sesser_db@ == crate::sesser::with_value(
                            old(sesser_db)@,
                            "api_keys"@,
                            key@,
                            crate::sesser::expiry(now, 604800) as u128,
                        )
                    };
                assert(crate::sesser::expiry(now, api_key_secs()) == crate::sesser::expiry(now, 604800));
            }
        }
        key
    }

    /// Whether `api_key` is an unexpired value of table `typev`.
    pub fn validate_key(sesser_db: &Sesser, api_key: &str, typev: &str) -> (r: bool)
        ensures
            exists|now: u128| crate::sesser::is_clock_reading(now as int) && r == crate::sesser::is_live(sesser_db@, typev@, api_key@, now as int),
            exists|now: u128| crate::sesser::is_clock_reading(now as int) && now >= sesser_db.latest_reading()
                && r == crate::sesser::is_live(sesser_db@, typev@, api_key@, now as int),
            r ==> sesser_db@.dom().contains(typev@) && sesser_db@[typev@].dom().contains(api_key@),
            r ==> sesser_db@[typev@][api_key@] > sesser_db.latest_reading(),
    {
        sesser_db.check_value_exists(typev, api_key)
    }

    /// The API keys, each once, in no particular order.
    pub fn get_keys(sesser_db: &Sesser) -> (keys: Vec<String>)
        ensures
            keys@.map_values(|s: String| s@).no_duplicates(),
            keys@.map_values(|s: String| s@).to_set() == crate::sesser::values_of(
                sesser_db@,
                api_keys_table(),
            ),
    {
        sesser_db.list_values("api_keys")
    }

    /// Revokes an API key.
    pub fn rm_key(sesser_db: &mut Sesser, api_key: &str)
        ensures
            final(sesser_db)@ == crate::sesser::without_value(old(sesser_db)@, api_keys_table(), api_key@),
    {
        sesser_db.remove_value("api_keys", api_key);
    }

    /// A new session token, valid for ten minutes.
    pub fn new_session(sesser_db: &mut Sesser) -> (session: String)
        ensures
            old(sesser_db)@.dom().contains(sessions_table()) ==> {
                &&& session@.len() == 64
                &&& exists|seed: Seq<char>, now: u128|
                    #![trigger crate::sesser::token_of(seed), crate::sesser::expiry(now, session_secs())]
                    {
                        &&& crate::sesser::is_clock_reading(now as int)
                        &&& crate::sesser::is_seed(seed)
                        &&& session@ == crate::sesser::token_of(seed)
                        &&& final(sesser_db)@ == crate::sesser::with_value(
                            old(sesser_db)@,
                            sessions_table(),
                            session@,
                            crate::sesser::expiry(now, session_secs()) as u128,
                        )
                    }
            },
            !old(sesser_db)@.dom().contains(sessions_table()) ==> session@ == Seq::<char>::empty()
                && final(sesser_db)@ == old(sesser_db)@,
            final(sesser_db).latest_reading() >= old(sesser_db).latest_reading(),
            old(sesser_db)@.dom().contains(sessions_table()) ==> forall|t: int|
                final(sesser_db).latest_reading() <= t < final(sesser_db).latest_reading() + session_secs() * 1_000_000_000
                    ==> #[trigger] crate::sesser::is_live(final(sesser_db)@, sessions_table(), session@, t),
    {
        let session = sesser_db.generate_value("sessions", 600);
        proof {
            if old(sesser_db)@.dom().contains("sessions"@) {
                let (seed, now) = choose|seed: Seq<char>, now: u128|
                    #![trigger crate::sesser::token_of(seed), crate::sesser::expiry(now, 600)]
                    {
                        &&& crate::sesser::is_clock_reading(now as int)
                        &&& crate::sesser::is_seed(seed)
                        &&& session@ == crate::sesser::token_of(seed)
                        &&& sesser_db@ == crate::sesser::with_value(
                            old(sesser_db)@,
                            "sessions"@,
                            session@,
                            crate::sesser::expiry(now, 600) as u128,
                        )
                    };
                assert(crate::sesser::expiry(now, session_secs()) == crate::sesser::expiry(now, 600));
            }
        }
        session
    }

    /// Ends a session.
    pub fn end_session(sesser_db: &mut Sesser, session: &str)
        ensures
            final(sesser_db)@ == crate::sesser::without_value(old(sesser_db)@, sessions_table(), session@),
    {
        sesser_db.remove_value("sessions", session);
    }
}

/// Law: sessions and API keys are kept apart. Starting or ending a session
/// changes no answer about API keys, issuing or revoking an API key changes no
/// answer about sessions, and a session token is accepted as a session until its
/// expiry and not after it is ended.
pub proof fn lemma_sessions_and_keys_apart(
    m: crate::sesser::Tables,
    token: Seq<char>,
    other: Seq<char>,
    expires: u128,
    now: int,
)
    requires
        m.dom().contains(sessions_table()),
    ensures
        crate::sesser::is_live(crate::sesser::with_value(m, sessions_table(), token, expires), api_keys_table(), other, now)
            == crate::sesser::is_live(m, api_keys_table(), other, now),
        crate::sesser::is_live(crate::sesser::without_value(m, sessions_table(), token), api_keys_table(), other, now)
            == crate::sesser::is_live(m, api_keys_table(), other, now),
        crate::sesser::is_live(crate::sesser::with_value(m, api_keys_table(), token, expires), sessions_table(), other, now)
            == crate::sesser::is_live(m, sessions_table(), other, now),
        crate::sesser::is_live(crate::sesser::without_value(m, api_keys_table(), token), sessions_table(), other, now)
            == crate::sesser::is_live(m, sessions_table(), other, now),
        crate::sesser::is_live(crate::sesser::with_value(m, sessions_table(), token, expires), sessions_table(), token, now)
            <==> now < expires,
        !crate::sesser::is_live(crate::sesser::without_value(m, sessions_table(), token), sessions_table(), token, now),
{
    assert(sessions_table() != api_keys_table()) by {
        reveal_strlit("sessions");
        reveal_strlit("api_keys");
        assert(sessions_table()[0] != api_keys_table()[0]);
    }
}

} // verus!
