use rogger::sesser::Sesser;
use rogger::sqlite::DbError;
use rogger::users::User;
use rusqlite::Connection;

fn shared(name: &str) -> Connection {
    Connection::open(format!("file:{}?mode=memory&cache=shared", name)).unwrap()
}

fn with_user_table(name: &str) -> Connection {
    let keeper = shared(name);
    keeper
        .execute("CREATE TABLE user (id INTEGER PRIMARY KEY, username TEXT, password TEXT)", [])
        .unwrap();
    keeper
}

#[test]
fn init_master_creates_the_user_once() {
    let _keeper = with_user_table("users_init");
    let (store, password) = User::init_master(shared("users_init")).unwrap();
    let password = password.expect("the first start shows the password");
    assert_eq!(password.len(), 32);
    assert!(password.chars().all(|c| c.is_ascii_alphanumeric()));
    assert!(store.check_table_exists("sessions"));
    assert!(store.check_table_exists("api_keys"));
    assert!(store.list_values("sessions").is_empty());
    let (_, again) = User::init_master(shared("users_init")).unwrap();
    assert!(again.is_none());
    assert!(User::validate(shared("users_init"), String::from("Rogger_Admin"), password.clone()).unwrap());
    assert!(!User::validate(shared("users_init"), String::from("Rogger_Admin"), String::from("wrong")).unwrap());
    assert!(!User::validate(shared("users_init"), String::from("someone"), password).unwrap());
}

#[test]
fn stored_password_is_hex_sha512() {
    let keeper = with_user_table("users_hash");
    let (_, password) = User::init_master(shared("users_hash")).unwrap();
    let password = password.unwrap();
    let stored: String = keeper
        .query_row("SELECT password FROM user WHERE id = 1", [], |r| r.get(0))
        .unwrap();
    assert_eq!(stored.len(), 128);
    assert!(stored.chars().all(|c| c.is_ascii_hexdigit() && !c.is_ascii_uppercase()));
    assert_ne!(stored, password);
}

#[test]
fn init_master_fails_without_user_table() {
    let _keeper = shared("users_missing");
    match User::init_master(shared("users_missing")) {
        Err(DbError::Sqlite(_)) => {}
        Ok(_) => panic!("expected a database error"),
    }
}

#[test]
fn new_master_user_replaces_credentials() {
    let _keeper = with_user_table("users_rename");
    let (_, first) = User::init_master(shared("users_rename")).unwrap();
    let first = first.unwrap();
    let second = User::new_master_user(shared("users_rename"), "alice").unwrap();
    assert_eq!(second.len(), 32);
    assert!(User::validate(shared("users_rename"), String::from("alice"), second).unwrap());
    assert!(!User::validate(shared("users_rename"), String::from("Rogger_Admin"), first).unwrap());
}

#[test]
fn login_text_is_bound_not_spliced() {
    let _keeper = with_user_table("users_quote");
    let (_, password) = User::init_master(shared("users_quote")).unwrap();
    assert!(!User::validate(shared("users_quote"), String::from("it's"), String::from("x")).unwrap());
    assert!(!User::validate(shared("users_quote"), String::from("' OR 1=1 --"), String::from("x")).unwrap());
    assert!(!User::validate(shared("users_quote"), String::from("Rogger_Admin"), String::from("' OR '1'='1")).unwrap());
    assert!(User::validate(shared("users_quote"), String::from("Rogger_Admin"), password.unwrap()).unwrap());
}

#[test]
fn rename_to_a_quoted_name_round_trips() {
    let _keeper = with_user_table("users_quoted_name");
    User::init_master(shared("users_quoted_name")).unwrap();
    let password = User::new_master_user(shared("users_quoted_name"), "o'brien").unwrap();
    assert!(User::validate(shared("users_quoted_name"), String::from("o'brien"), password).unwrap());
}

fn store() -> Sesser {
    let mut s = Sesser::new();
    s.create_table("sessions");
    s.create_table("api_keys");
    s
}

#[test]
fn api_keys_are_issued_listed_and_revoked() {
    let mut s = store();
    let key = User::new_key(&mut s);
    assert_eq!(key.len(), 64);
    assert!(User::validate_key(&s, &key, "api_keys"));
    assert!(!User::validate_key(&s, &key, "sessions"));
    assert_eq!(User::get_keys(&s), vec![key.clone()]);
    User::rm_key(&mut s, &key);
    assert!(!User::validate_key(&s, &key, "api_keys"));
    assert!(User::get_keys(&s).is_empty());
}

#[test]
fn sessions_start_and_end() {
    let mut s = store();
    let session = User::new_session(&mut s);
    assert_eq!(session.len(), 64);
    assert!(User::validate_key(&s, &session, "sessions"));
    User::end_session(&mut s, &session);
    assert!(!User::validate_key(&s, &session, "sessions"));
}

#[test]
fn keys_need_their_table() {
    let mut s = Sesser::new();
    assert_eq!(User::new_key(&mut s), "");
    assert_eq!(User::new_session(&mut s), "");
    assert!(User::get_keys(&s).is_empty());
}

#[test]
fn init_store_shows_the_password_only_for_a_new_user() {
    let (store, shown) = User::init_store(1, String::from("secret"));
    assert_eq!(shown, Some(String::from("secret")));
    assert!(store.check_table_exists("sessions"));
    assert!(store.check_table_exists("api_keys"));
    let (_, hidden) = User::init_store(0, String::from("secret"));
    assert_eq!(hidden, None);
}

#[test]
fn login_outcome_follows_the_first_row() {
    assert!(matches!(User::login_outcome(Ok(None)), Ok(false)));
    assert!(matches!(
        User::login_outcome(Err(rusqlite::Error::QueryReturnedNoRows)),
        Err(DbError::Sqlite(rusqlite::Error::QueryReturnedNoRows))
    ));
    let con = Connection::open_in_memory().unwrap();
    let mut stmt = con.prepare("SELECT 1").unwrap();
    let mut rows = stmt.query([]).unwrap();
    assert!(matches!(User::login_outcome(rows.next()), Ok(true)));
}

#[test]
fn fresh_credentials_bind_the_password_they_return() {
    let (password, params) = User::fresh_master_insert();
    assert_eq!(password.len(), 32);
    assert!(password.chars().all(|c| c.is_ascii_alphanumeric()));
    assert_eq!(params, User::master_insert_params(&password));
    let (password2, params2) = User::fresh_master_update("alice");
    assert_eq!(password2.len(), 32);
    assert_eq!(params2, User::master_update_params("alice", &password2));
    assert_ne!(password, password2);
}
