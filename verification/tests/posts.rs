use rogger::cache::Cache;
use rogger::posts::{Database, Post};
use rogger::sqlite::DbError;
use rusqlite::Connection;

fn posts_db(name: &str) -> Connection {
    Connection::open(format!("file:{}?mode=memory&cache=shared", name)).unwrap()
}

fn blog(name: &str, n: usize) -> Connection {
    let keeper = posts_db(name);
    Database::new(posts_db(name)).unwrap();
    for i in 1..=n {
        Database::push_post(posts_db(name), &format!("title {}", i), &format!("# Post {}", i)).unwrap();
    }
    keeper
}

#[test]
fn pushed_post_reads_back_with_html() {
    let _k = blog("posts_push", 0);
    let id = Database::push_post(posts_db("posts_push"), "Hello", "*hi*").unwrap();
    assert_eq!(id, 1);
    let post = Database::get_post(posts_db("posts_push"), 1).unwrap().unwrap();
    assert_eq!(post.id, 1);
    assert_eq!(post.title, "Hello");
    assert_eq!(post.content, "*hi*");
    assert_eq!(post.html_content, "<p><em>hi</em></p>");
    assert_eq!(post.date.len(), 10);
    assert!(Database::get_post(posts_db("posts_push"), 2).unwrap().is_none());
}

#[test]
fn list_pages_are_newest_first_ten_a_page() {
    let _k = blog("posts_list", 23);
    let first = Database::get_list(posts_db("posts_list"), 0).unwrap();
    assert_eq!(first.len(), 10);
    assert_eq!(first[0].id, 23);
    assert_eq!(first[9].id, 14);
    let third = Database::get_list(posts_db("posts_list"), 2).unwrap();
    assert_eq!(third.iter().map(|p| p.id).collect::<Vec<_>>(), vec![3, 2, 1]);
    assert!(Database::get_list(posts_db("posts_list"), 3).unwrap().is_empty());
}

#[test]
fn edit_and_remove_post() {
    let _k = blog("posts_edit", 2);
    Database::edit_post(posts_db("posts_edit"), 2, "New", "## Changed").unwrap();
    let post = Database::get_post(posts_db("posts_edit"), 2).unwrap().unwrap();
    assert_eq!(post.title, "New");
    assert_eq!(post.content, "## Changed");
    assert_eq!(post.html_content, "<h2>Changed</h2>");
    Database::rm_post(posts_db("posts_edit"), 2).unwrap();
    assert!(Database::get_post(posts_db("posts_edit"), 2).unwrap().is_none());
    assert!(Database::get_post(posts_db("posts_edit"), 1).unwrap().is_some());
}

#[test]
fn missing_table_is_a_database_error() {
    let _k = posts_db("posts_none");
    match Database::get_list(posts_db("posts_none"), 0) {
        Err(DbError::Sqlite(_)) => {}
        Ok(_) => panic!("expected a database error"),
    }
    assert!(matches!(Database::rm_post(posts_db("posts_none"), 1), Err(DbError::Sqlite(_))));
    assert!(matches!(Database::push_post(posts_db("posts_none"), "a", "b"), Err(DbError::Sqlite(_))));
}

#[test]
fn cache_keeps_the_newest_hundred() {
    let _k = blog("posts_cache", 105);
    let cache = Cache::new(posts_db("posts_cache")).unwrap();
    assert_eq!(cache.len(), 100);
    assert_eq!(cache.fst_id(), 105);
    assert_eq!(cache.get_by_id(105).title, "title 105");
    assert_eq!(cache.get_by_id(100).id, 100);
    let page2 = cache.get_posts(2);
    assert_eq!(page2.iter().map(|p| p.id).collect::<Vec<_>>(), (86..=95).rev().collect::<Vec<_>>());
    assert!(cache.get_posts(11).is_empty());
}

#[test]
fn cache_sync_sees_new_posts() {
    let _k = blog("posts_sync", 3);
    let mut cache = Cache::new(posts_db("posts_sync")).unwrap();
    assert_eq!(cache.len(), 3);
    Database::push_post(posts_db("posts_sync"), "four", "4").unwrap();
    cache.db_sync(posts_db("posts_sync")).unwrap();
    assert_eq!(cache.len(), 4);
    assert_eq!(cache.fst_id(), 4);
}

#[test]
fn cache_pages_from_given_posts() {
    let posts: Vec<Post> = (0..25)
        .map(|i| Post {
            id: 25 - i,
            title: format!("t{}", i),
            content: String::new(),
            html_content: String::new(),
            date: String::from("2024-01-01"),
        })
        .collect();
    let cache = Cache::from_posts(posts);
    assert_eq!(cache.get_posts(1).len(), 10);
    assert_eq!(cache.get_posts(3).len(), 5);
    assert_eq!(cache.get_posts(3)[0].id, 5);
    assert!(cache.get_posts(4).is_empty());
    assert_eq!(cache.get_by_id(25).title, "t0");
    assert_eq!(cache.get_by_id(1).title, "t24");
}

#[test]
fn first_post_follows_the_first_row() {
    assert!(matches!(Database::first_post(Ok(None)), Ok(None)));
    assert!(matches!(
        Database::first_post(Err(rusqlite::Error::QueryReturnedNoRows)),
        Err(DbError::Sqlite(rusqlite::Error::QueryReturnedNoRows))
    ));
    let con = Connection::open_in_memory().unwrap();
    let mut stmt = con.prepare("SELECT 7, 'a', 'b', '<p>b</p>', '2024-01-01'").unwrap();
    let mut rows = stmt.query([]).unwrap();
    match Database::first_post(rows.next()) {
        Ok(Some(p)) => {
            assert_eq!(p.id, 7);
            assert_eq!(p.title, "a");
            assert_eq!(p.content, "b");
            assert_eq!(p.html_content, "<p>b</p>");
            assert_eq!(p.date, "2024-01-01");
        }
        _ => panic!("expected a post"),
    }
}

fn post(id: usize) -> Post {
    Post::from_columns(id, format!("t{}", id), String::from("c"), String::from("<p>c</p>"), String::from("2024-01-01"))
}

#[test]
fn sync_replaces_or_keeps_the_cache() {
    let mut cache = Cache::from_posts(vec![post(9), post(8), post(7)]);
    assert!(cache.sync_with(Ok(vec![post(3), post(2)])).is_ok());
    assert_eq!(cache.len(), 2);
    assert!(cache.holds_id(3));
    assert!(!cache.holds_id(9));
    let failed = cache.sync_with(Err(DbError::Sqlite(rusqlite::Error::QueryReturnedNoRows)));
    assert!(matches!(failed, Err(DbError::Sqlite(rusqlite::Error::QueryReturnedNoRows))));
    assert_eq!(cache.len(), 2);
    assert!(cache.holds_id(2));
}

#[test]
fn update_params_bind_title_source_html_and_id() {
    let p = Database::update_params("T", "# H", 42);
    assert_eq!(p.len(), 4);
    assert_eq!(p[0], "T");
    assert_eq!(p[1], "# H");
    assert_eq!(p[2], "<h1>H</h1>");
    assert_eq!(p[3], "42");
}
