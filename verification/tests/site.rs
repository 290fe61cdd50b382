use rogger::cache::Cache;
use rogger::posts::Post;
use rogger::sesser::Sesser;
use rogger::site::{
    api_access, edit_form_fields, escape_backticks, master_access, plan_edit, plan_listing,
    plan_post, plan_rename, ListingSource, PostSource, RenameOutcome,
};

fn cache_with_ids(ids: &[usize]) -> Cache {
    Cache::from_posts(
        ids.iter()
            .map(|&id| Post {
                id,
                title: format!("post {}", id),
                content: String::new(),
                html_content: String::new(),
                date: String::from("2024-01-01"),
            })
            .collect(),
    )
}

#[test]
fn listing_pages_below_eleven_come_from_the_cache() {
    let l = plan_listing(3);
    assert!(matches!(l.source, ListingSource::Cache { page: 3 }));
    assert_eq!(l.counter, [2, 3, 4]);
    assert_eq!(l.curr_page, 3);
    let l = plan_listing(0);
    assert!(matches!(l.source, ListingSource::Cache { page: 0 }));
    assert_eq!(l.counter, [0, 1, 2]);
    assert_eq!(l.curr_page, 1);
}

#[test]
fn later_listing_pages_come_from_the_database() {
    let l = plan_listing(11);
    assert!(matches!(l.source, ListingSource::Database { page: 10 }));
    assert_eq!(l.counter, [10, 11, 12]);
}

#[test]
fn post_lookups_pick_their_source() {
    let cache = cache_with_ids(&[150, 120, 5, 2]);
    assert!(matches!(plan_post(5, &cache), PostSource::Cache));
    assert!(matches!(plan_post(150, &cache), PostSource::Cache));
    assert!(matches!(plan_post(3, &cache), PostSource::Database));
    assert!(matches!(plan_post(1000, &cache), PostSource::Database));
    assert!(matches!(plan_edit(120, &cache), PostSource::Cache));
    assert!(matches!(plan_edit(121, &cache), PostSource::Database));
}

#[test]
fn cached_lookup_goes_by_id_across_gaps() {
    let cache = cache_with_ids(&[4, 2, 1]);
    assert_eq!(cache.get_by_id(2).title, "post 2");
    assert_eq!(cache.get_by_id(1).title, "post 1");
    assert!(!cache.holds_id(3));
}

#[test]
fn rename_needs_access_and_a_name() {
    assert!(matches!(plan_rename(false, "bob"), RenameOutcome::Unauthorized));
    assert!(matches!(plan_rename(true, ""), RenameOutcome::EmptyName));
    assert!(matches!(plan_rename(true, "bob"), RenameOutcome::Rename));
}

#[test]
fn backticks_are_escaped() {
    assert_eq!(escape_backticks("a `code` b"), "a \\`code\\` b");
    assert_eq!(escape_backticks("plain"), "plain");
}

#[test]
fn edit_form_names_the_post() {
    assert_eq!(edit_form_fields(42), "id=42&");
    assert_eq!(edit_form_fields(0), "id=0&");
}

#[test]
fn api_access_needs_a_live_value() {
    let mut s = Sesser::new();
    s.create_table("sessions");
    s.create_table("api_keys");
    let session = s.generate_value("sessions", 600);
    let key = s.generate_value("api_keys", 600);
    assert!(api_access(&s, &session));
    assert!(api_access(&s, &key));
    assert!(!api_access(&s, "nothing"));
    assert!(master_access(true, &s, "nothing"));
    assert!(master_access(false, &s, &session));
    assert!(!master_access(false, &s, "nothing"));
}
