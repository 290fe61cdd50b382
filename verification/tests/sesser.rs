use rogger::sesser::Sesser;

const ABC_SHA256: &str = "ba7816bf8f01cfea414140de5dae2223b00361a396177a9cb410ff61f20015ad";

#[test]
fn tables_are_created_and_dropped() {
    let mut s = Sesser::new();
    assert!(!s.check_table_exists("sessions"));
    s.create_table("sessions");
    assert!(s.check_table_exists("sessions"));
    assert!(!s.check_table_exists("api_keys"));
    s.drop_table("sessions");
    assert!(!s.check_table_exists("sessions"));
}

#[test]
fn generated_value_is_the_hex_sha256_of_its_seed() {
    let mut s = Sesser::new();
    s.create_table("t");
    let v = s.generate_value_at("t", 600, "abc", 0);
    assert_eq!(v, ABC_SHA256);
    assert_eq!(s.list_values("t"), vec![String::from(ABC_SHA256)]);
}

#[test]
fn value_lives_until_its_expiry() {
    let mut s = Sesser::new();
    s.create_table("t");
    let v = s.generate_value_at("t", 600, "abc", 1_000);
    assert!(s.check_value_exists_at("t", &v, 1_000));
    assert!(s.check_value_exists_at("t", &v, 600_000_000_999));
    assert!(!s.check_value_exists_at("t", &v, 600_000_001_000));
    assert!(!s.check_value_exists_at("other", &v, 1_000));
}

#[test]
fn generate_into_missing_table_gives_empty_text() {
    let mut s = Sesser::new();
    assert_eq!(s.generate_value("missing", 600), "");
    assert_eq!(s.generate_value_at("missing", 600, "abc", 0), "");
    assert!(s.list_values("missing").is_empty());
}

#[test]
fn random_value_is_live_and_listed() {
    let mut s = Sesser::new();
    s.create_table("sessions");
    let v = s.generate_value("sessions", 600);
    assert_eq!(v.len(), 64);
    assert!(v.chars().all(|c| c.is_ascii_hexdigit() && !c.is_ascii_uppercase()));
    assert!(s.check_value_exists("sessions", &v));
    assert_eq!(s.list_values("sessions"), vec![v.clone()]);
    s.remove_value("sessions", &v);
    assert!(!s.check_value_exists("sessions", &v));
    assert!(s.list_values("sessions").is_empty());
}

#[test]
fn filtering_drops_only_expired_values() {
    let mut s = Sesser::new();
    s.create_table("t");
    let old = s.generate_value_at("t", 1, "abc", 0);
    let young = s.generate_value_at("t", 100, "xyz", 0);
    s.filter_expired_at(5_000_000_000);
    assert_eq!(s.list_values("t"), vec![young.clone()]);
    assert!(!s.check_value_exists_at("t", &old, 0));
    assert!(s.check_value_exists_at("t", &young, 5_000_000_000));
}

#[test]
fn filtering_now_keeps_fresh_values() {
    let mut s = Sesser::new();
    s.create_table("t");
    let v = s.generate_value("t", 3600);
    s.filter_expired();
    assert!(s.check_value_exists("t", &v));
}

#[test]
fn recreating_a_table_empties_it() {
    let mut s = Sesser::new();
    s.create_table("t");
    let v = s.generate_value_at("t", 600, "abc", 0);
    s.create_table("t");
    assert!(!s.check_value_exists_at("t", &v, 0));
    assert!(s.list_values("t").is_empty());
}

#[test]
fn value_stays_live_through_sparing_changes() {
    let mut s = Sesser::new();
    s.create_table("sessions");
    s.create_table("api_keys");
    let v = s.generate_value_at("sessions", 10, "abc", 1_000);
    let other = s.generate_value_at("sessions", 1, "xyz", 1_000);
    let key = s.generate_value_at("api_keys", 100, "abc", 1_000);
    s.remove_value("sessions", &other);
    s.remove_value("api_keys", &key);
    s.create_table("extra");
    s.drop_table("extra");
    s.filter_expired_at(5_000_000_000);
    let expires: u128 = 1_000 + 10 * 1_000_000_000;
    assert!(s.check_value_exists_at("sessions", &v, 5_000_000_000));
    assert!(s.check_value_exists_at("sessions", &v, expires - 1));
    assert!(!s.check_value_exists_at("sessions", &v, expires));
    assert!(s.list_values("sessions").contains(&v));
    s.filter_expired_at(expires + 1);
    assert!(!s.list_values("sessions").contains(&v));
}

#[test]
fn cloned_store_answers_alike() {
    let mut s = Sesser::new();
    s.create_table("sessions");
    let v = s.generate_value_at("sessions", 10, "abc", 0);
    let c = s.clone();
    assert!(c.check_value_exists_at("sessions", &v, 1));
    assert_eq!(c.list_values("sessions"), vec![v.clone()]);
    s.remove_value("sessions", &v);
    assert!(c.check_value_exists_at("sessions", &v, 1));
}
