use logchef::cache::{parse_identifier, Cache, Identifier, TeamCache, CACHE_TTL_SECS};

fn ids(items: &[(&str, i64)]) -> Vec<(String, i64)> {
    items.iter().map(|(n, i)| (n.to_string(), *i)).collect()
}

fn team_names(cache: &Cache) -> Vec<(String, i64)> {
    cache.teams().iter().map(|(n, t)| (n.clone(), t.id)).collect()
}

#[test]
fn identifier_of_digits_is_an_id() {
    assert!(matches!(parse_identifier("42"), Identifier::Id(42)));
    assert!(matches!(parse_identifier("0"), Identifier::Id(0)));
    assert!(matches!(parse_identifier("007"), Identifier::Id(7)));
    assert!(matches!(
        parse_identifier("9223372036854775807"),
        Identifier::Id(9223372036854775807)
    ));
}

#[test]
fn identifier_of_anything_else_is_a_name() {
    for word in ["", "prod", "-5", "+5", "12a", " 12", "1.5", "9223372036854775808", "١٢"] {
        match parse_identifier(word) {
            Identifier::Name(name) => assert_eq!(name, word),
            other => panic!("unexpected: {:?}", other),
        }
    }
}

#[test]
fn cache_file_is_named_after_the_server() {
    assert_eq!(
        Cache::new("https://logs.example.com:8080/api").file_name(),
        "resolve_https_logs_example_com_8080_api.json"
    );
    assert_eq!(Cache::new("").file_name(), "resolve_.json");
    assert_eq!(Cache::new("a://b").file_name(), "resolve_a_b.json");
    assert_eq!(Cache::new("a:/b").file_name(), "resolve_a__b.json");
    assert_eq!(Cache::new("a:///b").file_name(), "resolve_a__b.json");
    assert_eq!(Cache::new("x::://").file_name(), "resolve_x___.json");
}

#[test]
fn fresh_cache_is_empty_and_old() {
    let cache = Cache::new("https://logs");
    assert_eq!(cache.teams().len(), 0);
    assert_eq!(cache.updated_at(), 0);
    assert!(cache.is_expired_at(601));
    assert!(!cache.is_expired_at(600));
    assert!(cache.is_expired());
    assert_eq!(cache.get_team_id("ops"), None);
}

#[test]
fn cache_expires_after_ten_minutes() {
    assert_eq!(CACHE_TTL_SECS, 600);
    let mut cache = Cache::new("s");
    cache.set_teams_at(&ids(&[("ops", 1)]), 1_000);
    assert_eq!(cache.updated_at(), 1_000);
    assert!(!cache.is_expired_at(1_000));
    assert!(!cache.is_expired_at(1_600));
    assert!(cache.is_expired_at(1_601));
    // a clock that went backwards counts as no time
    assert!(!cache.is_expired_at(0));
    assert_eq!(cache.get_team_id_at("ops", 1_600), Some(1));
    assert_eq!(cache.get_team_id_at("ops", 1_601), None);
}

#[test]
fn set_teams_updates_ids_and_keeps_sources() {
    let mut cache = Cache::new("s");
    cache.set_teams_at(&ids(&[("ops", 1), ("dev", 2)]), 10);
    cache.set_sources_at(1, &ids(&[("nginx", 11), ("db.logs", 11)]), 20);
    cache.set_teams_at(&ids(&[("ops", 5), ("qa", 3), ("ops", 6)]), 30);
    assert_eq!(team_names(&cache), ids(&[("ops", 6), ("dev", 2), ("qa", 3)]));
    assert_eq!(cache.get_team_id_at("ops", 30), Some(6));
    assert_eq!(cache.get_team_id_at("Ops", 30), None);
    assert_eq!(cache.get_source_id_at(6, "nginx", 30), Some(11));
    assert_eq!(cache.get_source_id_at(1, "nginx", 30), None);
    assert_eq!(cache.get_source_id_at(3, "nginx", 30), None);
    assert_eq!(cache.updated_at(), 30);
}

#[test]
fn set_sources_without_the_team_changes_nothing() {
    let mut cache = Cache::new("s");
    cache.set_teams_at(&ids(&[("ops", 1)]), 10);
    cache.set_sources_at(9, &ids(&[("nginx", 11)]), 99);
    assert_eq!(cache.updated_at(), 10);
    assert_eq!(cache.get_source_id_at(9, "nginx", 10), None);
    assert_eq!(cache.teams()[0].1.sources.len(), 0);
}

#[test]
fn set_sources_goes_to_the_first_team_with_the_id() {
    let mut cache = Cache::new("s");
    cache.set_teams_at(&ids(&[("a", 7), ("b", 7)]), 10);
    cache.set_sources_at(7, &ids(&[("x", 1), ("y", 2), ("x", 3)]), 11);
    assert_eq!(cache.teams()[0].1.sources, ids(&[("x", 3), ("y", 2)]));
    assert_eq!(cache.teams()[1].1.sources.len(), 0);
    assert_eq!(cache.get_source_id_at(7, "x", 11), Some(3));
    assert_eq!(cache.get_source_id_at(7, "z", 11), None);
}

#[test]
fn set_by_the_clock_makes_the_cache_fresh() {
    let mut cache = Cache::new("s");
    cache.set_teams(&ids(&[("ops", 1)]));
    assert!(!cache.is_expired());
    assert_eq!(cache.get_team_id("ops"), Some(1));
    cache.set_sources(1, &ids(&[("nginx", 4)]));
    assert_eq!(cache.get_source_id(1, "nginx"), Some(4));
    assert_eq!(cache.get_source_id(1, "other"), None);
    cache.touch();
    assert!(cache.updated_at() > 1_600_000_000);
}

#[test]
fn clear_empties_the_cache() {
    let mut cache = Cache::new("https://logs");
    cache.set_teams_at(&ids(&[("ops", 1)]), 10);
    cache.clear();
    assert_eq!(cache.teams().len(), 0);
    assert_eq!(cache.updated_at(), 0);
    assert_eq!(cache.file_name(), "resolve_https_logs.json");
}

#[test]
fn restore_takes_what_was_stored() {
    let teams = vec![("ops".to_string(), TeamCache { id: 4, sources: ids(&[("nginx", 9)]) })];
    let mut cache = Cache::restore("s", teams, 500);
    assert_eq!(cache.updated_at(), 500);
    assert_eq!(cache.get_team_id_at("ops", 1_100), Some(4));
    assert_eq!(cache.get_team_id_at("ops", 1_101), None);
    assert_eq!(cache.get_source_id_at(4, "nginx", 600), Some(9));
    cache.touch_at(2_000);
    assert_eq!(cache.get_team_id_at("ops", 2_600), Some(4));
}
