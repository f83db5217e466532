use sudoku_backend::leaderboard::{LeaderboardConfig, LeaderboardSettings};
use sudoku_backend::ordering::SolutionOrdering;

#[test]
fn empty_form_decodes_to_default() {
    let decoded = LeaderboardConfig::from_form(None, None, &LeaderboardConfig::default_default());
    assert_eq!(decoded, LeaderboardConfig::default_default());
    assert_eq!(decoded.count, 10);
    assert_eq!(decoded.ordering, SolutionOrdering::Default);
}

#[test]
fn count_only_form_keeps_default_ordering() {
    let decoded = LeaderboardConfig::from_form(Some(5), None, &LeaderboardConfig::default_default());
    assert_eq!(decoded.count, 5);
    assert_eq!(decoded.ordering, LeaderboardConfig::default_default().ordering);
}

#[test]
fn ordering_only_form_keeps_default_count() {
    let decoded = LeaderboardConfig::from_form(None, Some(SolutionOrdering::Fastest), &LeaderboardConfig::default_default());
    assert_eq!(decoded.count, LeaderboardConfig::default_default().count);
    assert_eq!(decoded.ordering, SolutionOrdering::Fastest);
}

#[test]
fn backfill_follows_the_configured_default() {
    let configured = LeaderboardConfig { count: 7, ordering: SolutionOrdering::Fastest };
    assert_eq!(LeaderboardConfig::from_form(None, None, &configured), configured);
    let decoded = LeaderboardConfig::from_form(Some(5), None, &configured);
    assert_eq!(decoded.count, 5);
    assert_eq!(decoded.ordering, SolutionOrdering::Fastest);
}

#[test]
fn default_max_config_caps_at_forty_two() {
    let max = LeaderboardConfig::default_max();
    assert_eq!(max.count, 42);
    assert_eq!(max.ordering, SolutionOrdering::Default);
}

#[test]
fn equal_counts_order_neither_way_yet_differ() {
    let a = LeaderboardConfig { count: 5, ordering: SolutionOrdering::Default };
    let b = LeaderboardConfig { count: 5, ordering: SolutionOrdering::Fastest };
    assert!(!(a < b));
    assert!(!(a > b));
    assert!(!(b < a));
    assert!(!(b > a));
    assert_ne!(a, b);
}

#[test]
fn comparison_follows_count() {
    let small = LeaderboardConfig { count: 4, ordering: SolutionOrdering::Fastest };
    let large = LeaderboardConfig { count: 5, ordering: SolutionOrdering::Default };
    assert!(small < large);
    assert!(large > small);
}

#[test]
fn fields_build_a_config_only_when_present_and_valid() {
    assert_eq!(
        LeaderboardConfig::from_fields(Some(7), Some("fastest")),
        Some(LeaderboardConfig { count: 7, ordering: SolutionOrdering::Fastest })
    );
    assert_eq!(LeaderboardConfig::from_fields(Some(-1), Some("default")), None);
    assert_eq!(LeaderboardConfig::from_fields(Some(7), Some("upside-down")), None);
    assert_eq!(LeaderboardConfig::from_fields(None, Some("default")), None);
    assert_eq!(LeaderboardConfig::from_fields(Some(7), None), None);
}

#[test]
fn ordering_names_parse_exactly() {
    assert_eq!(SolutionOrdering::from_name("default"), Some(SolutionOrdering::Default));
    assert_eq!(SolutionOrdering::from_name("fastest"), Some(SolutionOrdering::Fastest));
    assert_eq!(SolutionOrdering::from_name("DEFAULT"), None);
    assert_eq!(SolutionOrdering::from_name(""), None);
    assert_eq!(SolutionOrdering::from_name("defaultx"), None);
}

#[test]
fn well_formed_settings_parse() {
    let text = "\
[default]
count = 10
ordering = \"default\"

[max]
count = 42
ordering = \"fastest\"
";
    let settings = LeaderboardSettings::from_toml_str(text).unwrap();
    assert_eq!(settings.default.count, 10);
    assert_eq!(settings.default.ordering, SolutionOrdering::Default);
    assert_eq!(settings.max.count, 42);
    assert_eq!(settings.max.ordering, SolutionOrdering::Fastest);
}

#[test]
fn malformed_settings_fail_with_parse_message() {
    let err = LeaderboardSettings::from_toml_str("not [ valid { toml").unwrap_err();
    assert!(err.starts_with("Failed to parse leaderboard settings: "));
}

#[test]
fn missing_table_fails_with_parse_message() {
    let text = "\
[default]
count = 10
ordering = \"default\"
";
    let err = LeaderboardSettings::from_toml_str(text).unwrap_err();
    assert!(err.starts_with("Failed to parse leaderboard settings: "));
}

#[test]
fn misshapen_fields_fail_with_parse_message() {
    let wrong_type = "\
[default]
count = \"ten\"
ordering = \"default\"

[max]
count = 42
ordering = \"fastest\"
";
    assert!(LeaderboardSettings::from_toml_str(wrong_type)
        .unwrap_err()
        .starts_with("Failed to parse leaderboard settings: "));
    let unknown_ordering = "\
[default]
count = 10
ordering = \"sideways\"

[max]
count = 42
ordering = \"fastest\"
";
    assert!(LeaderboardSettings::from_toml_str(unknown_ordering)
        .unwrap_err()
        .starts_with("Failed to parse leaderboard settings: "));
    let negative_count = "\
[default]
count = -3
ordering = \"default\"

[max]
count = 42
ordering = \"fastest\"
";
    assert!(LeaderboardSettings::from_toml_str(negative_count)
        .unwrap_err()
        .starts_with("Failed to parse leaderboard settings: "));
}
