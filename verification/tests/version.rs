use df_handle_registry::version::get_version;

#[test]
fn version_is_nonempty_and_stable() {
    let v1 = get_version();
    let v2 = get_version();
    assert!(!v1.is_empty());
    assert_eq!(v1, v2);
}

#[test]
fn version_matches_engine_constant() {
    assert_eq!(get_version(), datafusion::DATAFUSION_VERSION);
}

#[test]
fn version_has_dotted_numeric_format() {
    let v = get_version();
    let parts: Vec<&str> = v.split('.').collect();
    assert!(parts.len() >= 3);
    for part in parts {
        assert!(!part.is_empty());
        assert!(part.chars().all(|c| c.is_ascii_digit()));
    }
}
