use cm_launcher::wine::parse_and_check_wine_version;

#[test]
fn test_parse_wine_version() {
    assert!(parse_and_check_wine_version("wine-10.5"));
    assert!(parse_and_check_wine_version("wine-10.6"));
    assert!(parse_and_check_wine_version("wine-11.0"));
    assert!(parse_and_check_wine_version("wine-10.5-staging"));
    assert!(parse_and_check_wine_version("wine-10.5-rc1"));

    assert!(!parse_and_check_wine_version("wine-10.4"));
    assert!(!parse_and_check_wine_version("wine-9.0"));
    assert!(!parse_and_check_wine_version("wine-8.21"));
    assert!(!parse_and_check_wine_version("invalid"));
}

#[test]
fn wine_version_without_prefix_is_read() {
    assert!(parse_and_check_wine_version("10.5"));
    assert!(parse_and_check_wine_version("12.1.3"));
    assert!(!parse_and_check_wine_version("10"));
    assert!(!parse_and_check_wine_version(""));
    assert!(!parse_and_check_wine_version("wine-x.5"));
    assert!(!parse_and_check_wine_version("wine-10.y"));
    assert!(!parse_and_check_wine_version("wine-10.99999999999"));
}
