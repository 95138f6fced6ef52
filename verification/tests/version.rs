use gdm::project::engine::EngineVersion;

#[test]
fn parse_core_and_build() {
    let v = EngineVersion::from_string(String::from("4.2.1-stable"));
    assert_eq!(v.version_string, "4.2.1");
    assert_eq!(v.build_string.as_deref(), Some("stable"));
    assert_eq!(v.to_string(), "4.2.1-stable");
}

#[test]
fn parse_without_separator() {
    let v = EngineVersion::from_string(String::from("4.2.1"));
    assert_eq!(v.version_string, "4.2.1");
    assert!(v.build_string.is_none());
    assert_eq!(v.to_string(), "4.2.1");
}

#[test]
fn parse_splits_at_last_separator() {
    let v = EngineVersion::from_string(String::from("4.2-rc-1"));
    assert_eq!(v.version_string, "4.2-rc");
    assert_eq!(v.build_string.as_deref(), Some("1"));
    assert_eq!(v.to_string(), "4.2-rc-1");
}

#[test]
fn parse_empty_string() {
    let v = EngineVersion::from_string(String::new());
    assert_eq!(v.version_string, "");
    assert!(v.build_string.is_none());
    assert_eq!(v.to_string(), "");
}

#[test]
fn parse_trailing_separator() {
    let v = EngineVersion::from_string(String::from("4.2-"));
    assert_eq!(v.version_string, "4.2");
    assert_eq!(v.build_string.as_deref(), Some(""));
    assert_eq!(v.to_string(), "4.2-");
}

#[test]
fn parse_leading_separator() {
    let v = EngineVersion::from_string(String::from("-nightly"));
    assert_eq!(v.version_string, "");
    assert_eq!(v.build_string.as_deref(), Some("nightly"));
    assert_eq!(v.to_string(), "-nightly");
}

#[test]
fn round_trip_of_formatted_core_and_build() {
    for (core, build) in [("4.2.1", "stable"), ("3.5", "rc1"), ("1", ""), ("a-b", "c")] {
        let text = format!("{core}-{build}");
        let v = EngineVersion::from_string(text.clone());
        assert_eq!(v.to_string(), text);
    }
}

#[test]
fn format_then_parse_keeps_fields() {
    let v = EngineVersion {
        version_string: String::from("4.1.2"),
        build_string: Some(String::from("beta3")),
    };
    let back = EngineVersion::from_string(v.to_string());
    assert_eq!(back.version_string, "4.1.2");
    assert_eq!(back.build_string.as_deref(), Some("beta3"));
}

#[test]
fn unicode_version_text() {
    let v = EngineVersion::from_string(String::from("4.2.1-stablé"));
    assert_eq!(v.version_string, "4.2.1");
    assert_eq!(v.build_string.as_deref(), Some("stablé"));
    assert_eq!(v.to_string(), "4.2.1-stablé");
}
