use gdm::project::config::EngineDownloadSource;
use gdm::project::engine::EngineVersion;
use gdm::project::versions::{
    archive_file_name, classify_status, download_url, latest_release_url, parse_latest_release,
    remote_archive_file_name, FetchError,
};

#[test]
fn latest_release_endpoint() {
    assert_eq!(
        latest_release_url(&EngineDownloadSource::GitHub),
        "https://api.github.com/repos/godotengine/godot/releases/latest"
    );
}

#[test]
fn parse_latest_release_extracts_the_tag() {
    let body = r#"{"tag_name":"4.2.1-stable","name":"Godot 4.2.1","prerelease":false}"#;
    let v = parse_latest_release(body).unwrap();
    assert_eq!(v.version_string, "4.2.1");
    assert_eq!(v.build_string.as_deref(), Some("stable"));
}

#[test]
fn parse_latest_release_rejects_non_json() {
    assert_eq!(
        parse_latest_release("not json at all"),
        Err(FetchError::MalformedResponse)
    );
}

#[test]
fn parse_latest_release_rejects_missing_field() {
    assert_eq!(
        parse_latest_release(r#"{"tag":"4.2.1-stable"}"#),
        Err(FetchError::MalformedResponse)
    );
}

#[test]
fn parse_latest_release_rejects_non_string_field() {
    assert_eq!(
        parse_latest_release(r#"{"tag_name":42}"#),
        Err(FetchError::MalformedResponse)
    );
}

#[test]
fn parse_latest_release_rejects_non_object() {
    assert_eq!(
        parse_latest_release(r#"["4.2.1-stable"]"#),
        Err(FetchError::MalformedResponse)
    );
}

#[test]
fn status_classification() {
    assert_eq!(classify_status(200), Ok(()));
    assert_eq!(classify_status(204), Ok(()));
    assert_eq!(classify_status(299), Ok(()));
    assert_eq!(classify_status(199), Err(FetchError::Status(199)));
    assert_eq!(classify_status(301), Err(FetchError::Status(301)));
    assert_eq!(classify_status(404), Err(FetchError::Status(404)));
    assert_eq!(classify_status(500), Err(FetchError::Status(500)));
}

#[test]
fn download_url_is_template_substitution() {
    let v = EngineVersion::from_string(String::from("4.2.1-stable"));
    let url = download_url(&v, "Godot_v4.2.1-stable_linux.x86_64.zip");
    assert_eq!(
        url,
        "https://github.com/godotengine/godot/releases/download/4.2.1-stable/Godot_v4.2.1-stable_linux.x86_64.zip"
    );
}

#[test]
fn archive_names() {
    assert_eq!(archive_file_name("Godot_v4.2.1-stable_win64"), "Godot_v4.2.1-stable_win64.zip");
    assert_eq!(
        remote_archive_file_name("Godot_v4.2.1-stable_win64", true, false),
        "Godot_v4.2.1-stable_win64.exe.zip"
    );
    assert_eq!(
        remote_archive_file_name("Godot_v4.2.1-stable_mono_win64", true, true),
        "Godot_v4.2.1-stable_mono_win64.zip"
    );
    assert_eq!(
        remote_archive_file_name("Godot_v4.2.1-stable_linux.x86_64", false, false),
        "Godot_v4.2.1-stable_linux.x86_64.zip"
    );
}
