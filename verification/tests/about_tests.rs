use relay_stations::about::{compare_versions, get_app_info, update_info, version_parts};
use relay_stations::json::parse;

#[test]
fn test_version_comparison() {
    assert!(compare_versions("1.0.0", "1.0.1"));
    assert!(compare_versions("1.0.0", "1.1.0"));
    assert!(compare_versions("1.0.0", "2.0.0"));
    assert!(!compare_versions("1.0.1", "1.0.0"));
    assert!(!compare_versions("1.1.0", "1.0.0"));
    assert!(!compare_versions("2.0.0", "1.0.0"));
    assert!(!compare_versions("1.0.0", "1.0.0"));
}

#[test]
fn versions_of_different_length_are_padded_with_zeros() {
    assert!(!compare_versions("1.0", "1.0.0"));
    assert!(compare_versions("1.0", "1.0.1"));
    assert!(!compare_versions("1.0.1", "1.0"));
    assert!(compare_versions("", "0.0.1"));
}

#[test]
fn version_parts_that_are_no_numbers_count_as_zero() {
    assert_eq!(version_parts("1.2.3"), vec![1, 2, 3]);
    assert_eq!(version_parts("1.x.3"), vec![1, 0, 3]);
    assert_eq!(version_parts(""), vec![0]);
    assert_eq!(version_parts("1..2"), vec![1, 0, 2]);
    assert_eq!(version_parts("+7.-1"), vec![7, 0]);
    assert_eq!(version_parts("4294967295.4294967296"), vec![4294967295, 0]);
    assert!(!compare_versions("1.0.0", "1.0.0-beta"));
    assert!(compare_versions("1.0.0", "1.10.0"));
}

#[test]
fn app_info_starts_without_a_release() {
    let info = get_app_info("1.2.3".to_string(), "/data/agents.db".to_string());
    assert_eq!(info.version, "1.2.3");
    assert_eq!(info.database_path, "/data/agents.db");
    assert_eq!(info.latest_version, None);
    assert!(!info.update_available);
}

#[test]
fn update_info_reads_a_release() {
    let release = parse(
        r#"{"tag_name":"v1.3.0","body":"notes","assets":[
            {"name":"app.dmg","browser_download_url":"https://x/app.dmg"},
            {"name":"app.msi","browser_download_url":"https://x/app.msi"},
            {"name":"app.exe","browser_download_url":"https://x/app.exe"}]}"#,
    )
    .unwrap();
    let info = update_info("1.2.9", &release);
    assert_eq!(info.latest_version, "1.3.0");
    assert_eq!(info.current_version, "1.2.9");
    assert!(info.update_available);
    assert_eq!(info.download_url.as_deref(), Some("https://x/app.msi"));
    assert_eq!(info.release_notes.as_deref(), Some("notes"));
}

#[test]
fn update_info_without_tag_or_assets() {
    let release = parse("{}").unwrap();
    let info = update_info("1.0.0", &release);
    assert_eq!(info.latest_version, "unknown");
    assert!(!info.update_available);
    assert_eq!(info.download_url, None);
    assert_eq!(info.release_notes, None);
    let tagged = parse(r#"{"tag_name":"vv2.0"}"#).unwrap();
    assert_eq!(update_info("1.0.0", &tagged).latest_version, "2.0");
}
