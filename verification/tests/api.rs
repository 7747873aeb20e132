use wingbird_patch::api::{check_outcome, download_succeeded, trim_server_url, ApiClient, CheckOutcome};

#[test]
fn latest_patch_url_encodes_each_field() {
    let c = ApiClient::new("https://patch.example.com/".to_string());
    let url = c.latest_patch_url("my app", "1.0.0+1", "prod", "android", "arm64-v8a", 3);
    assert_eq!(
        url,
        "https://patch.example.com/api/apps/my%20app/releases/1.0.0%2B1/patches/latest?platform=android&channel=prod&architecture=arm64-v8a&currentPatchNumber=3"
    );
}

#[test]
fn latest_patch_url_encodes_utf8_bytes_in_upper_case_hex() {
    let c = ApiClient::new("http://h".to_string());
    let url = c.latest_patch_url("é/ü", "~._-", "a&b=c", "p", "x", 0);
    assert_eq!(
        url,
        "http://h/api/apps/%C3%A9%2F%C3%BC/releases/~._-/patches/latest?platform=p&channel=a%26b%3Dc&architecture=x&currentPatchNumber=0"
    );
}

#[test]
fn download_url_keeps_the_id_as_is() {
    let c = ApiClient::new("http://h///".to_string());
    assert_eq!(c.download_url("abc-123"), "http://h/api/patches/abc-123/download");
}

#[test]
fn server_url_loses_only_trailing_slashes() {
    assert_eq!(trim_server_url("http://h//"), "http://h");
    assert_eq!(trim_server_url("http://h"), "http://h");
    assert_eq!(trim_server_url("///"), "");
    assert_eq!(trim_server_url(""), "");
}

#[test]
fn check_status_meanings() {
    assert_eq!(check_outcome(200), CheckOutcome::PatchAvailable);
    assert_eq!(check_outcome(404), CheckOutcome::NoNewerPatch);
    assert_eq!(check_outcome(201), CheckOutcome::Failed);
    assert_eq!(check_outcome(500), CheckOutcome::Failed);
}

#[test]
fn download_status_success_is_2xx() {
    assert!(download_succeeded(200));
    assert!(download_succeeded(299));
    assert!(!download_succeeded(199));
    assert!(!download_succeeded(300));
    assert!(!download_succeeded(404));
}
