use blinks::api_error::ApiError;
use blinks::version_docs::get_migration_guide;
use blinks::version_docs::get_version;
use blinks::version_docs::list_versions;
use blinks::version_docs::VersionStatus;
use blinks::versioning::extract_version_from_path;
use blinks::versioning::version_headers;
use blinks::versioning::ApiVersion;

#[test]
fn test_extract_version_from_path() {
    assert_eq!(extract_version_from_path("/api/v1/payments"), ApiVersion::V1);
    assert_eq!(extract_version_from_path("/api/v2/payments"), ApiVersion::V2);
    assert_eq!(extract_version_from_path("/health"), ApiVersion::V1);
}

#[test]
fn test_v1_is_deprecated() {
    assert!(ApiVersion::V1.is_deprecated());
    assert!(!ApiVersion::V2.is_deprecated());
}

#[test]
fn test_sunset_date() {
    assert!(ApiVersion::V1.sunset_date().is_some());
    assert!(ApiVersion::V2.sunset_date().is_none());
}

#[test]
fn version_of_odd_paths() {
    assert_eq!(extract_version_from_path(""), ApiVersion::V1);
    assert_eq!(extract_version_from_path("v2"), ApiVersion::V2);
    assert_eq!(extract_version_from_path("/v2/v1"), ApiVersion::V2);
    assert_eq!(extract_version_from_path("/v1/v2"), ApiVersion::V1);
    assert_eq!(extract_version_from_path("/api/v22/x"), ApiVersion::V1);
    assert_eq!(extract_version_from_path("/caf\u{e9}/v2/"), ApiVersion::V2);
    assert_eq!(extract_version_from_path("//v2"), ApiVersion::V2);
}

#[test]
fn version_segments() {
    assert_eq!(ApiVersion::from_path_segment("v1"), Some(ApiVersion::V1));
    assert_eq!(ApiVersion::from_path_segment("v2"), Some(ApiVersion::V2));
    assert_eq!(ApiVersion::from_path_segment("V1"), None);
    assert_eq!(ApiVersion::V2.as_str(), "v2");
    assert_eq!(
        ApiVersion::V1.migration_guide_url(),
        Some("https://docs.blinks.app/api/migration/v1-to-v2")
    );
    assert_eq!(ApiVersion::V2.migration_guide_url(), None);
}

#[test]
fn version_headers_of_deprecated_version() {
    let old = version_headers("/api/v1/payments");
    assert_eq!(old.version, "v1");
    assert_eq!(old.deprecation, Some("true"));
    assert_eq!(old.sunset, Some("Fri, 01 Jan 2027 00:00:00 GMT"));
    assert_eq!(
        old.link.as_deref(),
        Some("<https://docs.blinks.app/api/migration/v1-to-v2>; rel=\"deprecation\"")
    );
    let new = version_headers("/api/v2/payments");
    assert_eq!(new.version, "v2");
    assert_eq!(new.deprecation, None);
    assert_eq!(new.sunset, None);
    assert_eq!(new.link, None);
}

#[test]
fn version_documentation() {
    let all = list_versions();
    assert_eq!(all.versions.len(), 2);
    assert_eq!(all.current_version, "v1");
    assert_eq!(all.latest_version, "v2");
    assert_eq!(all.versions[0].version, "v1");
    assert_eq!(all.versions[0].status, VersionStatus::Deprecated);
    assert_eq!(all.versions[1].features.len(), 10);
    let v2 = get_version("v2").unwrap();
    assert_eq!(v2.released, "2026-05-01");
    assert_eq!(v2.sunset, None);
    match get_version("v3") {
        Err(ApiError::NotFound(message)) => {
            assert_eq!(message, "API version 'v3' not found. Supported versions: v1, v2")
        }
        _ => panic!("expected a failure"),
    }
}

#[test]
fn version_migration_guide() {
    let guide = get_migration_guide("v1").unwrap();
    assert_eq!(guide.from_version, "v1");
    assert_eq!(guide.to_version, "v2");
    assert_eq!(guide.breaking_changes.len(), 2);
    assert_eq!(
        guide.breaking_changes[0].after,
        r#"{"id":"...","status":"completed","dispute_eligible":true}"#
    );
    assert_eq!(guide.new_features.len(), 4);
    assert_eq!(guide.migration_steps[3].step, 4);
    match get_migration_guide("v2") {
        Err(ApiError::BadRequest(message)) => {
            assert_eq!(message, "v2 is the latest version. No migration guide available.")
        }
        _ => panic!("expected a failure"),
    }
    match get_migration_guide("x") {
        Err(ApiError::NotFound(message)) => assert_eq!(message, "API version 'x' not found"),
        _ => panic!("expected a failure"),
    }
}
