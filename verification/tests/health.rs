use proget::Error;
use proget::models::{Status, Version, parse_health};

const HEALTH_BODY: &str = r#"{"applicationName":"ProGet","databaseStatus":"OK","databaseStatusDetail":null,"extensionsInstalled":{"pgo":"5.1.2"},"licenseStatus":"OK","licenseStatusDetail":null,"versionNumber":"6.0.1","releaseNumber":"6.0.1","serviceStatus":"OK","serviceStatusDetail":null}"#;

#[test]
fn health_round_trip() {
    let h = parse_health(HEALTH_BODY).unwrap();
    assert_eq!(h.application_name, "ProGet");
    assert_eq!(h.database_status, Status::Okay);
    assert!(h.database_status_detail.is_none());
    assert_eq!(h.license_status, Status::Okay);
    assert!(h.license_status_detail.is_none());
    assert_eq!(h.version_number, "6.0.1");
    assert_eq!(h.release_number, Version { major: 6, minor: 0, patch: 1 });
    assert_eq!(h.service_status, Status::Okay);
    assert!(h.service_status_detail.is_none());
    assert_eq!(
        h.extension_version("pgo"),
        Some(Version { major: 5, minor: 1, patch: 2 }),
    );
    assert_eq!(h.extension_version("absent"), None);
}

#[test]
fn unknown_status_token_is_rejected() {
    let body = HEALTH_BODY.replace("\"databaseStatus\":\"OK\"", "\"databaseStatus\":\"Unknown\"");
    assert!(matches!(parse_health(&body), Err(Error::Deserialization(_))));
}

#[test]
fn lowercase_status_token_is_rejected() {
    let body = HEALTH_BODY.replace("\"serviceStatus\":\"OK\"", "\"serviceStatus\":\"ok\"");
    assert!(matches!(parse_health(&body), Err(Error::Deserialization(_))));
}

#[test]
fn error_status_token_is_read() {
    let body = HEALTH_BODY.replace(
        "\"databaseStatus\":\"OK\",\"databaseStatusDetail\":null",
        "\"databaseStatus\":\"Error\",\"databaseStatusDetail\":\"db down\"",
    );
    let h = parse_health(&body).unwrap();
    assert_eq!(h.database_status, Status::Error);
    assert_eq!(h.database_status_detail.as_deref(), Some("db down"));
}

#[test]
fn absent_detail_fields_are_tolerated() {
    let body = r#"{"applicationName":"ProGet","databaseStatus":"OK","extensionsInstalled":{},"licenseStatus":"OK","versionNumber":"6.0.1","releaseNumber":"6.0.1","serviceStatus":"OK"}"#;
    let h = parse_health(body).unwrap();
    assert!(h.database_status_detail.is_none());
    assert!(h.license_status_detail.is_none());
    assert!(h.service_status_detail.is_none());
}

#[test]
fn wrongly_typed_detail_is_rejected() {
    let body = HEALTH_BODY.replace("\"databaseStatusDetail\":null", "\"databaseStatusDetail\":5");
    assert!(matches!(parse_health(&body), Err(Error::Deserialization(_))));
}

#[test]
fn invalid_json_is_rejected() {
    assert!(matches!(parse_health("{not json"), Err(Error::Deserialization(_))));
}

#[test]
fn non_object_body_is_rejected() {
    assert!(matches!(parse_health("[1,2,3]"), Err(Error::Deserialization(_))));
    assert!(matches!(parse_health("\"OK\""), Err(Error::Deserialization(_))));
}

#[test]
fn missing_required_field_is_rejected() {
    let body = HEALTH_BODY.replace("\"applicationName\":\"ProGet\",", "");
    assert!(matches!(parse_health(&body), Err(Error::Deserialization(_))));
}

#[test]
fn escaped_strings_are_decoded() {
    let body = HEALTH_BODY.replace("\"ProGet\"", "\"Pro\\u0047et\"");
    let h = parse_health(&body).unwrap();
    assert_eq!(h.application_name, "ProGet");
}

#[test]
fn release_number_with_prerelease_parses() {
    // The semantic-version parser accepts pre-release parts; the record
    // keeps the numeric fields.
    let body = HEALTH_BODY.replace("\"releaseNumber\":\"6.0.1\"", "\"releaseNumber\":\"6.0.1-rc.1\"");
    let h = parse_health(&body).unwrap();
    assert_eq!(h.release_number, Version { major: 6, minor: 0, patch: 1 });
}

#[test]
fn malformed_release_number_is_rejected() {
    for bad in ["6.0", "01.0.0", "6.0.x", ""] {
        let body = HEALTH_BODY.replace(
            "\"releaseNumber\":\"6.0.1\"",
            &format!("\"releaseNumber\":\"{bad}\""),
        );
        assert!(matches!(parse_health(&body), Err(Error::Deserialization(_))), "{bad}");
    }
}

#[test]
fn malformed_extension_version_is_rejected() {
    let body = HEALTH_BODY.replace("{\"pgo\":\"5.1.2\"}", "{\"pgo\":\"abc\"}");
    assert!(matches!(parse_health(&body), Err(Error::Deserialization(_))));
}

#[test]
fn extensions_may_be_empty() {
    let body = HEALTH_BODY.replace("{\"pgo\":\"5.1.2\"}", "{}");
    let h = parse_health(&body).unwrap();
    assert!(h.extensions_installed.is_empty());
    assert_eq!(h.extension_version("pgo"), None);
}

#[test]
fn several_extensions_are_all_kept() {
    let body = HEALTH_BODY.replace(
        "{\"pgo\":\"5.1.2\"}",
        "{\"pgo\":\"5.1.2\",\"npm\":\"1.0.0\",\"nuget\":\"2.3.4\"}",
    );
    let h = parse_health(&body).unwrap();
    assert_eq!(h.extensions_installed.len(), 3);
    assert_eq!(h.extension_version("npm"), Some(Version { major: 1, minor: 0, patch: 0 }));
    assert_eq!(h.extension_version("nuget"), Some(Version { major: 2, minor: 3, patch: 4 }));
    assert_eq!(h.extension_version("pgo"), Some(Version { major: 5, minor: 1, patch: 2 }));
}
