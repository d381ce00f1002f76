use mcp_server_gitlab::config::{resolve, ConfigError, RawDocument, RawValue, Settings};

fn object(fields: Vec<(&str, RawValue)>) -> Option<RawDocument> {
    Some(RawDocument::Object(
        fields.into_iter().map(|(k, v)| (k.to_string(), v)).collect(),
    ))
}

#[test]
fn resolve_missing_section() {
    let r = resolve(&None);
    assert_eq!(
        r,
        Err(ConfigError::Missing {
            field: "gitlab_personal_access_token".to_string()
        })
    );
}

#[test]
fn resolve_token_only() {
    let raw = object(vec![(
        "gitlab_personal_access_token",
        RawValue::Text("tok123".to_string()),
    )]);
    let r = resolve(&raw);
    assert_eq!(
        r,
        Ok(Settings {
            access_token: "tok123".to_string(),
            api_url: None
        })
    );
}

#[test]
fn resolve_with_api_url() {
    let raw = object(vec![
        (
            "gitlab_personal_access_token",
            RawValue::Text("tok123".to_string()),
        ),
        (
            "gitlab_api_url",
            RawValue::Text("https://gitlab.example.com/api/v4".to_string()),
        ),
    ]);
    let r = resolve(&raw);
    assert_eq!(
        r,
        Ok(Settings {
            access_token: "tok123".to_string(),
            api_url: Some("https://gitlab.example.com/api/v4".to_string())
        })
    );
}

#[test]
fn resolve_non_string_token() {
    let raw = object(vec![("gitlab_personal_access_token", RawValue::Other)]);
    let r = resolve(&raw);
    assert_eq!(
        r,
        Err(ConfigError::Invalid {
            field: "gitlab_personal_access_token".to_string(),
            reason: "expected a string".to_string()
        })
    );
}

#[test]
fn resolve_null_token() {
    let raw = object(vec![("gitlab_personal_access_token", RawValue::Null)]);
    let r = resolve(&raw);
    assert_eq!(
        r,
        Err(ConfigError::Invalid {
            field: "gitlab_personal_access_token".to_string(),
            reason: "expected a string".to_string()
        })
    );
}

#[test]
fn resolve_absent_token() {
    let raw = object(vec![]);
    let r = resolve(&raw);
    assert_eq!(
        r,
        Err(ConfigError::Invalid {
            field: "gitlab_personal_access_token".to_string(),
            reason: "required field is absent".to_string()
        })
    );
}

#[test]
fn resolve_non_object() {
    let r = resolve(&Some(RawDocument::NonObject));
    assert_eq!(
        r,
        Err(ConfigError::Invalid {
            field: "gitlab_personal_access_token".to_string(),
            reason: "expected an object of settings".to_string()
        })
    );
}

#[test]
fn resolve_null_api_url() {
    let raw = object(vec![
        (
            "gitlab_personal_access_token",
            RawValue::Text("tok".to_string()),
        ),
        ("gitlab_api_url", RawValue::Null),
    ]);
    let r = resolve(&raw);
    assert_eq!(
        r,
        Ok(Settings {
            access_token: "tok".to_string(),
            api_url: None
        })
    );
}

#[test]
fn resolve_non_string_api_url() {
    let raw = object(vec![
        (
            "gitlab_personal_access_token",
            RawValue::Text("tok".to_string()),
        ),
        ("gitlab_api_url", RawValue::Other),
    ]);
    let r = resolve(&raw);
    assert_eq!(
        r,
        Err(ConfigError::Invalid {
            field: "gitlab_api_url".to_string(),
            reason: "expected a string".to_string()
        })
    );
}

#[test]
fn config_error_messages() {
    let missing = resolve(&None).unwrap_err();
    assert_eq!(
        missing.message(),
        "missing `gitlab_personal_access_token` setting"
    );

    let invalid = resolve(&Some(RawDocument::NonObject)).unwrap_err();
    assert_eq!(
        invalid.message(),
        "invalid `gitlab_personal_access_token` setting: expected an object of settings"
    );
}

#[test]
fn resolve_first_field_wins() {
    let raw = object(vec![
        (
            "gitlab_personal_access_token",
            RawValue::Text("first".to_string()),
        ),
        (
            "gitlab_personal_access_token",
            RawValue::Text("second".to_string()),
        ),
    ]);
    let r = resolve(&raw);
    assert_eq!(
        r,
        Ok(Settings {
            access_token: "first".to_string(),
            api_url: None
        })
    );
}
