use mcp_server_gitlab::config::Settings;
use mcp_server_gitlab::launch::{
    build_launch, install_plan, package_name, LaunchDescriptor, LaunchError, PackageState,
};

fn token_settings() -> Settings {
    Settings {
        access_token: "tok123".to_string(),
        api_url: None,
    }
}

#[test]
fn package_name_is_fixed() {
    assert_eq!(package_name(), "@modelcontextprotocol/server-gitlab");
}

#[test]
fn install_plan_up_to_date() {
    let state = PackageState {
        installed_version: Some("1.2.0".to_string()),
        latest_version: "1.2.0".to_string(),
    };
    assert_eq!(install_plan(&state), None);
}

#[test]
fn install_plan_outdated() {
    let state = PackageState {
        installed_version: Some("1.1.0".to_string()),
        latest_version: "1.2.0".to_string(),
    };
    assert_eq!(install_plan(&state), Some("1.2.0".to_string()));
}

#[test]
fn install_plan_not_installed() {
    let state = PackageState {
        installed_version: None,
        latest_version: "1.2.0".to_string(),
    };
    assert_eq!(install_plan(&state), Some("1.2.0".to_string()));
}

#[test]
fn build_launch_token_only() {
    let settings = token_settings();
    let r = build_launch(
        &settings,
        &Ok(()),
        &Some("/usr/bin/node".to_string()),
        &"/proj".to_string(),
    );
    assert_eq!(
        r,
        Ok(LaunchDescriptor {
            executable_path: "/usr/bin/node".to_string(),
            arguments: vec![
                "/proj/node_modules/@modelcontextprotocol/server-gitlab/dist/index.js".to_string()
            ],
            environment: vec![(
                "GITLAB_PERSONAL_ACCESS_TOKEN".to_string(),
                "tok123".to_string()
            )],
        })
    );
}

#[test]
fn build_launch_with_api_url() {
    let settings = Settings {
        access_token: "tok123".to_string(),
        api_url: Some("https://gitlab.example.com/api/v4".to_string()),
    };
    let r = build_launch(
        &settings,
        &Ok(()),
        &Some("/usr/bin/node".to_string()),
        &"/proj".to_string(),
    )
    .unwrap();
    assert_eq!(
        r.environment,
        vec![
            (
                "GITLAB_PERSONAL_ACCESS_TOKEN".to_string(),
                "tok123".to_string()
            ),
            (
                "GITLAB_API_URL".to_string(),
                "https://gitlab.example.com/api/v4".to_string()
            ),
        ]
    );
}

#[test]
fn build_launch_runtime_unavailable() {
    let r = build_launch(&token_settings(), &Ok(()), &None, &"/proj".to_string());
    assert_eq!(r, Err(LaunchError::RuntimeUnavailable));
}

#[test]
fn build_launch_package_failure() {
    let r = build_launch(
        &token_settings(),
        &Err("registry unreachable".to_string()),
        &Some("/usr/bin/node".to_string()),
        &"/proj".to_string(),
    );
    assert_eq!(
        r,
        Err(LaunchError::PackageManager {
            cause: "registry unreachable".to_string()
        })
    );
}

#[test]
fn build_launch_idempotent() {
    let state = PackageState {
        installed_version: Some("1.2.0".to_string()),
        latest_version: "1.2.0".to_string(),
    };
    assert_eq!(install_plan(&state), None);
    let settings = token_settings();
    let first = build_launch(
        &settings,
        &Ok(()),
        &Some("/usr/bin/node".to_string()),
        &"/proj".to_string(),
    );
    assert_eq!(install_plan(&state), None);
    let second = build_launch(
        &settings,
        &Ok(()),
        &Some("/usr/bin/node".to_string()),
        &"/proj".to_string(),
    );
    assert_eq!(first, second);
}
