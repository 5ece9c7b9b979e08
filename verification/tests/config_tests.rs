use upload_gateway::app_config::{
    Config, ConfigError, ConfigFormat, GoogleStorageConfig, PathKind, ProjectConfig,
    SettingsConfig, SlackConfig,
};

fn storage(bucket: &str) -> GoogleStorageConfig {
    GoogleStorageConfig {
        credentials_file: "/TEST/CREDENTIALS_FILE.json".to_string(),
        bucket_name: bucket.to_string(),
    }
}

fn slack(token: &str, targets: Vec<&str>) -> SlackConfig {
    SlackConfig {
        token: token.to_string(),
        targets: targets.into_iter().map(|t| t.to_string()).collect(),
        qr_code: true,
        default_text_before: Some("qweqwe".to_string()),
    }
}

fn project(token: &str, bucket: &str, slack: Option<SlackConfig>) -> ProjectConfig {
    ProjectConfig {
        api_token: token.to_string(),
        google_storage_target: storage(bucket),
        slack_link_dub: slack,
    }
}

fn config(projects: Vec<ProjectConfig>) -> Config {
    Config { settings: SettingsConfig { port: 8080 }, projects }
}

#[test]
fn valid_config_passes() {
    let c = config(vec![
        project("TOKEN_VALUE", "PI2_BUCKET_NAME", Some(slack("asdasd", vec!["a", "b", "c"]))),
        project("asddasd", "dfgdfg", None),
    ]);
    assert_eq!(c.settings.port, 8080);
    assert_eq!(c.validate_config(&vec![PathKind::File, PathKind::File]), Ok(()));
}

#[test]
fn empty_project_list_is_refused() {
    let c = config(vec![]);
    assert_eq!(c.validate_config(&vec![]), Err(ConfigError::EmptyProjects));
}

#[test]
fn empty_token_is_refused() {
    let c = config(vec![project("a", "b", None), project("", "b", None)]);
    assert_eq!(
        c.validate_config(&vec![PathKind::File, PathKind::File]),
        Err(ConfigError::EmptyToken { project: 1 })
    );
}

#[test]
fn empty_bucket_is_refused() {
    let c = config(vec![project("a", "", None)]);
    assert_eq!(
        c.validate_config(&vec![PathKind::File]),
        Err(ConfigError::EmptyBucket { project: 0 })
    );
}

#[test]
fn missing_credentials_are_refused() {
    let c = config(vec![project("a", "b", None)]);
    assert_eq!(
        c.validate_config(&vec![PathKind::Missing]),
        Err(ConfigError::MissingCredentials { project: 0 })
    );
}

#[test]
fn unprobed_credentials_count_as_missing() {
    let c = config(vec![project("a", "b", None), project("c", "d", None)]);
    assert_eq!(
        c.validate_config(&vec![PathKind::File]),
        Err(ConfigError::MissingCredentials { project: 1 })
    );
}

#[test]
fn credentials_that_are_no_file_are_refused() {
    let c = config(vec![project("a", "b", None)]);
    assert_eq!(
        c.validate_config(&vec![PathKind::NotAFile]),
        Err(ConfigError::CredentialsNotFile { project: 0 })
    );
}

#[test]
fn empty_slack_token_is_refused() {
    let c = config(vec![project("a", "b", Some(slack("", vec!["x"])))]);
    assert_eq!(
        c.validate_config(&vec![PathKind::File]),
        Err(ConfigError::EmptySlackToken { project: 0 })
    );
}

#[test]
fn empty_slack_targets_are_refused() {
    let c = config(vec![project("a", "b", Some(slack("t", vec![])))]);
    assert_eq!(
        c.validate_config(&vec![PathKind::File]),
        Err(ConfigError::EmptySlackTargets { project: 0 })
    );
}

#[test]
fn repeated_token_is_refused() {
    let c = config(vec![project("a", "b", None), project("c", "d", None), project("a", "e", None)]);
    assert_eq!(
        c.validate_config(&vec![PathKind::File, PathKind::File, PathKind::File]),
        Err(ConfigError::DuplicateToken { project: 2 })
    );
}

#[test]
fn single_tenant_rules_come_before_repeated_tokens() {
    let c = config(vec![project("a", "b", None), project("a", "", None)]);
    assert_eq!(
        c.validate_config(&vec![PathKind::File, PathKind::File]),
        Err(ConfigError::EmptyBucket { project: 1 })
    );
}

#[test]
fn first_broken_rule_is_reported() {
    let c = config(vec![project("", "", None)]);
    assert_eq!(
        c.validate_config(&vec![PathKind::Missing]),
        Err(ConfigError::EmptyToken { project: 0 })
    );
    let probe = project("a", "b", None).check(PathKind::Missing, 3);
    assert_eq!(probe, Some(ConfigError::MissingCredentials { project: 3 }));
    assert_eq!(project("a", "b", None).check(PathKind::File, 3), None);
}

#[test]
fn broken_rules_are_described() {
    assert_eq!(ConfigError::EmptyProjects.describe(), "Empty projects list");
    assert_eq!(ConfigError::EmptyToken { project: 0 }.describe(), "Project 0: empty token");
    assert_eq!(
        ConfigError::EmptyBucket { project: 12 }.describe(),
        "Project 12: empty google storage bucket"
    );
    assert_eq!(
        ConfigError::MissingCredentials { project: 1 }.describe(),
        "Project 1: google storage credential file does not exist"
    );
    assert_eq!(
        ConfigError::CredentialsNotFile { project: 1 }.describe(),
        "Project 1: google storage credential file is NOT a file"
    );
    assert_eq!(
        ConfigError::EmptySlackToken { project: 2 }.describe(),
        "Project 2: empty slack token"
    );
    assert_eq!(
        ConfigError::EmptySlackTargets { project: 2 }.describe(),
        "Project 2: slack targets"
    );
    assert_eq!(
        ConfigError::DuplicateToken { project: 3 }.describe(),
        "Project 3: token is used by an earlier project"
    );
}

#[test]
fn format_follows_the_extension() {
    assert_eq!(ConfigFormat::from_extension("yml"), Some(ConfigFormat::Yaml));
    assert_eq!(ConfigFormat::from_extension("yaml"), Some(ConfigFormat::Yaml));
    assert_eq!(ConfigFormat::from_extension("YAML"), Some(ConfigFormat::Yaml));
    assert_eq!(ConfigFormat::from_extension("json"), Some(ConfigFormat::Json));
    assert_eq!(ConfigFormat::from_extension("Json"), Some(ConfigFormat::Json));
    assert_eq!(ConfigFormat::from_extension("toml"), None);
    assert_eq!(ConfigFormat::from_extension(""), None);
}
