use upload_gateway::app_arguments::{AppArguments, ArgumentError};
use upload_gateway::app_config::PathKind;

fn arguments() -> AppArguments {
    AppArguments { config: "/etc/uploader/config.yaml".to_string() }
}

#[test]
fn config_file_must_be_a_regular_file() {
    assert_eq!(arguments().validate_arguments(PathKind::File), Ok(()));
    assert_eq!(arguments().validate_arguments(PathKind::Missing), Err(ArgumentError::Missing));
    assert_eq!(arguments().validate_arguments(PathKind::NotAFile), Err(ArgumentError::NotAFile));
}

#[test]
fn argument_faults_are_described() {
    assert_eq!(ArgumentError::Missing.describe(), "Google credential file does not exist");
    assert_eq!(ArgumentError::NotAFile.describe(), "Google credential file is not a file");
}
