//! The gateway's configuration and the rules it must meet before the gateway
//! starts.

use crate::text::{
    decimal_string, decimal_text, eq_ignore_ascii_case, eq_ignoring_ascii_case, texts_of,
};
use vstd::prelude::*;

verus! {

/// Settings of the whole gateway.
#[derive(Debug, Clone, PartialEq, Eq)]
pub struct SettingsConfig {
    pub port: u16,
}

/// Where a tenant's files go in cloud storage.
#[derive(Debug, Clone, PartialEq, Eq)]
pub struct GoogleStorageConfig {
    /// Path of the service-account file.
    pub credentials_file: String,
    pub bucket_name: String,
}

/// Where a tenant's download links are mirrored.
#[derive(Debug, Clone, PartialEq, Eq)]
pub struct SlackConfig {
    pub token: String,
    /// Channel ids, in the order in which they are served.
    pub targets: Vec<String>,
    pub qr_code: bool,
    pub default_text_before: Option<String>,
}

/// One tenant.
#[derive(Debug, Clone, PartialEq, Eq)]
pub struct ProjectConfig {
    pub api_token: String,
    pub google_storage_target: GoogleStorageConfig,
    pub slack_link_dub: Option<SlackConfig>,
}

/// The configuration file as a whole.
#[derive(Debug, Clone, PartialEq, Eq)]
pub struct Config {
    pub settings: SettingsConfig,
    pub projects: Vec<ProjectConfig>,
}

/// The mathematical content of a [`GoogleStorageConfig`].
pub ghost struct GoogleStorageView {
    pub credentials_file: Seq<char>,
    pub bucket_name: Seq<char>,
}

impl View for GoogleStorageConfig {
    type V = GoogleStorageView;

    open spec fn view(&self) -> GoogleStorageView {
        GoogleStorageView {
            credentials_file: self.credentials_file@,
            bucket_name: self.bucket_name@,
        }
    }
}

/// The mathematical content of a [`SlackConfig`].
pub ghost struct SlackConfigView {
    pub token: Seq<char>,
    pub targets: Seq<Seq<char>>,
    pub qr_code: bool,
    pub default_text_before: Option<Seq<char>>,
}

impl View for SlackConfig {
    type V = SlackConfigView;

    open spec fn view(&self) -> SlackConfigView {
        SlackConfigView {
            token: self.token@,
            targets: texts_of(self.targets@),
            qr_code: self.qr_code,
            default_text_before: match self.default_text_before {
                Some(t) => Some(t@),
                None => None,
            },
        }
    }
}

/// The mathematical content of a [`ProjectConfig`].
pub ghost struct ProjectConfigView {
    pub api_token: Seq<char>,
    pub google_storage_target: GoogleStorageView,
    pub slack_link_dub: Option<SlackConfigView>,
}

impl View for ProjectConfig {
    type V = ProjectConfigView;

    open spec fn view(&self) -> ProjectConfigView {
        ProjectConfigView {
            api_token: self.api_token@,
            google_storage_target: self.google_storage_target@,
            slack_link_dub: match self.slack_link_dub {
                Some(slack) => Some(slack@),
                None => None,
            },
        }
    }
}

/// The mathematical content of a [`Config`].
pub ghost struct ConfigView {
    pub port: u16,
    pub projects: Seq<ProjectConfigView>,
}

impl View for Config {
    type V = ConfigView;

    open spec fn view(&self) -> ConfigView {
        ConfigView {
            port: self.settings.port,
            projects: Seq::new(self.projects@.len(), |i: int| self.projects@[i]@),
        }
    }
}

/// What the file system says of a path.
#[derive(Debug, Clone, Copy, PartialEq, Eq, Structural)]
pub enum PathKind {
    /// Nothing exists at the path.
    Missing,
    /// Something exists there that is no regular file.
    NotAFile,
    /// A regular file.
    File,
}

/// The formats a configuration file can have.
#[derive(Debug, Clone, Copy, PartialEq, Eq, Structural)]
pub enum ConfigFormat {
    Yaml,
    Json,
}

/// The first rule that a configuration breaks, with the index of the tenant.
#[derive(Debug, Clone, Copy, PartialEq, Eq, Structural)]
pub enum ConfigError {
    EmptyProjects,
    EmptyToken { project: usize },
    EmptyBucket { project: usize },
    MissingCredentials { project: usize },
    CredentialsNotFile { project: usize },
    EmptySlackToken { project: usize },
    EmptySlackTargets { project: usize },
    /// The tenant's API token is that of an earlier tenant.
    DuplicateToken { project: usize },
}

/// The format that a file name extension stands for, whatever its case:
/// `yml` and `yaml` for YAML, `json` for JSON.
pub open spec fn format_of_extension(extension: Seq<char>) -> Option<ConfigFormat> {
    if eq_ignoring_ascii_case(extension, "yml"@) || eq_ignoring_ascii_case(extension, "yaml"@) {
        Some(ConfigFormat::Yaml)
    } else if eq_ignoring_ascii_case(extension, "json"@) {
        Some(ConfigFormat::Json)
    } else {
        None
    }
}

/// What is known of the credentials file of tenant `i`: a path that nobody
/// looked at counts as missing.
pub open spec fn probe_of(probes: Seq<PathKind>, i: int) -> PathKind {
    if 0 <= i < probes.len() {
        probes[i]
    } else {
        PathKind::Missing
    }
}

/// The first rule that tenant `i` breaks by itself, in the order in which the
/// rules are checked.
pub open spec fn project_fault(p: ProjectConfigView, probe: PathKind, i: usize) -> Option<
    ConfigError,
> {
    if p.api_token.len() == 0 {
        Some(ConfigError::EmptyToken { project: i })
    } else if p.google_storage_target.bucket_name.len() == 0 {
        Some(ConfigError::EmptyBucket { project: i })
    } else if probe == PathKind::Missing {
        Some(ConfigError::MissingCredentials { project: i })
    } else if probe == PathKind::NotAFile {
        Some(ConfigError::CredentialsNotFile { project: i })
    } else {
        match p.slack_link_dub {
            Some(slack) => if slack.token.len() == 0 {
                Some(ConfigError::EmptySlackToken { project: i })
            } else if slack.targets.len() == 0 {
                Some(ConfigError::EmptySlackTargets { project: i })
            } else {
                None
            },
            None => None,
        }
    }
}

/// Whether tenant `i` is the first, below `n`, that breaks a rule by itself.
pub open spec fn is_first_fault(
    projects: Seq<ProjectConfigView>,
    probes: Seq<PathKind>,
    i: int,
) -> bool {
    &&& 0 <= i < projects.len()
    &&& project_fault(projects[i], probe_of(probes, i), i as usize) is Some
    &&& forall|j: int|
        0 <= j < i ==> (#[trigger] project_fault(projects[j], probe_of(probes, j), j as usize))
            is None
}

/// Whether no tenant breaks a rule by itself.
pub open spec fn no_project_fault(projects: Seq<ProjectConfigView>, probes: Seq<PathKind>) -> bool {
    forall|j: int|
        0 <= j < projects.len() ==> (#[trigger] project_fault(
            projects[j],
            probe_of(probes, j),
            j as usize,
        )) is None
}

/// Whether tenant `i` has the API token of an earlier tenant.
pub open spec fn repeats_token(projects: Seq<ProjectConfigView>, i: int) -> bool {
    exists|j: int| 0 <= j < i && #[trigger] projects[j].api_token == projects[i].api_token
}

/// Whether tenant `i` is the first whose API token an earlier tenant has.
pub open spec fn is_first_repeat(projects: Seq<ProjectConfigView>, i: int) -> bool {
    &&& 0 <= i < projects.len()
    &&& repeats_token(projects, i)
    &&& forall|k: int| 0 <= k < i ==> !#[trigger] repeats_token(projects, k)
}

/// Whether all API tokens differ.
pub open spec fn tokens_unique(projects: Seq<ProjectConfigView>) -> bool {
    forall|i: int, j: int|
        0 <= i < j < projects.len() ==> #[trigger] projects[i].api_token
            != #[trigger] projects[j].api_token
}

/// Whether a configuration, with what is known of its credentials files, meets
/// every rule: at least one tenant; for each tenant a token, a bucket and a
/// credentials file that is a regular file; where a tenant mirrors to chat, a
/// chat token and at least one channel; and no API token twice.
pub open spec fn valid_config(projects: Seq<ProjectConfigView>, probes: Seq<PathKind>) -> bool {
    &&& projects.len() > 0
    &&& no_project_fault(projects, probes)
    &&& tokens_unique(projects)
}

/// What validation answers: the first broken rule. The rules on single tenants
/// come first, tenant by tenant; the rule on repeated tokens comes last.
pub open spec fn validation_result(
    projects: Seq<ProjectConfigView>,
    probes: Seq<PathKind>,
    r: Result<(), ConfigError>,
) -> bool {
    match r {
        Ok(()) => valid_config(projects, probes),
        Err(ConfigError::EmptyProjects) => projects.len() == 0,
        Err(ConfigError::DuplicateToken { project }) => {
            &&& no_project_fault(projects, probes)
            &&& is_first_repeat(projects, project as int)
        },
        Err(e) => exists|i: int|
            #![trigger projects[i]]
            is_first_fault(projects, probes, i) && project_fault(
                projects[i],
                probe_of(probes, i),
                i as usize,
            ) == Some(e),
    }
}

impl ConfigFormat {
    /// Picks the format by a file name's extension.
    pub fn from_extension(extension: &str) -> (r: Option<ConfigFormat>)
        ensures
            r == format_of_extension(extension@),
    {
        if eq_ignore_ascii_case(extension, "yml") || eq_ignore_ascii_case(extension, "yaml") {
            Some(ConfigFormat::Yaml)
        } else if eq_ignore_ascii_case(extension, "json") {
            Some(ConfigFormat::Json)
        } else {
            None
        }
    }
}

impl ProjectConfig {
    /// Checks the rules that concern this tenant alone.
    pub fn check(&self, probe: PathKind, index: usize) -> (r: Option<ConfigError>)
        ensures
            r == project_fault(self@, probe, index),
    {
        if self.api_token.as_str().unicode_len() == 0 {
            return Some(ConfigError::EmptyToken { project: index });
        }
        if self.google_storage_target.bucket_name.as_str().unicode_len() == 0 {
            return Some(ConfigError::EmptyBucket { project: index });
        }
        match probe {
            PathKind::Missing => {
                return Some(ConfigError::MissingCredentials { project: index });
            },
            PathKind::NotAFile => {
                return Some(ConfigError::CredentialsNotFile { project: index });
            },
            PathKind::File => {},
        }
        match &self.slack_link_dub {
            Some(slack) => {
                if slack.token.as_str().unicode_len() == 0 {
                    Some(ConfigError::EmptySlackToken { project: index })
                } else if slack.targets.len() == 0 {
                    Some(ConfigError::EmptySlackTargets { project: index })
                } else {
                    None
                }
            },
            None => None,
        }
    }
}

impl Config {
    /// Validates the configuration against what the file system says of each
    /// tenant's credentials file, `probes[i]` for tenant `i`.
    pub fn validate_config(&self, probes: &Vec<PathKind>) -> (r: Result<(), ConfigError>)
        ensures
            validation_result(self@.projects, probes@, r),
    {
        let n = self.projects.len();
        if n == 0 {
            return Err(ConfigError::EmptyProjects);
        }
        let mut i: usize = 0;
        while i < n
            invariant
                i <= n,
                n == self.projects@.len(),
                forall|j: int|
                    0 <= j < i ==> (#[trigger] project_fault(
                        self@.projects[j],
                        probe_of(probes@, j),
                        j as usize,
                    )) is None,
            decreases n - i,
        {
            let probe = if i < probes.len() {
                probes[i]
            } else {
                PathKind::Missing
            };
            match self.projects[i].check(probe, i) {
                Some(e) => {
                    assert(self@.projects[i as int] == self.projects@[i as int]@);
                    assert(is_first_fault(self@.projects, probes@, i as int));
                    assert(!(e is EmptyProjects) && !(e is DuplicateToken));
                    return Err(e);
                },
                None => {
                    assert(self@.projects[i as int] == self.projects@[i as int]@);
                },
            }
            i += 1;
        }
        let mut k: usize = 1;
        while k < n
            invariant
                1 <= k <= n,
                n == self.projects@.len(),
                no_project_fault(self@.projects, probes@),
                forall|a: int| 0 <= a < k ==> !#[trigger] repeats_token(self@.projects, a),
            decreases n - k,
        {
            let mut j: usize = 0;
            while j < k
                invariant
                    j <= k < n,
                    n == self.projects@.len(),
                    no_project_fault(self@.projects, probes@),
                    forall|a: int| 0 <= a < k ==> !#[trigger] repeats_token(self@.projects, a),
                    forall|b: int|
                        0 <= b < j ==> #[trigger] self@.projects[b].api_token
                            != self@.projects[k as int].api_token,
                decreases k - j,
            {
                if self.projects[j].api_token == self.projects[k].api_token {
                    assert(self@.projects[j as int].api_token
                        == self@.projects[k as int].api_token);
                    assert(repeats_token(self@.projects, k as int));
                    return Err(ConfigError::DuplicateToken { project: k });
                }
                j += 1;
            }
            k += 1;
        }
        assert(tokens_unique(self@.projects)) by {
            assert forall|a: int, b: int| 0 <= a < b < self@.projects.len() implies (
            #[trigger] self@.projects[a].api_token) != (
            #[trigger] self@.projects[b].api_token) by {
                assert(!repeats_token(self@.projects, b));
            }
        }
        Ok(())
    }
}

/// The text of a broken rule, as the gateway reports it at start-up.
pub open spec fn config_error_text(e: ConfigError) -> Seq<char> {
    match e {
        ConfigError::EmptyProjects => "Empty projects list"@,
        ConfigError::EmptyToken { project } => "Project "@ + decimal_text(project as nat)
            + ": empty token"@,
        ConfigError::EmptyBucket { project } => "Project "@ + decimal_text(project as nat)
            + ": empty google storage bucket"@,
        ConfigError::MissingCredentials { project } => "Project "@ + decimal_text(project as nat)
            + ": google storage credential file does not exist"@,
        ConfigError::CredentialsNotFile { project } => "Project "@ + decimal_text(project as nat)
            + ": google storage credential file is NOT a file"@,
        ConfigError::EmptySlackToken { project } => "Project "@ + decimal_text(project as nat)
            + ": empty slack token"@,
        ConfigError::EmptySlackTargets { project } => "Project "@ + decimal_text(project as nat)
            + ": slack targets"@,
        ConfigError::DuplicateToken { project } => "Project "@ + decimal_text(project as nat)
            + ": token is used by an earlier project"@,
    }
}

/// `Project <index>` followed by the rule's own words.
fn project_message(project: usize, rule: &str) -> (r: String)
    ensures
        r@ == "Project "@ + decimal_text(project as nat) + rule@,
{
    let mut s = String::from_str("Project ");
    let number = decimal_string(project as u64);
    s.append(number.as_str());
    s.append(rule);
    s
}

impl ConfigError {
    /// Describes the broken rule.
    pub fn describe(&self) -> (r: String)
        ensures
            r@ == config_error_text(*self),
    {
        match *self {
            ConfigError::EmptyProjects => String::from_str("Empty projects list"),
            ConfigError::EmptyToken { project } => project_message(project, ": empty token"),
            ConfigError::EmptyBucket { project } => project_message(
                project,
                ": empty google storage bucket",
            ),
            ConfigError::MissingCredentials { project } => project_message(
                project,
                ": google storage credential file does not exist",
            ),
            ConfigError::CredentialsNotFile { project } => project_message(
                project,
                ": google storage credential file is NOT a file",
            ),
            ConfigError::EmptySlackToken { project } => project_message(
                project,
                ": empty slack token",
            ),
            ConfigError::EmptySlackTargets { project } => project_message(
                project,
                ": slack targets",
            ),
            ConfigError::DuplicateToken { project } => project_message(
                project,
                ": token is used by an earlier project",
            ),
        }
    }
}

} // verus!
