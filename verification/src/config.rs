//! The dashboard's settings and the choice of the build provider.

use vstd::prelude::*;

verus! {

/// The settings of the dashboard.
#[derive(Debug, Clone)]
pub struct Config {
    pub theme: String,
    pub github_token: Option<String>,
    pub gitlab_token: Option<String>,
    pub repo_path: String,
    pub github_repo: Option<String>,
    pub gitlab_project_id: Option<String>,
    pub timer_default_minutes: u64,
}

/// The provider that is asked for the state of the builds, with what it is
/// asked about and the token that it is asked with.
#[derive(Debug, Clone)]
pub enum CiSource {
    GitHub { repo: String, token: String },
    GitLab { project_id: String, token: String },
}

/// The theme of a dashboard whose settings name none.
pub fn default_theme() -> (theme: String)
    ensures
        theme@ == "moonlight"@,
{
    "moonlight".to_owned()
}

/// The repository of a dashboard whose settings name none: the directory
/// that the dashboard runs in.
pub fn default_repo_path() -> (path: String)
    ensures
        path@ == "."@,
{
    ".".to_owned()
}

/// The length of a focus session where the settings give none.
pub fn default_timer_minutes() -> (minutes: u64)
    ensures
        minutes == 25,
{
    25
}

impl Config {
    /// The provider that these settings choose. A repository with a token
    /// chooses GitHub; without that pair, a project with a token chooses
    /// GitLab; without either pair no provider is asked.
    pub open spec fn ci_source_spec(&self) -> Option<CiSource> {
        if self.github_repo is Some && self.github_token is Some {
            Some(
                CiSource::GitHub { repo: self.github_repo->0, token: self.github_token->0 },
            )
        } else if self.gitlab_project_id is Some && self.gitlab_token is Some {
            Some(
                CiSource::GitLab {
                    project_id: self.gitlab_project_id->0,
                    token: self.gitlab_token->0,
                },
            )
        } else {
            None
        }
    }

    /// The provider that these settings choose, if they choose one.
    pub fn ci_source(&self) -> (source: Option<CiSource>)
        ensures
            source == self.ci_source_spec(),
    {
        match (&self.github_repo, &self.github_token) {
            (Some(repo), Some(token)) => {
                return Some(CiSource::GitHub { repo: repo.clone(), token: token.clone() });
            },
            _ => {},
        }
        match (&self.gitlab_project_id, &self.gitlab_token) {
            (Some(project_id), Some(token)) => Some(
                CiSource::GitLab { project_id: project_id.clone(), token: token.clone() },
            ),
            _ => None,
        }
    }

    /// The settings that a settings file gave, or the defaults where there
    /// was no file or none that could be read.
    pub fn or_default(loaded: Option<Config>) -> (config: Config)
        ensures
            loaded is Some ==> config == loaded->0,
            loaded is None ==> config.is_default(),
    {
        match loaded {
            Some(config) => config,
            None => Config::default(),
        }
    }

    /// Whether these are the settings of a dashboard without a settings file.
    pub open spec fn is_default(&self) -> bool {
        &&& self.theme@ == "moonlight"@
        &&& self.github_token is None
        &&& self.gitlab_token is None
        &&& self.repo_path@ == "."@
        &&& self.github_repo is None
        &&& self.gitlab_project_id is None
        &&& self.timer_default_minutes == 25
    }
}

impl Default for Config {
    fn default() -> (config: Config)
        ensures
            config.is_default(),
    {
        Config {
            theme: default_theme(),
            github_token: None,
            gitlab_token: None,
            repo_path: default_repo_path(),
            github_repo: None,
            gitlab_project_id: None,
            timer_default_minutes: default_timer_minutes(),
        }
    }
}

/// Settings without either pair of credentials choose no provider, and a
/// GitHub pair wins over a GitLab pair.
pub proof fn lemma_provider_precedence(config: Config)
    ensures
        config.is_default() ==> config.ci_source_spec() is None,
        (config.github_repo is None || config.github_token is None) && (config.gitlab_project_id
            is None || config.gitlab_token is None) ==> config.ci_source_spec() is None,
        config.github_repo is Some && config.github_token is Some ==> config.ci_source_spec()
            is Some && config.ci_source_spec()->0 is GitHub,
{
}

} // verus!
