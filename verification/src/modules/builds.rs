//! The state of the builds as a build provider reports it.

use crate::json::json_of_text;
use crate::json::views;
use crate::json::Json;
use crate::json::JsonError;
use crate::json::JsonView;
use crate::text::first_line;
use crate::text::first_line_of;
use crate::text::prefix;
use crate::text::prefix_of;
use crate::text::str_eq;
use vstd::prelude::*;
use vstd::string::StringExecFns;

verus! {

/// How a build ended, or that it has not ended yet.
#[derive(Debug, Clone, Copy, PartialEq, Eq, Structural)]
pub enum BuildStatus {
    Success,
    Failure,
    Running,
    Unknown,
}

/// One build, as the dashboard shows it.
#[derive(Debug, Clone)]
pub struct BuildInfo {
    pub status: BuildStatus,
    pub name: String,
    pub timestamp: String,
    /// The first seven characters of the commit's hash.
    pub commit_sha: String,
    /// The first line of the commit's message.
    pub message: String,
}

/// A workflow run as GitHub reports it.
#[derive(Debug, Clone)]
pub struct WorkflowRun {
    pub status: String,
    pub conclusion: Option<String>,
    pub name: String,
    pub updated_at: String,
    pub head_sha: String,
    /// The message of the head commit, where the run names one.
    pub head_commit_message: Option<String>,
}

/// The characters of a commit hash that the dashboard shows.
pub const SHORT_SHA_LEN: usize = 7;

/// The view of an optional text.
pub open spec fn text_view(text: Option<String>) -> Option<Seq<char>> {
    match text {
        Some(t) => Some(t@),
        None => None,
    }
}

/// The status of a GitHub run with the given status and conclusion.
pub open spec fn github_status_of(status: Seq<char>, conclusion: Option<Seq<char>>) -> BuildStatus {
    if status == "completed"@ && conclusion == Some("success"@) {
        BuildStatus::Success
    } else if status == "completed"@ && conclusion == Some("failure"@) {
        BuildStatus::Failure
    } else if status == "in_progress"@ || status == "queued"@ {
        BuildStatus::Running
    } else {
        BuildStatus::Unknown
    }
}

/// The status of a GitLab pipeline with the given status, if it has one.
pub open spec fn gitlab_status_of(status: Option<Seq<char>>) -> BuildStatus {
    if status == Some("success"@) {
        BuildStatus::Success
    } else if status == Some("failed"@) {
        BuildStatus::Failure
    } else if status == Some("running"@) {
        BuildStatus::Running
    } else {
        BuildStatus::Unknown
    }
}

/// Whether `build` is what the dashboard shows of the GitHub run `run`.
pub open spec fn shows_run(build: BuildInfo, run: WorkflowRun) -> bool {
    &&& build.status == github_status_of(run.status@, text_view(run.conclusion))
    &&& build.name@ == run.name@
    &&& build.timestamp@ == run.updated_at@
    &&& build.commit_sha@ == prefix_of(run.head_sha@, SHORT_SHA_LEN as nat)
    &&& build.message@ == match run.head_commit_message {
        Some(message) => first_line_of(message@),
        None => Seq::<char>::empty(),
    }
}

/// Whether `build` is what the dashboard shows of the GitLab pipeline
/// `pipeline`: its status from the text under `status`, its time from the
/// text under `updated_at`, its short hash from the text under `sha`; each
/// empty, or unknown, where there is no such text. GitLab gives no commit
/// message with a pipeline.
pub open spec fn shows_pipeline(build: BuildInfo, pipeline: JsonView) -> bool {
    &&& build.status == gitlab_status_of(pipeline.field("status"@).text())
    &&& build.name@ == "Pipeline"@
    &&& build.timestamp@ == match pipeline.field("updated_at"@).text() {
        Some(at) => at,
        None => Seq::<char>::empty(),
    }
    &&& build.commit_sha@ == match pipeline.field("sha"@).text() {
        Some(sha) => prefix_of(sha, SHORT_SHA_LEN as nat),
        None => Seq::<char>::empty(),
    }
    &&& build.message@ == Seq::<char>::empty()
}

/// Whether `builds` are what the dashboard shows of `pipelines`, one for
/// one and in their order.
pub open spec fn shows_pipelines(builds: Seq<BuildInfo>, pipelines: Seq<JsonView>) -> bool {
    &&& builds.len() == pipelines.len()
    &&& forall|i: int| 0 <= i < pipelines.len() ==> shows_pipeline(#[trigger] builds[i], pipelines[i])
}

/// What the build providers report, made into what the dashboard shows.
pub struct BuildModule;

impl BuildModule {
    /// The status of a GitHub run.
    pub fn github_status(status: &str, conclusion: Option<&str>) -> (mapped: BuildStatus)
        ensures
            mapped == github_status_of(
                status@,
                match conclusion {
                    Some(c) => Some(c@),
                    None => None,
                },
            ),
    {
        if str_eq(status, "completed") {
            match conclusion {
                Some(c) => {
                    if str_eq(c, "success") {
                        return BuildStatus::Success;
                    }
                    if str_eq(c, "failure") {
                        return BuildStatus::Failure;
                    }
                },
                None => {},
            }
        }
        if str_eq(status, "in_progress") || str_eq(status, "queued") {
            BuildStatus::Running
        } else {
            BuildStatus::Unknown
        }
    }

    /// The status of a GitLab pipeline.
    pub fn gitlab_status(status: Option<&str>) -> (mapped: BuildStatus)
        ensures
            mapped == gitlab_status_of(
                match status {
                    Some(s) => Some(s@),
                    None => None,
                },
            ),
    {
        match status {
            Some(s) => {
                if str_eq(s, "success") {
                    BuildStatus::Success
                } else if str_eq(s, "failed") {
                    BuildStatus::Failure
                } else if str_eq(s, "running") {
                    BuildStatus::Running
                } else {
                    BuildStatus::Unknown
                }
            },
            None => BuildStatus::Unknown,
        }
    }

    /// What the dashboard shows of one GitHub run.
    pub fn from_github_run(run: &WorkflowRun) -> (build: BuildInfo)
        ensures
            shows_run(build, *run),
    {
        let conclusion: Option<&str> = match &run.conclusion {
            Some(c) => Some(c.as_str()),
            None => None,
        };
        let message = match &run.head_commit_message {
            Some(m) => first_line(m.as_str()),
            None => String::new(),
        };
        BuildInfo {
            status: Self::github_status(run.status.as_str(), conclusion),
            name: run.name.clone(),
            timestamp: run.updated_at.clone(),
            commit_sha: prefix(run.head_sha.as_str(), SHORT_SHA_LEN),
            message,
        }
    }

    /// What the dashboard shows of the runs that GitHub reported, in the
    /// order of the report.
    pub fn from_github_runs(runs: &Vec<WorkflowRun>) -> (builds: Vec<BuildInfo>)
        ensures
            builds@.len() == runs@.len(),
            forall|i: int| 0 <= i < runs@.len() ==> shows_run(#[trigger] builds@[i], runs@[i]),
    {
        let mut builds: Vec<BuildInfo> = Vec::new();
        let mut i: usize = 0;
        while i < runs.len()
            invariant
                i <= runs.len(),
                builds@.len() == i,
                forall|j: int| 0 <= j < i ==> shows_run(#[trigger] builds@[j], runs@[j]),
            decreases runs.len() - i,
        {
            builds.push(Self::from_github_run(&runs[i]));
            i += 1;
        }
        builds
    }

    /// What the dashboard shows of one GitLab pipeline.
    pub fn from_gitlab_pipeline(pipeline: &Json) -> (build: BuildInfo)
        ensures
            shows_pipeline(build, pipeline@),
    {
        let timestamp = match pipeline.text_field("updated_at") {
            Some(at) => at.to_owned(),
            None => String::new(),
        };
        let commit_sha = match pipeline.text_field("sha") {
            Some(sha) => prefix(sha, SHORT_SHA_LEN),
            None => String::new(),
        };
        BuildInfo {
            status: Self::gitlab_status(pipeline.text_field("status")),
            name: "Pipeline".to_owned(),
            timestamp,
            commit_sha,
            message: String::new(),
        }
    }

    /// What the dashboard shows of the pipelines that GitLab reported, in the
    /// order of the report.
    pub fn from_gitlab_pipelines(pipelines: &Vec<Json>) -> (builds: Vec<BuildInfo>)
        ensures
            shows_pipelines(builds@, views(pipelines@)),
    {
        let mut builds: Vec<BuildInfo> = Vec::new();
        let mut i: usize = 0;
        while i < pipelines.len()
            invariant
                i <= pipelines.len(),
                builds@.len() == i,
                forall|j: int|
                    0 <= j < i ==> shows_pipeline(#[trigger] builds@[j], views(pipelines@)[j]),
            decreases pipelines.len() - i,
        {
            builds.push(Self::from_gitlab_pipeline(&pipelines[i]));
            i += 1;
        }
        builds
    }

    /// What the dashboard shows of the pipelines in the body of GitLab's
    /// answer. A body that is no JSON is refused, and so is JSON that is no
    /// list.
    pub fn gitlab_builds(body: &str) -> (parsed: Result<Vec<BuildInfo>, JsonError>)
        ensures
            match parsed {
                Ok(builds) => {
                    &&& json_of_text(body@) is Some
                    &&& json_of_text(body@)->0.items() is Some
                    &&& shows_pipelines(builds@, json_of_text(body@)->0.items()->0)
                },
                Err(JsonError::Malformed) => json_of_text(body@) is None,
                Err(JsonError::WrongShape) => json_of_text(body@) is Some && json_of_text(
                    body@,
                )->0.items() is None,
            },
    {
        let reported = match Json::parse(body) {
            Ok(reported) => reported,
            Err(error) => {
                return Err(error);
            },
        };
        match reported.as_array() {
            Some(pipelines) => Ok(Self::from_gitlab_pipelines(pipelines)),
            None => Err(JsonError::WrongShape),
        }
    }

    /// The address at which GitHub lists the latest ten workflow runs of `repo`.
    pub fn github_runs_url(repo: &str) -> (url: String)
        ensures
            url@ == "https://api.github.com/repos/"@ + repo@ + "/actions/runs?per_page=10"@,
    {
        let mut url = "https://api.github.com/repos/".to_owned();
        url.append(repo);
        url.append("/actions/runs?per_page=10");
        url
    }

    /// The address at which GitLab lists the latest ten pipelines of the
    /// project `project_id`.
    pub fn gitlab_pipelines_url(project_id: &str) -> (url: String)
        ensures
            url@ == "https://gitlab.com/api/v4/projects/"@ + project_id@ + "/pipelines?per_page=10"@,
    {
        let mut url = "https://gitlab.com/api/v4/projects/".to_owned();
        url.append(project_id);
        url.append("/pipelines?per_page=10");
        url
    }

    /// The value of the authorization header that carries `token` to GitHub.
    pub fn bearer(token: &str) -> (value: String)
        ensures
            value@ == "Bearer "@ + token@,
    {
        let mut value = "Bearer ".to_owned();
        value.append(token);
        value
    }
}

} // verus!
