use devdash::config::default_repo_path;
use devdash::config::default_theme;
use devdash::config::default_timer_minutes;
use devdash::config::CiSource;
use devdash::config::Config;

#[test]
fn defaults_are_the_documented_ones() {
    assert_eq!(default_theme(), "moonlight");
    assert_eq!(default_repo_path(), ".");
    assert_eq!(default_timer_minutes(), 25);
    let config = Config::default();
    assert_eq!(config.theme, "moonlight");
    assert_eq!(config.repo_path, ".");
    assert_eq!(config.timer_default_minutes, 25);
    assert!(config.github_token.is_none());
    assert!(config.gitlab_token.is_none());
    assert!(config.github_repo.is_none());
    assert!(config.gitlab_project_id.is_none());
}

#[test]
fn default_settings_choose_no_provider() {
    assert!(Config::default().ci_source().is_none());
}

#[test]
fn github_pair_chooses_github() {
    let mut config = Config::default();
    config.github_repo = Some("owner/repo".to_string());
    config.github_token = Some("abc123".to_string());
    match config.ci_source() {
        Some(CiSource::GitHub { repo, token }) => {
            assert_eq!(repo, "owner/repo");
            assert_eq!(token, "abc123");
        }
        _ => panic!("GitHub was not chosen"),
    }
}

#[test]
fn gitlab_pair_chooses_gitlab() {
    let mut config = Config::default();
    config.gitlab_project_id = Some("4711".to_string());
    config.gitlab_token = Some("abc123".to_string());
    match config.ci_source() {
        Some(CiSource::GitLab { project_id, token }) => {
            assert_eq!(project_id, "4711");
            assert_eq!(token, "abc123");
        }
        _ => panic!("GitLab was not chosen"),
    }
}

#[test]
fn github_wins_over_gitlab() {
    let mut config = Config::default();
    config.github_repo = Some("owner/repo".to_string());
    config.github_token = Some("a".to_string());
    config.gitlab_project_id = Some("4711".to_string());
    config.gitlab_token = Some("b".to_string());
    assert!(matches!(config.ci_source(), Some(CiSource::GitHub { .. })));
}

#[test]
fn half_a_pair_chooses_nothing() {
    let mut config = Config::default();
    config.github_repo = Some("owner/repo".to_string());
    assert!(config.ci_source().is_none());
    config.github_repo = None;
    config.github_token = Some("a".to_string());
    assert!(config.ci_source().is_none());
    config.gitlab_project_id = Some("1".to_string());
    assert!(config.ci_source().is_none());
    config.gitlab_project_id = None;
    config.gitlab_token = Some("b".to_string());
    assert!(config.ci_source().is_none());
}

#[test]
fn half_a_github_pair_falls_back_to_gitlab() {
    let mut config = Config::default();
    config.github_repo = Some("owner/repo".to_string());
    config.gitlab_project_id = Some("1".to_string());
    config.gitlab_token = Some("b".to_string());
    assert!(matches!(config.ci_source(), Some(CiSource::GitLab { .. })));
}

#[test]
fn mixed_credentials_choose_nothing() {
    let mut config = Config::default();
    config.github_repo = Some("owner/repo".to_string());
    config.gitlab_token = Some("b".to_string());
    assert!(config.ci_source().is_none());
}

#[test]
fn or_default_keeps_loaded_settings() {
    let mut loaded = Config::default();
    loaded.theme = "nord".to_string();
    loaded.timer_default_minutes = 50;
    let config = Config::or_default(Some(loaded));
    assert_eq!(config.theme, "nord");
    assert_eq!(config.timer_default_minutes, 50);
    let fallback = Config::or_default(None);
    assert_eq!(fallback.theme, "moonlight");
    assert_eq!(fallback.timer_default_minutes, 25);
}
