use git_suggestion::arg::is_suggestion_id;
use git_suggestion::config::{git_config_key, Config, ConfigLookup, Error};

#[test]
fn github_token_prefers_the_flag() {
    let r = Config::github_token(
        Some("FLAG".to_owned()),
        ConfigLookup::Value("CONFIG".to_owned()),
        Some("ENV".to_owned()),
    );
    assert_eq!(r.unwrap(), "FLAG");
}

#[test]
fn github_token_falls_back_to_git_config() {
    let r = Config::github_token(
        None,
        ConfigLookup::Value("CONFIG".to_owned()),
        Some("ENV".to_owned()),
    );
    assert_eq!(r.unwrap(), "CONFIG");
}

#[test]
fn github_token_falls_back_to_the_environment() {
    let r = Config::github_token(None, ConfigLookup::Missing, Some("ENV".to_owned()));
    assert_eq!(r.unwrap(), "ENV");
}

#[test]
fn github_token_missing_everywhere_names_the_variable() {
    let r = Config::github_token(None, ConfigLookup::Missing, None);
    match r {
        Err(Error::EnvVar { var }) => assert_eq!(var, "GITHUB_TOKEN"),
        other => panic!("unexpected result: {:?}", other),
    }
}

#[test]
fn github_token_reports_a_failed_config_lookup() {
    let r = Config::github_token(
        None,
        ConfigLookup::Failed("config broke".to_owned()),
        Some("ENV".to_owned()),
    );
    match r {
        Err(Error::Git(m)) => assert_eq!(m, "config broke"),
        other => panic!("unexpected result: {:?}", other),
    }
}

#[test]
fn remote_prefers_the_flag() {
    let r = Config::remote(Some("upstream".to_owned()), ConfigLookup::Value("o".to_owned()));
    assert_eq!(r.unwrap(), Some("upstream".to_owned()));
}

#[test]
fn remote_falls_back_to_git_config() {
    let r = Config::remote(None, ConfigLookup::Value("fork".to_owned()));
    assert_eq!(r.unwrap(), Some("fork".to_owned()));
}

#[test]
fn remote_unset_everywhere_is_none() {
    let r = Config::remote(None, ConfigLookup::Missing);
    assert_eq!(r.unwrap(), None);
}

#[test]
fn remote_reports_a_failed_config_lookup() {
    let r = Config::remote(None, ConfigLookup::Failed("io".to_owned()));
    assert!(matches!(r, Err(Error::Git(_))));
}

#[test]
fn git_config_key_uses_the_program_prefix() {
    assert_eq!(git_config_key("remote"), "githubSuggestion..remote");
    assert_eq!(git_config_key("githubToken"), "githubSuggestion..githubToken");
}

#[test]
fn numeric_ids_are_recognized() {
    assert!(is_suggestion_id("459692838"));
    assert!(is_suggestion_id("0"));
    assert!(!is_suggestion_id(""));
    assert!(!is_suggestion_id("12a4"));
    assert!(!is_suggestion_id(
        "https://github.com/teddywing/git-suggestion/pull/1#discussion_r459691747"
    ));
}
