use git_suggestion::coords::{Error as UrlError, SuggestionUrl};
use git_suggestion::owner_repo::{OwnerRepo, OwnerRepoError};

#[test]
fn suggestion_url_parses_owner_repo_and_comment_id() {
    let url = SuggestionUrl::from_str("https://host/acme/widgets/pull/1#discussion_r42").unwrap();
    assert_eq!(url.owner, "acme");
    assert_eq!(url.repo, "widgets");
    assert_eq!(url.comment_id, "42");
}

#[test]
fn suggestion_url_real_world_shape() {
    let url = SuggestionUrl::from_str(
        "https://github.com/teddywing/github-suggestion/pull/1#discussion_r459691747",
    )
    .unwrap();
    assert_eq!(url.owner, "teddywing");
    assert_eq!(url.repo, "github-suggestion");
    assert_eq!(url.comment_id, "459691747");
}

#[test]
fn suggestion_url_without_fragment_is_an_error() {
    let r = SuggestionUrl::from_str("https://host/acme/widgets/pull/1");
    assert!(matches!(r, Err(UrlError::NoFragment)));
}

#[test]
fn suggestion_url_with_foreign_fragment_is_an_error() {
    let r = SuggestionUrl::from_str("https://host/acme/widgets/pull/1#row=4");
    assert!(matches!(r, Err(UrlError::NoFragment)));
}

#[test]
fn suggestion_url_with_one_segment_is_an_error() {
    let r = SuggestionUrl::from_str("https://host/acme#discussion_r1");
    assert!(matches!(r, Err(UrlError::NoOwnerRepo)));
}

#[test]
fn suggestion_url_without_path_segments_is_an_error() {
    let r = SuggestionUrl::from_str("mailto:someone@host");
    assert!(matches!(r, Err(UrlError::NoPath)));
}

#[test]
fn suggestion_url_from_non_url_is_an_error() {
    let r = SuggestionUrl::from_str("459692838");
    assert!(matches!(r, Err(UrlError::Url)));
}

#[test]
fn owner_repo_from_ssh_reference() {
    let o_r = OwnerRepo::from_ssh("git@host:acme/widgets.git").unwrap();
    assert_eq!(o_r.owner, "acme");
    assert_eq!(o_r.repo, "widgets");
}

#[test]
fn owner_repo_from_ssh_without_dot_git() {
    let o_r = OwnerRepo::from_ssh("git@host:acme/widgets").unwrap();
    assert_eq!(o_r.owner, "acme");
    assert_eq!(o_r.repo, "widgets");
}

#[test]
fn owner_repo_from_ssh_without_colon_is_an_error() {
    let r = OwnerRepo::from_ssh("acme/widgets");
    assert!(matches!(r, Err(OwnerRepoError::NoOwnerRepo)));
}

#[test]
fn owner_repo_from_ssh_without_slash_is_an_error() {
    let r = OwnerRepo::from_ssh("git@host:acme");
    assert!(matches!(r, Err(OwnerRepoError::NoOwnerRepo)));
}

#[test]
fn owner_repo_from_http_url() {
    let o_r = OwnerRepo::from_str("https://github.com/teddywing/git-suggestion.git").unwrap();
    assert_eq!(o_r.owner, "teddywing");
    assert_eq!(o_r.repo, "git-suggestion");
}

#[test]
fn owner_repo_from_str_falls_back_to_ssh() {
    let o_r = OwnerRepo::from_str("git@github.com:teddywing/git-suggestion.git").unwrap();
    assert_eq!(o_r.owner, "teddywing");
    assert_eq!(o_r.repo, "git-suggestion");
}

#[test]
fn owner_repo_from_url_without_enough_segments_is_an_error() {
    let r = OwnerRepo::from_str("https://github.com/");
    assert!(matches!(r, Err(OwnerRepoError::NoOwnerRepo)));
}

#[test]
fn owner_repo_from_cannot_be_a_base_url_is_an_error() {
    let r = OwnerRepo::from_str("mailto:someone@host");
    assert!(matches!(r, Err(OwnerRepoError::NoPath)));
}

#[test]
fn owner_repo_from_malformed_url_is_an_error() {
    let r = OwnerRepo::from_str("https://[bad/acme/widgets");
    assert!(matches!(r, Err(OwnerRepoError::Url)));
}
