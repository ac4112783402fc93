use git_suggestion::diff_options::parse;

#[test]
fn parse_extracts_diff_options() {
    let args = vec![
        "--github-token".to_owned(),
        "MY_TOKEN".to_owned(),
        "--diff-filter=A".to_owned(),
        "-D".to_owned(),
        "--color=always".to_owned(),
        "-U5".to_owned(),
        "--patience".to_owned(),
        "--ws-error-highlight=old,new".to_owned(),
        "--no-rename-empty".to_owned(),
        "--stat=50".to_owned(),
        "-M90%".to_owned(),
        "--relative".to_owned(),
    ];

    let (_, diff_opts) = parse(&args);

    assert_eq!(
        diff_opts,
        vec![
            "--diff-filter=A",
            "-D",
            "--color=always",
            "-U5",
            "--patience",
            "--ws-error-highlight=old,new",
            "--no-rename-empty",
            "--stat=50",
            "-M90%",
            "--relative",
        ]
    );
}

#[test]
fn parse_does_not_consume_suggestion_args() {
    let args = vec![
        "--github-token".to_owned(),
        "MY_TOKEN".to_owned(),
        "--word-diff".to_owned(),
        "459692838".to_owned(),
        "https://github.com/teddywing/git-suggestion/pull/1#discussion_r459691747".to_owned(),
    ];

    let (options, diff_opts) = parse(&args);

    assert_eq!(diff_opts, vec!["--word-diff"]);
    assert_eq!(
        options,
        vec![
            "--github-token",
            "MY_TOKEN",
            "459692838",
            "https://github.com/teddywing/git-suggestion/pull/1#discussion_r459691747",
        ]
    );
}
