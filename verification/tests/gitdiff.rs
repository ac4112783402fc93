use git2::{ApplyLocation, Repository};
use git_suggestion::suggestion::Suggestion;

#[test]
fn suggestion_diff_with_repo_generates_diff() {
    let file = r#"
     ‘Beware the Jabberwock, my son!
      The jaws that bite, the claws that catch!
     Beware the Jubjub bird, and shun
      The frumious Bandersnatch!’

     He took his vorpal blade in hand:
      Long time the manxome foe he sought--
     So rested he by the Tumtum tree,
      And stood awhile in thought.
"#;

    let path = "poems/Jabberwocky.txt";

    let suggestion = Suggestion {
        diff: "".to_owned(),
        comment: r#"``` suggestion
     He took his vorpal sword in hand:
      Long time the manxome foe he sought—
```"#
            .to_owned(),
        commit: "".to_owned(),
        path: path.to_owned(),
        original_start_line: Some(7),
        original_end_line: 8,
    };

    let expected = r#"diff --git a/poems/Jabberwocky.txt b/poems/Jabberwocky.txt
index 89840a2..06acdfc 100644
--- a/poems/Jabberwocky.txt
+++ b/poems/Jabberwocky.txt
@@ -4,7 +4,7 @@
      Beware the Jubjub bird, and shun
       The frumious Bandersnatch!’
 
-     He took his vorpal blade in hand:
-      Long time the manxome foe he sought--
+     He took his vorpal sword in hand:
+      Long time the manxome foe he sought—
      So rested he by the Tumtum tree,
       And stood awhile in thought.
"#;

    assert_eq!(suggestion.diff_with_original(file.as_bytes()).unwrap(), expected);
}

#[test]
fn diff_with_invalid_range_is_refused() {
    let suggestion = Suggestion {
        diff: "".to_owned(),
        comment: "```suggestion\nX\n```".to_owned(),
        commit: "".to_owned(),
        path: "a.txt".to_owned(),
        original_start_line: None,
        original_end_line: 10,
    };
    assert!(matches!(
        suggestion.diff_with_original(b"only\ntwo lines\n"),
        Err(git_suggestion::suggestion::Error::RangeInvalid)
    ));
}

#[test]
fn round_trip_applying_the_diff_reproduces_the_spliced_content() {
    let dir = tempfile::tempdir().unwrap();
    let repo = Repository::init(dir.path()).unwrap();

    let original = "alpha\nbravo\ncharlie\n";
    let path = "notes/letters.txt";

    let mut index = repo.index().unwrap();
    index
        .add_frombuffer(
            &git2::IndexEntry {
                ctime: git2::IndexTime::new(0, 0),
                mtime: git2::IndexTime::new(0, 0),
                dev: 0,
                ino: 0,
                mode: 0o100644,
                uid: 0,
                gid: 0,
                file_size: original.len() as u32,
                id: git2::Oid::zero(),
                flags: 0,
                flags_extended: 0,
                path: path.as_bytes().to_vec(),
            },
            original.as_bytes(),
        )
        .unwrap();
    let tree_oid = index.write_tree().unwrap();
    let tree = repo.find_tree(tree_oid).unwrap();
    let author = git2::Signature::now("Oshino Shinobu", "oshino.shinobu@example.com").unwrap();
    repo.commit(Some("HEAD"), &author, &author, "Sample commit", &tree, &[])
        .unwrap();

    let suggestion = Suggestion {
        diff: "".to_owned(),
        comment: "```suggestion\nBRAVO\n```".to_owned(),
        commit: "".to_owned(),
        path: path.to_owned(),
        original_start_line: Some(2),
        original_end_line: 2,
    };

    let diff_text = suggestion.diff_with_original(original.as_bytes()).unwrap();
    let spliced = suggestion.apply_to(original.as_bytes()).unwrap();

    let diff = git2::Diff::from_buffer(diff_text.as_bytes()).unwrap();
    repo.apply(&diff, ApplyLocation::Index, None).unwrap();

    let index = repo.index().unwrap();
    let entry = index.get_path(std::path::Path::new(path), 0).unwrap();
    let blob = repo.find_blob(entry.id).unwrap();
    assert_eq!(blob.content(), spliced.as_slice());
}

#[test]
fn diff_of_non_utf8_content_reports_encoding_error() {
    let suggestion = Suggestion {
        diff: "".to_owned(),
        comment: "```suggestion\nnew text\n```".to_owned(),
        commit: "".to_owned(),
        path: "data.txt".to_owned(),
        original_start_line: None,
        original_end_line: 1,
    };
    let original: &[u8] = b"\xff\xfe latin-1, not utf-8\n";
    assert!(matches!(
        suggestion.diff_with_original(original),
        Err(git_suggestion::suggestion::Error::InvalidUtf8)
    ));
}
