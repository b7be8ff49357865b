use frame_sampler::error::SamplerError;
use frame_sampler::pathset::{
    cleanup_temporary_files, get_files, remove_files, CleanupBatch, Expansion, Failure, Listed,
    Removal,
};

fn expand_pattern(pattern: &str) -> Expansion {
    match glob::glob(pattern) {
        Err(error) => Expansion::Malformed { position: error.pos },
        Ok(paths) => {
            let mut entries = Vec::new();
            for entry in paths {
                entries.push(match entry {
                    Ok(path) => Listed::Found { path: path.to_string_lossy().into_owned() },
                    Err(_) => Listed::Unreadable,
                });
            }
            Expansion::Entries { entries }
        }
    }
}

fn found(path: &str) -> Listed {
    Listed::Found { path: String::from(path) }
}

fn removed(path: &str) -> Removal {
    Removal { path: String::from(path), failure: None }
}

fn not_removed(path: &str, reason: &str) -> Removal {
    Removal { path: String::from(path), failure: Some(String::from(reason)) }
}

#[test]
fn test_get_files_empty_pattern() {
    let tmp_dir = tempfile::tempdir().unwrap();
    let path = tmp_dir.path().join("doesnotexist.*");
    let paths = get_files(&expand_pattern(path.to_str().unwrap())).unwrap();

    assert!(paths.is_empty());
}

#[test]
fn test_get_files_invalid_pattern_returns_err() {
    let result = get_files(&expand_pattern("[invalid[pattern"));
    assert!(result.is_err());
    assert!(matches!(result, Err(SamplerError::InvalidPattern { .. })));
}

#[test]
fn test_remove_files_with_empty_list() {
    let attempts: Vec<Removal> = vec![];
    let result = remove_files(&attempts);
    assert!(result.is_ok());
}

#[test]
fn test_cleanup_on_empty_dirs() {
    let expansions = vec![expand_pattern("frames/*.png"), expand_pattern("segments/*.mp4")];
    let targets = cleanup_temporary_files(&expansions);
    assert!(remove_files(&Vec::new()).is_ok());
    assert!(targets.iter().all(|path| path.ends_with(".png") || path.ends_with(".mp4")));
}

#[test]
fn a_malformed_pattern_reports_its_position() {
    let result = get_files(&Expansion::Malformed { position: 7 });
    assert_eq!(result, Err(SamplerError::InvalidPattern { position: 7 }));
}

#[test]
fn no_entries_is_an_empty_result_and_no_error() {
    let result = get_files(&Expansion::Entries { entries: vec![] });
    assert_eq!(result, Ok(vec![]));
}

#[test]
fn unreadable_entries_are_left_out_in_order() {
    let expansion = Expansion::Entries {
        entries: vec![
            Listed::Unreadable,
            found("frames/a_0.png"),
            Listed::Unreadable,
            found("frames/a_30.png"),
            found("frames/a_60.png"),
            Listed::Unreadable,
        ],
    };
    let result = get_files(&expansion);
    assert_eq!(
        result,
        Ok(vec![
            String::from("frames/a_0.png"),
            String::from("frames/a_30.png"),
            String::from("frames/a_60.png"),
        ])
    );
}

#[test]
fn only_unreadable_entries_give_an_empty_result() {
    let expansion = Expansion::Entries { entries: vec![Listed::Unreadable, Listed::Unreadable] };
    assert_eq!(get_files(&expansion), Ok(vec![]));
}

#[test]
fn removals_without_failure_are_a_success() {
    let attempts = vec![removed("frames/a.png"), removed("frames/b.png")];
    assert_eq!(remove_files(&attempts), Ok(()));
}

#[test]
fn a_single_failure_makes_the_batch_an_error() {
    let attempts = vec![not_removed("nonexistentfile.txt", "No such file or directory")];
    let result = remove_files(&attempts);
    assert!(result.is_err());
    assert_eq!(
        result,
        Err(CleanupBatch {
            failed: vec![Failure {
                path: String::from("nonexistentfile.txt"),
                reason: String::from("No such file or directory"),
            }],
        })
    );
}

#[test]
fn failures_are_reported_for_the_failed_attempts_only() {
    let attempts = vec![
        removed("file.txt"),
        not_removed("missing.txt", "not found"),
        removed("other.txt"),
        not_removed("locked.txt", "permission denied"),
    ];
    let batch = remove_files(&attempts).unwrap_err();
    assert_eq!(
        batch.failed,
        vec![
            Failure { path: String::from("missing.txt"), reason: String::from("not found") },
            Failure { path: String::from("locked.txt"), reason: String::from("permission denied") },
        ]
    );
}

#[test]
fn cleanup_targets_follow_the_order_of_the_patterns() {
    let expansions = vec![
        Expansion::Entries { entries: vec![found("frames/full_0.png"), found("frames/full_30.png")] },
        Expansion::Entries { entries: vec![found("segments/output_000000000.mp4")] },
    ];
    assert_eq!(
        cleanup_temporary_files(&expansions),
        vec![
            String::from("frames/full_0.png"),
            String::from("frames/full_30.png"),
            String::from("segments/output_000000000.mp4"),
        ]
    );
}

#[test]
fn cleanup_passes_over_a_malformed_pattern() {
    let expansions = vec![
        Expansion::Malformed { position: 0 },
        Expansion::Entries { entries: vec![Listed::Unreadable, found("segments/s.mp4")] },
        Expansion::Malformed { position: 3 },
    ];
    assert_eq!(cleanup_temporary_files(&expansions), vec![String::from("segments/s.mp4")]);
}

#[test]
fn cleanup_of_nothing_is_empty() {
    assert!(cleanup_temporary_files(&vec![]).is_empty());
}
