use frame_sampler::pathset::{get_files, remove_files, Expansion, Listed, Removal};
use std::path::{Path, PathBuf};

fn create_file(path: &Path) {
    let file = tempfile::NamedTempFile::new_in(path.parent().unwrap()).unwrap();
    file.persist(path).unwrap();
}

fn walk_pattern(pattern: &str) -> Expansion {
    match glob::glob(pattern) {
        Err(error) => Expansion::Malformed { position: error.pos },
        Ok(paths) => {
            let mut entries = Vec::new();
            for entry in paths {
                entries.push(match entry {
                    Ok(path) => Listed::Found { path: path.to_string_lossy().into_owned() },
                    Err(_) => Listed::Unreadable,
                });
            }
            Expansion::Entries { entries }
        }
    }
}

fn attempt_removals(paths: &[PathBuf]) -> Vec<Removal> {
    let mut attempts = Vec::new();
    for path in paths {
        attempts.push(Removal {
            path: path.to_string_lossy().into_owned(),
            failure: tempfile::TempPath::from_path(path).close().err().map(|error| error.to_string()),
        });
    }
    attempts
}

#[test]
fn test_get_files_matches() {
    let tmp_dir = tempfile::tempdir().unwrap();
    let file_path = tmp_dir.path().join("testfile.txt");
    create_file(&file_path);

    let path = tmp_dir.path().join("testfile.*");
    let paths = get_files(&walk_pattern(path.to_str().unwrap()))
        .unwrap_or_else(|e| panic!("Failed to get files: {e:?}"));

    assert_eq!(paths.len(), 1);
    assert_eq!(PathBuf::from(&paths[0]), file_path);
}

#[test]
fn test_remove_files_handles_errors() {
    let tmp_dir = tempfile::tempdir().unwrap();
    let file_path = tmp_dir.path().join("removable.txt");
    create_file(&file_path);

    let paths = vec![file_path.clone()];
    let result = remove_files(&attempt_removals(&paths));

    assert!(result.is_ok());
    assert!(!file_path.exists());

    let file_path = PathBuf::from("nonexistentfile.txt");
    let paths = vec![file_path];
    let result = remove_files(&attempt_removals(&paths));

    assert!(result.is_err());
}

#[test]
fn test_remove_files_with_existing_and_missing_files() {
    let tmp_dir = tempfile::tempdir().unwrap();
    let file_path = tmp_dir.path().join("file.txt");
    create_file(&file_path);

    let missing_file = tmp_dir.path().join("missing.txt");
    let paths = vec![file_path.clone(), missing_file.clone()];
    let result = remove_files(&attempt_removals(&paths));

    // An error is returned because one file was missing.
    assert!(result.is_err());
    // The file that did exist has still been removed.
    assert!(!file_path.exists());
    let batch = result.unwrap_err();
    assert_eq!(batch.failed.len(), 1);
    assert_eq!(PathBuf::from(&batch.failed[0].path), missing_file);
}
