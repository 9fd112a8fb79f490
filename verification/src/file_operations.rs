//! Gathering the run's four inputs out of a directory listing.

use vstd::prelude::*;
use crate::error::{AppError, ErrModel};
use crate::file_utils::{FileEntry, find_file, batch_contents, find_and_read_json_file,
    find_and_read_json_files};

verus! {

/// The contents of the run's input documents: the curriculum tree, the
/// course progress document, and the two batch collections in ascending
/// numeric-suffix order.
#[derive(Debug, PartialEq, Eq)]
pub struct FileContents {
    pub json_content: String,
    pub json_course_progress: String,
    pub json_unit_progress_files: Vec<String>,
    pub json_quiz_test_progress_files: Vec<String>,
}

/// Picks the run's inputs out of the directory listing: the two required
/// documents by name, and the two batch collections by prefix, sorted by
/// their numeric suffix.
///
/// Fails with `MissingFile` exactly when a required document is absent,
/// naming the one checked first; batch collections may be empty.
pub fn read_files(files: &Vec<FileEntry>, prefix: &str) -> (r: Result<FileContents, AppError>)
    ensures
        match r {
            Ok(fc) => find_file(files@, prefix@ + "contentForPath"@, 0) == Some(fc.json_content)
                && find_file(files@, prefix@ + "courseProgressQuery"@, 0) == Some(
                fc.json_course_progress,
            ) && fc.json_unit_progress_files@ == batch_contents(
                files@,
                prefix@ + "getUserInfoForTopicProgressMastery-"@,
            ) && fc.json_quiz_test_progress_files@ == batch_contents(
                files@,
                prefix@ + "quizAndUnitTestAttemptsQuery-"@,
            ),
            Err(e) => (e@ matches ErrModel::MissingFile(m) && ((find_file(
                files@,
                prefix@ + "contentForPath"@,
                0,
            ) is None && m == "contentForPath file not found"@) || (find_file(
                files@,
                prefix@ + "contentForPath"@,
                0,
            ) is Some && find_file(files@, prefix@ + "courseProgressQuery"@, 0) is None && m
                == "courseProgressQuery file not found"@))),
        },
{
    let json_content = match find_and_read_json_file(files, prefix, "contentForPath") {
        Ok(s) => s,
        Err(e) => {
            proof {
                reveal_strlit("contentForPath");
                reveal_strlit(" file not found");
                reveal_strlit("contentForPath file not found");
                assert("contentForPath"@ + " file not found"@ =~= "contentForPath file not found"@);
            }
            return Err(e);
        },
    };
    let json_course_progress = match find_and_read_json_file(files, prefix, "courseProgressQuery") {
        Ok(s) => s,
        Err(e) => {
            proof {
                reveal_strlit("courseProgressQuery");
                reveal_strlit(" file not found");
                reveal_strlit("courseProgressQuery file not found");
                assert("courseProgressQuery"@ + " file not found"@
                    =~= "courseProgressQuery file not found"@);
            }
            return Err(e);
        },
    };
    let json_unit_progress_files = match find_and_read_json_files(
        files,
        prefix,
        "getUserInfoForTopicProgressMastery-",
    ) {
        Ok(v) => v,
        Err(e) => {
            return Err(e);
        },
    };
    let json_quiz_test_progress_files = match find_and_read_json_files(
        files,
        prefix,
        "quizAndUnitTestAttemptsQuery-",
    ) {
        Ok(v) => v,
        Err(e) => {
            return Err(e);
        },
    };
    Ok(
        FileContents {
            json_content,
            json_course_progress,
            json_unit_progress_files,
            json_quiz_test_progress_files,
        },
    )
}

} // verus!
