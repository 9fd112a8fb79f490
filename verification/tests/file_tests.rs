use khan_academy_extractor::error::AppError;
use khan_academy_extractor::file_utils::{FileEntry, find_and_read_json_file, find_and_read_json_files};
use khan_academy_extractor::file_operations::read_files;
use khan_academy_extractor::numfmt::parse_u32_chars;
use khan_academy_extractor::strutil::file_sort_key;

fn entry(name: &str, contents: &str) -> FileEntry {
    FileEntry { name: name.to_string(), contents: contents.to_string() }
}

#[test]
fn finds_a_file_with_or_without_extension() {
    let files = vec![entry("contentForPath.json", "tree"), entry("other", "x")];
    assert_eq!(find_and_read_json_file(&files, "", "contentForPath").unwrap(), "tree");
    let bare = vec![entry("contentForPath", "tree2")];
    assert_eq!(find_and_read_json_file(&bare, "", "contentForPath").unwrap(), "tree2");
}

#[test]
fn honours_the_prefix() {
    let files = vec![entry("run1-contentForPath.json", "tree")];
    assert_eq!(find_and_read_json_file(&files, "run1-", "contentForPath").unwrap(), "tree");
    match find_and_read_json_file(&files, "run2-", "contentForPath") {
        Err(AppError::MissingFile(m)) => assert_eq!(m, "contentForPath file not found"),
        other => panic!("expected a missing file, got {:?}", other),
    }
}

#[test]
fn batch_files_come_in_ascending_numeric_order() {
    let files = vec![
        entry("batch-10.json", "ten"),
        entry("batch-2.json", "two"),
        entry("unrelated.json", "no"),
        entry("batch-1.json", "one"),
        entry("batch-3", "three"),
        entry("batch-4.txt", "no dot-free name and no json"),
    ];
    let contents = find_and_read_json_files(&files, "", "batch-").unwrap();
    assert_eq!(contents, vec!["one", "two", "three", "ten"]);
}

#[test]
fn batch_files_without_a_number_sort_first_and_keep_their_order() {
    let files = vec![
        entry("batch-b.json", "b"),
        entry("batch-2.json", "two"),
        entry("batch-a.json", "a"),
    ];
    let contents = find_and_read_json_files(&files, "", "batch-").unwrap();
    assert_eq!(contents, vec!["b", "a", "two"]);
}

#[test]
fn file_sort_key_strips_json_endings_and_reads_the_tail() {
    assert_eq!(file_sort_key("batch-12.json"), 12);
    assert_eq!(file_sort_key("batch-12"), 12);
    assert_eq!(file_sort_key("batch-12.json.json"), 12);
    assert_eq!(file_sort_key("batch"), 0);
    assert_eq!(file_sort_key("batch-x.json"), 0);
    assert_eq!(file_sort_key("batch-99999999999.json"), 0);
}

#[test]
fn parse_u32_follows_the_standard_parser() {
    assert_eq!(parse_u32_chars(&"123".chars().collect()), Some(123));
    assert_eq!(parse_u32_chars(&"+7".chars().collect()), Some(7));
    assert_eq!(parse_u32_chars(&"007".chars().collect()), Some(7));
    assert_eq!(parse_u32_chars(&"".chars().collect()), None);
    assert_eq!(parse_u32_chars(&"+".chars().collect()), None);
    assert_eq!(parse_u32_chars(&"12a".chars().collect()), None);
    assert_eq!(parse_u32_chars(&"4294967295".chars().collect()), Some(u32::MAX));
    assert_eq!(parse_u32_chars(&"4294967296".chars().collect()), None);
}

#[test]
fn read_files_collects_all_four_inputs() {
    let files = vec![
        entry("p-contentForPath.json", "tree"),
        entry("p-courseProgressQuery.json", "progress"),
        entry("p-getUserInfoForTopicProgressMastery-2.json", "items2"),
        entry("p-getUserInfoForTopicProgressMastery-1.json", "items1"),
        entry("p-quizAndUnitTestAttemptsQuery-1.json", "attempts1"),
        entry("p-information.csv", "old output"),
    ];
    let fc = read_files(&files, "p-").unwrap();
    assert_eq!(fc.json_content, "tree");
    assert_eq!(fc.json_course_progress, "progress");
    assert_eq!(fc.json_unit_progress_files, vec!["items1", "items2"]);
    assert_eq!(fc.json_quiz_test_progress_files, vec!["attempts1"]);
}

#[test]
fn read_files_names_the_missing_document() {
    let files = vec![entry("p-contentForPath.json", "tree")];
    match read_files(&files, "p-") {
        Err(AppError::MissingFile(m)) => assert_eq!(m, "courseProgressQuery file not found"),
        other => panic!("expected a missing file, got {:?}", other),
    }
    match read_files(&vec![], "p-") {
        Err(AppError::MissingFile(m)) => assert_eq!(m, "contentForPath file not found"),
        other => panic!("expected a missing file, got {:?}", other),
    }
}
