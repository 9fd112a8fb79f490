use khan_academy_extractor::error::AppError;
use khan_academy_extractor::models::{
    DataStruct, MasteryV2, MasteryMapItem, UnitProgress, ContentItemProgress, BestScore, Content,
    TopicQuizAttempt, TopicUnitTestAttempt,
};
use khan_academy_extractor::csv_utils::{
    csv_header, record_to_row, rows_to_csv, csv_to_rows, create_csv, append_data_to_csv, COL_ID,
    COL_TYPE, COL_PERCENTAGE, COL_POINTS_EARNED, COL_STATUS, COL_COMPLETION_STATUS,
    COL_NUM_ATTEMPTED, COL_NUM_CORRECT, COL_NUM_INCORRECT,
};
use khan_academy_extractor::csv_operations::{update_record, update_csv};

const HEADER: &str = "id,typeName,order,title,slug,relativeUrl,progressKey,parentTopic,parentId,parentType,parentTitle,parentSlug,parentRelativeUrl,percentage,pointsEarned,status,completionStatus,numAttempted,numCorrect,numIncorrect";

fn bare_record(id: &str, node_type: &str, order: u64, progress_key: Option<&str>) -> DataStruct {
    DataStruct {
        id: id.to_string(),
        node_type: node_type.to_string(),
        order,
        title: format!("{} title", id),
        slug: format!("{}-slug", id),
        relative_url: format!("/{}", id),
        progress_key: progress_key.map(|p| p.to_string()),
        parent_topic: None,
        parent_id: None,
        parent_type: None,
        parent_title: None,
        parent_slug: None,
        parent_relative_url: None,
        percentage: None,
        points_earned: None,
        status: None,
        completion_status: None,
        num_attempted: None,
        num_correct: None,
        num_incorrect: None,
    }
}

fn empty_mastery() -> MasteryV2 {
    MasteryV2 { percentage: 0, points_earned: 0 }
}

fn table_of(records: &[DataStruct]) -> String {
    let mut rows: Vec<Vec<String>> = Vec::new();
    rows.push(csv_header());
    for r in records {
        rows.push(record_to_row(r));
    }
    rows_to_csv(&rows)
}

#[test]
fn create_csv_writes_the_exact_expected_text() {
    let mut r = bare_record("r1", "T", 2, None);
    r.title = "Ti".to_string();
    r.slug = "sl".to_string();
    r.relative_url = "/u".to_string();
    let text = create_csv(&vec![r]);
    let expected = format!("{}\nr1,T,2,Ti,sl,/u,,,,,,,,,,,,,,\n", HEADER);
    assert_eq!(text, expected);
}

#[test]
fn csv_text_round_trips_through_the_reader() {
    let r = bare_record("a", "B", 1, Some("pk"));
    let text = table_of(&[r.clone()]);
    let rows = csv_to_rows(&text).unwrap();
    assert_eq!(rows.len(), 2);
    assert_eq!(rows[0][0], "id");
    assert_eq!(rows[1], record_to_row(&r));
}

#[test]
fn test_append_data_to_csv_success() {
    let content = DataStruct {
        id: "test_id".to_string(),
        node_type: "TestType".to_string(),
        order: 1,
        title: "Test Title".to_string(),
        slug: "test-slug".to_string(),
        relative_url: "/test/url".to_string(),
        progress_key: Some("test_progress".to_string()),
        parent_topic: Some("parent_topic".to_string()),
        parent_id: Some("parent_id".to_string()),
        parent_type: Some("ParentType".to_string()),
        parent_title: Some("Parent Title".to_string()),
        parent_slug: Some("parent-slug".to_string()),
        parent_relative_url: Some("/parent/url".to_string()),
        percentage: Some("100".to_string()),
        points_earned: None,
        status: Some("Completed".to_string()),
        completion_status: Some("Finished".to_string()),
        num_attempted: None,
        num_correct: None,
        num_incorrect: None,
    };
    let mut rows: Vec<Vec<String>> = vec![csv_header()];
    append_data_to_csv(&content, &mut rows);
    assert_eq!(
        rows[1],
        vec![
            "test_id", "TestType", "1", "Test Title", "test-slug", "/test/url", "test_progress",
            "parent_topic", "parent_id", "ParentType", "Parent Title", "parent-slug",
            "/parent/url", "100", "", "Completed", "Finished", "", "", ""
        ]
    );
}

#[test]
fn update_record_replaces_only_the_named_cells() {
    let mut row: Vec<String> = (0..20).map(|i| format!("v{}", i)).collect();
    let before = row.clone();
    update_record(&mut row, &vec![(14usize, "new".to_string())]).unwrap();
    for i in 0..20 {
        if i == 14 {
            assert_eq!(row[i], "new");
        } else {
            assert_eq!(row[i], before[i]);
        }
    }
}

#[test]
fn update_record_rejects_a_column_beyond_the_width() {
    let mut row: Vec<String> = (0..20).map(|i| format!("v{}", i)).collect();
    let before = row.clone();
    match update_record(&mut row, &vec![(25usize, "x".to_string())]) {
        Err(AppError::ColumnIndex(c)) => assert_eq!(c, 25),
        other => panic!("expected a column error, got {:?}", other),
    }
    assert_eq!(row, before);
}

#[test]
fn update_leaves_the_untouched_row_byte_identical() {
    let r0 = bare_record("r0", "T", 1, Some("pk0"));
    let r1 = bare_record("r1", "T", 2, Some("pk1"));
    let text = table_of(&[r0.clone(), r1.clone()]);
    let map = vec![MasteryMapItem { progress_key: "pk0".to_string(), status: "done".to_string() }];
    let out = update_csv(&text, &empty_mastery(), &map, &vec![], &vec![], &vec![], &vec![])
        .unwrap();
    let rows = csv_to_rows(&out).unwrap();
    let before = csv_to_rows(&text).unwrap();
    // Row r1 is untouched in every cell; row r0 changed only in the named
    // columns (mastery touched 13 and 14 of row 0, status column 15).
    assert_eq!(rows[2], before[2]);
    assert_eq!(rows[0], before[0]);
    for c in 0..20 {
        if c == COL_PERCENTAGE || c == COL_POINTS_EARNED || c == COL_STATUS {
            continue;
        }
        assert_eq!(rows[1][c], before[1][c]);
    }
    assert_eq!(rows[1][COL_STATUS], "done");
    assert_eq!(rows[1][COL_PERCENTAGE], "0");
    assert_eq!(rows[1][COL_POINTS_EARNED], "0");
}

#[test]
fn overall_mastery_goes_to_the_first_data_row_only() {
    let r0 = bare_record("c", "Course", 1, None);
    let r1 = bare_record("u", "Unit", 1, None);
    let text = table_of(&[r0, r1]);
    let m = MasteryV2 { percentage: 88, points_earned: 1200 };
    let out = update_csv(&text, &m, &vec![], &vec![], &vec![], &vec![], &vec![]).unwrap();
    let rows = csv_to_rows(&out).unwrap();
    assert_eq!(rows[1][COL_PERCENTAGE], "88");
    assert_eq!(rows[1][COL_POINTS_EARNED], "1200");
    assert_eq!(rows[2][COL_PERCENTAGE], "");
}

#[test]
fn unit_progress_matches_rows_by_id() {
    let r0 = bare_record("c", "Course", 1, None);
    let r1 = bare_record("unit-9", "Unit", 1, None);
    let text = table_of(&[r0, r1]);
    let ups = vec![UnitProgress {
        current_mastery_v2: MasteryV2 { percentage: 55, points_earned: 7 },
        unit_id: "unit-9".to_string(),
    }];
    let out = update_csv(&text, &empty_mastery(), &vec![], &ups, &vec![], &vec![], &vec![])
        .unwrap();
    let rows = csv_to_rows(&out).unwrap();
    assert_eq!(rows[2][COL_PERCENTAGE], "55");
    assert_eq!(rows[2][COL_POINTS_EARNED], "7");
}

fn item_progress(key: &str, best: Option<BestScore>) -> ContentItemProgress {
    ContentItemProgress {
        node_type: "P".to_string(),
        best_score: best,
        completion_status: "COMPLETE".to_string(),
        content: Content {
            node_type: "C".to_string(),
            id: "x".to_string(),
            progress_key: key.to_string(),
        },
    }
}

#[test]
fn incorrect_count_is_attempted_minus_correct() {
    let r0 = bare_record("c", "Course", 1, None);
    let r1 = bare_record("i", "Video", 1, Some("pk1"));
    let text = table_of(&[r0, r1]);
    let items = vec![vec![item_progress(
        "pk1",
        Some(BestScore { completed_date: None, num_attempted: Some(5), num_correct: Some(3) }),
    )]];
    let out = update_csv(&text, &empty_mastery(), &vec![], &vec![], &items, &vec![], &vec![])
        .unwrap();
    let rows = csv_to_rows(&out).unwrap();
    assert_eq!(rows[2][COL_NUM_ATTEMPTED], "5");
    assert_eq!(rows[2][COL_NUM_CORRECT], "3");
    assert_eq!(rows[2][COL_NUM_INCORRECT], "2");
    assert_eq!(rows[2][COL_COMPLETION_STATUS], "COMPLETE");
}

#[test]
fn incorrect_count_is_empty_when_a_counter_is_absent() {
    let r0 = bare_record("c", "Course", 1, None);
    let r1 = bare_record("i", "Video", 1, Some("pk1"));
    let text = table_of(&[r0, r1]);
    let items = vec![vec![item_progress(
        "pk1",
        Some(BestScore { completed_date: None, num_attempted: None, num_correct: Some(3) }),
    )]];
    let out = update_csv(&text, &empty_mastery(), &vec![], &vec![], &items, &vec![], &vec![])
        .unwrap();
    let rows = csv_to_rows(&out).unwrap();
    assert_eq!(rows[2][COL_NUM_ATTEMPTED], "");
    assert_eq!(rows[2][COL_NUM_CORRECT], "3");
    assert_eq!(rows[2][COL_NUM_INCORRECT], "");
}

#[test]
fn quiz_attempt_matches_id_and_type_and_clamps() {
    let r0 = bare_record("c", "Course", 1, None);
    let mut quiz_row = bare_record("lesson-7", "TopicQuiz", 1, None);
    quiz_row.id = "lesson-7".to_string();
    let decoy = bare_record("lesson-7x", "Video", 2, None);
    let text = table_of(&[r0, decoy, quiz_row]);
    let quizzes = vec![vec![TopicQuizAttempt {
        node_type: "Q".to_string(),
        is_completed: false,
        num_attempted: 3,
        num_correct: 5,
        position_key: "ignored".to_string(),
        parent_id: "lesson-7".to_string(),
    }]];
    let out = update_csv(&text, &empty_mastery(), &vec![], &vec![], &vec![], &quizzes, &vec![])
        .unwrap();
    let rows = csv_to_rows(&out).unwrap();
    // The decoy row shares no type, so only the quiz row is touched.
    assert_eq!(rows[2][COL_COMPLETION_STATUS], "");
    assert_eq!(rows[3][COL_COMPLETION_STATUS], "UNCOMPLETED");
    assert_eq!(rows[3][COL_NUM_ATTEMPTED], "3");
    assert_eq!(rows[3][COL_NUM_CORRECT], "5");
    // Clamped rather than underflowing.
    assert_eq!(rows[3][COL_NUM_INCORRECT], "0");
    assert_eq!(rows[3][COL_ID], "lesson-7");
    assert_eq!(rows[3][COL_TYPE], "TopicQuiz");
}

#[test]
fn unit_test_attempt_matches_its_own_type_literal() {
    let r0 = bare_record("c", "Course", 1, None);
    let test_row = bare_record("unit-3", "TopicUnitTest", 1, None);
    let text = table_of(&[r0, test_row]);
    let tests = vec![vec![TopicUnitTestAttempt {
        node_type: "T".to_string(),
        id: "token".to_string(),
        is_completed: true,
        num_attempted: 9,
        num_correct: 6,
        parent_id: "unit-3".to_string(),
    }]];
    let out = update_csv(&text, &empty_mastery(), &vec![], &vec![], &vec![], &vec![], &tests)
        .unwrap();
    let rows = csv_to_rows(&out).unwrap();
    assert_eq!(rows[2][COL_COMPLETION_STATUS], "COMPLETE");
    assert_eq!(rows[2][COL_NUM_ATTEMPTED], "9");
    assert_eq!(rows[2][COL_NUM_CORRECT], "6");
    assert_eq!(rows[2][COL_NUM_INCORRECT], "3");
}

#[test]
fn unmatched_updates_are_quiet_no_ops() {
    let r0 = bare_record("c", "Course", 1, None);
    let text = table_of(&[r0]);
    let map = vec![MasteryMapItem { progress_key: "absent".to_string(), status: "s".to_string() }];
    let quizzes = vec![vec![TopicQuizAttempt {
        node_type: "Q".to_string(),
        is_completed: true,
        num_attempted: 1,
        num_correct: 1,
        position_key: "k".to_string(),
        parent_id: "nobody".to_string(),
    }]];
    let out = update_csv(&text, &empty_mastery(), &map, &vec![], &vec![], &quizzes, &vec![])
        .unwrap();
    let rows = csv_to_rows(&out).unwrap();
    assert_eq!(rows[1][COL_STATUS], "");
    assert_eq!(rows[1][COL_COMPLETION_STATUS], "");
}

#[test]
fn malformed_table_is_a_parse_error() {
    match update_csv("a,b\nc\n", &empty_mastery(), &vec![], &vec![], &vec![], &vec![], &vec![]) {
        Err(AppError::Parse(_)) => {}
        other => panic!("expected a parse error, got {:?}", other),
    }
    match update_csv("", &empty_mastery(), &vec![], &vec![], &vec![], &vec![], &vec![]) {
        Err(AppError::Parse(_)) => {}
        other => panic!("expected a parse error, got {:?}", other),
    }
}

#[test]
fn short_rows_give_a_column_error() {
    // A three-column table cannot take the mastery columns.
    let text = "id,typeName,order\nc,Course,1\n";
    match update_csv(text, &empty_mastery(), &vec![], &vec![], &vec![], &vec![], &vec![]) {
        Err(AppError::ColumnIndex(c)) => assert_eq!(c, 13),
        other => panic!("expected a column error, got {:?}", other),
    }
}

#[test]
fn first_update_for_a_column_wins() {
    let mut row: Vec<String> = (0..20).map(|i| format!("v{}", i)).collect();
    update_record(
        &mut row,
        &vec![(3usize, "first".to_string()), (3usize, "second".to_string())],
    )
    .unwrap();
    assert_eq!(row[3], "first");
}

#[test]
fn cells_needing_quotes_survive_the_round_trip() {
    let mut r = bare_record("r1", "T", 1, None);
    r.title = "a, \"quoted\" title\nwith a newline".to_string();
    let text = table_of(&[r.clone()]);
    let rows = csv_to_rows(&text).unwrap();
    assert_eq!(rows[1][3], "a, \"quoted\" title\nwith a newline");
}

#[test]
fn only_the_first_matching_row_is_updated() {
    let r0 = bare_record("c", "Course", 1, None);
    let r1 = bare_record("a", "Video", 1, Some("dup"));
    let r2 = bare_record("b", "Video", 2, Some("dup"));
    let text = table_of(&[r0, r1, r2]);
    let map = vec![MasteryMapItem { progress_key: "dup".to_string(), status: "done".to_string() }];
    let out = update_csv(&text, &empty_mastery(), &map, &vec![], &vec![], &vec![], &vec![])
        .unwrap();
    let rows = csv_to_rows(&out).unwrap();
    assert_eq!(rows[2][COL_STATUS], "done");
    assert_eq!(rows[3][COL_STATUS], "");
}
