//! The whole pipeline, end to end, on an in-memory directory snapshot.

use khan_academy_extractor::file_utils::FileEntry;
use khan_academy_extractor::file_operations::read_files;
use khan_academy_extractor::extractors::extract_course_content;
use khan_academy_extractor::json_operations::{extract_course, process_json_files};
use khan_academy_extractor::csv_utils::{
    create_csv, csv_to_rows, COL_PERCENTAGE, COL_POINTS_EARNED, COL_STATUS, COL_COMPLETION_STATUS,
    COL_NUM_ATTEMPTED, COL_NUM_CORRECT, COL_NUM_INCORRECT,
};
use khan_academy_extractor::csv_operations::update_csv;
use khan_academy_extractor::numfmt::u64_to_string;

const COURSE_DOC: &str = r#"{"data": {"contentRoute": {"listedPathData": {"course": {
  "id": "course-1", "__typename": "Course", "translatedTitle": "My Course",
  "slug": "course", "relativeUrl": "/c",
  "unitChildren": [
    {"id": "unit-1", "__typename": "Unit", "translatedTitle": "My Unit",
     "slug": "unit", "relativeUrl": "/u",
     "allOrderedChildren": [
       {"id": "lesson-1", "__typename": "Lesson", "translatedTitle": "My Lesson",
        "slug": "lesson", "relativeUrl": "/l",
        "curatedChildren": [
          {"id": "item-1", "__typename": "Video", "translatedTitle": "Item One",
           "slug": "i1", "relativeUrl": "/i1", "progressKey": "pk1"},
          {"id": "item-2", "__typename": "Exercise", "translatedTitle": "Item Two",
           "slug": "i2", "relativeUrl": "/i2", "progressKey": "pk2"}
        ]}
     ]}
  ]}}}}}"#;

const PROGRESS_DOC: &str = r#"{"data": {"user": {"courseProgress": {
  "currentMasteryV2": {"percentage": 88, "pointsEarned": 1200},
  "masteryMap": [{"progressKey": "pk1", "status": "mastered"}],
  "unitProgresses": [
    {"unitId": "unit-1", "currentMasteryV2": {"percentage": 40, "pointsEarned": 10}}
  ]
}}}}"#;

const ITEMS_DOC: &str = r#"{"data": {"user": {"contentItemProgresses": [
  {"__typename": "P", "completionStatus": "COMPLETE",
   "content": {"__typename": "C", "id": "item-1", "progressKey": "pk1"},
   "bestScore": {"completedDate": null, "numAttempted": 5, "numCorrect": 3}}
]}}}"#;

#[test]
fn one_run_creates_and_updates_the_table() {
    let files = vec![
        FileEntry {
            name: "contentForPath.json".to_string(),
            contents: COURSE_DOC.to_string(),
        },
        FileEntry {
            name: "courseProgressQuery.json".to_string(),
            contents: PROGRESS_DOC.to_string(),
        },
        FileEntry {
            name: "getUserInfoForTopicProgressMastery-1.json".to_string(),
            contents: ITEMS_DOC.to_string(),
        },
    ];
    let fc = read_files(&files, "").unwrap();

    let course = extract_course_content(&fc.json_content).unwrap();
    let records = extract_course(&course).unwrap();
    assert_eq!(records.len(), 5);
    let table = create_csv(&records);

    let (mastery_v2, mastery_map, unit_progress, items, quizzes, tests) = process_json_files(
        &fc.json_course_progress,
        &fc.json_unit_progress_files,
        &fc.json_quiz_test_progress_files,
    )
    .unwrap();
    assert_eq!(mastery_v2.percentage, 88);
    assert_eq!(mastery_map.len(), 1);
    assert_eq!(unit_progress.len(), 1);
    assert_eq!(items.len(), 1);
    assert_eq!(quizzes.len(), 0);
    assert_eq!(tests.len(), 0);

    let updated = update_csv(
        &table,
        &mastery_v2,
        &mastery_map,
        &unit_progress,
        &items,
        &quizzes,
        &tests,
    )
    .unwrap();

    let rows = csv_to_rows(&updated).unwrap();
    assert_eq!(rows.len(), 6);
    // Course row took the overall mastery.
    assert_eq!(rows[1][COL_PERCENTAGE], "88");
    assert_eq!(rows[1][COL_POINTS_EARNED], "1200");
    // Unit row took its rollup.
    assert_eq!(rows[2][COL_PERCENTAGE], "40");
    assert_eq!(rows[2][COL_POINTS_EARNED], "10");
    // Item one took the mastery-map status and the best score.
    assert_eq!(rows[4][COL_STATUS], "mastered");
    assert_eq!(rows[4][COL_COMPLETION_STATUS], "COMPLETE");
    assert_eq!(rows[4][COL_NUM_ATTEMPTED], "5");
    assert_eq!(rows[4][COL_NUM_CORRECT], "3");
    assert_eq!(rows[4][COL_NUM_INCORRECT], "2");
    // Item two, unmatched, stays empty in every progress column.
    for c in [
        COL_STATUS,
        COL_COMPLETION_STATUS,
        COL_NUM_ATTEMPTED,
        COL_NUM_CORRECT,
        COL_NUM_INCORRECT,
    ] {
        assert_eq!(rows[5][c], "");
    }
    // Lesson row gained nothing beyond its creation-time cells.
    assert_eq!(rows[3][COL_COMPLETION_STATUS], "");
}

#[test]
fn decimal_rendering_is_plain() {
    assert_eq!(u64_to_string(0), "0");
    assert_eq!(u64_to_string(7), "7");
    assert_eq!(u64_to_string(1234567890), "1234567890");
    assert_eq!(u64_to_string(u64::MAX), "18446744073709551615");
}

#[test]
fn merging_one_item_record_touches_one_row() {
    let course = extract_course_content(COURSE_DOC).unwrap();
    let records = extract_course(&course).unwrap();
    let table = create_csv(&records);

    // Only one content-item record, aimed at item one; every other
    // collection empty. The overall mastery still lands in the course row,
    // as it does on every run.
    let (_, _, _, items, _, _) = process_json_files(ITEMS_DOC_ONLY_PROGRESS, &[ITEMS_DOC.to_string()], &[])
        .unwrap();
    let zero = khan_academy_extractor::models::MasteryV2 { percentage: 0, points_earned: 0 };
    let updated = update_csv(&table, &zero, &vec![], &vec![], &items, &vec![], &vec![]).unwrap();

    let before = csv_to_rows(&table).unwrap();
    let after = csv_to_rows(&updated).unwrap();
    assert_eq!(after.len(), before.len());
    // The unit, lesson and item-two rows are byte-identical.
    assert_eq!(after[2], before[2]);
    assert_eq!(after[3], before[3]);
    assert_eq!(after[5], before[5]);
    // The course row changed only in the two mastery cells.
    for c in 0..20 {
        if c != COL_PERCENTAGE && c != COL_POINTS_EARNED {
            assert_eq!(after[1][c], before[1][c]);
        }
    }
    // Item one alone gained the four progress cells.
    assert_eq!(after[4][COL_COMPLETION_STATUS], "COMPLETE");
    assert_eq!(after[4][COL_NUM_ATTEMPTED], "5");
    assert_eq!(after[4][COL_NUM_CORRECT], "3");
    assert_eq!(after[4][COL_NUM_INCORRECT], "2");
    for row in [1, 2, 3, 5] {
        for c in [COL_COMPLETION_STATUS, COL_NUM_ATTEMPTED, COL_NUM_CORRECT, COL_NUM_INCORRECT] {
            assert_eq!(after[row][c], "");
        }
    }
}

/// A progress document with empty collections, for runs that only exercise
/// the batch files.
const ITEMS_DOC_ONLY_PROGRESS: &str = r#"{"data": {"user": {"courseProgress": {
  "currentMasteryV2": {"percentage": 0, "pointsEarned": 0},
  "masteryMap": [],
  "unitProgresses": []
}}}}"#;
