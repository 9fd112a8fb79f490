use khan_academy_extractor::error::AppError;
use khan_academy_extractor::extractors::extract_course_content;
use khan_academy_extractor::json_operations::extract_course;
use khan_academy_extractor::csv_utils::create_csv;

pub const COURSE_DOC: &str = r#"{"data": {"contentRoute": {"listedPathData": {"course": {
  "id": "course-1", "__typename": "Course", "translatedTitle": "My Course",
  "slug": "course", "relativeUrl": "/c",
  "unitChildren": [
    {"id": "unit-1", "__typename": "Unit", "translatedTitle": "My Unit",
     "slug": "unit", "relativeUrl": "/u",
     "allOrderedChildren": [
       {"id": "lesson-1", "__typename": "Lesson", "translatedTitle": "My Lesson",
        "slug": "lesson", "relativeUrl": "/l",
        "curatedChildren": [
          {"id": "item-1", "__typename": "Video", "translatedTitle": "Item One",
           "slug": "i1", "relativeUrl": "/i1", "progressKey": "pk1"},
          {"id": "item-2", "__typename": "Exercise", "translatedTitle": "Item Two",
           "slug": "i2", "relativeUrl": "/i2", "progressKey": "pk2"}
        ]}
     ]}
  ]}}}}}"#;

#[test]
fn small_course_flattens_to_five_rows_in_walk_order() {
    let course = extract_course_content(COURSE_DOC).unwrap();
    let records = extract_course(&course).unwrap();
    assert_eq!(records.len(), 5);
    let ids: Vec<&str> = records.iter().map(|r| r.id.as_str()).collect();
    assert_eq!(ids, vec!["course-1", "unit-1", "lesson-1", "item-1", "item-2"]);
    let orders: Vec<u64> = records.iter().map(|r| r.order).collect();
    assert_eq!(orders, vec![1, 1, 1, 1, 2]);
}

#[test]
fn flattened_records_link_to_their_structural_parent() {
    let course = extract_course_content(COURSE_DOC).unwrap();
    let records = extract_course(&course).unwrap();
    assert_eq!(records[0].parent_id, None);
    assert_eq!(records[1].parent_id, Some("course-1".to_string()));
    assert_eq!(records[1].parent_title, Some("My Course".to_string()));
    assert_eq!(records[2].parent_id, Some("unit-1".to_string()));
    assert_eq!(records[2].parent_type, Some("Unit".to_string()));
    assert_eq!(records[3].parent_id, Some("lesson-1".to_string()));
    assert_eq!(records[3].parent_slug, Some("lesson".to_string()));
    assert_eq!(records[4].parent_id, Some("lesson-1".to_string()));
    assert_eq!(records[4].parent_relative_url, Some("/l".to_string()));
}

#[test]
fn create_is_idempotent_byte_for_byte() {
    let course1 = extract_course_content(COURSE_DOC).unwrap();
    let table1 = create_csv(&extract_course(&course1).unwrap());
    let course2 = extract_course_content(COURSE_DOC).unwrap();
    let table2 = create_csv(&extract_course(&course2).unwrap());
    assert_eq!(table1, table2);
}

#[test]
fn non_lesson_children_keep_their_items_unwalked() {
    let doc = r#"{"data": {"contentRoute": {"listedPathData": {"course": {
      "id": "c", "__typename": "Course", "translatedTitle": "C", "slug": "c", "relativeUrl": "/c",
      "unitChildren": [
        {"id": "u", "__typename": "Unit", "translatedTitle": "U", "slug": "u", "relativeUrl": "/u",
         "allOrderedChildren": [
           {"id": "q", "__typename": "TopicQuiz", "translatedTitle": "Q", "slug": "q", "relativeUrl": "/q"}
         ]}
      ]}}}}}"#;
    let course = extract_course_content(doc).unwrap();
    let records = extract_course(&course).unwrap();
    assert_eq!(records.len(), 3);
    assert_eq!(records[2].node_type, "TopicQuiz");
}

#[test]
fn missing_child_array_fails_the_whole_walk() {
    let doc = r#"{"data": {"contentRoute": {"listedPathData": {"course": {
      "id": "c", "__typename": "Course", "translatedTitle": "C", "slug": "c", "relativeUrl": "/c",
      "unitChildren": [
        {"id": "u", "__typename": "Unit", "translatedTitle": "U", "slug": "u", "relativeUrl": "/u"}
      ]}}}}}"#;
    let course = extract_course_content(doc).unwrap();
    match extract_course(&course) {
        Err(AppError::MissingField(f)) => assert_eq!(f, "allOrderedChildren"),
        other => panic!("expected a missing field, got {:?}", other),
    }
}

#[test]
fn missing_units_array_names_unit_children() {
    let doc = r#"{"data": {"contentRoute": {"listedPathData": {"course": {
      "id": "c", "__typename": "Course", "translatedTitle": "C", "slug": "c", "relativeUrl": "/c"
    }}}}}"#;
    let course = extract_course_content(doc).unwrap();
    match extract_course(&course) {
        Err(AppError::MissingField(f)) => assert_eq!(f, "unitChildren"),
        other => panic!("expected a missing field, got {:?}", other),
    }
}

#[test]
fn missing_node_field_fails_the_whole_walk() {
    let doc = r#"{"data": {"contentRoute": {"listedPathData": {"course": {
      "id": "c", "__typename": "Course", "translatedTitle": "C", "slug": "c", "relativeUrl": "/c",
      "unitChildren": [
        {"id": "u", "__typename": "Unit", "slug": "u", "relativeUrl": "/u",
         "allOrderedChildren": []}
      ]}}}}}"#;
    let course = extract_course_content(doc).unwrap();
    match extract_course(&course) {
        Err(AppError::MissingField(f)) => assert_eq!(f, "translatedTitle"),
        other => panic!("expected a missing field, got {:?}", other),
    }
}
