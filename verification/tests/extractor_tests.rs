use base64::Engine;
use base64::engine::general_purpose::STANDARD;
use khan_academy_extractor::error::AppError;
use khan_academy_extractor::json_utils::{Json, extract_nested_value};
use khan_academy_extractor::extractors::{
    extract_course_content, extract_info, extract_mastery_v2, extract_mastery_map,
    extract_unit_progresses, extract_item_progresses, extract_quiz_attempts,
    extract_unit_test_attempts,
};

fn node(fields: Vec<(&str, Json)>) -> Json {
    Json::Obj(fields.into_iter().map(|(k, v)| (k.to_string(), v)).collect())
}

fn s(text: &str) -> Json {
    Json::Str(text.to_string())
}

#[test]
fn nested_value_walks_the_path() {
    let doc = r#"{"a": {"b": {"c": 7}}}"#;
    assert_eq!(extract_nested_value(doc, &["a", "b", "c"]).unwrap(), Json::UInt(7));
}

#[test]
fn nested_value_names_the_missing_key() {
    let doc = r#"{"a": {"b": {}}}"#;
    match extract_nested_value(doc, &["a", "b", "c"]) {
        Err(AppError::MissingField(f)) => assert_eq!(f, "c"),
        other => panic!("expected a missing field, got {:?}", other),
    }
}

#[test]
fn malformed_json_is_a_parse_error() {
    match extract_nested_value("{not json", &["a"]) {
        Err(AppError::Parse(_)) => {}
        other => panic!("expected a parse error, got {:?}", other),
    }
}

#[test]
fn course_content_is_found() {
    let doc = r#"{"data": {"contentRoute": {"listedPathData": {"course": {"id": "c1"}}}}}"#;
    let course = extract_course_content(doc).unwrap();
    assert_eq!(course, node(vec![("id", s("c1"))]));
}

#[test]
fn course_content_missing_step_names_course() {
    let doc = r#"{"data": {"contentRoute": {}}}"#;
    match extract_course_content(doc) {
        Err(AppError::MissingField(f)) => assert_eq!(f, "course"),
        other => panic!("expected a missing field, got {:?}", other),
    }
}

fn full_node() -> Json {
    node(vec![
        ("id", s("n1")),
        ("__typename", s("ContentItem")),
        ("translatedTitle", s("A title")),
        ("slug", s("a-slug")),
        ("relativeUrl", s("/a/url")),
        ("progressKey", s("pkey")),
        ("parentTopic", node(vec![("id", s("topic-9"))])),
    ])
}

#[test]
fn extract_info_reads_every_field() {
    let d = extract_info(&full_node(), None, 3).unwrap();
    assert_eq!(d.id, "n1");
    assert_eq!(d.node_type, "ContentItem");
    assert_eq!(d.order, 3);
    assert_eq!(d.title, "A title");
    assert_eq!(d.slug, "a-slug");
    assert_eq!(d.relative_url, "/a/url");
    assert_eq!(d.progress_key, Some("pkey".to_string()));
    assert_eq!(d.parent_topic, Some("topic-9".to_string()));
    assert_eq!(d.parent_id, None);
    assert_eq!(d.percentage, None);
    assert_eq!(d.num_incorrect, None);
}

#[test]
fn extract_info_copies_parent_fields() {
    let parent = extract_info(&full_node(), None, 1).unwrap();
    let child_node = node(vec![
        ("id", s("n2")),
        ("__typename", s("Video")),
        ("translatedTitle", s("T2")),
        ("slug", s("s2")),
        ("urlWithinCurationNode", s("/fallback/url")),
    ]);
    let child = extract_info(&child_node, Some(&parent), 2).unwrap();
    assert_eq!(child.relative_url, "/fallback/url");
    assert_eq!(child.parent_id, Some("n1".to_string()));
    assert_eq!(child.parent_type, Some("ContentItem".to_string()));
    assert_eq!(child.parent_title, Some("A title".to_string()));
    assert_eq!(child.parent_slug, Some("a-slug".to_string()));
    assert_eq!(child.parent_relative_url, Some("/a/url".to_string()));
    assert_eq!(child.progress_key, None);
    // An absent parentTopic defaults to the empty string, not to nothing.
    assert_eq!(child.parent_topic, Some(String::new()));
}

#[test]
fn extract_info_names_the_first_missing_field() {
    let n = node(vec![("id", s("n1")), ("__typename", s("X")), ("translatedTitle", s("T"))]);
    match extract_info(&n, None, 1) {
        Err(AppError::MissingField(f)) => assert_eq!(f, "slug"),
        other => panic!("expected a missing field, got {:?}", other),
    }
    let n2 = node(vec![
        ("id", s("n1")),
        ("__typename", s("X")),
        ("translatedTitle", s("T")),
        ("slug", s("s")),
    ]);
    match extract_info(&n2, None, 1) {
        Err(AppError::MissingField(f)) => assert_eq!(f, "relativeUrl or urlWithinCurationNode"),
        other => panic!("expected a missing field, got {:?}", other),
    }
}

const PROGRESS_DOC: &str = r#"{
  "data": {"user": {"courseProgress": {
    "currentMasteryV2": {"percentage": 88, "pointsEarned": 1200},
    "masteryMap": [
      {"progressKey": "pk1", "status": "mastered"},
      {"progressKey": "pk2", "status": "familiar"}
    ],
    "unitProgresses": [
      {"unitId": "u1", "currentMasteryV2": {"percentage": 40, "pointsEarned": 10}}
    ]
  }}}
}"#;

#[test]
fn mastery_v2_is_extracted() {
    let m = extract_mastery_v2(PROGRESS_DOC).unwrap();
    assert_eq!(m.percentage, 88);
    assert_eq!(m.points_earned, 1200);
}

#[test]
fn mastery_v2_wrong_shape_is_a_parse_error() {
    let doc = r#"{"data": {"user": {"courseProgress": {"currentMasteryV2": {"percentage": "x"}}}}}"#;
    match extract_mastery_v2(doc) {
        Err(AppError::Parse(f)) => assert_eq!(f, "currentMasteryV2"),
        other => panic!("expected a parse error, got {:?}", other),
    }
}

#[test]
fn mastery_v2_missing_path_names_the_key() {
    let doc = r#"{"data": {"user": {}}}"#;
    match extract_mastery_v2(doc) {
        Err(AppError::MissingField(f)) => assert_eq!(f, "courseProgress"),
        other => panic!("expected a missing field, got {:?}", other),
    }
}

#[test]
fn mastery_map_is_extracted_in_order() {
    let map = extract_mastery_map(PROGRESS_DOC).unwrap();
    assert_eq!(map.len(), 2);
    assert_eq!(map[0].progress_key, "pk1");
    assert_eq!(map[0].status, "mastered");
    assert_eq!(map[1].progress_key, "pk2");
}

#[test]
fn mastery_map_not_an_array_is_missing() {
    let doc = r#"{"data": {"user": {"courseProgress": {"masteryMap": 5}}}}"#;
    match extract_mastery_map(doc) {
        Err(AppError::MissingField(f)) => assert_eq!(f, "masteryMap"),
        other => panic!("expected a missing field, got {:?}", other),
    }
}

#[test]
fn mastery_map_bad_entry_is_a_parse_error() {
    let doc = r#"{"data": {"user": {"courseProgress": {"masteryMap": [{"progressKey": "p"}]}}}}"#;
    match extract_mastery_map(doc) {
        Err(AppError::Parse(f)) => assert_eq!(f, "masteryMap"),
        other => panic!("expected a parse error, got {:?}", other),
    }
}

#[test]
fn unit_progresses_are_extracted() {
    let ups = extract_unit_progresses(PROGRESS_DOC).unwrap();
    assert_eq!(ups.len(), 1);
    assert_eq!(ups[0].unit_id, "u1");
    assert_eq!(ups[0].current_mastery_v2.percentage, 40);
    assert_eq!(ups[0].current_mastery_v2.points_earned, 10);
}

#[test]
fn item_progresses_read_optional_best_scores() {
    let doc = r#"{"data": {"user": {"contentItemProgresses": [
      {"__typename": "P", "completionStatus": "COMPLETE",
       "content": {"__typename": "C", "id": "i1", "progressKey": "pk1"},
       "bestScore": {"completedDate": null, "numAttempted": 5, "numCorrect": 3}},
      {"__typename": "P", "completionStatus": "UNSTARTED",
       "content": {"__typename": "C", "id": "i2", "progressKey": "pk2"},
       "bestScore": null},
      {"__typename": "P", "completionStatus": "UNSTARTED",
       "content": {"__typename": "C", "id": "i3", "progressKey": "pk3"}}
    ]}}}"#;
    let items = extract_item_progresses(doc).unwrap();
    assert_eq!(items.len(), 3);
    let b = items[0].best_score.as_ref().unwrap();
    assert_eq!(b.num_attempted, Some(5));
    assert_eq!(b.num_correct, Some(3));
    assert_eq!(b.completed_date, None);
    assert_eq!(items[0].content.progress_key, "pk1");
    assert!(items[1].best_score.is_none());
    assert!(items[2].best_score.is_none());
}

#[test]
fn item_progresses_bad_entry_is_a_parse_error() {
    let doc = r#"{"data": {"user": {"contentItemProgresses": [
      {"__typename": "P", "completionStatus": "COMPLETE",
       "content": {"__typename": "C", "id": "i1", "progressKey": "pk1"},
       "bestScore": {"numAttempted": true}}
    ]}}}"#;
    match extract_item_progresses(doc) {
        Err(AppError::Parse(f)) => assert_eq!(f, "contentItemProgresses"),
        other => panic!("expected a parse error, got {:?}", other),
    }
}

#[test]
fn quiz_attempts_decode_their_parent() {
    let token = STANDARD.encode("\u{11}lesson-7\u{c}tail".as_bytes());
    let doc = format!(
        r#"{{"data": {{"user": {{"latestQuizAttempts": [
          {{"__typename": "Q", "isCompleted": true, "numAttempted": 4,
            "numCorrect": 2, "positionKey": "{}"}}
        ]}}}}}}"#,
        token
    );
    let attempts = extract_quiz_attempts(&doc).unwrap();
    assert_eq!(attempts.len(), 1);
    assert_eq!(attempts[0].parent_id, "lesson-7");
    assert!(attempts[0].is_completed);
    assert_eq!(attempts[0].num_attempted, 4);
    assert_eq!(attempts[0].num_correct, 2);
    assert_eq!(attempts[0].position_key, token);
}

#[test]
fn quiz_attempts_absent_list_is_empty() {
    assert_eq!(extract_quiz_attempts(r#"{"data": {}}"#).unwrap().len(), 0);
    assert_eq!(extract_quiz_attempts(r#"{"data": {"user": {"latestQuizAttempts": 3}}}"#).unwrap().len(), 0);
}

#[test]
fn quiz_attempt_with_bad_token_fails() {
    let doc = r#"{"data": {"user": {"latestQuizAttempts": [
      {"__typename": "Q", "isCompleted": true, "numAttempted": 1,
       "numCorrect": 1, "positionKey": "!!!!"}
    ]}}}"#;
    match extract_quiz_attempts(doc) {
        Err(AppError::Decode(_)) => {}
        other => panic!("expected a decode error, got {:?}", other),
    }
}

#[test]
fn unit_test_attempts_decode_their_parent() {
    let token = STANDARD.encode("head:unit-3\u{c}tail".as_bytes());
    let doc = format!(
        r#"{{"data": {{"user": {{"latestUnitTestAttempts": [
          {{"__typename": "T", "id": "{}", "isCompleted": false,
            "numAttempted": 9, "numCorrect": 6}}
        ]}}}}}}"#,
        token
    );
    let attempts = extract_unit_test_attempts(&doc).unwrap();
    assert_eq!(attempts.len(), 1);
    assert_eq!(attempts[0].parent_id, "unit-3");
    assert!(!attempts[0].is_completed);
    assert_eq!(attempts[0].id, token);
}
