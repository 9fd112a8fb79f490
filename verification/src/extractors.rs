//! Extractors: from parsed JSON documents to the pipeline's records.
//!
//! Each function parses one document (or reads one node of it) and either
//! produces records or fails with the error its contract names. The shapes
//! mirror the learning platform's API capture format.

use vstd::prelude::*;
use crate::error::{AppError, ErrModel};
use crate::json_utils::{
    Json, json_of, parse_json_str, get_field, get_str_field, get_arr_field, get_bool_field,
    get_u32_field, opt_str_field, opt_u32_field, json_get, json_get_str, json_get_bool,
    json_get_u32, json_get_opt_str, json_get_opt_u32, take_field, nested_lookup, key_views,
    extract_nested_value,
};
use crate::models::{
    DataStruct, RecordModel, opt_string_view, MasteryV2, MasteryMapItem, UnitProgress,
    ContentItemProgress, BestScore, Content, TopicQuizAttempt, TopicUnitTestAttempt,
    QuizAttemptModel, TestAttemptModel,
};
use crate::decode::{quiz_parent_of, test_parent_of, decode_quiz_parent, decode_test_parent};

verus! {

// ---------------------------------------------------------------------------
// The curriculum tree document.
// ---------------------------------------------------------------------------

/// The course node buried in the curriculum tree document.
pub open spec fn course_content_of(root: Json) -> Option<Json> {
    match get_field(root, "data"@) {
        Some(d) => match get_field(d, "contentRoute"@) {
            Some(cr) => match get_field(cr, "listedPathData"@) {
                Some(lpd) => get_field(lpd, "course"@),
                None => None,
            },
            None => None,
        },
        None => None,
    }
}

/// Parses the curriculum tree document and digs out its course node.
///
/// Fails with `Parse` when the document is not well-formed JSON, and with
/// `MissingField("course")` when any step of the nesting down to the course
/// node is absent.
pub fn extract_course_content(json_content: &str) -> (r: Result<Json, AppError>)
    ensures
        match r {
            Ok(v) => json_of(json_content@) matches Some(root) && course_content_of(root)
                == Some(v),
            Err(e) => match e@ {
                ErrModel::Parse(m) => json_of(json_content@) is None && m == "malformed JSON"@,
                ErrModel::MissingField(m) => m == "course"@ && (json_of(
                    json_content@,
                ) matches Some(root) && course_content_of(root) is None),
                _ => false,
            },
        },
{
    let root = match parse_json_str(json_content) {
        Some(root) => root,
        None => {
            return Err(AppError::Parse("malformed JSON".to_owned()));
        },
    };
    let missing = AppError::MissingField("course".to_owned());
    let d = match take_field(root, "data") {
        Some(v) => v,
        None => {
            return Err(missing);
        },
    };
    let cr = match take_field(d, "contentRoute") {
        Some(v) => v,
        None => {
            return Err(missing);
        },
    };
    let lpd = match take_field(cr, "listedPathData") {
        Some(v) => v,
        None => {
            return Err(missing);
        },
    };
    match take_field(lpd, "course") {
        Some(v) => Ok(v),
        None => Err(missing),
    }
}

// ---------------------------------------------------------------------------
// One flat record out of one curriculum node.
// ---------------------------------------------------------------------------

/// The parent-topic cell of a node: `item["parentTopic"]["id"]` when that
/// is a string, and the empty string otherwise — the cell always carries a
/// value, absence defaulting to empty.
pub open spec fn parent_topic_of(item: Json) -> Option<Seq<char>> {
    match get_field(item, "parentTopic"@) {
        Some(pt) => match get_str_field(pt, "id"@) {
            Some(s) => Some(s@),
            None => Some(Seq::empty()),
        },
        None => Some(Seq::empty()),
    }
}

/// The navigation URL of a node: `relativeUrl`, or `urlWithinCurationNode`
/// when the former is absent.
pub open spec fn rel_url_of(item: Json) -> Option<String> {
    match get_str_field(item, "relativeUrl"@) {
        Some(u) => Some(u),
        None => get_str_field(item, "urlWithinCurationNode"@),
    }
}

/// The record a node with all required fields becomes: display fields from
/// the node, parent columns copied from the parent record, progress columns
/// empty.
pub open spec fn make_record(
    item: Json,
    parent: Option<RecordModel>,
    order: u64,
    id: Seq<char>,
    node_type: Seq<char>,
    title: Seq<char>,
    slug: Seq<char>,
    relative_url: Seq<char>,
) -> RecordModel {
    RecordModel {
        id,
        node_type,
        order,
        title,
        slug,
        relative_url,
        progress_key: opt_string_view(get_str_field(item, "progressKey"@)),
        parent_topic: parent_topic_of(item),
        parent_id: match parent {
            Some(p) => Some(p.id),
            None => None,
        },
        parent_type: match parent {
            Some(p) => Some(p.node_type),
            None => None,
        },
        parent_title: match parent {
            Some(p) => Some(p.title),
            None => None,
        },
        parent_slug: match parent {
            Some(p) => Some(p.slug),
            None => None,
        },
        parent_relative_url: match parent {
            Some(p) => Some(p.relative_url),
            None => None,
        },
        percentage: None,
        points_earned: None,
        status: None,
        completion_status: None,
        num_attempted: None,
        num_correct: None,
        num_incorrect: None,
    }
}

/// What `extract_info` produces for a node: its record, or the name of the
/// first required field that is missing.
pub open spec fn info_of(item: Json, parent: Option<RecordModel>, order: u64) -> Result<
    RecordModel,
    Seq<char>,
> {
    match get_str_field(item, "id"@) {
        None => Err("id"@),
        Some(id) => match get_str_field(item, "__typename"@) {
            None => Err("__typename"@),
            Some(node_type) => match get_str_field(item, "translatedTitle"@) {
                None => Err("translatedTitle"@),
                Some(title) => match get_str_field(item, "slug"@) {
                    None => Err("slug"@),
                    Some(slug) => match rel_url_of(item) {
                        None => Err("relativeUrl or urlWithinCurationNode"@),
                        Some(relative_url) => Ok(
                            make_record(item, parent, order, id@, node_type@, title@, slug@,
                                relative_url@),
                        ),
                    },
                },
            },
        },
    }
}

/// The parent's model, for the contracts.
pub open spec fn parent_view(parent: Option<&DataStruct>) -> Option<RecordModel> {
    match parent {
        Some(p) => Some(p@),
        None => None,
    }
}

/// Builds the flat record for one curriculum node.
///
/// Fails with `MissingField`, naming the field, exactly when `id`,
/// `__typename`, `translatedTitle` or `slug` is absent or not a string, or
/// both URL alternatives are.
pub fn extract_info(item: &Json, parent: Option<&DataStruct>, order: u64) -> (r: Result<
    DataStruct,
    AppError,
>)
    ensures
        match r {
            Ok(d) => info_of(*item, parent_view(parent), order) == Ok::<RecordModel, Seq<char>>(
                d@,
            ),
            Err(e) => e@ matches ErrModel::MissingField(f) && info_of(
                *item,
                parent_view(parent),
                order,
            ) == Err::<RecordModel, Seq<char>>(f),
        },
{
    let id = match json_get_str(item, "id") {
        Some(s) => s.clone(),
        None => {
            return Err(AppError::MissingField("id".to_owned()));
        },
    };
    let node_type = match json_get_str(item, "__typename") {
        Some(s) => s.clone(),
        None => {
            return Err(AppError::MissingField("__typename".to_owned()));
        },
    };
    let title = match json_get_str(item, "translatedTitle") {
        Some(s) => s.clone(),
        None => {
            return Err(AppError::MissingField("translatedTitle".to_owned()));
        },
    };
    let slug = match json_get_str(item, "slug") {
        Some(s) => s.clone(),
        None => {
            return Err(AppError::MissingField("slug".to_owned()));
        },
    };
    let relative_url = match json_get_str(item, "relativeUrl") {
        Some(s) => s.clone(),
        None => match json_get_str(item, "urlWithinCurationNode") {
            Some(s) => s.clone(),
            None => {
                return Err(
                    AppError::MissingField("relativeUrl or urlWithinCurationNode".to_owned()),
                );
            },
        },
    };
    let progress_key = match json_get_str(item, "progressKey") {
        Some(s) => Some(s.clone()),
        None => None,
    };
    let parent_topic = match json_get(item, "parentTopic") {
        Some(pt) => match json_get_str(pt, "id") {
            Some(s) => Some(s.clone()),
            None => Some(String::new()),
        },
        None => Some(String::new()),
    };
    Ok(
        DataStruct {
            id,
            node_type,
            order,
            title,
            slug,
            relative_url,
            progress_key,
            parent_topic,
            parent_id: match parent {
                Some(p) => Some(p.id.clone()),
                None => None,
            },
            parent_type: match parent {
                Some(p) => Some(p.node_type.clone()),
                None => None,
            },
            parent_title: match parent {
                Some(p) => Some(p.title.clone()),
                None => None,
            },
            parent_slug: match parent {
                Some(p) => Some(p.slug.clone()),
                None => None,
            },
            parent_relative_url: match parent {
                Some(p) => Some(p.relative_url.clone()),
                None => None,
            },
            percentage: None,
            points_earned: None,
            status: None,
            completion_status: None,
            num_attempted: None,
            num_correct: None,
            num_incorrect: None,
        },
    )
}

// ---------------------------------------------------------------------------
// The course progress document: overall mastery, mastery map, unit rollups.
// ---------------------------------------------------------------------------

/// The key path from the progress document's root down to `last`.
pub open spec fn course_progress_path(last: Seq<char>) -> Seq<Seq<char>> {
    seq!["data"@, "user"@, "courseProgress"@, last]
}

/// A mastery aggregate read out of a JSON node: both counters must be
/// unsigned numbers that fit 32 bits.
pub open spec fn mastery_v2_of(j: Json) -> Option<MasteryV2> {
    match (get_u32_field(j, "percentage"@), get_u32_field(j, "pointsEarned"@)) {
        (Some(p), Some(e)) => Some(MasteryV2 { percentage: p, points_earned: e }),
        _ => None,
    }
}

/// Reads a mastery aggregate from a JSON node.
fn read_mastery_v2(j: &Json) -> (r: Option<MasteryV2>)
    ensures
        r == mastery_v2_of(*j),
{
    match (json_get_u32(j, "percentage"), json_get_u32(j, "pointsEarned")) {
        (Some(p), Some(e)) => Some(MasteryV2 { percentage: p, points_earned: e }),
        _ => None,
    }
}

/// Parses the course progress document and reads the overall mastery.
///
/// Fails with `Parse("malformed JSON")` when the document does not parse,
/// `MissingField` naming the key when the path to `currentMasteryV2` breaks
/// off, and `Parse("currentMasteryV2")` when that node does not hold the two
/// counters.
/// Everything `extract_mastery_v2` promises of its result, over the
/// document's characters.
pub open spec fn mastery_v2_result(s: Seq<char>, r: Result<MasteryV2, AppError>) -> bool {
    match r {
        Ok(m) => json_of(s) matches Some(root) && nested_lookup(
            root,
            course_progress_path("currentMasteryV2"@),
            0,
        ) matches Ok(node) && mastery_v2_of(node) == Some(m),
        Err(e) => match e@ {
            ErrModel::Parse(m) => (json_of(s) is None && m == "malformed JSON"@)
                || (m == "currentMasteryV2"@ && (json_of(s) matches Some(root)
                && (nested_lookup(root, course_progress_path("currentMasteryV2"@), 0) matches
                Ok(node) && mastery_v2_of(node) is None))),
            ErrModel::MissingField(f) => json_of(s) matches Some(root)
                && nested_lookup(root, course_progress_path("currentMasteryV2"@), 0)
                == Err::<Json, Seq<char>>(f),
            _ => false,
        },
    }
}

pub fn extract_mastery_v2(json_content: &str) -> (r: Result<MasteryV2, AppError>)
    ensures
        mastery_v2_result(json_content@, r),
{
    let keys: Vec<&str> = vec!["data", "user", "courseProgress", "currentMasteryV2"];
    proof {
        assert(key_views(keys@) =~= course_progress_path("currentMasteryV2"@));
    }
    let node = match extract_nested_value(json_content, keys.as_slice()) {
        Ok(v) => v,
        Err(e) => {
            return Err(e);
        },
    };
    match read_mastery_v2(&node) {
        Some(m) => Ok(m),
        None => Err(AppError::Parse("currentMasteryV2".to_owned())),
    }
}

/// One mastery-map entry read out of a JSON node.
pub open spec fn mastery_map_item_of(j: Json) -> Option<MasteryMapItem> {
    match (get_str_field(j, "progressKey"@), get_str_field(j, "status"@)) {
        (Some(pk), Some(st)) => Some(MasteryMapItem { progress_key: pk, status: st }),
        _ => None,
    }
}

/// The whole mastery map from position `i` on: every entry must convert.
pub open spec fn mastery_map_of(items: Seq<Json>, i: int) -> Option<Seq<MasteryMapItem>>
    decreases items.len() - i,
{
    if i < 0 || i >= items.len() {
        Some(Seq::empty())
    } else {
        match (mastery_map_item_of(items[i]), mastery_map_of(items, i + 1)) {
            (Some(x), Some(rest)) => Some(seq![x] + rest),
            _ => None,
        }
    }
}

/// Parses the course progress document and reads the mastery map.
///
/// Fails with `Parse("malformed JSON")` when the document does not parse,
/// `MissingField` naming the key when the path breaks off or the node is not
/// an array, and `Parse("masteryMap")` when an entry is not shaped as a
/// mastery-map item.
/// Everything `extract_mastery_map` promises of its result, over the
/// document's characters.
pub open spec fn mastery_map_result(s: Seq<char>, r: Result<Vec<MasteryMapItem>, AppError>) -> bool {
    match r {
        Ok(v) => json_of(s) matches Some(root) && nested_lookup(
            root,
            course_progress_path("masteryMap"@),
            0,
        ) matches Ok(node) && node matches Json::Arr(items) && mastery_map_of(items@, 0)
            == Some(v@),
        Err(e) => match e@ {
            ErrModel::Parse(m) => (json_of(s) is None && m == "malformed JSON"@)
                || (m == "masteryMap"@ && (json_of(s) matches Some(root)
                && (nested_lookup(root, course_progress_path("masteryMap"@), 0) matches Ok(node)
                && (node matches Json::Arr(items) && mastery_map_of(items@, 0) is None)))),
            ErrModel::MissingField(f) => json_of(s) matches Some(root) && (
            nested_lookup(root, course_progress_path("masteryMap"@), 0) == Err::<
                Json,
                Seq<char>,
            >(f) || (f == "masteryMap"@ && (nested_lookup(
                root,
                course_progress_path("masteryMap"@),
                0,
            ) matches Ok(node) && !(node matches Json::Arr(_))))),
            _ => false,
        },
    }
}

pub fn extract_mastery_map(json_content: &str) -> (r: Result<Vec<MasteryMapItem>, AppError>)
    ensures
        mastery_map_result(json_content@, r),
{
    let keys: Vec<&str> = vec!["data", "user", "courseProgress", "masteryMap"];
    proof {
        assert(key_views(keys@) =~= course_progress_path("masteryMap"@));
    }
    let node = match extract_nested_value(json_content, keys.as_slice()) {
        Ok(v) => v,
        Err(e) => {
            return Err(e);
        },
    };
    let items: Vec<Json> = match node {
        Json::Arr(items) => items,
        _ => {
            return Err(AppError::MissingField("masteryMap".to_owned()));
        },
    };
    let mut out: Vec<MasteryMapItem> = Vec::new();
    let mut i: usize = 0;
    while i < items.len()
        invariant
            i <= items.len(),
            (json_of(json_content@) matches Some(root) && nested_lookup(
                root,
                course_progress_path("masteryMap"@),
                0,
            ) == Ok::<Json, Seq<char>>(Json::Arr(items))),
            match mastery_map_of(items@, i as int) {
                Some(rest) => mastery_map_of(items@, 0) == Some(out@ + rest),
                None => mastery_map_of(items@, 0) is None,
            },
        decreases items.len() - i,
    {
        let item = &items[i];
        let x = match (json_get_str(item, "progressKey"), json_get_str(item, "status")) {
            (Some(pk), Some(st)) => MasteryMapItem {
                progress_key: pk.clone(),
                status: st.clone(),
            },
            _ => {
                return Err(AppError::Parse("masteryMap".to_owned()));
            },
        };
        proof {
            assert(mastery_map_item_of(items@[i as int]) == Some(x));
            match mastery_map_of(items@, i as int + 1) {
                Some(rest) => {
                    assert(out@ + (seq![x] + rest) =~= (out@ + seq![x]) + rest);
                    assert(out@.push(x) =~= out@ + seq![x]);
                },
                None => {},
            }
        }
        out.push(x);
        i = i + 1;
    }
    proof {
        assert(out@ + Seq::<MasteryMapItem>::empty() =~= out@);
    }
    Ok(out)
}

/// One unit rollup read out of a JSON node.
pub open spec fn unit_progress_of(j: Json) -> Option<UnitProgress> {
    match (get_str_field(j, "unitId"@), get_field(j, "currentMasteryV2"@)) {
        (Some(uid), Some(m)) => match mastery_v2_of(m) {
            Some(mv) => Some(UnitProgress { current_mastery_v2: mv, unit_id: uid }),
            None => None,
        },
        _ => None,
    }
}

/// All unit rollups from position `i` on: every entry must convert.
pub open spec fn unit_progresses_of(items: Seq<Json>, i: int) -> Option<Seq<UnitProgress>>
    decreases items.len() - i,
{
    if i < 0 || i >= items.len() {
        Some(Seq::empty())
    } else {
        match (unit_progress_of(items[i]), unit_progresses_of(items, i + 1)) {
            (Some(x), Some(rest)) => Some(seq![x] + rest),
            _ => None,
        }
    }
}

/// Parses the course progress document and reads the per-unit rollups.
///
/// Fails like `extract_mastery_map`, with `unitProgresses` in place of
/// `masteryMap`.
/// Everything `extract_unit_progresses` promises of its result, over the
/// document's characters.
pub open spec fn unit_progresses_result(s: Seq<char>, r: Result<Vec<UnitProgress>, AppError>) -> bool {
    match r {
        Ok(v) => json_of(s) matches Some(root) && nested_lookup(
            root,
            course_progress_path("unitProgresses"@),
            0,
        ) matches Ok(node) && node matches Json::Arr(items) && unit_progresses_of(items@, 0)
            == Some(v@),
        Err(e) => match e@ {
            ErrModel::Parse(m) => (json_of(s) is None && m == "malformed JSON"@)
                || (m == "unitProgresses"@ && (json_of(s) matches Some(root)
                && (nested_lookup(root, course_progress_path("unitProgresses"@), 0) matches Ok(
                node,
            ) && (node matches Json::Arr(items) && unit_progresses_of(items@, 0) is None)))),
            ErrModel::MissingField(f) => json_of(s) matches Some(root) && (
            nested_lookup(root, course_progress_path("unitProgresses"@), 0) == Err::<
                Json,
                Seq<char>,
            >(f) || (f == "unitProgresses"@ && (nested_lookup(
                root,
                course_progress_path("unitProgresses"@),
                0,
            ) matches Ok(node) && !(node matches Json::Arr(_))))),
            _ => false,
        },
    }
}

pub fn extract_unit_progresses(json_content: &str) -> (r: Result<Vec<UnitProgress>, AppError>)
    ensures
        unit_progresses_result(json_content@, r),
{
    let keys: Vec<&str> = vec!["data", "user", "courseProgress", "unitProgresses"];
    proof {
        assert(key_views(keys@) =~= course_progress_path("unitProgresses"@));
    }
    let node = match extract_nested_value(json_content, keys.as_slice()) {
        Ok(v) => v,
        Err(e) => {
            return Err(e);
        },
    };
    let items: Vec<Json> = match node {
        Json::Arr(items) => items,
        _ => {
            return Err(AppError::MissingField("unitProgresses".to_owned()));
        },
    };
    let mut out: Vec<UnitProgress> = Vec::new();
    let mut i: usize = 0;
    while i < items.len()
        invariant
            i <= items.len(),
            (json_of(json_content@) matches Some(root) && nested_lookup(
                root,
                course_progress_path("unitProgresses"@),
                0,
            ) == Ok::<Json, Seq<char>>(Json::Arr(items))),
            match unit_progresses_of(items@, i as int) {
                Some(rest) => unit_progresses_of(items@, 0) == Some(out@ + rest),
                None => unit_progresses_of(items@, 0) is None,
            },
        decreases items.len() - i,
    {
        let item = &items[i];
        let x = match json_get_str(item, "unitId") {
            Some(uid) => match json_get(item, "currentMasteryV2") {
                Some(m) => match read_mastery_v2(m) {
                    Some(mv) => UnitProgress { current_mastery_v2: mv, unit_id: uid.clone() },
                    None => {
                        return Err(AppError::Parse("unitProgresses".to_owned()));
                    },
                },
                None => {
                    return Err(AppError::Parse("unitProgresses".to_owned()));
                },
            },
            None => {
                return Err(AppError::Parse("unitProgresses".to_owned()));
            },
        };
        proof {
            assert(unit_progress_of(items@[i as int]) == Some(x));
            match unit_progresses_of(items@, i as int + 1) {
                Some(rest) => {
                    assert(out@ + (seq![x] + rest) =~= (out@ + seq![x]) + rest);
                    assert(out@.push(x) =~= out@ + seq![x]);
                },
                None => {},
            }
        }
        out.push(x);
        i = i + 1;
    }
    proof {
        assert(out@ + Seq::<UnitProgress>::empty() =~= out@);
    }
    Ok(out)
}

// ---------------------------------------------------------------------------
// Content-item progress batches.
// ---------------------------------------------------------------------------

/// The key path from a batch document's root down to `last`.
pub open spec fn user_path(last: Seq<char>) -> Seq<Seq<char>> {
    seq!["data"@, "user"@, last]
}

/// A best score read out of a JSON node: the node must be an object, and
/// each counter, when present and not `null`, an unsigned 32-bit number.
pub open spec fn best_score_of(j: Json) -> Option<BestScore> {
    match j {
        Json::Obj(_) => match (
            opt_str_field(j, "completedDate"@),
            opt_u32_field(j, "numAttempted"@),
            opt_u32_field(j, "numCorrect"@),
        ) {
            (Ok(cd), Ok(na), Ok(nc)) => Some(
                BestScore { completed_date: cd, num_attempted: na, num_correct: nc },
            ),
            _ => None,
        },
        _ => None,
    }
}

/// A content reference read out of a JSON node.
pub open spec fn content_of(j: Json) -> Option<Content> {
    match (
        get_str_field(j, "__typename"@),
        get_str_field(j, "id"@),
        get_str_field(j, "progressKey"@),
    ) {
        (Some(t), Some(i), Some(p)) => Some(Content { node_type: t, id: i, progress_key: p }),
        _ => None,
    }
}

/// One content-item progress record read out of a JSON node; `bestScore`
/// may be absent or `null`.
pub open spec fn item_progress_of(j: Json) -> Option<ContentItemProgress> {
    match (
        get_str_field(j, "__typename"@),
        get_str_field(j, "completionStatus"@),
        get_field(j, "content"@),
    ) {
        (Some(t), Some(cs), Some(c)) => match content_of(c) {
            Some(content) => match get_field(j, "bestScore"@) {
                None => Some(
                    ContentItemProgress {
                        node_type: t,
                        best_score: None,
                        completion_status: cs,
                        content,
                    },
                ),
                Some(Json::Null) => Some(
                    ContentItemProgress {
                        node_type: t,
                        best_score: None,
                        completion_status: cs,
                        content,
                    },
                ),
                Some(b) => match best_score_of(b) {
                    Some(bs) => Some(
                        ContentItemProgress {
                            node_type: t,
                            best_score: Some(bs),
                            completion_status: cs,
                            content,
                        },
                    ),
                    None => None,
                },
            },
            None => None,
        },
        _ => None,
    }
}

/// All content-item progress records from position `i` on.
pub open spec fn item_progresses_of(items: Seq<Json>, i: int) -> Option<Seq<ContentItemProgress>>
    decreases items.len() - i,
{
    if i < 0 || i >= items.len() {
        Some(Seq::empty())
    } else {
        match (item_progress_of(items[i]), item_progresses_of(items, i + 1)) {
            (Some(x), Some(rest)) => Some(seq![x] + rest),
            _ => None,
        }
    }
}

/// Reads a best score from a JSON node.
fn read_best_score(j: &Json) -> (r: Option<BestScore>)
    ensures
        r == best_score_of(*j),
{
    match j {
        Json::Obj(_) => {},
        _ => {
            return None;
        },
    }
    let cd = match json_get_opt_str(j, "completedDate") {
        Ok(v) => v,
        Err(_) => {
            return None;
        },
    };
    let na = match json_get_opt_u32(j, "numAttempted") {
        Ok(v) => v,
        Err(_) => {
            return None;
        },
    };
    let nc = match json_get_opt_u32(j, "numCorrect") {
        Ok(v) => v,
        Err(_) => {
            return None;
        },
    };
    Some(BestScore { completed_date: cd, num_attempted: na, num_correct: nc })
}

/// Reads a content reference from a JSON node.
fn read_content(j: &Json) -> (r: Option<Content>)
    ensures
        r == content_of(*j),
{
    match (json_get_str(j, "__typename"), json_get_str(j, "id"), json_get_str(j, "progressKey")) {
        (Some(t), Some(i), Some(p)) => Some(
            Content { node_type: t.clone(), id: i.clone(), progress_key: p.clone() },
        ),
        _ => None,
    }
}

/// Reads one content-item progress record from a JSON node.
fn read_item_progress(j: &Json) -> (r: Option<ContentItemProgress>)
    ensures
        r == item_progress_of(*j),
{
    let t = match json_get_str(j, "__typename") {
        Some(s) => s.clone(),
        None => {
            return None;
        },
    };
    let cs = match json_get_str(j, "completionStatus") {
        Some(s) => s.clone(),
        None => {
            return None;
        },
    };
    let c = match json_get(j, "content") {
        Some(c) => c,
        None => {
            return None;
        },
    };
    let content = match read_content(c) {
        Some(content) => content,
        None => {
            return None;
        },
    };
    let best_score = match json_get(j, "bestScore") {
        None => None,
        Some(b) => match b {
            Json::Null => None,
            _ => match read_best_score(b) {
                Some(bs) => Some(bs),
                None => {
                    return None;
                },
            },
        },
    };
    Some(ContentItemProgress { node_type: t, best_score, completion_status: cs, content })
}

/// Parses one progress batch and reads its content-item records.
///
/// Fails with `Parse("malformed JSON")` when the document does not parse,
/// `MissingField` naming the key when the path breaks off or the node is not
/// an array, and `Parse("contentItemProgresses")` when a record is not
/// shaped as a content-item progress.
/// Everything `extract_item_progresses` promises of its result, over the
/// document's characters.
pub open spec fn item_progresses_result(s: Seq<char>, r: Result<Vec<ContentItemProgress>, AppError>) -> bool {
    match r {
        Ok(v) => json_of(s) matches Some(root) && nested_lookup(
            root,
            user_path("contentItemProgresses"@),
            0,
        ) matches Ok(node) && node matches Json::Arr(items) && item_progresses_of(items@, 0)
            == Some(v@),
        Err(e) => match e@ {
            ErrModel::Parse(m) => (json_of(s) is None && m == "malformed JSON"@)
                || (m == "contentItemProgresses"@ && (json_of(s) matches Some(root)
                && (nested_lookup(root, user_path("contentItemProgresses"@), 0) matches Ok(node)
                && (node matches Json::Arr(items) && item_progresses_of(items@, 0) is None)))),
            ErrModel::MissingField(f) => json_of(s) matches Some(root) && (
            nested_lookup(root, user_path("contentItemProgresses"@), 0) == Err::<
                Json,
                Seq<char>,
            >(f) || (f == "contentItemProgresses"@ && (nested_lookup(
                root,
                user_path("contentItemProgresses"@),
                0,
            ) matches Ok(node) && !(node matches Json::Arr(_))))),
            _ => false,
        },
    }
}

pub fn extract_item_progresses(json_content: &str) -> (r: Result<Vec<ContentItemProgress>, AppError>)
    ensures
        item_progresses_result(json_content@, r),
{
    let keys: Vec<&str> = vec!["data", "user", "contentItemProgresses"];
    proof {
        assert(key_views(keys@) =~= user_path("contentItemProgresses"@));
    }
    let node = match extract_nested_value(json_content, keys.as_slice()) {
        Ok(v) => v,
        Err(e) => {
            return Err(e);
        },
    };
    let items: Vec<Json> = match node {
        Json::Arr(items) => items,
        _ => {
            return Err(AppError::MissingField("contentItemProgresses".to_owned()));
        },
    };
    let mut out: Vec<ContentItemProgress> = Vec::new();
    let mut i: usize = 0;
    while i < items.len()
        invariant
            i <= items.len(),
            (json_of(json_content@) matches Some(root) && nested_lookup(
                root,
                user_path("contentItemProgresses"@),
                0,
            ) == Ok::<Json, Seq<char>>(Json::Arr(items))),
            match item_progresses_of(items@, i as int) {
                Some(rest) => item_progresses_of(items@, 0) == Some(out@ + rest),
                None => item_progresses_of(items@, 0) is None,
            },
        decreases items.len() - i,
    {
        let x = match read_item_progress(&items[i]) {
            Some(x) => x,
            None => {
                return Err(AppError::Parse("contentItemProgresses".to_owned()));
            },
        };
        proof {
            match item_progresses_of(items@, i as int + 1) {
                Some(rest) => {
                    assert(out@ + (seq![x] + rest) =~= (out@ + seq![x]) + rest);
                    assert(out@.push(x) =~= out@ + seq![x]);
                },
                None => {},
            }
        }
        out.push(x);
        i = i + 1;
    }
    proof {
        assert(out@ + Seq::<ContentItemProgress>::empty() =~= out@);
    }
    Ok(out)
}

// ---------------------------------------------------------------------------
// Quiz and unit-test attempt batches.
// ---------------------------------------------------------------------------

/// The attempt list under `/data/user/<name>` when every step of that path
/// is there and the last is an array.
pub open spec fn attempts_array_of(root: Json, name: Seq<char>) -> Option<Seq<Json>> {
    match get_field(root, "data"@) {
        Some(d) => match get_field(d, "user"@) {
            Some(u) => get_arr_field(u, name),
            None => None,
        },
        None => None,
    }
}

/// One quiz attempt read out of a JSON node, its parent id decoded from
/// `positionKey`.
pub open spec fn quiz_attempt_of(j: Json) -> Result<QuizAttemptModel, ErrModel> {
    match (
        get_str_field(j, "__typename"@),
        get_bool_field(j, "isCompleted"@),
        get_u32_field(j, "numAttempted"@),
        get_u32_field(j, "numCorrect"@),
        get_str_field(j, "positionKey"@),
    ) {
        (Some(tn), Some(ic), Some(na), Some(nc), Some(pk)) => match quiz_parent_of(pk@) {
            Ok(pid) => Ok(
                QuizAttemptModel {
                    node_type: tn@,
                    is_completed: ic,
                    num_attempted: na,
                    num_correct: nc,
                    position_key: pk@,
                    parent_id: pid,
                },
            ),
            Err(e) => Err(e),
        },
        _ => Err(ErrModel::Parse("latestQuizAttempts"@)),
    }
}

/// All quiz attempts from position `i` on: the first failure wins.
pub open spec fn quiz_attempts_of(items: Seq<Json>, i: int) -> Result<
    Seq<QuizAttemptModel>,
    ErrModel,
>
    decreases items.len() - i,
{
    if i < 0 || i >= items.len() {
        Ok(Seq::empty())
    } else {
        match quiz_attempt_of(items[i]) {
            Err(e) => Err(e),
            Ok(x) => match quiz_attempts_of(items, i + 1) {
                Ok(rest) => Ok(seq![x] + rest),
                Err(e) => Err(e),
            },
        }
    }
}

/// The views of a list of quiz attempts.
pub open spec fn quiz_views(s: Seq<TopicQuizAttempt>) -> Seq<QuizAttemptModel> {
    s.map_values(|a: TopicQuizAttempt| a@)
}

/// Parses one attempts batch and reads its quiz attempts, decoding each
/// `positionKey` into the attempt's `parent_id`.
///
/// A batch without the `/data/user/latestQuizAttempts` array yields no
/// attempts rather than failing. A malformed document fails with `Parse`;
/// a misshapen attempt with `Parse("latestQuizAttempts")`; a `positionKey`
/// that does not decode with `Decode`.
/// Everything `extract_quiz_attempts` promises of its result, over the
/// document's characters.
pub open spec fn quiz_attempts_result(s: Seq<char>, r: Result<Vec<TopicQuizAttempt>, AppError>) -> bool {
    match r {
        Ok(v) => (json_of(s) matches Some(root) && match attempts_array_of(
            root,
            "latestQuizAttempts"@,
        ) {
            Some(items) => quiz_attempts_of(items, 0) == Ok::<Seq<QuizAttemptModel>, ErrModel>(
                quiz_views(v@),
            ),
            None => v@.len() == 0,
        }),
        Err(e) => (json_of(s) is None && (e@ matches ErrModel::Parse(m) && m
            == "malformed JSON"@)) || (json_of(s) matches Some(root) && (
        attempts_array_of(root, "latestQuizAttempts"@) matches Some(items) && quiz_attempts_of(
            items,
            0,
        ) == Err::<Seq<QuizAttemptModel>, ErrModel>(e@))),
    }
}

pub fn extract_quiz_attempts(json_content: &str) -> (r: Result<Vec<TopicQuizAttempt>, AppError>)
    ensures
        quiz_attempts_result(json_content@, r),
{
    let root = match parse_json_str(json_content) {
        Some(root) => root,
        None => {
            return Err(AppError::Parse("malformed JSON".to_owned()));
        },
    };
    let d = match take_field(root, "data") {
        Some(v) => v,
        None => {
            return Ok(Vec::new());
        },
    };
    let u = match take_field(d, "user") {
        Some(v) => v,
        None => {
            return Ok(Vec::new());
        },
    };
    let arr = match take_field(u, "latestQuizAttempts") {
        Some(v) => v,
        None => {
            return Ok(Vec::new());
        },
    };
    let items: Vec<Json> = match arr {
        Json::Arr(items) => items,
        _ => {
            return Ok(Vec::new());
        },
    };
    let mut out: Vec<TopicQuizAttempt> = Vec::new();
    let mut i: usize = 0;
    while i < items.len()
        invariant
            i <= items.len(),
            (json_of(json_content@) matches Some(root) && attempts_array_of(
                root,
                "latestQuizAttempts"@,
            ) == Some(items@)),
            match quiz_attempts_of(items@, i as int) {
                Ok(rest) => quiz_attempts_of(items@, 0) == Ok::<Seq<QuizAttemptModel>, ErrModel>(
                    quiz_views(out@) + rest,
                ),
                Err(e) => quiz_attempts_of(items@, 0) == Err::<Seq<QuizAttemptModel>, ErrModel>(e),
            },
        decreases items.len() - i,
    {
        let item = &items[i];
        let tn = match json_get_str(item, "__typename") {
            Some(s) => s.clone(),
            None => {
                return Err(AppError::Parse("latestQuizAttempts".to_owned()));
            },
        };
        let ic = match json_get_bool(item, "isCompleted") {
            Some(b) => b,
            None => {
                return Err(AppError::Parse("latestQuizAttempts".to_owned()));
            },
        };
        let na = match json_get_u32(item, "numAttempted") {
            Some(v) => v,
            None => {
                return Err(AppError::Parse("latestQuizAttempts".to_owned()));
            },
        };
        let nc = match json_get_u32(item, "numCorrect") {
            Some(v) => v,
            None => {
                return Err(AppError::Parse("latestQuizAttempts".to_owned()));
            },
        };
        let pk = match json_get_str(item, "positionKey") {
            Some(s) => s.clone(),
            None => {
                return Err(AppError::Parse("latestQuizAttempts".to_owned()));
            },
        };
        let pid = match decode_quiz_parent(pk.as_str()) {
            Ok(p) => p,
            Err(e) => {
                return Err(e);
            },
        };
        let a = TopicQuizAttempt {
            node_type: tn,
            is_completed: ic,
            num_attempted: na,
            num_correct: nc,
            position_key: pk,
            parent_id: pid,
        };
        proof {
            assert(quiz_attempt_of(items@[i as int]) == Ok::<QuizAttemptModel, ErrModel>(a@));
            match quiz_attempts_of(items@, i as int + 1) {
                Ok(rest) => {
                    assert(quiz_views(out@.push(a)) =~= quiz_views(out@) + seq![a@]);
                    assert(quiz_views(out@) + (seq![a@] + rest) =~= (quiz_views(out@) + seq![a@])
                        + rest);
                },
                Err(_) => {},
            }
        }
        out.push(a);
        i = i + 1;
    }
    proof {
        assert(quiz_views(out@) + Seq::<QuizAttemptModel>::empty() =~= quiz_views(out@));
    }
    Ok(out)
}

/// One unit-test attempt read out of a JSON node, its parent id decoded
/// from `id`.
pub open spec fn test_attempt_of(j: Json) -> Result<TestAttemptModel, ErrModel> {
    match (
        get_str_field(j, "__typename"@),
        get_str_field(j, "id"@),
        get_bool_field(j, "isCompleted"@),
        get_u32_field(j, "numAttempted"@),
        get_u32_field(j, "numCorrect"@),
    ) {
        (Some(tn), Some(id), Some(ic), Some(na), Some(nc)) => match test_parent_of(id@) {
            Ok(pid) => Ok(
                TestAttemptModel {
                    node_type: tn@,
                    id: id@,
                    is_completed: ic,
                    num_attempted: na,
                    num_correct: nc,
                    parent_id: pid,
                },
            ),
            Err(e) => Err(e),
        },
        _ => Err(ErrModel::Parse("latestUnitTestAttempts"@)),
    }
}

/// All unit-test attempts from position `i` on: the first failure wins.
pub open spec fn test_attempts_of(items: Seq<Json>, i: int) -> Result<
    Seq<TestAttemptModel>,
    ErrModel,
>
    decreases items.len() - i,
{
    if i < 0 || i >= items.len() {
        Ok(Seq::empty())
    } else {
        match test_attempt_of(items[i]) {
            Err(e) => Err(e),
            Ok(x) => match test_attempts_of(items, i + 1) {
                Ok(rest) => Ok(seq![x] + rest),
                Err(e) => Err(e),
            },
        }
    }
}

/// The views of a list of unit-test attempts.
pub open spec fn test_views(s: Seq<TopicUnitTestAttempt>) -> Seq<TestAttemptModel> {
    s.map_values(|a: TopicUnitTestAttempt| a@)
}

/// Parses one attempts batch and reads its unit-test attempts, decoding
/// each `id` into the attempt's `parent_id`.
///
/// Behaves as `extract_quiz_attempts` does, over
/// `/data/user/latestUnitTestAttempts`.
/// Everything `extract_unit_test_attempts` promises of its result, over the
/// document's characters.
pub open spec fn test_attempts_result(s: Seq<char>, r: Result<Vec<TopicUnitTestAttempt>, AppError>) -> bool {
    match r {
        Ok(v) => (json_of(s) matches Some(root) && match attempts_array_of(
            root,
            "latestUnitTestAttempts"@,
        ) {
            Some(items) => test_attempts_of(items, 0) == Ok::<Seq<TestAttemptModel>, ErrModel>(
                test_views(v@),
            ),
            None => v@.len() == 0,
        }),
        Err(e) => (json_of(s) is None && (e@ matches ErrModel::Parse(m) && m
            == "malformed JSON"@)) || (json_of(s) matches Some(root) && (
        attempts_array_of(root, "latestUnitTestAttempts"@) matches Some(items)
            && test_attempts_of(items, 0) == Err::<Seq<TestAttemptModel>, ErrModel>(e@))),
    }
}

pub fn extract_unit_test_attempts(json_content: &str) -> (r: Result<
    Vec<TopicUnitTestAttempt>,
    AppError,
>)
    ensures
        test_attempts_result(json_content@, r),
{
    let root = match parse_json_str(json_content) {
        Some(root) => root,
        None => {
            return Err(AppError::Parse("malformed JSON".to_owned()));
        },
    };
    let d = match take_field(root, "data") {
        Some(v) => v,
        None => {
            return Ok(Vec::new());
        },
    };
    let u = match take_field(d, "user") {
        Some(v) => v,
        None => {
            return Ok(Vec::new());
        },
    };
    let arr = match take_field(u, "latestUnitTestAttempts") {
        Some(v) => v,
        None => {
            return Ok(Vec::new());
        },
    };
    let items: Vec<Json> = match arr {
        Json::Arr(items) => items,
        _ => {
            return Ok(Vec::new());
        },
    };
    let mut out: Vec<TopicUnitTestAttempt> = Vec::new();
    let mut i: usize = 0;
    while i < items.len()
        invariant
            i <= items.len(),
            (json_of(json_content@) matches Some(root) && attempts_array_of(
                root,
                "latestUnitTestAttempts"@,
            ) == Some(items@)),
            match test_attempts_of(items@, i as int) {
                Ok(rest) => test_attempts_of(items@, 0) == Ok::<Seq<TestAttemptModel>, ErrModel>(
                    test_views(out@) + rest,
                ),
                Err(e) => test_attempts_of(items@, 0) == Err::<Seq<TestAttemptModel>, ErrModel>(e),
            },
        decreases items.len() - i,
    {
        let item = &items[i];
        let tn = match json_get_str(item, "__typename") {
            Some(s) => s.clone(),
            None => {
                return Err(AppError::Parse("latestUnitTestAttempts".to_owned()));
            },
        };
        let id = match json_get_str(item, "id") {
            Some(s) => s.clone(),
            None => {
                return Err(AppError::Parse("latestUnitTestAttempts".to_owned()));
            },
        };
        let ic = match json_get_bool(item, "isCompleted") {
            Some(b) => b,
            None => {
                return Err(AppError::Parse("latestUnitTestAttempts".to_owned()));
            },
        };
        let na = match json_get_u32(item, "numAttempted") {
            Some(v) => v,
            None => {
                return Err(AppError::Parse("latestUnitTestAttempts".to_owned()));
            },
        };
        let nc = match json_get_u32(item, "numCorrect") {
            Some(v) => v,
            None => {
                return Err(AppError::Parse("latestUnitTestAttempts".to_owned()));
            },
        };
        let pid = match decode_test_parent(id.as_str()) {
            Ok(p) => p,
            Err(e) => {
                return Err(e);
            },
        };
        let a = TopicUnitTestAttempt {
            node_type: tn,
            id,
            is_completed: ic,
            num_attempted: na,
            num_correct: nc,
            parent_id: pid,
        };
        proof {
            assert(test_attempt_of(items@[i as int]) == Ok::<TestAttemptModel, ErrModel>(a@));
            match test_attempts_of(items@, i as int + 1) {
                Ok(rest) => {
                    assert(test_views(out@.push(a)) =~= test_views(out@) + seq![a@]);
                    assert(test_views(out@) + (seq![a@] + rest) =~= (test_views(out@) + seq![a@])
                        + rest);
                },
                Err(_) => {},
            }
        }
        out.push(a);
        i = i + 1;
    }
    proof {
        assert(test_views(out@) + Seq::<TestAttemptModel>::empty() =~= test_views(out@));
    }
    Ok(out)
}

} // verus!
