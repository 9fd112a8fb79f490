//! The tree flattener: walks the curriculum document — course, units,
//! lesson-like children, and content items under true lessons — and produces
//! the ordered, parent-linked sequence of flat records.

use vstd::prelude::*;
use crate::error::{AppError, ErrModel};
use crate::json_utils::{Json, get_str_field, get_arr_field, json_get, json_get_str};
use crate::models::{
    DataStruct, RecordModel, records_view, MasteryV2, MasteryMapItem, UnitProgress,
    ContentItemProgress, TopicQuizAttempt, TopicUnitTestAttempt,
};
use crate::extractors::{
    info_of, extract_info, mastery_v2_result, mastery_map_result, unit_progresses_result,
    item_progresses_result, quiz_attempts_result, test_attempts_result, extract_mastery_v2,
    extract_mastery_map, extract_unit_progresses, extract_item_progresses, extract_quiz_attempts,
    extract_unit_test_attempts,
};
use crate::strutil::str_eq_str;

verus! {

/// Whether a node declares itself a true lesson: its `__typename` is the
/// string `Lesson`. Only such nodes have their content items walked.
pub open spec fn is_lesson(j: Json) -> bool {
    match get_str_field(j, "__typename"@) {
        Some(s) => s@ == "Lesson"@,
        None => false,
    }
}

/// Tests whether a node declares itself a true lesson.
pub fn node_is_lesson(j: &Json) -> (r: bool)
    ensures
        r == is_lesson(*j),
{
    match json_get_str(j, "__typename") {
        Some(s) => {
            proof {
                reveal_strlit("Lesson");
            }
            str_eq_str(s.as_str(), "Lesson")
        },
        None => false,
    }
}

/// The rows for the content items of one lesson, from position `k` on: one
/// record per item, in array order, parented to the lesson's record.
pub open spec fn content_rows(contents: Seq<Json>, lesson_rec: RecordModel, k: int) -> Result<
    Seq<RecordModel>,
    Seq<char>,
>
    decreases contents.len() - k,
{
    if k < 0 || k >= contents.len() {
        Ok(Seq::empty())
    } else {
        match info_of(contents[k], Some(lesson_rec), (k + 1) as u64) {
            Err(f) => Err(f),
            Ok(rec) => match content_rows(contents, lesson_rec, k + 1) {
                Ok(rest) => Ok(seq![rec] + rest),
                Err(f) => Err(f),
            },
        }
    }
}

/// The rows for one unit's lesson-like children, from position `j` on: each
/// child's record followed, for true lessons, by its content-item rows.
pub open spec fn lesson_rows(lessons: Seq<Json>, unit_rec: RecordModel, j: int) -> Result<
    Seq<RecordModel>,
    Seq<char>,
>
    decreases lessons.len() - j,
{
    if j < 0 || j >= lessons.len() {
        Ok(Seq::empty())
    } else {
        match info_of(lessons[j], Some(unit_rec), (j + 1) as u64) {
            Err(f) => Err(f),
            Ok(lrec) => {
                let tail = if is_lesson(lessons[j]) {
                    match get_arr_field(lessons[j], "curatedChildren"@) {
                        Some(contents) => content_rows(contents, lrec, 0),
                        None => Err("curatedChildren"@),
                    }
                } else {
                    Ok(Seq::empty())
                };
                match tail {
                    Err(f) => Err(f),
                    Ok(crows) => match lesson_rows(lessons, unit_rec, j + 1) {
                        Ok(rest) => Ok(seq![lrec] + crows + rest),
                        Err(f) => Err(f),
                    },
                }
            },
        }
    }
}

/// The rows for the course's units, from position `i` on: each unit's record
/// followed by the rows of its children; a unit without a child array fails
/// the walk.
pub open spec fn unit_rows(units: Seq<Json>, course_rec: RecordModel, i: int) -> Result<
    Seq<RecordModel>,
    Seq<char>,
>
    decreases units.len() - i,
{
    if i < 0 || i >= units.len() {
        Ok(Seq::empty())
    } else {
        match info_of(units[i], Some(course_rec), (i + 1) as u64) {
            Err(f) => Err(f),
            Ok(urec) => match get_arr_field(units[i], "allOrderedChildren"@) {
                None => Err("allOrderedChildren"@),
                Some(lessons) => match lesson_rows(lessons, urec, 0) {
                    Err(f) => Err(f),
                    Ok(lrows) => match unit_rows(units, course_rec, i + 1) {
                        Ok(rest) => Ok(seq![urec] + lrows + rest),
                        Err(f) => Err(f),
                    },
                },
            },
        }
    }
}

/// The whole flat table of a course document: the course record first, then
/// the pre-order walk of units, lesson-like children and content items; or
/// the name of the first missing field.
pub open spec fn flatten_course(course: Json) -> Result<Seq<RecordModel>, Seq<char>> {
    match info_of(course, None, 1) {
        Err(f) => Err(f),
        Ok(crec) => match get_arr_field(course, "unitChildren"@) {
            None => Err("unitChildren"@),
            Some(units) => match unit_rows(units, crec, 0) {
                Err(f) => Err(f),
                Ok(rows) => Ok(seq![crec] + rows),
            },
        },
    }
}

/// Appends the content-item rows of one lesson to `out`.
fn flatten_contents(contents: &Vec<Json>, lesson_rec: &DataStruct, out: &mut Vec<DataStruct>) -> (r:
    Result<(), AppError>)
    ensures
        match r {
            Ok(u) => (content_rows(contents@, lesson_rec@, 0) matches Ok(rows) && records_view(
                final(out)@,
            ) == records_view(old(out)@) + rows),
            Err(e) => e@ matches ErrModel::MissingField(f) && content_rows(contents@, lesson_rec@, 0)
                == Err::<Seq<RecordModel>, Seq<char>>(f),
        },
{
    let n = contents.len();
    let mut k: usize = 0;
    while k < n
        invariant
            k <= n,
            n == contents@.len(),
            match content_rows(contents@, lesson_rec@, k as int) {
                Ok(rest) => (content_rows(contents@, lesson_rec@, 0) matches Ok(all) && records_view(
                    out@,
                ) + rest == records_view(old(out)@) + all),
                Err(f) => content_rows(contents@, lesson_rec@, 0) == Err::<
                    Seq<RecordModel>,
                    Seq<char>,
                >(f),
            },
        decreases n - k,
    {
        let rec = match extract_info(&contents[k], Some(lesson_rec), (k + 1) as u64) {
            Ok(rec) => rec,
            Err(e) => {
                return Err(e);
            },
        };
        proof {
            assert(records_view(out@.push(rec)) =~= records_view(out@).push(rec@));
            match content_rows(contents@, lesson_rec@, k as int + 1) {
                Ok(rest) => {
                    assert(records_view(out@).push(rec@) + rest =~= records_view(out@) + (
                    seq![rec@] + rest));
                },
                Err(_) => {},
            }
        }
        out.push(rec);
        k = k + 1;
    }
    proof {
        match content_rows(contents@, lesson_rec@, n as int) {
            Ok(rest) => {
                assert(records_view(out@) + rest =~= records_view(out@));
            },
            Err(_) => {},
        }
    }
    Ok(())
}

/// Appends one unit's lesson rows (and their content rows) to `out`.
fn flatten_lessons(lessons: &Vec<Json>, unit_rec: &DataStruct, out: &mut Vec<DataStruct>) -> (r:
    Result<(), AppError>)
    ensures
        match r {
            Ok(u) => (lesson_rows(lessons@, unit_rec@, 0) matches Ok(rows) && records_view(
                final(out)@,
            ) == records_view(old(out)@) + rows),
            Err(e) => e@ matches ErrModel::MissingField(f) && lesson_rows(lessons@, unit_rec@, 0)
                == Err::<Seq<RecordModel>, Seq<char>>(f),
        },
{
    let n = lessons.len();
    let mut j: usize = 0;
    while j < n
        invariant
            j <= n,
            n == lessons@.len(),
            match lesson_rows(lessons@, unit_rec@, j as int) {
                Ok(rest) => (lesson_rows(lessons@, unit_rec@, 0) matches Ok(all) && records_view(
                    out@,
                ) + rest == records_view(old(out)@) + all),
                Err(f) => lesson_rows(lessons@, unit_rec@, 0) == Err::<
                    Seq<RecordModel>,
                    Seq<char>,
                >(f),
            },
        decreases n - j,
    {
        let lesson = &lessons[j];
        let lrec = match extract_info(lesson, Some(unit_rec), (j + 1) as u64) {
            Ok(rec) => rec,
            Err(e) => {
                return Err(e);
            },
        };
        let ghost out_before: Seq<RecordModel> = records_view(out@);
        out.push(lrec.duplicate());
        proof {
            assert(records_view(out@) =~= out_before.push(lrec@));
        }
        if node_is_lesson(lesson) {
            let contents: &Vec<Json> = match json_get(lesson, "curatedChildren") {
                Some(c) => match c {
                    Json::Arr(cs) => cs,
                    _ => {
                        return Err(AppError::MissingField("curatedChildren".to_owned()));
                    },
                },
                None => {
                    return Err(AppError::MissingField("curatedChildren".to_owned()));
                },
            };
            match flatten_contents(contents, &lrec, out) {
                Ok(u) => {},
                Err(e) => {
                    return Err(e);
                },
            }
            proof {
                match content_rows(contents@, lrec@, 0) {
                    Ok(crows) => {
                        match lesson_rows(lessons@, unit_rec@, j as int + 1) {
                            Ok(rest) => {
                                assert((out_before.push(lrec@) + crows) + rest =~= out_before + (
                                seq![lrec@] + crows + rest));
                            },
                            Err(_) => {},
                        }
                    },
                    Err(_) => {},
                }
            }
        } else {
            proof {
                match lesson_rows(lessons@, unit_rec@, j as int + 1) {
                    Ok(rest) => {
                        assert(out_before.push(lrec@) + rest =~= out_before + (seq![lrec@]
                            + Seq::<RecordModel>::empty() + rest));
                    },
                    Err(_) => {},
                }
            }
        }
        j = j + 1;
    }
    proof {
        match lesson_rows(lessons@, unit_rec@, n as int) {
            Ok(rest) => {
                assert(records_view(out@) + rest =~= records_view(out@));
            },
            Err(_) => {},
        }
    }
    Ok(())
}

/// Appends every unit's rows to `out`.
fn flatten_units(units: &Vec<Json>, course_rec: &DataStruct, out: &mut Vec<DataStruct>) -> (r:
    Result<(), AppError>)
    ensures
        match r {
            Ok(u) => (unit_rows(units@, course_rec@, 0) matches Ok(rows) && records_view(
                final(out)@,
            ) == records_view(old(out)@) + rows),
            Err(e) => e@ matches ErrModel::MissingField(f) && unit_rows(units@, course_rec@, 0)
                == Err::<Seq<RecordModel>, Seq<char>>(f),
        },
{
    let n = units.len();
    let mut i: usize = 0;
    while i < n
        invariant
            i <= n,
            n == units@.len(),
            match unit_rows(units@, course_rec@, i as int) {
                Ok(rest) => (unit_rows(units@, course_rec@, 0) matches Ok(all) && records_view(
                    out@,
                ) + rest == records_view(old(out)@) + all),
                Err(f) => unit_rows(units@, course_rec@, 0) == Err::<
                    Seq<RecordModel>,
                    Seq<char>,
                >(f),
            },
        decreases n - i,
    {
        let unit = &units[i];
        let urec = match extract_info(unit, Some(course_rec), (i + 1) as u64) {
            Ok(rec) => rec,
            Err(e) => {
                return Err(e);
            },
        };
        let ghost out_before: Seq<RecordModel> = records_view(out@);
        out.push(urec.duplicate());
        proof {
            assert(records_view(out@) =~= out_before.push(urec@));
        }
        let lessons: &Vec<Json> = match json_get(unit, "allOrderedChildren") {
            Some(l) => match l {
                Json::Arr(ls) => ls,
                _ => {
                    return Err(AppError::MissingField("allOrderedChildren".to_owned()));
                },
            },
            None => {
                return Err(AppError::MissingField("allOrderedChildren".to_owned()));
            },
        };
        match flatten_lessons(lessons, &urec, out) {
            Ok(u) => {},
            Err(e) => {
                return Err(e);
            },
        }
        proof {
            match lesson_rows(lessons@, urec@, 0) {
                Ok(lrows) => {
                    match unit_rows(units@, course_rec@, i as int + 1) {
                        Ok(rest) => {
                            assert((out_before.push(urec@) + lrows) + rest =~= out_before + (
                            seq![urec@] + lrows + rest));
                        },
                        Err(_) => {},
                    }
                },
                Err(_) => {},
            }
        }
        i = i + 1;
    }
    proof {
        match unit_rows(units@, course_rec@, n as int) {
            Ok(rest) => {
                assert(records_view(out@) + rest =~= records_view(out@));
            },
            Err(_) => {},
        }
    }
    Ok(())
}

/// Walks a course node into its ordered flat table.
///
/// Succeeds exactly when every walked node carries its required fields and
/// every expected child array is present; the records come back in strict
/// pre-order walk order. Fails with `MissingField`, naming the field, on the
/// first node that breaks the shape — nothing of the partial walk survives.
pub fn extract_course(course_content: &Json) -> (r: Result<Vec<DataStruct>, AppError>)
    ensures
        match r {
            Ok(v) => flatten_course(*course_content) == Ok::<Seq<RecordModel>, Seq<char>>(
                records_view(v@),
            ),
            Err(e) => e@ matches ErrModel::MissingField(f) && flatten_course(*course_content)
                == Err::<Seq<RecordModel>, Seq<char>>(f),
        },
{
    let course_info = match extract_info(course_content, None, 1) {
        Ok(rec) => rec,
        Err(e) => {
            return Err(e);
        },
    };
    let units: &Vec<Json> = match json_get(course_content, "unitChildren") {
        Some(u) => match u {
            Json::Arr(us) => us,
            _ => {
                return Err(AppError::MissingField("unitChildren".to_owned()));
            },
        },
        None => {
            return Err(AppError::MissingField("unitChildren".to_owned()));
        },
    };
    let mut out: Vec<DataStruct> = Vec::new();
    out.push(course_info.duplicate());
    proof {
        assert(records_view(out@) =~= seq![course_info@]);
    }
    match flatten_units(units, &course_info, &mut out) {
        Ok(u) => {},
        Err(e) => {
            return Err(e);
        },
    }
    proof {
        match unit_rows(units@, course_info@, 0) {
            Ok(rows) => {
                assert(seq![course_info@] + rows =~= Seq::<RecordModel>::empty().push(
                    course_info@,
                ) + rows);
            },
            Err(_) => {},
        }
    }
    Ok(out)
}


/// Everything one run extracts from the progress documents, in the order
/// the merge applies it: overall mastery, mastery map, unit rollups, then
/// the per-file content-item, quiz-attempt and unit-test-attempt batches.
pub type MasteryData = (
    MasteryV2,
    Vec<MasteryMapItem>,
    Vec<UnitProgress>,
    Vec<Vec<ContentItemProgress>>,
    Vec<Vec<TopicQuizAttempt>>,
    Vec<Vec<TopicUnitTestAttempt>>,
);

/// Whether the overall mastery can be extracted from `s`.
pub open spec fn mastery_v2_ok(s: Seq<char>) -> bool {
    exists|m: MasteryV2| mastery_v2_result(s, Ok(m))
}

/// Whether the mastery map can be extracted from `s`.
pub open spec fn mastery_map_ok(s: Seq<char>) -> bool {
    exists|v: Vec<MasteryMapItem>| mastery_map_result(s, Ok(v))
}

/// Whether the unit rollups can be extracted from `s`.
pub open spec fn unit_progresses_ok(s: Seq<char>) -> bool {
    exists|v: Vec<UnitProgress>| unit_progresses_result(s, Ok(v))
}

/// Whether the content-item records can be extracted from `s`.
pub open spec fn item_progresses_ok(s: Seq<char>) -> bool {
    exists|v: Vec<ContentItemProgress>| item_progresses_result(s, Ok(v))
}

/// Whether the quiz attempts can be extracted from `s`.
pub open spec fn quiz_attempts_ok(s: Seq<char>) -> bool {
    exists|v: Vec<TopicQuizAttempt>| quiz_attempts_result(s, Ok(v))
}

/// Whether the unit-test attempts can be extracted from `s`.
pub open spec fn test_attempts_ok(s: Seq<char>) -> bool {
    exists|v: Vec<TopicUnitTestAttempt>| test_attempts_result(s, Ok(v))
}

/// Extracts every progress collection of one run: the course document's
/// three collections, then each batch file's records, in file order.
///
/// Fails with the error of the first extraction that fails, the documents
/// taken in that same order.
pub fn process_json_files(
    json_course_progress: &str,
    json_unit_progress_files: &[String],
    json_quiz_test_progress_files: &[String],
) -> (r: Result<MasteryData, AppError>)
    ensures
        match r {
            Ok(out) => mastery_v2_result(json_course_progress@, Ok(out.0)) && mastery_map_result(
                json_course_progress@,
                Ok(out.1),
            ) && unit_progresses_result(json_course_progress@, Ok(out.2)) && out.3@.len()
                == json_unit_progress_files@.len() && (forall|i: int|
                0 <= i < out.3@.len() ==> item_progresses_result(
                    json_unit_progress_files@[i]@,
                    Ok(#[trigger] out.3@[i]),
                )) && out.4@.len() == json_quiz_test_progress_files@.len() && (forall|i: int|
                0 <= i < out.4@.len() ==> quiz_attempts_result(
                    json_quiz_test_progress_files@[i]@,
                    Ok(#[trigger] out.4@[i]),
                )) && out.5@.len() == json_quiz_test_progress_files@.len() && (forall|i: int|
                0 <= i < out.5@.len() ==> test_attempts_result(
                    json_quiz_test_progress_files@[i]@,
                    Ok(#[trigger] out.5@[i]),
                )),
            Err(e) => mastery_v2_result(json_course_progress@, Err(e)) || (mastery_v2_ok(
                json_course_progress@,
            ) && mastery_map_result(json_course_progress@, Err(e))) || (mastery_v2_ok(
                json_course_progress@,
            ) && mastery_map_ok(json_course_progress@) && unit_progresses_result(
                json_course_progress@,
                Err(e),
            )) || (mastery_v2_ok(json_course_progress@) && mastery_map_ok(json_course_progress@)
                && unit_progresses_ok(json_course_progress@) && ((exists|i: int|
                0 <= i < json_unit_progress_files@.len() && item_progresses_result(
                    #[trigger] json_unit_progress_files@[i]@,
                    Err(e),
                ) && (forall|k: int|
                    0 <= k < i ==> item_progresses_ok(#[trigger] json_unit_progress_files@[k]@)))
                || ((forall|k: int|
                0 <= k < json_unit_progress_files@.len() ==> item_progresses_ok(
                    #[trigger] json_unit_progress_files@[k]@,
                )) && ((exists|i: int|
                0 <= i < json_quiz_test_progress_files@.len() && quiz_attempts_result(
                    #[trigger] json_quiz_test_progress_files@[i]@,
                    Err(e),
                ) && (forall|k: int|
                    0 <= k < i ==> quiz_attempts_ok(#[trigger] json_quiz_test_progress_files@[k]@)))
                || ((forall|k: int|
                0 <= k < json_quiz_test_progress_files@.len() ==> quiz_attempts_ok(
                    #[trigger] json_quiz_test_progress_files@[k]@,
                )) && (exists|i: int|
                0 <= i < json_quiz_test_progress_files@.len() && test_attempts_result(
                    #[trigger] json_quiz_test_progress_files@[i]@,
                    Err(e),
                ) && (forall|k: int|
                    0 <= k < i ==> test_attempts_ok(
                        #[trigger] json_quiz_test_progress_files@[k]@,
                    )))))))),
        },
{
    let mastery_v2: MasteryV2 = match extract_mastery_v2(json_course_progress) {
        Ok(m) => m,
        Err(e) => {
            return Err(e);
        },
    };
    proof {
        assert(mastery_v2_ok(json_course_progress@)) by {
            assert(mastery_v2_result(json_course_progress@, Ok(mastery_v2)));
        }
    }
    let mastery_map: Vec<MasteryMapItem> = match extract_mastery_map(json_course_progress) {
        Ok(v) => v,
        Err(e) => {
            return Err(e);
        },
    };
    let unit_progress: Vec<UnitProgress> = match extract_unit_progresses(json_course_progress) {
        Ok(v) => v,
        Err(e) => {
            proof {
                assert(mastery_map_ok(json_course_progress@)) by {
                    assert(mastery_map_result(json_course_progress@, Ok(mastery_map)));
                }
            }
            return Err(e);
        },
    };
    proof {
        assert(mastery_map_ok(json_course_progress@)) by {
            assert(mastery_map_result(json_course_progress@, Ok(mastery_map)));
        }
        assert(unit_progresses_ok(json_course_progress@)) by {
            assert(unit_progresses_result(json_course_progress@, Ok(unit_progress)));
        }
    }
    let mut items_progresses: Vec<Vec<ContentItemProgress>> = Vec::new();
    let mut i: usize = 0;
    while i < json_unit_progress_files.len()
        invariant
            i <= json_unit_progress_files@.len(),
            mastery_v2_ok(json_course_progress@),
            mastery_map_ok(json_course_progress@),
            unit_progresses_ok(json_course_progress@),
            items_progresses@.len() == i,
            forall|k: int|
                0 <= k < i ==> item_progresses_result(
                    json_unit_progress_files@[k]@,
                    Ok(#[trigger] items_progresses@[k]),
                ),
            forall|k: int|
                0 <= k < i ==> item_progresses_ok(#[trigger] json_unit_progress_files@[k]@),
        decreases json_unit_progress_files@.len() - i,
    {
        match extract_item_progresses(json_unit_progress_files[i].as_str()) {
            Ok(v) => {
                proof {
                    assert(item_progresses_ok(json_unit_progress_files@[i as int]@)) by {
                        assert(item_progresses_result(json_unit_progress_files@[i as int]@, Ok(v)));
                    }
                }
                items_progresses.push(v);
            },
            Err(e) => {
                return Err(e);
            },
        }
        i = i + 1;
    }
    let mut quizzes_progresses: Vec<Vec<TopicQuizAttempt>> = Vec::new();
    let mut q: usize = 0;
    while q < json_quiz_test_progress_files.len()
        invariant
            q <= json_quiz_test_progress_files@.len(),
            mastery_v2_ok(json_course_progress@),
            mastery_map_ok(json_course_progress@),
            unit_progresses_ok(json_course_progress@),
            items_progresses@.len() == json_unit_progress_files@.len(),
            forall|k: int|
                0 <= k < items_progresses@.len() ==> item_progresses_result(
                    json_unit_progress_files@[k]@,
                    Ok(#[trigger] items_progresses@[k]),
                ),
            forall|k: int|
                0 <= k < json_unit_progress_files@.len() ==> item_progresses_ok(
                    #[trigger] json_unit_progress_files@[k]@,
                ),
            quizzes_progresses@.len() == q,
            forall|k: int|
                0 <= k < q ==> quiz_attempts_result(
                    json_quiz_test_progress_files@[k]@,
                    Ok(#[trigger] quizzes_progresses@[k]),
                ),
            forall|k: int|
                0 <= k < q ==> quiz_attempts_ok(#[trigger] json_quiz_test_progress_files@[k]@),
        decreases json_quiz_test_progress_files@.len() - q,
    {
        match extract_quiz_attempts(json_quiz_test_progress_files[q].as_str()) {
            Ok(v) => {
                proof {
                    assert(quiz_attempts_ok(json_quiz_test_progress_files@[q as int]@)) by {
                        assert(quiz_attempts_result(
                            json_quiz_test_progress_files@[q as int]@,
                            Ok(v),
                        ));
                    }
                }
                quizzes_progresses.push(v);
            },
            Err(e) => {
                return Err(e);
            },
        }
        q = q + 1;
    }
    let mut tests_progresses: Vec<Vec<TopicUnitTestAttempt>> = Vec::new();
    let mut t: usize = 0;
    while t < json_quiz_test_progress_files.len()
        invariant
            t <= json_quiz_test_progress_files@.len(),
            mastery_v2_ok(json_course_progress@),
            mastery_map_ok(json_course_progress@),
            unit_progresses_ok(json_course_progress@),
            items_progresses@.len() == json_unit_progress_files@.len(),
            forall|k: int|
                0 <= k < items_progresses@.len() ==> item_progresses_result(
                    json_unit_progress_files@[k]@,
                    Ok(#[trigger] items_progresses@[k]),
                ),
            forall|k: int|
                0 <= k < json_unit_progress_files@.len() ==> item_progresses_ok(
                    #[trigger] json_unit_progress_files@[k]@,
                ),
            quizzes_progresses@.len() == json_quiz_test_progress_files@.len(),
            forall|k: int|
                0 <= k < quizzes_progresses@.len() ==> quiz_attempts_result(
                    json_quiz_test_progress_files@[k]@,
                    Ok(#[trigger] quizzes_progresses@[k]),
                ),
            forall|k: int|
                0 <= k < json_quiz_test_progress_files@.len() ==> quiz_attempts_ok(
                    #[trigger] json_quiz_test_progress_files@[k]@,
                ),
            tests_progresses@.len() == t,
            forall|k: int|
                0 <= k < t ==> test_attempts_result(
                    json_quiz_test_progress_files@[k]@,
                    Ok(#[trigger] tests_progresses@[k]),
                ),
            forall|k: int|
                0 <= k < t ==> test_attempts_ok(#[trigger] json_quiz_test_progress_files@[k]@),
        decreases json_quiz_test_progress_files@.len() - t,
    {
        match extract_unit_test_attempts(json_quiz_test_progress_files[t].as_str()) {
            Ok(v) => {
                proof {
                    assert(test_attempts_ok(json_quiz_test_progress_files@[t as int]@)) by {
                        assert(test_attempts_result(
                            json_quiz_test_progress_files@[t as int]@,
                            Ok(v),
                        ));
                    }
                }
                tests_progresses.push(v);
            },
            Err(e) => {
                return Err(e);
            },
        }
        t = t + 1;
    }
    Ok(
        (
            mastery_v2,
            mastery_map,
            unit_progress,
            items_progresses,
            quizzes_progresses,
            tests_progresses,
        ),
    )
}

} // verus!
