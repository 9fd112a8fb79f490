//! The walk's guarantees, stated once and proved: the created table is a
//! pure function of the document, sibling order values count 1..N in array
//! order, and every non-root record mirrors a record that precedes it.

use vstd::prelude::*;
use crate::models::RecordModel;
use crate::json_utils::Json;
use crate::extractors::info_of;
use crate::json_operations::{content_rows, lesson_rows, unit_rows, flatten_course};
use crate::csv_utils::{header_row, rows_of, csv_text_of};

verus! {

/// Law: creating the table twice from one curriculum document produces
/// byte-identical text — the table is a pure function of the document, with
/// nothing else in it.
pub proof fn lemma_create_idempotent(course: Json, out1: Seq<char>, out2: Seq<char>)
    requires
        (flatten_course(course) matches Ok(rows) && out1 == csv_text_of(
            seq![header_row()] + rows_of(rows),
        )),
        (flatten_course(course) matches Ok(rows) && out2 == csv_text_of(
            seq![header_row()] + rows_of(rows),
        )),
    ensures
        out1 == out2,
{
}

/// Law, content-item level: a sibling array of length N yields exactly N
/// records, the record of the i-th sibling standing at position i with
/// order value i + 1 — whatever the siblings hold.
pub proof fn lemma_content_rows_order(contents: Seq<Json>, lesson_rec: RecordModel, k: int)
    requires
        0 <= k <= contents.len(),
    ensures
        content_rows(contents, lesson_rec, k) matches Ok(rows) ==> {
            &&& rows.len() == contents.len() - k
            &&& forall|i: int|
                0 <= i < rows.len() ==> (info_of(
                    contents[k + i],
                    Some(lesson_rec),
                    ((k + i + 1) as u64),
                ) matches Ok(rec) && #[trigger] rows[i] == rec && rec.order == ((k + i + 1) as u64))
        },
    decreases contents.len() - k,
{
    if k < contents.len() {
        lemma_content_rows_order(contents, lesson_rec, k + 1);
    }
}

/// Law, lesson level: the walk gives the j-th lesson-like child of a unit a
/// record with order value j + 1, and that record stands in the unit's rows.
pub proof fn lemma_lesson_rows_orders(lessons: Seq<Json>, unit_rec: RecordModel, j: int)
    requires
        0 <= j <= lessons.len(),
    ensures
        lesson_rows(lessons, unit_rec, j) matches Ok(rows) ==> forall|i: int|
            #![trigger lessons[i]]
            j <= i < lessons.len() ==> (info_of(lessons[i], Some(unit_rec), ((i + 1) as u64))
                matches Ok(lrec) && lrec.order == ((i + 1) as u64) && (exists|p: int|
                0 <= p < rows.len() && #[trigger] rows[p] == lrec)),
    decreases lessons.len() - j,
{
    if j < lessons.len() {
        lemma_lesson_rows_orders(lessons, unit_rec, j + 1);
        match lesson_rows(lessons, unit_rec, j) {
            Ok(rows) => {
                match info_of(lessons[j], Some(unit_rec), ((j + 1) as u64)) {
                    Ok(lrec) => {
                        let crows = match (if crate::json_operations::is_lesson(lessons[j]) {
                            match crate::json_utils::get_arr_field(lessons[j], "curatedChildren"@) {
                                Some(contents) => content_rows(contents, lrec, 0),
                                None => Err("curatedChildren"@),
                            }
                        } else {
                            Ok(Seq::<RecordModel>::empty())
                        }) {
                            Ok(c) => c,
                            Err(_) => Seq::<RecordModel>::empty(),
                        };
                        match lesson_rows(lessons, unit_rec, j + 1) {
                            Ok(rest) => {
                                assert(rows == seq![lrec] + crows + rest);
                                assert(rows[0] == lrec);
                                assert forall|i: int|
                                    #![trigger lessons[i]]
                                    j + 1 <= i < lessons.len() implies (info_of(
                                    lessons[i],
                                    Some(unit_rec),
                                    ((i + 1) as u64),
                                ) matches Ok(lrec2) && lrec2.order == ((i + 1) as u64) && (exists|
                                    p: int,
                                |
                                    0 <= p < rows.len() && #[trigger] rows[p] == lrec2)) by {
                                    match info_of(lessons[i], Some(unit_rec), ((i + 1) as u64)) {
                                        Ok(lrec2) => {
                                            let p0 = choose|p0: int|
                                                0 <= p0 < rest.len() && #[trigger] rest[p0]
                                                    == lrec2;
                                            assert(rows[1 + crows.len() + p0] == rest[p0]);
                                        },
                                        Err(_) => {
                                            assert(false);
                                        },
                                    }
                                }
                            },
                            Err(_) => {
                                assert(false);
                            },
                        }
                    },
                    Err(_) => {
                        assert(false);
                    },
                }
            },
            Err(_) => {},
        }
    }
}

/// Law, unit level: the walk gives the i-th unit a record with order value
/// i + 1, and that record stands in the walk's rows.
pub proof fn lemma_unit_rows_orders(units: Seq<Json>, course_rec: RecordModel, k: int)
    requires
        0 <= k <= units.len(),
    ensures
        unit_rows(units, course_rec, k) matches Ok(rows) ==> forall|i: int|
            #![trigger units[i]]
            k <= i < units.len() ==> (info_of(units[i], Some(course_rec), ((i + 1) as u64)) matches
                Ok(urec) && urec.order == ((i + 1) as u64) && (exists|p: int|
                0 <= p < rows.len() && #[trigger] rows[p] == urec)),
    decreases units.len() - k,
{
    if k < units.len() {
        lemma_unit_rows_orders(units, course_rec, k + 1);
        match unit_rows(units, course_rec, k) {
            Ok(rows) => {
                match info_of(units[k], Some(course_rec), ((k + 1) as u64)) {
                    Ok(urec) => {
                        match crate::json_utils::get_arr_field(units[k], "allOrderedChildren"@) {
                            Some(lessons) => {
                                match lesson_rows(lessons, urec, 0) {
                                    Ok(lrows) => {
                                        match unit_rows(units, course_rec, k + 1) {
                                            Ok(rest) => {
                                                assert(rows == seq![urec] + lrows + rest);
                                                assert(rows[0] == urec);
                                                assert forall|i: int|
                                                    #![trigger units[i]]
                                                    k + 1 <= i < units.len() implies (info_of(
                                                    units[i],
                                                    Some(course_rec),
                                                    ((i + 1) as u64),
                                                ) matches Ok(urec2) && urec2.order == ((i + 1)
                                                    as u64) && (exists|p: int|
                                                    0 <= p < rows.len() && #[trigger] rows[p]
                                                        == urec2)) by {
                                                    match info_of(
                                                        units[i],
                                                        Some(course_rec),
                                                        ((i + 1) as u64),
                                                    ) {
                                                        Ok(urec2) => {
                                                            let p0 = choose|p0: int|
                                                                0 <= p0 < rest.len()
                                                                    && #[trigger] rest[p0]
                                                                    == urec2;
                                                            assert(rows[1 + lrows.len() + p0]
                                                                == rest[p0]);
                                                        },
                                                        Err(_) => {
                                                            assert(false);
                                                        },
                                                    }
                                                }
                                            },
                                            Err(_) => {
                                                assert(false);
                                            },
                                        }
                                    },
                                    Err(_) => {
                                        assert(false);
                                    },
                                }
                            },
                            None => {
                                assert(false);
                            },
                        }
                    },
                    Err(_) => {
                        assert(false);
                    },
                }
            },
            Err(_) => {},
        }
    }
}

/// Whether `child`'s parent columns are copies of `parent`'s display fields.
pub open spec fn mirrors_parent(child: RecordModel, parent: RecordModel) -> bool {
    &&& child.parent_id == Some(parent.id)
    &&& child.parent_type == Some(parent.node_type)
    &&& child.parent_title == Some(parent.title)
    &&& child.parent_slug == Some(parent.slug)
    &&& child.parent_relative_url == Some(parent.relative_url)
}

proof fn lemma_content_rows_parents(contents: Seq<Json>, lesson_rec: RecordModel, k: int)
    requires
        0 <= k,
    ensures
        content_rows(contents, lesson_rec, k) matches Ok(rows) ==> forall|p: int|
            0 <= p < rows.len() ==> mirrors_parent(#[trigger] rows[p], lesson_rec),
    decreases contents.len() - k,
{
    if k < contents.len() {
        lemma_content_rows_parents(contents, lesson_rec, k + 1);
    }
}

proof fn lemma_lesson_rows_parents(lessons: Seq<Json>, unit_rec: RecordModel, j: int)
    requires
        0 <= j,
    ensures
        lesson_rows(lessons, unit_rec, j) matches Ok(rows) ==> forall|p: int|
            0 <= p < rows.len() ==> (mirrors_parent(#[trigger] rows[p], unit_rec) || exists|q: int|
                0 <= q < p && mirrors_parent(rows[p], rows[q])),
    decreases lessons.len() - j,
{
    if 0 <= j && j < lessons.len() {
        lemma_lesson_rows_parents(lessons, unit_rec, j + 1);
        match lesson_rows(lessons, unit_rec, j) {
            Ok(rows) => {
                match info_of(lessons[j], Some(unit_rec), ((j + 1) as u64)) {
                    Ok(lrec) => {
                        let tail = if crate::json_operations::is_lesson(lessons[j]) {
                            match crate::json_utils::get_arr_field(lessons[j], "curatedChildren"@) {
                                Some(contents) => content_rows(contents, lrec, 0),
                                None => Err("curatedChildren"@),
                            }
                        } else {
                            Ok(Seq::<RecordModel>::empty())
                        };
                        if crate::json_operations::is_lesson(lessons[j]) {
                            match crate::json_utils::get_arr_field(lessons[j], "curatedChildren"@) {
                                Some(contents) => {
                                    lemma_content_rows_parents(contents, lrec, 0);
                                },
                                None => {},
                            }
                        }
                        match tail {
                            Ok(crows) => {
                                match lesson_rows(lessons, unit_rec, j + 1) {
                                    Ok(rest) => {
                                        assert(rows == seq![lrec] + crows + rest);
                                        assert(mirrors_parent(lrec, unit_rec));
                                        assert forall|p: int|
                                            0 <= p < rows.len() implies (mirrors_parent(
                                            #[trigger] rows[p],
                                            unit_rec,
                                        ) || exists|q: int|
                                            0 <= q < p && mirrors_parent(rows[p], rows[q])) by {
                                            if p == 0 {
                                            } else if p < 1 + crows.len() {
                                                assert(rows[p] == crows[p - 1]);
                                                assert(mirrors_parent(crows[p - 1], lrec));
                                                assert(rows[0] == lrec);
                                                assert(mirrors_parent(rows[p], rows[0]));
                                            } else {
                                                let p0 = p - 1 - crows.len();
                                                assert(rows[p] == rest[p0]);
                                                if !mirrors_parent(rest[p0], unit_rec) {
                                                    let q0 = choose|q0: int|
                                                        0 <= q0 < p0 && mirrors_parent(
                                                            rest[p0],
                                                            rest[q0],
                                                        );
                                                    assert(rows[1 + crows.len() + q0]
                                                        == rest[q0]);
                                                    assert(mirrors_parent(
                                                        rows[p],
                                                        rows[1 + crows.len() + q0],
                                                    ));
                                                }
                                            }
                                        }
                                    },
                                    Err(_) => {
                                        assert(false);
                                    },
                                }
                            },
                            Err(_) => {
                                assert(false);
                            },
                        }
                    },
                    Err(_) => {
                        assert(false);
                    },
                }
            },
            Err(_) => {},
        }
    }
}

proof fn lemma_unit_rows_parents(units: Seq<Json>, course_rec: RecordModel, k: int)
    requires
        0 <= k,
    ensures
        unit_rows(units, course_rec, k) matches Ok(rows) ==> forall|p: int|
            0 <= p < rows.len() ==> (mirrors_parent(#[trigger] rows[p], course_rec) || exists|
                q: int,
            |
                0 <= q < p && mirrors_parent(rows[p], rows[q])),
    decreases units.len() - k,
{
    if 0 <= k && k < units.len() {
        lemma_unit_rows_parents(units, course_rec, k + 1);
        match unit_rows(units, course_rec, k) {
            Ok(rows) => {
                match info_of(units[k], Some(course_rec), ((k + 1) as u64)) {
                    Ok(urec) => {
                        match crate::json_utils::get_arr_field(units[k], "allOrderedChildren"@) {
                            Some(lessons) => {
                                lemma_lesson_rows_parents(lessons, urec, 0);
                                match lesson_rows(lessons, urec, 0) {
                                    Ok(lrows) => {
                                        match unit_rows(units, course_rec, k + 1) {
                                            Ok(rest) => {
                                                assert(rows == seq![urec] + lrows + rest);
                                                assert(mirrors_parent(urec, course_rec));
                                                assert forall|p: int|
                                                    0 <= p < rows.len() implies (mirrors_parent(
                                                    #[trigger] rows[p],
                                                    course_rec,
                                                ) || exists|q: int|
                                                    0 <= q < p && mirrors_parent(
                                                        rows[p],
                                                        rows[q],
                                                    )) by {
                                                    if p == 0 {
                                                    } else if p < 1 + lrows.len() {
                                                        let p0 = p - 1;
                                                        assert(rows[p] == lrows[p0]);
                                                        if mirrors_parent(lrows[p0], urec) {
                                                            assert(rows[0] == urec);
                                                            assert(mirrors_parent(
                                                                rows[p],
                                                                rows[0],
                                                            ));
                                                        } else {
                                                            let q0 = choose|q0: int|
                                                                0 <= q0 < p0 && mirrors_parent(
                                                                    lrows[p0],
                                                                    lrows[q0],
                                                                );
                                                            assert(rows[1 + q0] == lrows[q0]);
                                                            assert(mirrors_parent(
                                                                rows[p],
                                                                rows[1 + q0],
                                                            ));
                                                        }
                                                    } else {
                                                        let p0 = p - 1 - lrows.len();
                                                        assert(rows[p] == rest[p0]);
                                                        if !mirrors_parent(
                                                            rest[p0],
                                                            course_rec,
                                                        ) {
                                                            let q0 = choose|q0: int|
                                                                0 <= q0 < p0 && mirrors_parent(
                                                                    rest[p0],
                                                                    rest[q0],
                                                                );
                                                            assert(rows[1 + lrows.len() + q0]
                                                                == rest[q0]);
                                                            assert(mirrors_parent(
                                                                rows[p],
                                                                rows[1 + lrows.len() + q0],
                                                            ));
                                                        }
                                                    }
                                                }
                                            },
                                            Err(_) => {
                                                assert(false);
                                            },
                                        }
                                    },
                                    Err(_) => {
                                        assert(false);
                                    },
                                }
                            },
                            None => {
                                assert(false);
                            },
                        }
                    },
                    Err(_) => {
                        assert(false);
                    },
                }
            },
            Err(_) => {},
        }
    }
}

/// Law: in a flattened table, the root record carries no parent columns,
/// and every other record's parent columns are copies of the display fields
/// of a record that stands earlier in the table — its structural parent.
pub proof fn lemma_parent_linkage(course: Json)
    ensures
        flatten_course(course) matches Ok(rows) ==> {
            &&& rows.len() >= 1
            &&& rows[0].parent_id is None
            &&& rows[0].parent_type is None
            &&& rows[0].parent_title is None
            &&& rows[0].parent_slug is None
            &&& rows[0].parent_relative_url is None
            &&& forall|p: int|
                1 <= p < rows.len() ==> exists|q: int|
                    0 <= q < p && mirrors_parent(#[trigger] rows[p], rows[q])
        },
{
    match flatten_course(course) {
        Ok(rows) => {
            match info_of(course, None, 1) {
                Ok(crec) => {
                    match crate::json_utils::get_arr_field(course, "unitChildren"@) {
                        Some(units) => {
                            lemma_unit_rows_parents(units, crec, 0);
                            match unit_rows(units, crec, 0) {
                                Ok(urows) => {
                                    assert(rows == seq![crec] + urows);
                                    assert(rows[0] == crec);
                                    assert forall|p: int| 1 <= p < rows.len() implies exists|q: int|
                                        0 <= q < p && mirrors_parent(
                                            #[trigger] rows[p],
                                            rows[q],
                                        ) by {
                                        let p0 = p - 1;
                                        assert(rows[p] == urows[p0]);
                                        if mirrors_parent(urows[p0], crec) {
                                            assert(mirrors_parent(rows[p], rows[0]));
                                        } else {
                                            let q0 = choose|q0: int|
                                                0 <= q0 < p0 && mirrors_parent(
                                                    urows[p0],
                                                    urows[q0],
                                                );
                                            assert(rows[1 + q0] == urows[q0]);
                                            assert(mirrors_parent(rows[p], rows[1 + q0]));
                                        }
                                    }
                                },
                                Err(_) => {
                                    assert(false);
                                },
                            }
                        },
                        None => {
                            assert(false);
                        },
                    }
                },
                Err(_) => {
                    assert(false);
                },
            }
        },
        Err(_) => {},
    }
}

} // verus!
