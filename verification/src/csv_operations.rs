//! The progress merger: overlays the five progress collections onto the
//! persisted table, phase by phase, in a fixed order.
//!
//! Rows are plain vectors of cells here; reading and writing the CSV text
//! itself lives in `csv_utils`. Every update replaces single cells at named
//! column positions and leaves every other cell untouched.

use vstd::prelude::*;
use crate::error::{AppError, ErrModel};
use crate::models::{
    MasteryV2, MasteryMapItem, UnitProgress, ContentItemProgress, TopicQuizAttempt,
    TopicUnitTestAttempt,
};
use crate::numfmt::{dec_str, u32_to_string};
use crate::strutil::str_eq_str;
use crate::csv_utils::{
    COL_ID, COL_TYPE, COL_PROGRESS_KEY, COL_PERCENTAGE, COL_POINTS_EARNED, COL_STATUS,
    COL_COMPLETION_STATUS, COL_NUM_ATTEMPTED, COL_NUM_CORRECT, COL_NUM_INCORRECT, csv_text_of,
    csv_rows_of, rows_to_csv, csv_to_rows,
};

verus! {

// ---------------------------------------------------------------------------
// Replacing cells of one row.
// ---------------------------------------------------------------------------

/// The first new value an update list assigns to `col`, searching from
/// position `i` on.
pub open spec fn first_upd(updates: Seq<(usize, Seq<char>)>, i: int, col: int) -> Option<Seq<char>>
    decreases updates.len() - i,
{
    if i < 0 || i >= updates.len() {
        None
    } else if updates[i].0 == col {
        Some(updates[i].1)
    } else {
        first_upd(updates, i + 1, col)
    }
}

/// The first updated column, from position `i` on, that lies beyond a row of
/// `row_len` cells.
pub open spec fn bad_update(row_len: nat, updates: Seq<(usize, Seq<char>)>, i: int) -> Option<int>
    decreases updates.len() - i,
{
    if i < 0 || i >= updates.len() {
        None
    } else if updates[i].0 >= row_len {
        Some(updates[i].0 as int)
    } else {
        bad_update(row_len, updates, i + 1)
    }
}

/// A row after an update list: each named cell replaced — the first update
/// for a column wins — and every other cell kept; or the first out-of-range
/// column.
pub open spec fn apply_updates_row(row: Seq<Seq<char>>, updates: Seq<(usize, Seq<char>)>) -> Result<
    Seq<Seq<char>>,
    int,
> {
    match bad_update(row.len(), updates, 0) {
        Some(c) => Err(c),
        None => Ok(
            Seq::new(
                row.len(),
                |c: int|
                    match first_upd(updates, 0, c) {
                        Some(v) => v,
                        None => row[c],
                    },
            ),
        ),
    }
}

/// The views of an exec update list.
pub open spec fn updates_view(updates: Seq<(usize, String)>) -> Seq<(usize, Seq<char>)> {
    updates.map_values(|u: (usize, String)| (u.0, u.1@))
}

/// Builds the row that `updates` turns `row` into.
fn build_updated_row(row: &Vec<String>, updates: &Vec<(usize, String)>) -> (r: Result<
    Vec<String>,
    AppError,
>)
    ensures
        match r {
            Ok(row2) => (apply_updates_row(row.deep_view(), updates_view(updates@)) matches Ok(v)
                && row2.deep_view() == v),
            Err(e) => (apply_updates_row(row.deep_view(), updates_view(updates@)) matches Err(c)
                && e@ == ErrModel::ColumnIndex(c)),
        },
{
    let ghost uv: Seq<(usize, Seq<char>)> = updates_view(updates@);
    let width = row.len();
    let mut u: usize = 0;
    while u < updates.len()
        invariant
            u <= updates@.len(),
            uv == updates_view(updates@),
            width == row@.len(),
            bad_update(row.deep_view().len(), uv, 0) == bad_update(
                row.deep_view().len(),
                uv,
                u as int,
            ),
        decreases updates@.len() - u,
    {
        if updates[u].0 >= width {
            proof {
                assert(uv[u as int].0 == updates@[u as int].0);
                assert(bad_update(row.deep_view().len(), uv, u as int) == Some(
                    updates@[u as int].0 as int,
                ));
            }
            return Err(AppError::ColumnIndex(updates[u].0));
        }
        proof {
            assert(uv[u as int].0 == updates@[u as int].0);
        }
        u = u + 1;
    }
    let mut out: Vec<String> = Vec::new();
    let mut c: usize = 0;
    while c < width
        invariant
            c <= width,
            width == row@.len(),
            uv == updates_view(updates@),
            bad_update(row.deep_view().len(), uv, 0) is None,
            out@.len() == c,
            forall|k: int|
                0 <= k < c ==> #[trigger] out.deep_view()[k] == (match first_upd(uv, 0, k) {
                    Some(v) => v,
                    None => row.deep_view()[k],
                }),
        decreases width - c,
    {
        let mut j: usize = 0;
        let mut chosen: Option<String> = None;
        while j < updates.len() && chosen.is_none()
            invariant
                j <= updates@.len(),
                uv == updates_view(updates@),
                match chosen {
                    None => first_upd(uv, 0, c as int) == first_upd(uv, j as int, c as int),
                    Some(v) => first_upd(uv, 0, c as int) == Some(v@),
                },
            decreases updates@.len() - j,
        {
            proof {
                assert(uv[j as int] == (updates@[j as int].0, updates@[j as int].1@));
            }
            if updates[j].0 == c {
                chosen = Some(updates[j].1.clone());
            }
            j = j + 1;
        }
        let ghost dv_prev: Seq<Seq<char>> = out.deep_view();
        let cell = match chosen {
            Some(v) => {
                proof {
                    assert(first_upd(uv, 0, c as int) == Some(v@));
                }
                v
            },
            None => {
                proof {
                    assert(first_upd(uv, 0, c as int) is None);
                }
                row[c].clone()
            },
        };
        let ghost cellv: Seq<char> = cell@;
        out.push(cell);
        proof {
            assert(out.deep_view() =~= dv_prev.push(cellv));
            assert(row.deep_view()[c as int] == row@[c as int]@);
        }
        c = c + 1;
    }
    proof {
        match apply_updates_row(row.deep_view(), uv) {
            Ok(v) => {
                assert(out.deep_view() =~= v);
            },
            Err(_) => {
                assert(false);
            },
        }
    }
    Ok(out)
}

/// Replaces the named cells of `record` in place.
///
/// The first update for a column wins; every cell without an update keeps
/// its value. Fails with `ColumnIndex`, and leaves the record unchanged,
/// exactly when some update names a column at or beyond the record's width.
pub fn update_record(record: &mut Vec<String>, updates: &Vec<(usize, String)>) -> (r: Result<
    (),
    AppError,
>)
    ensures
        match r {
            Ok(u) => (apply_updates_row(old(record).deep_view(), updates_view(updates@)) matches Ok(
                v,
            ) && final(record).deep_view() == v),
            Err(e) => *final(record) == *old(record) && (apply_updates_row(
                old(record).deep_view(),
                updates_view(updates@),
            ) matches Err(c) && e@ == ErrModel::ColumnIndex(c)),
        },
{
    match build_updated_row(record, updates) {
        Ok(row2) => {
            *record = row2;
            Ok(())
        },
        Err(e) => Err(e),
    }
}

/// Law: a cell update touches nothing else. Updating row `i` keeps every
/// other row identical, keeps the row's width, and keeps every cell of row
/// `i` whose column the update list does not name.
pub proof fn lemma_update_isolation(
    rows: Seq<Seq<Seq<char>>>,
    i: int,
    updates: Seq<(usize, Seq<char>)>,
)
    requires
        0 <= i < rows.len(),
    ensures
        apply_at(rows, i, updates) matches Ok(v) ==> {
            &&& v.len() == rows.len()
            &&& forall|j: int| 0 <= j < rows.len() && j != i ==> #[trigger] v[j] == rows[j]
            &&& v[i].len() == rows[i].len()
            &&& forall|c: int|
                0 <= c < rows[i].len() && first_upd(updates, 0, c) is None ==> #[trigger] v[i][c]
                    == rows[i][c]
        },
{
}

// ---------------------------------------------------------------------------
// Finding the row an update is aimed at.
// ---------------------------------------------------------------------------

/// Whether a row has `key` in column `col`; a row too short to have that
/// column matches nothing.
pub open spec fn row_matches(row: Seq<Seq<char>>, col: int, key: Seq<char>) -> bool {
    col < row.len() && row[col] == key
}

/// The first row, from position `i` on, with `key` in column `col`.
pub open spec fn find_row(rows: Seq<Seq<Seq<char>>>, col: int, key: Seq<char>, i: int) -> Option<
    int,
>
    decreases rows.len() - i,
{
    if i < 0 || i >= rows.len() {
        None
    } else if row_matches(rows[i], col, key) {
        Some(i)
    } else {
        find_row(rows, col, key, i + 1)
    }
}

/// The first row, from position `i` on, with `key1` in `col1` and `key2` in
/// `col2`.
pub open spec fn find_row2(
    rows: Seq<Seq<Seq<char>>>,
    col1: int,
    key1: Seq<char>,
    col2: int,
    key2: Seq<char>,
    i: int,
) -> Option<int>
    decreases rows.len() - i,
{
    if i < 0 || i >= rows.len() {
        None
    } else if row_matches(rows[i], col1, key1) && row_matches(rows[i], col2, key2) {
        Some(i)
    } else {
        find_row2(rows, col1, key1, col2, key2, i + 1)
    }
}

/// Finds the first row with `key` in column `col`.
fn find_row_by(records: &Vec<Vec<String>>, col: usize, key: &str) -> (r: Option<usize>)
    ensures
        match r {
            Some(i) => i < records@.len() && find_row(records.deep_view(), col as int, key@, 0)
                == Some(i as int),
            None => find_row(records.deep_view(), col as int, key@, 0) is None,
        },
{
    let mut i: usize = 0;
    while i < records.len()
        invariant
            i <= records@.len(),
            find_row(records.deep_view(), col as int, key@, 0) == find_row(
                records.deep_view(),
                col as int,
                key@,
                i as int,
            ),
        decreases records@.len() - i,
    {
        let row = &records[i];
        proof {
            assert(records.deep_view()[i as int] =~= row.deep_view());
        }
        if col < row.len() {
            if str_eq_str(row[col].as_str(), key) {
                proof {
                    assert(row.deep_view()[col as int] == row@[col as int]@);
                    assert(row_matches(records.deep_view()[i as int], col as int, key@));
                }
                return Some(i);
            }
            proof {
                assert(row.deep_view()[col as int] == row@[col as int]@);
                assert(!row_matches(records.deep_view()[i as int], col as int, key@));
            }
        } else {
            proof {
                assert(!row_matches(records.deep_view()[i as int], col as int, key@));
            }
        }
        i = i + 1;
    }
    None
}

/// Finds the first row with `key1` in `col1` and `key2` in `col2`.
fn find_row2_by(records: &Vec<Vec<String>>, col1: usize, key1: &str, col2: usize, key2: &str) -> (r:
    Option<usize>)
    ensures
        match r {
            Some(i) => i < records@.len() && find_row2(
                records.deep_view(),
                col1 as int,
                key1@,
                col2 as int,
                key2@,
                0,
            ) == Some(i as int),
            None => find_row2(records.deep_view(), col1 as int, key1@, col2 as int, key2@, 0)
                is None,
        },
{
    let mut i: usize = 0;
    while i < records.len()
        invariant
            i <= records@.len(),
            find_row2(records.deep_view(), col1 as int, key1@, col2 as int, key2@, 0) == find_row2(
                records.deep_view(),
                col1 as int,
                key1@,
                col2 as int,
                key2@,
                i as int,
            ),
        decreases records@.len() - i,
    {
        let row = &records[i];
        proof {
            assert(records.deep_view()[i as int] =~= row.deep_view());
        }
        let m1 = if col1 < row.len() {
            let b = str_eq_str(row[col1].as_str(), key1);
            proof {
                assert(row.deep_view()[col1 as int] == row@[col1 as int]@);
            }
            b
        } else {
            false
        };
        let m2 = if col2 < row.len() {
            let b = str_eq_str(row[col2].as_str(), key2);
            proof {
                assert(row.deep_view()[col2 as int] == row@[col2 as int]@);
            }
            b
        } else {
            false
        };
        proof {
            assert(m1 == row_matches(records.deep_view()[i as int], col1 as int, key1@));
            assert(m2 == row_matches(records.deep_view()[i as int], col2 as int, key2@));
        }
        if m1 && m2 {
            return Some(i);
        }
        i = i + 1;
    }
    None
}

// ---------------------------------------------------------------------------
// The six update phases, in their fixed order.
// ---------------------------------------------------------------------------

/// The completion text an attempt writes.
pub open spec fn completed_text(c: bool) -> Seq<char> {
    if c {
        "COMPLETE"@
    } else {
        "UNCOMPLETED"@
    }
}

/// Subtraction clamped at zero: an incorrect count never underflows.
pub open spec fn sat_sub(a: u32, c: u32) -> nat {
    if a >= c {
        (a - c) as nat
    } else {
        0
    }
}

/// The text of an optional counter: its decimal rendering, or nothing.
pub open spec fn opt_u32_text(o: Option<u32>) -> Seq<char> {
    match o {
        Some(v) => dec_str(v as nat),
        None => Seq::empty(),
    }
}

/// The incorrect-count text: attempted minus correct, only when both are
/// present — never computed from a partial pair.
pub open spec fn incorrect_text(na: Option<u32>, nc: Option<u32>) -> Seq<char> {
    match (na, nc) {
        (Some(a), Some(c)) => dec_str(sat_sub(a, c)),
        _ => Seq::empty(),
    }
}

/// One row of the table replaced by its updated self.
pub open spec fn apply_at(
    rows: Seq<Seq<Seq<char>>>,
    i: int,
    updates: Seq<(usize, Seq<char>)>,
) -> Result<Seq<Seq<Seq<char>>>, int> {
    match apply_updates_row(rows[i], updates) {
        Ok(r2) => Ok(rows.update(i, r2)),
        Err(c) => Err(c),
    }
}

/// What the overall mastery writes into the course row.
pub open spec fn mastery_updates(m: MasteryV2) -> Seq<(usize, Seq<char>)> {
    seq![
        (COL_PERCENTAGE, dec_str(m.percentage as nat)),
        (COL_POINTS_EARNED, dec_str(m.points_earned as nat)),
    ]
}

/// Overall mastery goes to the first data row alone; a table without data
/// rows takes no update.
pub open spec fn phase_mastery(rows: Seq<Seq<Seq<char>>>, m: MasteryV2) -> Result<
    Seq<Seq<Seq<char>>>,
    int,
> {
    if rows.len() == 0 {
        Ok(rows)
    } else {
        apply_at(rows, 0, mastery_updates(m))
    }
}

/// One mastery-map entry sets `status` on the first row whose progress key
/// matches; no match is a no-op.
pub open spec fn apply_map_item(rows: Seq<Seq<Seq<char>>>, item: MasteryMapItem) -> Result<
    Seq<Seq<Seq<char>>>,
    int,
> {
    match find_row(rows, COL_PROGRESS_KEY as int, item.progress_key@, 0) {
        None => Ok(rows),
        Some(i) => apply_at(rows, i, seq![(COL_STATUS, item.status@)]),
    }
}

/// The mastery-map entries from position `k` on, applied in order.
pub open spec fn phase_map(
    rows: Seq<Seq<Seq<char>>>,
    items: Seq<MasteryMapItem>,
    k: int,
) -> Result<Seq<Seq<Seq<char>>>, int>
    decreases items.len() - k,
{
    if k < 0 || k >= items.len() {
        Ok(rows)
    } else {
        match apply_map_item(rows, items[k]) {
            Ok(r2) => phase_map(r2, items, k + 1),
            Err(c) => Err(c),
        }
    }
}

/// What one unit rollup writes into its unit's row.
pub open spec fn unit_updates(u: UnitProgress) -> Seq<(usize, Seq<char>)> {
    seq![
        (COL_PERCENTAGE, dec_str(u.current_mastery_v2.percentage as nat)),
        (COL_POINTS_EARNED, dec_str(u.current_mastery_v2.points_earned as nat)),
    ]
}

/// One unit rollup goes to the first row whose id equals the unit id.
pub open spec fn apply_unit_item(rows: Seq<Seq<Seq<char>>>, u: UnitProgress) -> Result<
    Seq<Seq<Seq<char>>>,
    int,
> {
    match find_row(rows, COL_ID as int, u.unit_id@, 0) {
        None => Ok(rows),
        Some(i) => apply_at(rows, i, unit_updates(u)),
    }
}

/// The unit rollups from position `k` on, applied in order.
pub open spec fn phase_units(
    rows: Seq<Seq<Seq<char>>>,
    items: Seq<UnitProgress>,
    k: int,
) -> Result<Seq<Seq<Seq<char>>>, int>
    decreases items.len() - k,
{
    if k < 0 || k >= items.len() {
        Ok(rows)
    } else {
        match apply_unit_item(rows, items[k]) {
            Ok(r2) => phase_units(r2, items, k + 1),
            Err(c) => Err(c),
        }
    }
}

/// The attempted counter a progress record carries, if any.
pub open spec fn item_na(p: ContentItemProgress) -> Option<u32> {
    match p.best_score {
        Some(bs) => bs.num_attempted,
        None => None,
    }
}

/// The correct counter a progress record carries, if any.
pub open spec fn item_nc(p: ContentItemProgress) -> Option<u32> {
    match p.best_score {
        Some(bs) => bs.num_correct,
        None => None,
    }
}

/// What one content-item progress record writes into its row.
pub open spec fn item_updates(p: ContentItemProgress) -> Seq<(usize, Seq<char>)> {
    seq![
        (COL_COMPLETION_STATUS, p.completion_status@),
        (COL_NUM_ATTEMPTED, opt_u32_text(item_na(p))),
        (COL_NUM_CORRECT, opt_u32_text(item_nc(p))),
        (COL_NUM_INCORRECT, incorrect_text(item_na(p), item_nc(p))),
    ]
}

/// One content-item record goes to the first row whose progress key equals
/// the record's content key.
pub open spec fn apply_item(rows: Seq<Seq<Seq<char>>>, p: ContentItemProgress) -> Result<
    Seq<Seq<Seq<char>>>,
    int,
> {
    match find_row(rows, COL_PROGRESS_KEY as int, p.content.progress_key@, 0) {
        None => Ok(rows),
        Some(i) => apply_at(rows, i, item_updates(p)),
    }
}

/// One batch of content-item records, from position `k` on.
pub open spec fn phase_item_batch(
    rows: Seq<Seq<Seq<char>>>,
    items: Seq<ContentItemProgress>,
    k: int,
) -> Result<Seq<Seq<Seq<char>>>, int>
    decreases items.len() - k,
{
    if k < 0 || k >= items.len() {
        Ok(rows)
    } else {
        match apply_item(rows, items[k]) {
            Ok(r2) => phase_item_batch(r2, items, k + 1),
            Err(c) => Err(c),
        }
    }
}

/// All content-item batches, from batch `b` on, concatenated in file order.
pub open spec fn phase_items(
    rows: Seq<Seq<Seq<char>>>,
    batches: Seq<Vec<ContentItemProgress>>,
    b: int,
) -> Result<Seq<Seq<Seq<char>>>, int>
    decreases batches.len() - b,
{
    if b < 0 || b >= batches.len() {
        Ok(rows)
    } else {
        match phase_item_batch(rows, batches[b]@, 0) {
            Ok(r2) => phase_items(r2, batches, b + 1),
            Err(c) => Err(c),
        }
    }
}

/// What one attempt writes into its row.
pub open spec fn attempt_updates(c: bool, na: u32, nc: u32) -> Seq<(usize, Seq<char>)> {
    seq![
        (COL_COMPLETION_STATUS, completed_text(c)),
        (COL_NUM_ATTEMPTED, dec_str(na as nat)),
        (COL_NUM_CORRECT, dec_str(nc as nat)),
        (COL_NUM_INCORRECT, dec_str(sat_sub(na, nc))),
    ]
}

/// One attempt goes to the first row whose id equals the decoded parent id
/// and whose type equals the given literal; no match is a no-op.
pub open spec fn apply_attempt(
    rows: Seq<Seq<Seq<char>>>,
    parent_id: Seq<char>,
    type_literal: Seq<char>,
    c: bool,
    na: u32,
    nc: u32,
) -> Result<Seq<Seq<Seq<char>>>, int> {
    match find_row2(rows, COL_ID as int, parent_id, COL_TYPE as int, type_literal, 0) {
        None => Ok(rows),
        Some(i) => apply_at(rows, i, attempt_updates(c, na, nc)),
    }
}

/// One batch of quiz attempts, from position `k` on; rows are matched
/// against the type `TopicQuiz`.
pub open spec fn phase_quiz_batch(
    rows: Seq<Seq<Seq<char>>>,
    items: Seq<TopicQuizAttempt>,
    k: int,
) -> Result<Seq<Seq<Seq<char>>>, int>
    decreases items.len() - k,
{
    if k < 0 || k >= items.len() {
        Ok(rows)
    } else {
        match apply_attempt(
            rows,
            items[k].parent_id@,
            "TopicQuiz"@,
            items[k].is_completed,
            items[k].num_attempted,
            items[k].num_correct,
        ) {
            Ok(r2) => phase_quiz_batch(r2, items, k + 1),
            Err(c) => Err(c),
        }
    }
}

/// All quiz-attempt batches, from batch `b` on.
pub open spec fn phase_quizzes(
    rows: Seq<Seq<Seq<char>>>,
    batches: Seq<Vec<TopicQuizAttempt>>,
    b: int,
) -> Result<Seq<Seq<Seq<char>>>, int>
    decreases batches.len() - b,
{
    if b < 0 || b >= batches.len() {
        Ok(rows)
    } else {
        match phase_quiz_batch(rows, batches[b]@, 0) {
            Ok(r2) => phase_quizzes(r2, batches, b + 1),
            Err(c) => Err(c),
        }
    }
}

/// One batch of unit-test attempts, from position `k` on; rows are matched
/// against the type `TopicUnitTest`.
pub open spec fn phase_test_batch(
    rows: Seq<Seq<Seq<char>>>,
    items: Seq<TopicUnitTestAttempt>,
    k: int,
) -> Result<Seq<Seq<Seq<char>>>, int>
    decreases items.len() - k,
{
    if k < 0 || k >= items.len() {
        Ok(rows)
    } else {
        match apply_attempt(
            rows,
            items[k].parent_id@,
            "TopicUnitTest"@,
            items[k].is_completed,
            items[k].num_attempted,
            items[k].num_correct,
        ) {
            Ok(r2) => phase_test_batch(r2, items, k + 1),
            Err(c) => Err(c),
        }
    }
}

/// All unit-test-attempt batches, from batch `b` on.
pub open spec fn phase_tests(
    rows: Seq<Seq<Seq<char>>>,
    batches: Seq<Vec<TopicUnitTestAttempt>>,
    b: int,
) -> Result<Seq<Seq<Seq<char>>>, int>
    decreases batches.len() - b,
{
    if b < 0 || b >= batches.len() {
        Ok(rows)
    } else {
        match phase_test_batch(rows, batches[b]@, 0) {
            Ok(r2) => phase_tests(r2, batches, b + 1),
            Err(c) => Err(c),
        }
    }
}

/// The whole merge: the six phases in their fixed order — overall mastery,
/// mastery map, unit rollups, content-item batches, quiz batches, unit-test
/// batches — or the first out-of-range column.
pub open spec fn apply_all(
    rows: Seq<Seq<Seq<char>>>,
    m: MasteryV2,
    map: Seq<MasteryMapItem>,
    units: Seq<UnitProgress>,
    item_batches: Seq<Vec<ContentItemProgress>>,
    quiz_batches: Seq<Vec<TopicQuizAttempt>>,
    test_batches: Seq<Vec<TopicUnitTestAttempt>>,
) -> Result<Seq<Seq<Seq<char>>>, int> {
    match phase_mastery(rows, m) {
        Err(c) => Err(c),
        Ok(r1) => match phase_map(r1, map, 0) {
            Err(c) => Err(c),
            Ok(r2) => match phase_units(r2, units, 0) {
                Err(c) => Err(c),
                Ok(r3) => match phase_items(r3, item_batches, 0) {
                    Err(c) => Err(c),
                    Ok(r4) => match phase_quizzes(r4, quiz_batches, 0) {
                        Err(c) => Err(c),
                        Ok(r5) => phase_tests(r5, test_batches, 0),
                    },
                },
            },
        },
    }
}

// ---------------------------------------------------------------------------
// The executable phases.
// ---------------------------------------------------------------------------

/// Renders an optional counter cell.
fn opt_u32_cell(o: Option<u32>) -> (r: String)
    ensures
        r@ == opt_u32_text(o),
{
    match o {
        Some(v) => u32_to_string(v),
        None => String::new(),
    }
}

/// Renders the incorrect-count cell.
fn incorrect_cell(na: Option<u32>, nc: Option<u32>) -> (r: String)
    ensures
        r@ == incorrect_text(na, nc),
{
    match (na, nc) {
        (Some(a), Some(c)) => {
            let d: u32 = if a >= c {
                a - c
            } else {
                0
            };
            u32_to_string(d)
        },
        _ => String::new(),
    }
}

/// Renders the completion cell of an attempt.
fn completed_cell(c: bool) -> (r: String)
    ensures
        r@ == completed_text(c),
{
    if c {
        "COMPLETE".to_owned()
    } else {
        "UNCOMPLETED".to_owned()
    }
}

/// Replaces the cells of row `i` in place.
fn set_row(records: &mut Vec<Vec<String>>, i: usize, updates: &Vec<(usize, String)>) -> (r: Result<
    (),
    AppError,
>)
    requires
        i < old(records)@.len(),
    ensures
        match r {
            Ok(u) => (apply_at(old(records).deep_view(), i as int, updates_view(updates@)) matches
                Ok(v) && final(records).deep_view() == v),
            Err(e) => (apply_at(old(records).deep_view(), i as int, updates_view(updates@)) matches
                Err(c) && e@ == ErrModel::ColumnIndex(c)),
        },
{
    proof {
        assert(old(records).deep_view()[i as int] =~= old(records)@[i as int].deep_view());
    }
    let row2 = match build_updated_row(&records[i], updates) {
        Ok(v) => v,
        Err(e) => {
            return Err(e);
        },
    };
    let ghost row2v: Seq<Seq<char>> = row2.deep_view();
    records.set(i, row2);
    proof {
        assert(records.deep_view() =~= old(records).deep_view().update(i as int, row2v));
    }
    Ok(())
}

/// Applies the overall mastery to the course row.
fn apply_mastery_phase(records: &mut Vec<Vec<String>>, m: &MasteryV2) -> (r: Result<(), AppError>)
    ensures
        match r {
            Ok(u) => (phase_mastery(old(records).deep_view(), *m) matches Ok(v) && final(records).deep_view() == v),
            Err(e) => (phase_mastery(old(records).deep_view(), *m) matches Err(c) && e@
                == ErrModel::ColumnIndex(c)),
        },
{
    if records.len() == 0 {
        return Ok(());
    }
    let mut updates: Vec<(usize, String)> = Vec::new();
    updates.push((COL_PERCENTAGE, u32_to_string(m.percentage)));
    updates.push((COL_POINTS_EARNED, u32_to_string(m.points_earned)));
    proof {
        assert(updates_view(updates@) =~= mastery_updates(*m));
    }
    set_row(records, 0, &updates)
}

/// Applies every mastery-map entry, in order.
fn apply_map_phase(records: &mut Vec<Vec<String>>, items: &Vec<MasteryMapItem>) -> (r: Result<
    (),
    AppError,
>)
    ensures
        match r {
            Ok(u) => (phase_map(old(records).deep_view(), items@, 0) matches Ok(v) && final(records).deep_view() == v),
            Err(e) => (phase_map(old(records).deep_view(), items@, 0) matches Err(c) && e@
                == ErrModel::ColumnIndex(c)),
        },
{
    let mut k: usize = 0;
    while k < items.len()
        invariant
            k <= items@.len(),
            phase_map(old(records).deep_view(), items@, 0) == phase_map(
                records.deep_view(),
                items@,
                k as int,
            ),
        decreases items@.len() - k,
    {
        let item = &items[k];
        match find_row_by(records, COL_PROGRESS_KEY, item.progress_key.as_str()) {
            Some(i) => {
                let mut updates: Vec<(usize, String)> = Vec::new();
                updates.push((COL_STATUS, item.status.clone()));
                proof {
                    assert(updates_view(updates@) =~= seq![(COL_STATUS, items@[k as int].status@)]);
                }
                match set_row(records, i, &updates) {
                    Ok(u) => {},
                    Err(e) => {
                        return Err(e);
                    },
                }
            },
            None => {},
        }
        k = k + 1;
    }
    Ok(())
}

/// Applies every unit rollup, in order.
fn apply_units_phase(records: &mut Vec<Vec<String>>, items: &Vec<UnitProgress>) -> (r: Result<
    (),
    AppError,
>)
    ensures
        match r {
            Ok(u) => (phase_units(old(records).deep_view(), items@, 0) matches Ok(v) && final(records).deep_view() == v),
            Err(e) => (phase_units(old(records).deep_view(), items@, 0) matches Err(c) && e@
                == ErrModel::ColumnIndex(c)),
        },
{
    let mut k: usize = 0;
    while k < items.len()
        invariant
            k <= items@.len(),
            phase_units(old(records).deep_view(), items@, 0) == phase_units(
                records.deep_view(),
                items@,
                k as int,
            ),
        decreases items@.len() - k,
    {
        let item = &items[k];
        match find_row_by(records, COL_ID, item.unit_id.as_str()) {
            Some(i) => {
                let mut updates: Vec<(usize, String)> = Vec::new();
                updates.push((COL_PERCENTAGE, u32_to_string(item.current_mastery_v2.percentage)));
                updates.push((
                    COL_POINTS_EARNED,
                    u32_to_string(item.current_mastery_v2.points_earned),
                ));
                proof {
                    assert(updates_view(updates@) =~= unit_updates(items@[k as int]));
                }
                match set_row(records, i, &updates) {
                    Ok(u) => {},
                    Err(e) => {
                        return Err(e);
                    },
                }
            },
            None => {},
        }
        k = k + 1;
    }
    Ok(())
}

/// Applies one batch of content-item progress records, in order.
fn apply_item_batch(records: &mut Vec<Vec<String>>, items: &Vec<ContentItemProgress>) -> (r: Result<
    (),
    AppError,
>)
    ensures
        match r {
            Ok(u) => (phase_item_batch(old(records).deep_view(), items@, 0) matches Ok(v) && final(records).deep_view() == v),
            Err(e) => (phase_item_batch(old(records).deep_view(), items@, 0) matches Err(c) && e@
                == ErrModel::ColumnIndex(c)),
        },
{
    let mut k: usize = 0;
    while k < items.len()
        invariant
            k <= items@.len(),
            phase_item_batch(old(records).deep_view(), items@, 0) == phase_item_batch(
                records.deep_view(),
                items@,
                k as int,
            ),
        decreases items@.len() - k,
    {
        let p = &items[k];
        match find_row_by(records, COL_PROGRESS_KEY, p.content.progress_key.as_str()) {
            Some(i) => {
                let na: Option<u32> = match &p.best_score {
                    Some(bs) => bs.num_attempted,
                    None => None,
                };
                let nc: Option<u32> = match &p.best_score {
                    Some(bs) => bs.num_correct,
                    None => None,
                };
                let mut updates: Vec<(usize, String)> = Vec::new();
                updates.push((COL_COMPLETION_STATUS, p.completion_status.clone()));
                updates.push((COL_NUM_ATTEMPTED, opt_u32_cell(na)));
                updates.push((COL_NUM_CORRECT, opt_u32_cell(nc)));
                updates.push((COL_NUM_INCORRECT, incorrect_cell(na, nc)));
                proof {
                    assert(updates_view(updates@) =~= item_updates(items@[k as int]));
                }
                match set_row(records, i, &updates) {
                    Ok(u) => {},
                    Err(e) => {
                        return Err(e);
                    },
                }
            },
            None => {},
        }
        k = k + 1;
    }
    Ok(())
}

/// Applies one attempt to the row matching its decoded parent id and the
/// given type literal.
fn apply_attempt_row(
    records: &mut Vec<Vec<String>>,
    parent_id: &str,
    type_literal: &str,
    completed: bool,
    na: u32,
    nc: u32,
) -> (r: Result<(), AppError>)
    ensures
        match r {
            Ok(u) => (apply_attempt(
                old(records).deep_view(),
                parent_id@,
                type_literal@,
                completed,
                na,
                nc,
            ) matches Ok(v) && final(records).deep_view() == v),
            Err(e) => (apply_attempt(
                old(records).deep_view(),
                parent_id@,
                type_literal@,
                completed,
                na,
                nc,
            ) matches Err(c) && e@ == ErrModel::ColumnIndex(c)),
        },
{
    match find_row2_by(records, COL_ID, parent_id, COL_TYPE, type_literal) {
        Some(i) => {
            let sat: u32 = if na >= nc {
                na - nc
            } else {
                0
            };
            let mut updates: Vec<(usize, String)> = Vec::new();
            updates.push((COL_COMPLETION_STATUS, completed_cell(completed)));
            updates.push((COL_NUM_ATTEMPTED, u32_to_string(na)));
            updates.push((COL_NUM_CORRECT, u32_to_string(nc)));
            updates.push((COL_NUM_INCORRECT, u32_to_string(sat)));
            proof {
                assert(updates_view(updates@) =~= attempt_updates(completed, na, nc));
            }
            set_row(records, i, &updates)
        },
        None => Ok(()),
    }
}

/// Applies one batch of quiz attempts, in order.
fn apply_quiz_batch(records: &mut Vec<Vec<String>>, items: &Vec<TopicQuizAttempt>) -> (r: Result<
    (),
    AppError,
>)
    ensures
        match r {
            Ok(u) => (phase_quiz_batch(old(records).deep_view(), items@, 0) matches Ok(v) && final(records).deep_view() == v),
            Err(e) => (phase_quiz_batch(old(records).deep_view(), items@, 0) matches Err(c) && e@
                == ErrModel::ColumnIndex(c)),
        },
{
    let mut k: usize = 0;
    while k < items.len()
        invariant
            k <= items@.len(),
            phase_quiz_batch(old(records).deep_view(), items@, 0) == phase_quiz_batch(
                records.deep_view(),
                items@,
                k as int,
            ),
        decreases items@.len() - k,
    {
        let a = &items[k];
        match apply_attempt_row(
            records,
            a.parent_id.as_str(),
            "TopicQuiz",
            a.is_completed,
            a.num_attempted,
            a.num_correct,
        ) {
            Ok(u) => {},
            Err(e) => {
                return Err(e);
            },
        }
        k = k + 1;
    }
    Ok(())
}

/// Applies one batch of unit-test attempts, in order.
fn apply_test_batch(records: &mut Vec<Vec<String>>, items: &Vec<TopicUnitTestAttempt>) -> (r:
    Result<(), AppError>)
    ensures
        match r {
            Ok(u) => (phase_test_batch(old(records).deep_view(), items@, 0) matches Ok(v) && final(records).deep_view() == v),
            Err(e) => (phase_test_batch(old(records).deep_view(), items@, 0) matches Err(c) && e@
                == ErrModel::ColumnIndex(c)),
        },
{
    let mut k: usize = 0;
    while k < items.len()
        invariant
            k <= items@.len(),
            phase_test_batch(old(records).deep_view(), items@, 0) == phase_test_batch(
                records.deep_view(),
                items@,
                k as int,
            ),
        decreases items@.len() - k,
    {
        let a = &items[k];
        match apply_attempt_row(
            records,
            a.parent_id.as_str(),
            "TopicUnitTest",
            a.is_completed,
            a.num_attempted,
            a.num_correct,
        ) {
            Ok(u) => {},
            Err(e) => {
                return Err(e);
            },
        }
        k = k + 1;
    }
    Ok(())
}

/// Overlays the five progress collections onto the data rows, in the fixed
/// six-phase order. Later phases may overwrite columns touched by earlier
/// ones when the same row matches twice.
///
/// Fails with `ColumnIndex` exactly when some phase addresses a column
/// beyond its matched row's width; matching misses are quiet no-ops.
pub fn apply_progress_updates(
    records: &mut Vec<Vec<String>>,
    mastery_v2: &MasteryV2,
    mastery_map: &Vec<MasteryMapItem>,
    unit_progress: &Vec<UnitProgress>,
    items_progresses: &Vec<Vec<ContentItemProgress>>,
    quizzes_progresses: &Vec<Vec<TopicQuizAttempt>>,
    tests_progresses: &Vec<Vec<TopicUnitTestAttempt>>,
) -> (r: Result<(), AppError>)
    ensures
        match r {
            Ok(u) => (apply_all(
                old(records).deep_view(),
                *mastery_v2,
                mastery_map@,
                unit_progress@,
                items_progresses@,
                quizzes_progresses@,
                tests_progresses@,
            ) matches Ok(v) && final(records).deep_view() == v),
            Err(e) => (apply_all(
                old(records).deep_view(),
                *mastery_v2,
                mastery_map@,
                unit_progress@,
                items_progresses@,
                quizzes_progresses@,
                tests_progresses@,
            ) matches Err(c) && e@ == ErrModel::ColumnIndex(c)),
        },
{
    let ghost rows0: Seq<Seq<Seq<char>>> = records.deep_view();
    match apply_mastery_phase(records, mastery_v2) {
        Ok(u) => {},
        Err(e) => {
            return Err(e);
        },
    }
    let ghost rows1: Seq<Seq<Seq<char>>> = records.deep_view();
    match apply_map_phase(records, mastery_map) {
        Ok(u) => {},
        Err(e) => {
            return Err(e);
        },
    }
    let ghost rows2: Seq<Seq<Seq<char>>> = records.deep_view();
    match apply_units_phase(records, unit_progress) {
        Ok(u) => {},
        Err(e) => {
            return Err(e);
        },
    }
    let ghost rows3: Seq<Seq<Seq<char>>> = records.deep_view();
    let mut b: usize = 0;
    while b < items_progresses.len()
        invariant
            b <= items_progresses@.len(),
            rows0 == old(records).deep_view(),
            phase_mastery(rows0, *mastery_v2) == Ok::<Seq<Seq<Seq<char>>>, int>(rows1),
            phase_map(rows1, mastery_map@, 0) == Ok::<Seq<Seq<Seq<char>>>, int>(rows2),
            phase_units(rows2, unit_progress@, 0) == Ok::<Seq<Seq<Seq<char>>>, int>(rows3),
            phase_items(rows3, items_progresses@, 0) == phase_items(
                records.deep_view(),
                items_progresses@,
                b as int,
            ),
        decreases items_progresses@.len() - b,
    {
        let ghost cur: Seq<Seq<Seq<char>>> = records.deep_view();
        match apply_item_batch(records, &items_progresses[b]) {
            Ok(u) => {
                proof {
                    assert(phase_items(cur, items_progresses@, b as int) == phase_items(
                        records.deep_view(),
                        items_progresses@,
                        b as int + 1,
                    ));
                }
            },
            Err(e) => {
                proof {
                    assert(phase_items(cur, items_progresses@, b as int) is Err);
                    assert(phase_items(rows3, items_progresses@, 0) is Err);
                }
                return Err(e);
            },
        }
        b = b + 1;
    }
    let ghost rows4: Seq<Seq<Seq<char>>> = records.deep_view();
    let mut b2: usize = 0;
    while b2 < quizzes_progresses.len()
        invariant
            b2 <= quizzes_progresses@.len(),
            rows0 == old(records).deep_view(),
            phase_mastery(rows0, *mastery_v2) == Ok::<Seq<Seq<Seq<char>>>, int>(rows1),
            phase_map(rows1, mastery_map@, 0) == Ok::<Seq<Seq<Seq<char>>>, int>(rows2),
            phase_units(rows2, unit_progress@, 0) == Ok::<Seq<Seq<Seq<char>>>, int>(rows3),
            phase_items(rows3, items_progresses@, 0) == Ok::<Seq<Seq<Seq<char>>>, int>(rows4),
            phase_quizzes(rows4, quizzes_progresses@, 0) == phase_quizzes(
                records.deep_view(),
                quizzes_progresses@,
                b2 as int,
            ),
        decreases quizzes_progresses@.len() - b2,
    {
        let ghost cur: Seq<Seq<Seq<char>>> = records.deep_view();
        match apply_quiz_batch(records, &quizzes_progresses[b2]) {
            Ok(u) => {
                proof {
                    assert(phase_quizzes(cur, quizzes_progresses@, b2 as int) == phase_quizzes(
                        records.deep_view(),
                        quizzes_progresses@,
                        b2 as int + 1,
                    ));
                }
            },
            Err(e) => {
                proof {
                    assert(phase_quizzes(cur, quizzes_progresses@, b2 as int) is Err);
                    assert(phase_quizzes(rows4, quizzes_progresses@, 0) is Err);
                }
                return Err(e);
            },
        }
        b2 = b2 + 1;
    }
    let ghost rows5: Seq<Seq<Seq<char>>> = records.deep_view();
    let mut b3: usize = 0;
    while b3 < tests_progresses.len()
        invariant
            b3 <= tests_progresses@.len(),
            rows0 == old(records).deep_view(),
            phase_mastery(rows0, *mastery_v2) == Ok::<Seq<Seq<Seq<char>>>, int>(rows1),
            phase_map(rows1, mastery_map@, 0) == Ok::<Seq<Seq<Seq<char>>>, int>(rows2),
            phase_units(rows2, unit_progress@, 0) == Ok::<Seq<Seq<Seq<char>>>, int>(rows3),
            phase_items(rows3, items_progresses@, 0) == Ok::<Seq<Seq<Seq<char>>>, int>(rows4),
            phase_quizzes(rows4, quizzes_progresses@, 0) == Ok::<Seq<Seq<Seq<char>>>, int>(rows5),
            phase_tests(rows5, tests_progresses@, 0) == phase_tests(
                records.deep_view(),
                tests_progresses@,
                b3 as int,
            ),
        decreases tests_progresses@.len() - b3,
    {
        let ghost cur: Seq<Seq<Seq<char>>> = records.deep_view();
        match apply_test_batch(records, &tests_progresses[b3]) {
            Ok(u) => {
                proof {
                    assert(phase_tests(cur, tests_progresses@, b3 as int) == phase_tests(
                        records.deep_view(),
                        tests_progresses@,
                        b3 as int + 1,
                    ));
                }
            },
            Err(e) => {
                proof {
                    assert(phase_tests(cur, tests_progresses@, b3 as int) is Err);
                    assert(phase_tests(rows5, tests_progresses@, 0) is Err);
                }
                return Err(e);
            },
        }
        b3 = b3 + 1;
    }
    Ok(())
}

/// Rewrites the persisted table's text with the merged progress data.
///
/// The first row of the text is the header and is kept as it stands; the
/// remaining rows take the six update phases. Fails with `Parse` when the
/// text is not a readable table or has no header row, and with
/// `ColumnIndex` as the phases do.
pub fn update_csv(
    csv_text: &str,
    mastery_v2: &MasteryV2,
    mastery_map: &Vec<MasteryMapItem>,
    unit_progress: &Vec<UnitProgress>,
    items_progresses: &Vec<Vec<ContentItemProgress>>,
    quizzes_progresses: &Vec<Vec<TopicQuizAttempt>>,
    tests_progresses: &Vec<Vec<TopicUnitTestAttempt>>,
) -> (r: Result<String, AppError>)
    ensures
        match r {
            Ok(out) => (csv_rows_of(csv_text@) matches Some(all) && all.len() > 0 && (apply_all(
                all.skip(1),
                *mastery_v2,
                mastery_map@,
                unit_progress@,
                items_progresses@,
                quizzes_progresses@,
                tests_progresses@,
            ) matches Ok(updated) && out@ == csv_text_of(seq![all[0]] + updated))),
            Err(e) => match e@ {
                ErrModel::Parse(msg) => (csv_rows_of(csv_text@) is None && msg == "malformed CSV"@)
                    || (msg == "empty table"@ && (csv_rows_of(csv_text@) matches Some(all)
                    && all.len() == 0)),
                ErrModel::ColumnIndex(c) => (csv_rows_of(csv_text@) matches Some(all) && all.len()
                    > 0 && apply_all(
                    all.skip(1),
                    *mastery_v2,
                    mastery_map@,
                    unit_progress@,
                    items_progresses@,
                    quizzes_progresses@,
                    tests_progresses@,
                ) == Err::<Seq<Seq<Seq<char>>>, int>(c)),
                _ => false,
            },
        },
{
    let mut all = match csv_to_rows(csv_text) {
        Some(v) => v,
        None => {
            return Err(AppError::Parse("malformed CSV".to_owned()));
        },
    };
    if all.len() == 0 {
        return Err(AppError::Parse("empty table".to_owned()));
    }
    let ghost orig: Seq<Seq<Seq<char>>> = all.deep_view();
    let mut data = all.split_off(1);
    proof {
        assert(data.deep_view() =~= orig.skip(1));
        assert(all.deep_view() =~= seq![orig[0]]);
    }
    match apply_progress_updates(
        &mut data,
        mastery_v2,
        mastery_map,
        unit_progress,
        items_progresses,
        quizzes_progresses,
        tests_progresses,
    ) {
        Ok(u) => {},
        Err(e) => {
            return Err(e);
        },
    }
    let ghost updated: Seq<Seq<Seq<char>>> = data.deep_view();
    all.append(&mut data);
    proof {
        assert(all.deep_view() =~= seq![orig[0]] + updated);
    }
    Ok(rows_to_csv(&all))
}

// ---------------------------------------------------------------------------
// What the merge leaves alone, stated once as laws.
// ---------------------------------------------------------------------------

/// A found row index lies within the table.
proof fn lemma_find_row_in_range(rows: Seq<Seq<Seq<char>>>, col: int, key: Seq<char>, j: int)
    ensures
        find_row(rows, col, key, j) matches Some(i) ==> 0 <= i < rows.len(),
    decreases rows.len() - j,
{
    if 0 <= j && j < rows.len() {
        lemma_find_row_in_range(rows, col, key, j + 1);
    }
}

/// A found row index lies within the table.
proof fn lemma_find_row2_in_range(
    rows: Seq<Seq<Seq<char>>>,
    col1: int,
    key1: Seq<char>,
    col2: int,
    key2: Seq<char>,
    j: int,
)
    ensures
        find_row2(rows, col1, key1, col2, key2, j) matches Some(i) ==> 0 <= i < rows.len(),
    decreases rows.len() - j,
{
    if 0 <= j && j < rows.len() {
        lemma_find_row2_in_range(rows, col1, key1, col2, key2, j + 1);
    }
}

/// Whether every update in the list names a progress column — `percentage`
/// through `numIncorrect`.
pub open spec fn updates_in_progress_cols(updates: Seq<(usize, Seq<char>)>) -> bool {
    forall|k: int|
        0 <= k < updates.len() ==> COL_PERCENTAGE <= (#[trigger] updates[k]).0
            <= COL_NUM_INCORRECT
}

/// Whether `v` is `rows` with changes confined to the progress columns:
/// the same number of rows in the same order, every row keeping its width,
/// and every cell outside `percentage..=numIncorrect` exactly as before.
pub open spec fn agrees_outside_progress(
    v: Seq<Seq<Seq<char>>>,
    rows: Seq<Seq<Seq<char>>>,
) -> bool {
    &&& v.len() == rows.len()
    &&& forall|i: int| 0 <= i < rows.len() ==> (#[trigger] v[i]).len() == rows[i].len()
    &&& forall|i: int, c: int|
        0 <= i < rows.len() && 0 <= c < rows[i].len() && !(COL_PERCENTAGE <= c
            <= COL_NUM_INCORRECT) ==> #[trigger] v[i][c] == rows[i][c]
}

proof fn lemma_agrees_refl(rows: Seq<Seq<Seq<char>>>)
    ensures
        agrees_outside_progress(rows, rows),
{
}

proof fn lemma_agrees_trans(a: Seq<Seq<Seq<char>>>, b: Seq<Seq<Seq<char>>>, c: Seq<Seq<Seq<char>>>)
    requires
        agrees_outside_progress(b, a),
        agrees_outside_progress(c, b),
    ensures
        agrees_outside_progress(c, a),
{
    assert forall|i: int, x: int|
        0 <= i < a.len() && 0 <= x < a[i].len() && !(COL_PERCENTAGE <= x <= COL_NUM_INCORRECT)
            implies #[trigger] c[i][x] == a[i][x] by {
        assert(b[i][x] == a[i][x]);
        assert(c[i][x] == b[i][x]);
    }
}

/// An update list that names only progress columns assigns nothing to any
/// other column.
proof fn lemma_first_upd_progress_none(updates: Seq<(usize, Seq<char>)>, j: int, c: int)
    requires
        updates_in_progress_cols(updates),
        !(COL_PERCENTAGE <= c <= COL_NUM_INCORRECT),
    ensures
        first_upd(updates, j, c) is None,
    decreases updates.len() - j,
{
    if 0 <= j && j < updates.len() {
        assert(COL_PERCENTAGE <= updates[j].0 <= COL_NUM_INCORRECT);
        lemma_first_upd_progress_none(updates, j + 1, c);
    }
}

/// One in-place row update with progress-column updates only keeps
/// everything outside the progress columns.
proof fn lemma_apply_at_outside(rows: Seq<Seq<Seq<char>>>, i: int, updates: Seq<(usize, Seq<char>)>)
    requires
        updates_in_progress_cols(updates),
        0 <= i < rows.len(),
    ensures
        apply_at(rows, i, updates) matches Ok(v) ==> agrees_outside_progress(v, rows),
{
    match apply_at(rows, i, updates) {
        Ok(v) => {
            match apply_updates_row(rows[i], updates) {
                Ok(r2) => {
                    assert forall|c: int|
                        0 <= c < rows[i].len() && !(COL_PERCENTAGE <= c <= COL_NUM_INCORRECT)
                            implies #[trigger] r2[c] == rows[i][c] by {
                        lemma_first_upd_progress_none(updates, 0, c);
                    }
                    assert(agrees_outside_progress(v, rows));
                },
                Err(u) => {
                    assert(false);
                },
            }
        },
        Err(u) => {},
    }
}

proof fn lemma_phase_mastery_outside(rows: Seq<Seq<Seq<char>>>, m: MasteryV2)
    ensures
        phase_mastery(rows, m) matches Ok(v) ==> agrees_outside_progress(v, rows),
{
    if rows.len() == 0 {
        lemma_agrees_refl(rows);
    } else {
        assert(updates_in_progress_cols(mastery_updates(m)));
        lemma_apply_at_outside(rows, 0, mastery_updates(m));
    }
}

proof fn lemma_phase_map_outside(rows: Seq<Seq<Seq<char>>>, items: Seq<MasteryMapItem>, k: int)
    ensures
        phase_map(rows, items, k) matches Ok(v) ==> agrees_outside_progress(v, rows),
    decreases items.len() - k,
{
    if k < 0 || k >= items.len() {
        lemma_agrees_refl(rows);
    } else {
        match apply_map_item(rows, items[k]) {
            Ok(r2) => {
                match find_row(rows, COL_PROGRESS_KEY as int, items[k].progress_key@, 0) {
                    None => {
                        lemma_agrees_refl(rows);
                    },
                    Some(i) => {
                        lemma_find_row_in_range(
                            rows,
                            COL_PROGRESS_KEY as int,
                            items[k].progress_key@,
                            0,
                        );
                        assert(updates_in_progress_cols(seq![(COL_STATUS, items[k].status@)]));
                        lemma_apply_at_outside(rows, i, seq![(COL_STATUS, items[k].status@)]);
                    },
                }
                lemma_phase_map_outside(r2, items, k + 1);
                match phase_map(r2, items, k + 1) {
                    Ok(v) => {
                        lemma_agrees_trans(rows, r2, v);
                    },
                    Err(u) => {},
                }
            },
            Err(u) => {},
        }
    }
}

proof fn lemma_phase_units_outside(rows: Seq<Seq<Seq<char>>>, items: Seq<UnitProgress>, k: int)
    ensures
        phase_units(rows, items, k) matches Ok(v) ==> agrees_outside_progress(v, rows),
    decreases items.len() - k,
{
    if k < 0 || k >= items.len() {
        lemma_agrees_refl(rows);
    } else {
        match apply_unit_item(rows, items[k]) {
            Ok(r2) => {
                match find_row(rows, COL_ID as int, items[k].unit_id@, 0) {
                    None => {
                        lemma_agrees_refl(rows);
                    },
                    Some(i) => {
                        lemma_find_row_in_range(rows, COL_ID as int, items[k].unit_id@, 0);
                        assert(updates_in_progress_cols(unit_updates(items[k])));
                        lemma_apply_at_outside(rows, i, unit_updates(items[k]));
                    },
                }
                lemma_phase_units_outside(r2, items, k + 1);
                match phase_units(r2, items, k + 1) {
                    Ok(v) => {
                        lemma_agrees_trans(rows, r2, v);
                    },
                    Err(u) => {},
                }
            },
            Err(u) => {},
        }
    }
}

proof fn lemma_phase_item_batch_outside(
    rows: Seq<Seq<Seq<char>>>,
    items: Seq<ContentItemProgress>,
    k: int,
)
    ensures
        phase_item_batch(rows, items, k) matches Ok(v) ==> agrees_outside_progress(v, rows),
    decreases items.len() - k,
{
    if k < 0 || k >= items.len() {
        lemma_agrees_refl(rows);
    } else {
        match apply_item(rows, items[k]) {
            Ok(r2) => {
                match find_row(rows, COL_PROGRESS_KEY as int, items[k].content.progress_key@, 0) {
                    None => {
                        lemma_agrees_refl(rows);
                    },
                    Some(i) => {
                        lemma_find_row_in_range(
                            rows,
                            COL_PROGRESS_KEY as int,
                            items[k].content.progress_key@,
                            0,
                        );
                        assert(updates_in_progress_cols(item_updates(items[k])));
                        lemma_apply_at_outside(rows, i, item_updates(items[k]));
                    },
                }
                lemma_phase_item_batch_outside(r2, items, k + 1);
                match phase_item_batch(r2, items, k + 1) {
                    Ok(v) => {
                        lemma_agrees_trans(rows, r2, v);
                    },
                    Err(u) => {},
                }
            },
            Err(u) => {},
        }
    }
}

proof fn lemma_apply_attempt_outside(
    rows: Seq<Seq<Seq<char>>>,
    parent_id: Seq<char>,
    type_literal: Seq<char>,
    c: bool,
    na: u32,
    nc: u32,
)
    ensures
        apply_attempt(rows, parent_id, type_literal, c, na, nc) matches Ok(v)
            ==> agrees_outside_progress(v, rows),
{
    match find_row2(rows, COL_ID as int, parent_id, COL_TYPE as int, type_literal, 0) {
        None => {
            lemma_agrees_refl(rows);
        },
        Some(i) => {
            lemma_find_row2_in_range(
                rows,
                COL_ID as int,
                parent_id,
                COL_TYPE as int,
                type_literal,
                0,
            );
            assert(updates_in_progress_cols(attempt_updates(c, na, nc)));
            lemma_apply_at_outside(rows, i, attempt_updates(c, na, nc));
        },
    }
}

proof fn lemma_phase_quiz_batch_outside(
    rows: Seq<Seq<Seq<char>>>,
    items: Seq<TopicQuizAttempt>,
    k: int,
)
    ensures
        phase_quiz_batch(rows, items, k) matches Ok(v) ==> agrees_outside_progress(v, rows),
    decreases items.len() - k,
{
    if k < 0 || k >= items.len() {
        lemma_agrees_refl(rows);
    } else {
        match apply_attempt(
            rows,
            items[k].parent_id@,
            "TopicQuiz"@,
            items[k].is_completed,
            items[k].num_attempted,
            items[k].num_correct,
        ) {
            Ok(r2) => {
                lemma_apply_attempt_outside(
                    rows,
                    items[k].parent_id@,
                    "TopicQuiz"@,
                    items[k].is_completed,
                    items[k].num_attempted,
                    items[k].num_correct,
                );
                lemma_phase_quiz_batch_outside(r2, items, k + 1);
                match phase_quiz_batch(r2, items, k + 1) {
                    Ok(v) => {
                        lemma_agrees_trans(rows, r2, v);
                    },
                    Err(u) => {},
                }
            },
            Err(u) => {},
        }
    }
}

proof fn lemma_phase_test_batch_outside(
    rows: Seq<Seq<Seq<char>>>,
    items: Seq<TopicUnitTestAttempt>,
    k: int,
)
    ensures
        phase_test_batch(rows, items, k) matches Ok(v) ==> agrees_outside_progress(v, rows),
    decreases items.len() - k,
{
    if k < 0 || k >= items.len() {
        lemma_agrees_refl(rows);
    } else {
        match apply_attempt(
            rows,
            items[k].parent_id@,
            "TopicUnitTest"@,
            items[k].is_completed,
            items[k].num_attempted,
            items[k].num_correct,
        ) {
            Ok(r2) => {
                lemma_apply_attempt_outside(
                    rows,
                    items[k].parent_id@,
                    "TopicUnitTest"@,
                    items[k].is_completed,
                    items[k].num_attempted,
                    items[k].num_correct,
                );
                lemma_phase_test_batch_outside(r2, items, k + 1);
                match phase_test_batch(r2, items, k + 1) {
                    Ok(v) => {
                        lemma_agrees_trans(rows, r2, v);
                    },
                    Err(u) => {},
                }
            },
            Err(u) => {},
        }
    }
}

proof fn lemma_phase_items_outside(
    rows: Seq<Seq<Seq<char>>>,
    batches: Seq<Vec<ContentItemProgress>>,
    b: int,
)
    ensures
        phase_items(rows, batches, b) matches Ok(v) ==> agrees_outside_progress(v, rows),
    decreases batches.len() - b,
{
    if b < 0 || b >= batches.len() {
        lemma_agrees_refl(rows);
    } else {
        match phase_item_batch(rows, batches[b]@, 0) {
            Ok(r2) => {
                lemma_phase_item_batch_outside(rows, batches[b]@, 0);
                lemma_phase_items_outside(r2, batches, b + 1);
                match phase_items(r2, batches, b + 1) {
                    Ok(v) => {
                        lemma_agrees_trans(rows, r2, v);
                    },
                    Err(u) => {},
                }
            },
            Err(u) => {},
        }
    }
}

proof fn lemma_phase_quizzes_outside(
    rows: Seq<Seq<Seq<char>>>,
    batches: Seq<Vec<TopicQuizAttempt>>,
    b: int,
)
    ensures
        phase_quizzes(rows, batches, b) matches Ok(v) ==> agrees_outside_progress(v, rows),
    decreases batches.len() - b,
{
    if b < 0 || b >= batches.len() {
        lemma_agrees_refl(rows);
    } else {
        match phase_quiz_batch(rows, batches[b]@, 0) {
            Ok(r2) => {
                lemma_phase_quiz_batch_outside(rows, batches[b]@, 0);
                lemma_phase_quizzes_outside(r2, batches, b + 1);
                match phase_quizzes(r2, batches, b + 1) {
                    Ok(v) => {
                        lemma_agrees_trans(rows, r2, v);
                    },
                    Err(u) => {},
                }
            },
            Err(u) => {},
        }
    }
}

proof fn lemma_phase_tests_outside(
    rows: Seq<Seq<Seq<char>>>,
    batches: Seq<Vec<TopicUnitTestAttempt>>,
    b: int,
)
    ensures
        phase_tests(rows, batches, b) matches Ok(v) ==> agrees_outside_progress(v, rows),
    decreases batches.len() - b,
{
    if b < 0 || b >= batches.len() {
        lemma_agrees_refl(rows);
    } else {
        match phase_test_batch(rows, batches[b]@, 0) {
            Ok(r2) => {
                lemma_phase_test_batch_outside(rows, batches[b]@, 0);
                lemma_phase_tests_outside(r2, batches, b + 1);
                match phase_tests(r2, batches, b + 1) {
                    Ok(v) => {
                        lemma_agrees_trans(rows, r2, v);
                    },
                    Err(u) => {},
                }
            },
            Err(u) => {},
        }
    }
}

/// Law: the whole merge never reaches outside the progress columns. On
/// success the table keeps its number of rows, their order and each row's
/// width, and every cell outside `percentage..=numIncorrect` — the identity
/// and structural columns among them — is exactly as before.
pub proof fn lemma_merge_isolation(
    rows: Seq<Seq<Seq<char>>>,
    m: MasteryV2,
    map: Seq<MasteryMapItem>,
    units: Seq<UnitProgress>,
    item_batches: Seq<Vec<ContentItemProgress>>,
    quiz_batches: Seq<Vec<TopicQuizAttempt>>,
    test_batches: Seq<Vec<TopicUnitTestAttempt>>,
)
    ensures
        apply_all(rows, m, map, units, item_batches, quiz_batches, test_batches) matches Ok(v)
            ==> agrees_outside_progress(v, rows),
{
    match phase_mastery(rows, m) {
        Err(u) => {},
        Ok(r1) => {
            lemma_phase_mastery_outside(rows, m);
            match phase_map(r1, map, 0) {
                Err(u) => {},
                Ok(r2) => {
                    lemma_phase_map_outside(r1, map, 0);
                    lemma_agrees_trans(rows, r1, r2);
                    match phase_units(r2, units, 0) {
                        Err(u) => {},
                        Ok(r3) => {
                            lemma_phase_units_outside(r2, units, 0);
                            lemma_agrees_trans(rows, r2, r3);
                            match phase_items(r3, item_batches, 0) {
                                Err(u) => {},
                                Ok(r4) => {
                                    lemma_phase_items_outside(r3, item_batches, 0);
                                    lemma_agrees_trans(rows, r3, r4);
                                    match phase_quizzes(r4, quiz_batches, 0) {
                                        Err(u) => {},
                                        Ok(r5) => {
                                            lemma_phase_quizzes_outside(r4, quiz_batches, 0);
                                            lemma_agrees_trans(rows, r4, r5);
                                            match phase_tests(r5, test_batches, 0) {
                                                Err(u) => {},
                                                Ok(v) => {
                                                    lemma_phase_tests_outside(
                                                        r5,
                                                        test_batches,
                                                        0,
                                                    );
                                                    lemma_agrees_trans(rows, r5, v);
                                                },
                                            }
                                        },
                                    }
                                },
                            }
                        },
                    }
                },
            }
        },
    }
}

/// Law: a matched content-item record writes exactly its four cells into
/// the first row whose progress key equals the record's content key — the
/// completion status, the counters as decimal text or empty, and the
/// incorrect count computed only when both counters are present; an
/// unmatched record changes nothing.
pub proof fn lemma_item_update_cells(rows: Seq<Seq<Seq<char>>>, p: ContentItemProgress)
    ensures
        match find_row(rows, COL_PROGRESS_KEY as int, p.content.progress_key@, 0) {
            None => apply_item(rows, p) == Ok::<Seq<Seq<Seq<char>>>, int>(rows),
            Some(i) => apply_item(rows, p) matches Ok(v) ==> {
                &&& 0 <= i < rows.len()
                &&& COL_NUM_INCORRECT < rows[i].len()
                &&& v.len() == rows.len()
                &&& v[i][COL_COMPLETION_STATUS as int] == p.completion_status@
                &&& v[i][COL_NUM_ATTEMPTED as int] == opt_u32_text(item_na(p))
                &&& v[i][COL_NUM_CORRECT as int] == opt_u32_text(item_nc(p))
                &&& v[i][COL_NUM_INCORRECT as int] == incorrect_text(item_na(p), item_nc(p))
            },
        },
{
    match find_row(rows, COL_PROGRESS_KEY as int, p.content.progress_key@, 0) {
        None => {},
        Some(i) => {
            lemma_find_row_in_range(rows, COL_PROGRESS_KEY as int, p.content.progress_key@, 0);
            let us = item_updates(p);
            assert(us[0] == (COL_COMPLETION_STATUS, p.completion_status@));
            assert(us[1] == (COL_NUM_ATTEMPTED, opt_u32_text(item_na(p))));
            assert(us[2] == (COL_NUM_CORRECT, opt_u32_text(item_nc(p))));
            assert(us[3] == (COL_NUM_INCORRECT, incorrect_text(item_na(p), item_nc(p))));
            match apply_item(rows, p) {
                Ok(v) => {
                    assert(bad_update(rows[i].len(), us, 0) is None);
                    assert(bad_update(rows[i].len(), us, 1) is None);
                    assert(bad_update(rows[i].len(), us, 2) is None);
                    assert(bad_update(rows[i].len(), us, 3) is None);
                    assert(COL_NUM_INCORRECT < rows[i].len());
                    assert(first_upd(us, 0, COL_COMPLETION_STATUS as int) == Some(
                        p.completion_status@,
                    ));
                    assert(first_upd(us, 1, COL_NUM_ATTEMPTED as int) == Some(
                        opt_u32_text(item_na(p)),
                    ));
                    assert(first_upd(us, 0, COL_NUM_ATTEMPTED as int) == first_upd(
                        us,
                        1,
                        COL_NUM_ATTEMPTED as int,
                    ));
                    assert(first_upd(us, 2, COL_NUM_CORRECT as int) == Some(
                        opt_u32_text(item_nc(p)),
                    ));
                    assert(first_upd(us, 1, COL_NUM_CORRECT as int) == first_upd(
                        us,
                        2,
                        COL_NUM_CORRECT as int,
                    ));
                    assert(first_upd(us, 0, COL_NUM_CORRECT as int) == first_upd(
                        us,
                        1,
                        COL_NUM_CORRECT as int,
                    ));
                    assert(first_upd(us, 3, COL_NUM_INCORRECT as int) == Some(
                        incorrect_text(item_na(p), item_nc(p)),
                    ));
                    assert(first_upd(us, 2, COL_NUM_INCORRECT as int) == first_upd(
                        us,
                        3,
                        COL_NUM_INCORRECT as int,
                    ));
                    assert(first_upd(us, 1, COL_NUM_INCORRECT as int) == first_upd(
                        us,
                        2,
                        COL_NUM_INCORRECT as int,
                    ));
                    assert(first_upd(us, 0, COL_NUM_INCORRECT as int) == first_upd(
                        us,
                        1,
                        COL_NUM_INCORRECT as int,
                    ));
                },
                Err(u) => {},
            }
        },
    }
}

} // verus!
