//! The records the pipeline works with.
//!
//! `DataStruct` is one row of the output table; the remaining types mirror the
//! independently shaped progress documents that are merged into that table.

use vstd::prelude::*;

verus! {

/// One row of the output table: a curriculum node and its progress overlay.
///
/// The identity and structural fields (`id` through `parent_relative_url`) are
/// fixed when the record is created during the tree walk; only the progress
/// columns (`percentage` through `num_incorrect`) are filled in later by the
/// merge passes.
#[derive(Debug, Clone, PartialEq, Eq)]
pub struct DataStruct {
    /// Upstream node identifier, unique per curriculum node.
    pub id: String,
    /// Node kind as reported by the source; an open set, never rejected.
    pub node_type: String,
    /// 1-based sibling position under the immediate parent, assigned by the
    /// tree walk rather than taken from upstream data.
    pub order: u64,
    pub title: String,
    pub slug: String,
    pub relative_url: String,
    /// Join key used by the merge passes; present on progress-bearing nodes.
    pub progress_key: Option<String>,
    /// Upstream "parent topic" id, distinct from the structural parent
    /// below; the walk fills it with the empty string when the node carries
    /// none.
    pub parent_topic: Option<String>,
    /// Copied from the structural parent record at creation; `None` only on
    /// the root record.
    pub parent_id: Option<String>,
    pub parent_type: Option<String>,
    pub parent_title: Option<String>,
    pub parent_slug: Option<String>,
    pub parent_relative_url: Option<String>,
    /// Progress columns, populated only by the merge phase.
    pub percentage: Option<String>,
    pub points_earned: Option<String>,
    pub status: Option<String>,
    pub completion_status: Option<String>,
    pub num_attempted: Option<String>,
    pub num_correct: Option<String>,
    pub num_incorrect: Option<String>,
}

/// Mathematical value of a `DataStruct`: the same fields over character
/// sequences, so that contracts can state cell contents — including the
/// empty-string default of `parent_topic` — exactly.
pub struct RecordModel {
    pub id: Seq<char>,
    pub node_type: Seq<char>,
    pub order: u64,
    pub title: Seq<char>,
    pub slug: Seq<char>,
    pub relative_url: Seq<char>,
    pub progress_key: Option<Seq<char>>,
    pub parent_topic: Option<Seq<char>>,
    pub parent_id: Option<Seq<char>>,
    pub parent_type: Option<Seq<char>>,
    pub parent_title: Option<Seq<char>>,
    pub parent_slug: Option<Seq<char>>,
    pub parent_relative_url: Option<Seq<char>>,
    pub percentage: Option<Seq<char>>,
    pub points_earned: Option<Seq<char>>,
    pub status: Option<Seq<char>>,
    pub completion_status: Option<Seq<char>>,
    pub num_attempted: Option<Seq<char>>,
    pub num_correct: Option<Seq<char>>,
    pub num_incorrect: Option<Seq<char>>,
}

/// The view of an optional string.
pub open spec fn opt_string_view(o: Option<String>) -> Option<Seq<char>> {
    match o {
        Some(s) => Some(s@),
        None => None,
    }
}

impl View for DataStruct {
    type V = RecordModel;

    open spec fn view(&self) -> RecordModel {
        RecordModel {
            id: self.id@,
            node_type: self.node_type@,
            order: self.order,
            title: self.title@,
            slug: self.slug@,
            relative_url: self.relative_url@,
            progress_key: opt_string_view(self.progress_key),
            parent_topic: opt_string_view(self.parent_topic),
            parent_id: opt_string_view(self.parent_id),
            parent_type: opt_string_view(self.parent_type),
            parent_title: opt_string_view(self.parent_title),
            parent_slug: opt_string_view(self.parent_slug),
            parent_relative_url: opt_string_view(self.parent_relative_url),
            percentage: opt_string_view(self.percentage),
            points_earned: opt_string_view(self.points_earned),
            status: opt_string_view(self.status),
            completion_status: opt_string_view(self.completion_status),
            num_attempted: opt_string_view(self.num_attempted),
            num_correct: opt_string_view(self.num_correct),
            num_incorrect: opt_string_view(self.num_incorrect),
        }
    }
}

/// The views of a record sequence.
pub open spec fn records_view(s: Seq<DataStruct>) -> Seq<RecordModel> {
    s.map_values(|d: DataStruct| d@)
}

/// An equal copy of an optional string.
fn copy_opt_string(o: &Option<String>) -> (r: Option<String>)
    ensures
        r == *o,
{
    match o {
        Some(s) => Some(s.clone()),
        None => None,
    }
}

impl DataStruct {
    /// An equal copy, field by field.
    pub fn duplicate(&self) -> (r: DataStruct)
        ensures
            r == *self,
    {
        DataStruct {
            id: self.id.clone(),
            node_type: self.node_type.clone(),
            order: self.order,
            title: self.title.clone(),
            slug: self.slug.clone(),
            relative_url: self.relative_url.clone(),
            progress_key: copy_opt_string(&self.progress_key),
            parent_topic: copy_opt_string(&self.parent_topic),
            parent_id: copy_opt_string(&self.parent_id),
            parent_type: copy_opt_string(&self.parent_type),
            parent_title: copy_opt_string(&self.parent_title),
            parent_slug: copy_opt_string(&self.parent_slug),
            parent_relative_url: copy_opt_string(&self.parent_relative_url),
            percentage: copy_opt_string(&self.percentage),
            points_earned: copy_opt_string(&self.points_earned),
            status: copy_opt_string(&self.status),
            completion_status: copy_opt_string(&self.completion_status),
            num_attempted: copy_opt_string(&self.num_attempted),
            num_correct: copy_opt_string(&self.num_correct),
            num_incorrect: copy_opt_string(&self.num_incorrect),
        }
    }
}

/// A whole-course or whole-unit mastery aggregate.
#[derive(Debug, Clone, Copy, PartialEq, Eq, Structural)]
pub struct MasteryV2 {
    pub percentage: u32,
    pub points_earned: u32,
}

/// One mastery-map entry: the mastery status of one progress-bearing node.
#[derive(Debug, Clone, PartialEq, Eq)]
pub struct MasteryMapItem {
    pub progress_key: String,
    pub status: String,
}

/// Mastery rolled up per unit; `unit_id` matches the unit record's `id`.
#[derive(Debug, Clone, PartialEq, Eq)]
pub struct UnitProgress {
    pub current_mastery_v2: MasteryV2,
    pub unit_id: String,
}

/// Best score recorded for a content item, when one exists.
#[derive(Debug, Clone, PartialEq, Eq)]
pub struct BestScore {
    pub completed_date: Option<String>,
    pub num_attempted: Option<u32>,
    pub num_correct: Option<u32>,
}

/// The content node a progress record points at.
#[derive(Debug, Clone, PartialEq, Eq)]
pub struct Content {
    pub node_type: String,
    pub id: String,
    pub progress_key: String,
}

/// Progress of one content item, joined to the table by
/// `content.progress_key`.
#[derive(Debug, Clone, PartialEq, Eq)]
pub struct ContentItemProgress {
    pub node_type: String,
    pub best_score: Option<BestScore>,
    pub completion_status: String,
    pub content: Content,
}

/// A quiz attempt; `parent_id` is not present in the source payload and is
/// derived by decoding `position_key`.
#[derive(Debug, Clone, PartialEq, Eq)]
pub struct TopicQuizAttempt {
    pub node_type: String,
    pub is_completed: bool,
    pub num_attempted: u32,
    pub num_correct: u32,
    pub position_key: String,
    pub parent_id: String,
}

/// A unit-test attempt; `parent_id` is derived by decoding `id`.
#[derive(Debug, Clone, PartialEq, Eq)]
pub struct TopicUnitTestAttempt {
    pub node_type: String,
    pub id: String,
    pub is_completed: bool,
    pub num_attempted: u32,
    pub num_correct: u32,
    pub parent_id: String,
}

/// Mathematical value of a `TopicQuizAttempt`.
pub struct QuizAttemptModel {
    pub node_type: Seq<char>,
    pub is_completed: bool,
    pub num_attempted: u32,
    pub num_correct: u32,
    pub position_key: Seq<char>,
    pub parent_id: Seq<char>,
}

impl View for TopicQuizAttempt {
    type V = QuizAttemptModel;

    open spec fn view(&self) -> QuizAttemptModel {
        QuizAttemptModel {
            node_type: self.node_type@,
            is_completed: self.is_completed,
            num_attempted: self.num_attempted,
            num_correct: self.num_correct,
            position_key: self.position_key@,
            parent_id: self.parent_id@,
        }
    }
}

/// Mathematical value of a `TopicUnitTestAttempt`.
pub struct TestAttemptModel {
    pub node_type: Seq<char>,
    pub id: Seq<char>,
    pub is_completed: bool,
    pub num_attempted: u32,
    pub num_correct: u32,
    pub parent_id: Seq<char>,
}

impl View for TopicUnitTestAttempt {
    type V = TestAttemptModel;

    open spec fn view(&self) -> TestAttemptModel {
        TestAttemptModel {
            node_type: self.node_type@,
            id: self.id@,
            is_completed: self.is_completed,
            num_attempted: self.num_attempted,
            num_correct: self.num_correct,
            parent_id: self.parent_id@,
        }
    }
}

} // verus!
