//! Steps: the record, its stored row and its mutations.

use vstd::prelude::*;
use crate::encoding::{
    absent_if_empty, flag_number, or_empty, read_flag, read_text, text_of, written_flag,
    written_text,
};
use crate::mutation::{Mutation, MutationKind, MutationView, SqlValue, SqlValueView};

verus! {

/// A step of a project.  `order_index` places it among the steps of its
/// project; the indices of a project need not be contiguous.
#[derive(Debug, Clone, PartialEq, Eq)]
pub struct Step {
    pub id: String,
    pub project_id: String,
    pub title: String,
    pub description: String,
    pub plain_text: Option<String>,
    pub order_index: i32,
    pub completed: bool,
    pub created_at: String,
    pub updated_at: String,
}

/// What a [`Step`] holds.
pub struct StepView {
    pub id: Seq<char>,
    pub project_id: Seq<char>,
    pub title: Seq<char>,
    pub description: Seq<char>,
    pub plain_text: Option<Seq<char>>,
    pub order_index: int,
    pub completed: bool,
    pub created_at: Seq<char>,
    pub updated_at: Seq<char>,
}

/// A row of the table of steps, column by column.
pub struct StepRow {
    pub id: Seq<char>,
    pub project_id: Seq<char>,
    pub title: Seq<char>,
    pub description: Seq<char>,
    pub plain_text: Option<Seq<char>>,
    pub order_index: int,
    pub completed: int,
    pub created_at: Seq<char>,
    pub updated_at: Seq<char>,
}

impl View for Step {
    type V = StepView;

    open spec fn view(&self) -> StepView {
        StepView {
            id: self.id@,
            project_id: self.project_id@,
            title: self.title@,
            description: self.description@,
            plain_text: text_of(self.plain_text),
            order_index: self.order_index as int,
            completed: self.completed,
            created_at: self.created_at@,
            updated_at: self.updated_at@,
        }
    }
}

impl StepView {
    /// The step as it comes back from the store: a plain text that is set
    /// to the empty text counts as not set.
    pub open spec fn stored(self) -> StepView {
        StepView { plain_text: absent_if_empty(self.plain_text), ..self }
    }
}

impl StepRow {
    /// The step that the row stands for.
    pub open spec fn decoded(self) -> StepView {
        StepView {
            id: self.id,
            project_id: self.project_id,
            title: self.title,
            description: self.description,
            plain_text: absent_if_empty(self.plain_text),
            order_index: self.order_index,
            completed: self.completed != 0,
            created_at: self.created_at,
            updated_at: self.updated_at,
        }
    }
}

/// The mutation that stores a new step.
pub open spec fn insert_step(step: StepView) -> MutationView {
    MutationView {
        kind: MutationKind::InsertStep,
        params: seq![
            SqlValueView::Text(step.id),
            SqlValueView::Text(step.project_id),
            SqlValueView::Text(step.title),
            SqlValueView::Text(step.description),
            SqlValueView::Text(or_empty(step.plain_text)),
            SqlValueView::Integer(step.order_index),
            SqlValueView::Integer(flag_number(step.completed)),
            SqlValueView::Text(step.created_at),
            SqlValueView::Text(step.updated_at),
        ],
    }
}

/// The mutation that overwrites the step of the same id: its title,
/// description, plain text, order index, completion and time of update.
pub open spec fn update_step(step: StepView) -> MutationView {
    MutationView {
        kind: MutationKind::UpdateStep,
        params: seq![
            SqlValueView::Text(step.title),
            SqlValueView::Text(step.description),
            SqlValueView::Text(or_empty(step.plain_text)),
            SqlValueView::Integer(step.order_index),
            SqlValueView::Integer(flag_number(step.completed)),
            SqlValueView::Text(step.updated_at),
            SqlValueView::Text(step.id),
        ],
    }
}

/// The mutation that removes a step.
pub open spec fn delete_step(step_id: Seq<char>) -> MutationView {
    MutationView { kind: MutationKind::DeleteStep, params: seq![SqlValueView::Text(step_id)] }
}

/// The updates of a batch, one for each step, in the order of the batch.
pub open spec fn update_steps(steps: Seq<Step>) -> Seq<MutationView> {
    steps.map_values(|step: Step| update_step(step@))
}

impl Step {
    /// The step that a row of the table of steps stands for, from the row's
    /// columns in the table's order.
    pub fn from_columns(
        id: String,
        project_id: String,
        title: String,
        description: String,
        plain_text: Option<String>,
        order_index: i32,
        completed: i32,
        created_at: String,
        updated_at: String,
    ) -> (step: Step)
        ensures
            step@ == (StepRow {
                id: id@,
                project_id: project_id@,
                title: title@,
                description: description@,
                plain_text: text_of(plain_text),
                order_index: order_index as int,
                completed: completed as int,
                created_at: created_at@,
                updated_at: updated_at@,
            }).decoded(),
    {
        Step {
            id,
            project_id,
            title,
            description,
            plain_text: read_text(plain_text),
            order_index,
            completed: read_flag(completed),
            created_at,
            updated_at,
        }
    }

    /// The mutation that stores this step as a new one.
    pub fn insert_mutation(&self) -> (mutation: Mutation)
        ensures
            mutation@ == insert_step(self@),
    {
        let mutation = Mutation {
            kind: MutationKind::InsertStep,
            params: vec![
                SqlValue::Text(self.id.clone()),
                SqlValue::Text(self.project_id.clone()),
                SqlValue::Text(self.title.clone()),
                SqlValue::Text(self.description.clone()),
                SqlValue::Text(written_text(&self.plain_text)),
                SqlValue::Integer(self.order_index as i64),
                SqlValue::Integer(written_flag(self.completed)),
                SqlValue::Text(self.created_at.clone()),
                SqlValue::Text(self.updated_at.clone()),
            ],
        };
        assert(mutation@.params =~= insert_step(self@).params);
        mutation
    }

    /// The mutation that overwrites the stored step of the same id.
    pub fn update_mutation(&self) -> (mutation: Mutation)
        ensures
            mutation@ == update_step(self@),
    {
        let mutation = Mutation {
            kind: MutationKind::UpdateStep,
            params: vec![
                SqlValue::Text(self.title.clone()),
                SqlValue::Text(self.description.clone()),
                SqlValue::Text(written_text(&self.plain_text)),
                SqlValue::Integer(self.order_index as i64),
                SqlValue::Integer(written_flag(self.completed)),
                SqlValue::Text(self.updated_at.clone()),
                SqlValue::Text(self.id.clone()),
            ],
        };
        assert(mutation@.params =~= update_step(self@).params);
        mutation
    }

    /// The mutation that removes the step `step_id`.
    pub fn delete_mutation(step_id: &str) -> (mutation: Mutation)
        ensures
            mutation@ == delete_step(step_id@),
    {
        let mutation = Mutation {
            kind: MutationKind::DeleteStep,
            params: vec![SqlValue::Text(step_id.to_owned())],
        };
        assert(mutation@.params =~= delete_step(step_id@).params);
        mutation
    }
}

} // verus!
