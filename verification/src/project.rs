//! Projects: the record, its stored row and its mutations.

use vstd::prelude::*;
use crate::encoding::{
    absent_if_empty, or_empty, read_text, text_of, text_of_str, written_text,
};
use crate::mutation::{mutations_of, Mutation, MutationKind, MutationView, SqlValue, SqlValueView};

verus! {

/// A project.  `current_step_id`, where set, names one of the project's
/// steps; the store does not check that it does.
#[derive(Debug, Clone, PartialEq, Eq)]
pub struct Project {
    pub id: String,
    pub name: String,
    pub description: String,
    pub created_at: String,
    pub updated_at: String,
    pub gradient: String,
    pub current_step_id: Option<String>,
}

/// What a [`Project`] holds.
pub struct ProjectView {
    pub id: Seq<char>,
    pub name: Seq<char>,
    pub description: Seq<char>,
    pub created_at: Seq<char>,
    pub updated_at: Seq<char>,
    pub gradient: Seq<char>,
    pub current_step_id: Option<Seq<char>>,
}

/// A row of the table of projects, column by column.
pub struct ProjectRow {
    pub id: Seq<char>,
    pub name: Seq<char>,
    pub description: Seq<char>,
    pub created_at: Seq<char>,
    pub updated_at: Seq<char>,
    pub gradient: Seq<char>,
    pub current_step_id: Option<Seq<char>>,
}

impl View for Project {
    type V = ProjectView;

    open spec fn view(&self) -> ProjectView {
        ProjectView {
            id: self.id@,
            name: self.name@,
            description: self.description@,
            created_at: self.created_at@,
            updated_at: self.updated_at@,
            gradient: self.gradient@,
            current_step_id: text_of(self.current_step_id),
        }
    }
}

impl ProjectView {
    /// The project as it comes back from the store: a current step that is
    /// set to the empty text counts as not set.
    pub open spec fn stored(self) -> ProjectView {
        ProjectView { current_step_id: absent_if_empty(self.current_step_id), ..self }
    }
}

impl ProjectRow {
    /// The project that the row stands for.
    pub open spec fn decoded(self) -> ProjectView {
        ProjectView {
            id: self.id,
            name: self.name,
            description: self.description,
            created_at: self.created_at,
            updated_at: self.updated_at,
            gradient: self.gradient,
            current_step_id: absent_if_empty(self.current_step_id),
        }
    }
}

/// The mutation that stores a new project.
pub open spec fn insert_project(project: ProjectView) -> MutationView {
    MutationView {
        kind: MutationKind::InsertProject,
        params: seq![
            SqlValueView::Text(project.id),
            SqlValueView::Text(project.name),
            SqlValueView::Text(project.description),
            SqlValueView::Text(project.created_at),
            SqlValueView::Text(project.updated_at),
            SqlValueView::Text(project.gradient),
            SqlValueView::Text(or_empty(project.current_step_id)),
        ],
    }
}

/// The mutation that overwrites the project of the same id: everything but
/// its id and its time of creation.
pub open spec fn update_project(project: ProjectView) -> MutationView {
    MutationView {
        kind: MutationKind::UpdateProject,
        params: seq![
            SqlValueView::Text(project.name),
            SqlValueView::Text(project.description),
            SqlValueView::Text(project.updated_at),
            SqlValueView::Text(project.gradient),
            SqlValueView::Text(or_empty(project.current_step_id)),
            SqlValueView::Text(project.id),
        ],
    }
}

/// The mutation that removes the steps of a project.
pub open spec fn delete_steps_of_project(project_id: Seq<char>) -> MutationView {
    MutationView {
        kind: MutationKind::DeleteStepsOfProject,
        params: seq![SqlValueView::Text(project_id)],
    }
}

/// The mutation that removes the notes of a project.
pub open spec fn delete_notes_of_project(project_id: Seq<char>) -> MutationView {
    MutationView {
        kind: MutationKind::DeleteNotesOfProject,
        params: seq![SqlValueView::Text(project_id)],
    }
}

/// The mutation that removes a project.
pub open spec fn delete_project(project_id: Seq<char>) -> MutationView {
    MutationView { kind: MutationKind::DeleteProject, params: seq![SqlValueView::Text(project_id)] }
}

/// What removing a project hands to the engine: its steps go first, then
/// its notes, then the project itself.  Nothing is left to a cascade of the
/// engine.
pub open spec fn delete_project_plan(project_id: Seq<char>) -> Seq<MutationView> {
    seq![
        delete_steps_of_project(project_id),
        delete_notes_of_project(project_id),
        delete_project(project_id),
    ]
}

/// The mutation that sets or clears the current step of a project.
pub open spec fn set_current_step(
    project_id: Seq<char>,
    step_id: Option<Seq<char>>,
) -> MutationView {
    MutationView {
        kind: MutationKind::SetCurrentStep,
        params: seq![SqlValueView::Text(or_empty(step_id)), SqlValueView::Text(project_id)],
    }
}

impl Project {
    /// The project that a row of the table of projects stands for, from the
    /// row's columns in the table's order.
    pub fn from_columns(
        id: String,
        name: String,
        description: String,
        created_at: String,
        updated_at: String,
        gradient: String,
        current_step_id: Option<String>,
    ) -> (project: Project)
        ensures
            project@ == (ProjectRow {
                id: id@,
                name: name@,
                description: description@,
                created_at: created_at@,
                updated_at: updated_at@,
                gradient: gradient@,
                current_step_id: text_of(current_step_id),
            }).decoded(),
    {
        Project {
            id,
            name,
            description,
            created_at,
            updated_at,
            gradient,
            current_step_id: read_text(current_step_id),
        }
    }

    /// The mutation that stores this project as a new one.
    pub fn insert_mutation(&self) -> (mutation: Mutation)
        ensures
            mutation@ == insert_project(self@),
    {
        let mutation = Mutation {
            kind: MutationKind::InsertProject,
            params: vec![
                SqlValue::Text(self.id.clone()),
                SqlValue::Text(self.name.clone()),
                SqlValue::Text(self.description.clone()),
                SqlValue::Text(self.created_at.clone()),
                SqlValue::Text(self.updated_at.clone()),
                SqlValue::Text(self.gradient.clone()),
                SqlValue::Text(written_text(&self.current_step_id)),
            ],
        };
        assert(mutation@.params =~= insert_project(self@).params);
        mutation
    }

    /// The mutation that overwrites the stored project of the same id.
    pub fn update_mutation(&self) -> (mutation: Mutation)
        ensures
            mutation@ == update_project(self@),
    {
        let mutation = Mutation {
            kind: MutationKind::UpdateProject,
            params: vec![
                SqlValue::Text(self.name.clone()),
                SqlValue::Text(self.description.clone()),
                SqlValue::Text(self.updated_at.clone()),
                SqlValue::Text(self.gradient.clone()),
                SqlValue::Text(written_text(&self.current_step_id)),
                SqlValue::Text(self.id.clone()),
            ],
        };
        assert(mutation@.params =~= update_project(self@).params);
        mutation
    }

    /// The mutations that remove the project `project_id`, its steps and its
    /// notes.
    pub fn delete_mutations(project_id: &str) -> (plan: Vec<Mutation>)
        ensures
            mutations_of(plan@) == delete_project_plan(project_id@),
    {
        let steps = Mutation {
            kind: MutationKind::DeleteStepsOfProject,
            params: vec![SqlValue::Text(project_id.to_owned())],
        };
        let notes = Mutation {
            kind: MutationKind::DeleteNotesOfProject,
            params: vec![SqlValue::Text(project_id.to_owned())],
        };
        let project = Mutation {
            kind: MutationKind::DeleteProject,
            params: vec![SqlValue::Text(project_id.to_owned())],
        };
        assert(steps@.params =~= delete_steps_of_project(project_id@).params);
        assert(notes@.params =~= delete_notes_of_project(project_id@).params);
        assert(project@.params =~= delete_project(project_id@).params);
        let plan = vec![steps, notes, project];
        assert(mutations_of(plan@) =~= delete_project_plan(project_id@));
        plan
    }

    /// The mutation that makes `step_id` the current step of the project
    /// `project_id`, or clears it.
    pub fn current_step_mutation(project_id: &str, step_id: Option<&str>) -> (mutation: Mutation)
        ensures
            mutation@ == set_current_step(project_id@, text_of_str(step_id)),
    {
        let written = match step_id {
            Some(s) => s.to_owned(),
            None => String::new(),
        };
        let mutation = Mutation {
            kind: MutationKind::SetCurrentStep,
            params: vec![SqlValue::Text(written), SqlValue::Text(project_id.to_owned())],
        };
        assert(mutation@.params =~= set_current_step(project_id@, text_of_str(step_id)).params);
        mutation
    }
}

} // verus!
