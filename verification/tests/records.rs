use projectsteps::attachment::{
    stored_file_name, stored_file_name_with, with_dots_replaced, OwnerKind,
};
use projectsteps::encoding::{read_flag, read_text, written_flag, written_text};
use projectsteps::batch::{batch_action, BatchAction};
use projectsteps::mutation::{Mutation, MutationKind, SqlValue};
use projectsteps::query::{
    attachments_of_owner_query, generation_query, notes_of_project_query, projects_query,
    steps_of_project_query, steps_query, Query, QueryKind,
};
use projectsteps::{text_equals, ImageAttachment, Note, Project, Step, StoreError};

fn text(s: &str) -> SqlValue {
    SqlValue::Text(s.to_string())
}

fn sample_project() -> Project {
    Project {
        id: "garden".to_string(),
        name: "Kitchen".to_string(),
        description: "New tiles".to_string(),
        created_at: "2024-01-01".to_string(),
        updated_at: "2024-01-02".to_string(),
        gradient: "amber".to_string(),
        current_step_id: Some("s3".to_string()),
    }
}

fn sample_step() -> Step {
    Step {
        id: "s1".to_string(),
        project_id: "garden".to_string(),
        title: "Measure".to_string(),
        description: "<p>Measure twice</p>".to_string(),
        plain_text: Some("Measure twice".to_string()),
        order_index: 12,
        completed: true,
        created_at: "2024-01-03".to_string(),
        updated_at: "2024-01-04".to_string(),
    }
}

fn sample_note() -> Note {
    Note {
        id: "n1".to_string(),
        project_id: "garden".to_string(),
        title: "Grout".to_string(),
        content: "<b>grey</b>".to_string(),
        plain_text: "grey".to_string(),
        created_at: "2024-01-05".to_string(),
        updated_at: "2024-01-06".to_string(),
    }
}

fn sample_attachment() -> ImageAttachment {
    ImageAttachment {
        id: "i1".to_string(),
        file_path: "/data/i1_plan_png.png".to_string(),
        filename: "i1_plan_png.png".to_string(),
        content_type: "image/png".to_string(),
        content_id: "s1".to_string(),
        content_type_enum: "step".to_string(),
        created_at: "2024-01-07".to_string(),
    }
}

#[test]
fn text_equals_compares_characters() {
    assert!(text_equals("", ""));
    assert!(text_equals("step", "step"));
    assert!(!text_equals("step", "steps"));
    assert!(!text_equals("steps", "step"));
    assert!(!text_equals("step", "stop"));
    assert!(!text_equals("Step", "step"));
    assert!(text_equals("größe 雪", "größe 雪"));
    assert!(!text_equals("größe", "grösse"));
    assert!(!text_equals("", " "));
}

#[test]
fn absent_text_is_written_as_the_empty_text() {
    assert_eq!(written_text(&None), "");
    assert_eq!(written_text(&Some("s1".to_string())), "s1");
    assert_eq!(written_text(&Some(String::new())), "");
}

#[test]
fn empty_or_missing_column_is_read_as_absent() {
    assert_eq!(read_text(None), None);
    assert_eq!(read_text(Some(String::new())), None);
    assert_eq!(read_text(Some("s1".to_string())), Some("s1".to_string()));
    assert_eq!(read_text(Some(" ".to_string())), Some(" ".to_string()));
}

#[test]
fn flags_are_written_as_one_and_zero() {
    assert_eq!(written_flag(true), 1);
    assert_eq!(written_flag(false), 0);
}

#[test]
fn any_number_but_zero_is_read_as_set() {
    assert!(!read_flag(0));
    assert!(read_flag(1));
    assert!(read_flag(2));
    assert!(read_flag(-1));
    assert!(read_flag(i32::MIN));
}

#[test]
fn written_values_are_read_back() {
    for flag in [true, false] {
        assert_eq!(read_flag(written_flag(flag) as i32), flag);
    }
    for value in [None, Some("x".to_string())] {
        assert_eq!(read_text(Some(written_text(&value))), value);
    }
}

#[test]
fn owner_kinds_have_their_names() {
    assert_eq!(OwnerKind::Step.as_str(), "step");
    assert_eq!(OwnerKind::Note.as_str(), "note");
    assert_eq!(OwnerKind::ProjectDescription.as_str(), "project_description");
}

#[test]
fn owner_kind_is_parsed_from_its_name_only() {
    assert_eq!(OwnerKind::parse("step"), Some(OwnerKind::Step));
    assert_eq!(OwnerKind::parse("note"), Some(OwnerKind::Note));
    assert_eq!(OwnerKind::parse("project_description"), Some(OwnerKind::ProjectDescription));
    assert_eq!(OwnerKind::parse("project"), None);
    assert_eq!(OwnerKind::parse("STEP"), None);
    assert_eq!(OwnerKind::parse(""), None);
    assert_eq!(OwnerKind::parse("step "), None);
    for kind in [OwnerKind::Step, OwnerKind::Note, OwnerKind::ProjectDescription] {
        assert_eq!(OwnerKind::parse(kind.as_str()), Some(kind));
    }
}

#[test]
fn attachment_reports_its_owner_kind() {
    let mut a = sample_attachment();
    assert_eq!(a.owner_kind(), Some(OwnerKind::Step));
    a.content_type_enum = "project_description".to_string();
    assert_eq!(a.owner_kind(), Some(OwnerKind::ProjectDescription));
    a.content_type_enum = "image".to_string();
    assert_eq!(a.owner_kind(), None);
}

#[test]
fn project_from_columns_drops_the_sentinel() {
    let with = Project::from_columns(
        "garden".to_string(),
        "Kitchen".to_string(),
        "New tiles".to_string(),
        "2024-01-01".to_string(),
        "2024-01-02".to_string(),
        "amber".to_string(),
        Some("s3".to_string()),
    );
    assert_eq!(with, sample_project());
    let empty = Project::from_columns(
        "garden".to_string(),
        "Kitchen".to_string(),
        "New tiles".to_string(),
        "2024-01-01".to_string(),
        "2024-01-02".to_string(),
        "amber".to_string(),
        Some(String::new()),
    );
    assert_eq!(empty, Project { current_step_id: None, ..sample_project() });
    let missing = Project::from_columns(
        "garden".to_string(),
        "Kitchen".to_string(),
        "New tiles".to_string(),
        "2024-01-01".to_string(),
        "2024-01-02".to_string(),
        "amber".to_string(),
        None,
    );
    assert_eq!(missing, Project { current_step_id: None, ..sample_project() });
}

#[test]
fn step_from_columns_reads_flag_and_sentinel() {
    let step = Step::from_columns(
        "s1".to_string(),
        "garden".to_string(),
        "Measure".to_string(),
        "<p>Measure twice</p>".to_string(),
        Some("Measure twice".to_string()),
        12,
        1,
        "2024-01-03".to_string(),
        "2024-01-04".to_string(),
    );
    assert_eq!(step, sample_step());
    let other = Step::from_columns(
        "s1".to_string(),
        "garden".to_string(),
        "Measure".to_string(),
        "<p>Measure twice</p>".to_string(),
        Some(String::new()),
        -4,
        0,
        "2024-01-03".to_string(),
        "2024-01-04".to_string(),
    );
    assert_eq!(
        other,
        Step { plain_text: None, order_index: -4, completed: false, ..sample_step() }
    );
    let odd = Step::from_columns(
        "s1".to_string(),
        "garden".to_string(),
        "Measure".to_string(),
        "<p>Measure twice</p>".to_string(),
        None,
        12,
        -7,
        "2024-01-03".to_string(),
        "2024-01-04".to_string(),
    );
    assert_eq!(odd, Step { plain_text: None, ..sample_step() });
}

#[test]
fn note_and_attachment_from_columns_keep_every_column() {
    let note = Note::from_columns(
        "n1".to_string(),
        "garden".to_string(),
        "Grout".to_string(),
        "<b>grey</b>".to_string(),
        "grey".to_string(),
        "2024-01-05".to_string(),
        "2024-01-06".to_string(),
    );
    assert_eq!(note, sample_note());
    let attachment = ImageAttachment::from_columns(
        "i1".to_string(),
        "/data/i1_plan_png.png".to_string(),
        "i1_plan_png.png".to_string(),
        "image/png".to_string(),
        "s1".to_string(),
        "step".to_string(),
        "2024-01-07".to_string(),
    );
    assert_eq!(attachment, sample_attachment());
}

#[test]
fn project_mutations_bind_their_parameters_in_order() {
    let p = sample_project();
    assert_eq!(
        p.insert_mutation(),
        Mutation {
            kind: MutationKind::InsertProject,
            params: vec![
                text("garden"),
                text("Kitchen"),
                text("New tiles"),
                text("2024-01-01"),
                text("2024-01-02"),
                text("amber"),
                text("s3"),
            ],
        }
    );
    assert_eq!(
        p.update_mutation(),
        Mutation {
            kind: MutationKind::UpdateProject,
            params: vec![
                text("Kitchen"),
                text("New tiles"),
                text("2024-01-02"),
                text("amber"),
                text("s3"),
                text("garden"),
            ],
        }
    );
    let bare = Project { current_step_id: None, ..sample_project() };
    assert_eq!(bare.insert_mutation().params[6], text(""));
    assert_eq!(bare.update_mutation().params[4], text(""));
}

#[test]
fn deleting_a_project_takes_its_steps_and_notes_first() {
    assert_eq!(
        Project::delete_mutations("garden"),
        vec![
            Mutation { kind: MutationKind::DeleteStepsOfProject, params: vec![text("garden")] },
            Mutation { kind: MutationKind::DeleteNotesOfProject, params: vec![text("garden")] },
            Mutation { kind: MutationKind::DeleteProject, params: vec![text("garden")] },
        ]
    );
}

#[test]
fn current_step_mutation_writes_the_sentinel_for_none() {
    assert_eq!(
        Project::current_step_mutation("garden", Some("s1")),
        Mutation { kind: MutationKind::SetCurrentStep, params: vec![text("s1"), text("garden")] }
    );
    assert_eq!(
        Project::current_step_mutation("garden", None),
        Mutation { kind: MutationKind::SetCurrentStep, params: vec![text(""), text("garden")] }
    );
}

#[test]
fn step_mutations_bind_their_parameters_in_order() {
    let s = sample_step();
    assert_eq!(
        s.insert_mutation(),
        Mutation {
            kind: MutationKind::InsertStep,
            params: vec![
                text("s1"),
                text("garden"),
                text("Measure"),
                text("<p>Measure twice</p>"),
                text("Measure twice"),
                SqlValue::Integer(12),
                SqlValue::Integer(1),
                text("2024-01-03"),
                text("2024-01-04"),
            ],
        }
    );
    assert_eq!(
        s.update_mutation(),
        Mutation {
            kind: MutationKind::UpdateStep,
            params: vec![
                text("Measure"),
                text("<p>Measure twice</p>"),
                text("Measure twice"),
                SqlValue::Integer(12),
                SqlValue::Integer(1),
                text("2024-01-04"),
                text("s1"),
            ],
        }
    );
    let open = Step { plain_text: None, order_index: -1, completed: false, ..sample_step() };
    assert_eq!(open.insert_mutation().params[4], text(""));
    assert_eq!(open.insert_mutation().params[5], SqlValue::Integer(-1));
    assert_eq!(open.insert_mutation().params[6], SqlValue::Integer(0));
    assert_eq!(
        Step::delete_mutation("s1"),
        Mutation { kind: MutationKind::DeleteStep, params: vec![text("s1")] }
    );
}

#[test]
fn note_mutations_bind_their_parameters_in_order() {
    let n = sample_note();
    assert_eq!(
        n.insert_mutation(),
        Mutation {
            kind: MutationKind::InsertNote,
            params: vec![
                text("n1"),
                text("garden"),
                text("Grout"),
                text("<b>grey</b>"),
                text("grey"),
                text("2024-01-05"),
                text("2024-01-06"),
            ],
        }
    );
    assert_eq!(
        n.update_mutation(),
        Mutation {
            kind: MutationKind::UpdateNote,
            params: vec![
                text("Grout"),
                text("<b>grey</b>"),
                text("grey"),
                text("2024-01-06"),
                text("n1"),
            ],
        }
    );
    assert_eq!(
        Note::delete_mutation("n1"),
        Mutation { kind: MutationKind::DeleteNote, params: vec![text("n1")] }
    );
}

#[test]
fn attachment_mutations_bind_their_parameters_in_order() {
    let a = sample_attachment();
    assert_eq!(
        a.insert_mutation(),
        Mutation {
            kind: MutationKind::InsertAttachment,
            params: vec![
                text("i1"),
                text("/data/i1_plan_png.png"),
                text("i1_plan_png.png"),
                text("image/png"),
                text("s1"),
                text("step"),
                text("2024-01-07"),
            ],
        }
    );
    assert_eq!(
        ImageAttachment::delete_mutation("i1"),
        Mutation { kind: MutationKind::DeleteAttachment, params: vec![text("i1")] }
    );
    assert_eq!(
        ImageAttachment::delete_of_owner_mutation("s1", "step"),
        Mutation {
            kind: MutationKind::DeleteAttachmentsOfOwner,
            params: vec![text("s1"), text("step")],
        }
    );
}

#[test]
fn bare_mutation_has_no_parameters() {
    assert_eq!(
        Mutation::bare(MutationKind::CreateLedger),
        Mutation { kind: MutationKind::CreateLedger, params: vec![] }
    );
}

#[test]
fn every_kind_has_as_many_placeholders_as_its_mutation_binds() {
    let cases = vec![
        (sample_project().insert_mutation(), 7),
        (sample_project().update_mutation(), 6),
        (Project::current_step_mutation("p", None), 2),
        (sample_step().insert_mutation(), 9),
        (sample_step().update_mutation(), 7),
        (Step::delete_mutation("s"), 1),
        (sample_note().insert_mutation(), 7),
        (sample_note().update_mutation(), 5),
        (Note::delete_mutation("n"), 1),
        (sample_attachment().insert_mutation(), 7),
        (ImageAttachment::delete_mutation("i"), 1),
        (ImageAttachment::delete_of_owner_mutation("c", "step"), 2),
        (Mutation::bare(MutationKind::CreateProjects), 0),
        (Mutation::bare(MutationKind::AddPlainTextColumn), 0),
    ];
    for (mutation, expected) in cases {
        assert_eq!(mutation.params.len(), expected);
        assert_eq!(mutation.kind.sql().matches('?').count(), expected);
        for n in 1..=expected {
            assert!(mutation.kind.sql().contains(&format!("?{n}")));
        }
    }
}

#[test]
fn statement_texts_name_their_tables() {
    assert_eq!(
        MutationKind::CreateLedger.sql(),
        "CREATE TABLE IF NOT EXISTS schema_version (version INTEGER PRIMARY KEY)"
    );
    assert_eq!(
        MutationKind::AddCurrentStepColumn.sql(),
        "ALTER TABLE projects ADD COLUMN current_step_id TEXT"
    );
    assert_eq!(MutationKind::AddPlainTextColumn.sql(), "ALTER TABLE steps ADD COLUMN plain_text TEXT");
    assert!(MutationKind::CreateNotesIfMissing.sql().starts_with("CREATE TABLE IF NOT EXISTS notes ("));
    assert!(MutationKind::CreateAttachmentsIfMissing
        .sql()
        .starts_with("CREATE TABLE IF NOT EXISTS image_attachments ("));
    assert!(MutationKind::CreateProjects.sql().starts_with("CREATE TABLE projects ("));
    assert!(MutationKind::CreateSteps.sql().starts_with("CREATE TABLE steps ("));
    assert!(MutationKind::CreateNotes.sql().starts_with("CREATE TABLE notes ("));
    assert!(MutationKind::CreateAttachments.sql().starts_with("CREATE TABLE image_attachments ("));
    assert_eq!(MutationKind::DeleteProject.sql(), "DELETE FROM projects WHERE id = ?1");
    assert_eq!(
        MutationKind::DeleteStepsOfProject.sql(),
        "DELETE FROM steps WHERE project_id = ?1"
    );
    assert_eq!(
        MutationKind::SetCurrentStep.sql(),
        "UPDATE projects SET current_step_id = ?1 WHERE id = ?2"
    );
    assert_eq!(
        MutationKind::DeleteAttachmentsOfOwner.sql(),
        "DELETE FROM image_attachments WHERE content_id = ?1 AND content_type_enum = ?2"
    );
}

#[test]
fn error_messages_say_what_failed() {
    assert_eq!(StoreError::Storage("disk full".to_string()).message(), "disk full");
    assert_eq!(
        StoreError::InvalidOwnerKind("project".to_string()).message(),
        "not an owner kind: project"
    );
}

#[test]
fn batch_goes_on_while_updates_are_left() {
    assert_eq!(batch_action(0, 3, false), BatchAction::Update(0));
    assert_eq!(batch_action(1, 3, false), BatchAction::Update(1));
    assert_eq!(batch_action(2, 3, false), BatchAction::Update(2));
}

#[test]
fn batch_commits_after_the_last_update() {
    assert_eq!(batch_action(3, 3, false), BatchAction::Commit);
    assert_eq!(batch_action(0, 0, false), BatchAction::Commit);
}

#[test]
fn batch_rolls_back_after_a_refusal() {
    assert_eq!(batch_action(0, 3, true), BatchAction::RollBack);
    assert_eq!(batch_action(2, 3, true), BatchAction::RollBack);
    assert_eq!(batch_action(3, 3, true), BatchAction::RollBack);
    assert_eq!(batch_action(0, 0, true), BatchAction::RollBack);
}

#[test]
fn queries_bind_their_parameters_in_order() {
    assert_eq!(generation_query(), Query { kind: QueryKind::Generation, params: vec![] });
    assert_eq!(projects_query(), Query { kind: QueryKind::Projects, params: vec![] });
    assert_eq!(steps_query(), Query { kind: QueryKind::Steps, params: vec![] });
    assert_eq!(
        steps_of_project_query("garden"),
        Query { kind: QueryKind::StepsOfProject, params: vec![text("garden")] }
    );
    assert_eq!(
        notes_of_project_query("garden"),
        Query { kind: QueryKind::NotesOfProject, params: vec![text("garden")] }
    );
    assert_eq!(
        attachments_of_owner_query("s1", "step"),
        Query { kind: QueryKind::AttachmentsOfOwner, params: vec![text("s1"), text("step")] }
    );
}

#[test]
fn every_query_has_as_many_placeholders_as_it_binds() {
    let cases = vec![
        generation_query(),
        projects_query(),
        steps_query(),
        steps_of_project_query("p"),
        notes_of_project_query("p"),
        attachments_of_owner_query("c", "note"),
    ];
    for asked in cases {
        assert_eq!(asked.kind.sql().matches('?').count(), asked.params.len());
        assert!(asked.kind.sql().starts_with("SELECT "));
    }
}

#[test]
fn query_texts_name_scope_and_order() {
    assert_eq!(
        QueryKind::Generation.sql(),
        "SELECT version FROM schema_version ORDER BY version DESC LIMIT 1"
    );
    assert!(QueryKind::Projects.sql().ends_with("FROM projects ORDER BY created_at DESC"));
    assert!(QueryKind::StepsOfProject
        .sql()
        .ends_with("FROM steps WHERE project_id = ?1 ORDER BY order_index"));
    assert!(QueryKind::Steps.sql().ends_with("FROM steps ORDER BY order_index"));
    assert!(QueryKind::NotesOfProject
        .sql()
        .ends_with("FROM notes WHERE project_id = ?1 ORDER BY created_at DESC"));
    assert!(QueryKind::AttachmentsOfOwner.sql().ends_with(
        "FROM image_attachments WHERE content_id = ?1 AND content_type_enum = ?2 ORDER BY created_at ASC"
    ));
}

#[test]
fn removal_of_notes_and_transaction_marks_have_their_texts() {
    assert_eq!(MutationKind::DeleteNotesOfProject.sql(), "DELETE FROM notes WHERE project_id = ?1");
    assert_eq!(MutationKind::BeginTransaction.sql(), "BEGIN DEFERRED");
    assert_eq!(MutationKind::CommitTransaction.sql(), "COMMIT");
    assert_eq!(MutationKind::RollBackTransaction.sql(), "ROLLBACK");
}

#[test]
fn dots_of_a_file_name_become_underscores() {
    assert_eq!(with_dots_replaced("photo.jpg"), "photo_jpg");
    assert_eq!(with_dots_replaced("a.b.c"), "a_b_c");
    assert_eq!(with_dots_replaced("..."), "___");
    assert_eq!(with_dots_replaced("plain"), "plain");
    assert_eq!(with_dots_replaced(""), "");
    assert_eq!(with_dots_replaced("größe.雪.png"), "größe_雪_png");
    assert_eq!(with_dots_replaced("under_score.x"), "under_score_x");
}

#[test]
fn stored_file_name_is_made_of_id_name_and_extension() {
    assert_eq!(stored_file_name_with("id7", "photo.jpg", Some("jpg")), "id7_photo_jpg.jpg");
    assert_eq!(stored_file_name_with("id7", "a.b.c", Some("c")), "id7_a_b_c.c");
    assert_eq!(stored_file_name_with("", "", Some("")), "_.");
    assert_eq!(stored_file_name_with("id7", "photo.jpg", Some("gif")), "id7_photo_jpg.gif");
}

#[test]
fn stored_file_name_without_extension_ends_in_png() {
    assert_eq!(stored_file_name_with("id7", "photo", None), "id7_photo.png");
    assert_eq!(stored_file_name_with("id7", ".hidden", None), "id7__hidden.png");
    assert_eq!(stored_file_name_with("id7", "", None), "id7_.png");
}

#[test]
fn stored_file_name_takes_the_extension_of_the_given_name() {
    assert_eq!(stored_file_name("id7", "photo.jpg"), "id7_photo_jpg.jpg");
    assert_eq!(stored_file_name("id7", "archive.tar.gz"), "id7_archive_tar_gz.gz");
    assert_eq!(stored_file_name("id7", "photo"), "id7_photo.png");
    assert_eq!(stored_file_name("id7", ".hidden"), "id7__hidden.png");
    assert_eq!(stored_file_name("id7", "name."), "id7_name_.");
    assert_eq!(stored_file_name("id7", "Größe.PNG"), "id7_Größe_PNG.PNG");
}
