use projectsteps::listing::{
    accept_attachments_of_owner, accept_notes_of_project, accept_projects, accept_steps,
    accept_steps_of_project, is_ascending_steps, is_attachments_within,
    is_newest_first_notes, is_newest_first_projects, is_notes_within,
    is_oldest_first_attachments, is_steps_within,
};
use projectsteps::text::text_at_most;
use projectsteps::{Database, ImageAttachment, Note, Project, Step, StoreError};

fn project(id: &str, created_at: &str) -> Project {
    Project {
        id: id.to_string(),
        name: "n".to_string(),
        description: "d".to_string(),
        created_at: created_at.to_string(),
        updated_at: "u".to_string(),
        gradient: "g".to_string(),
        current_step_id: None,
    }
}

fn step(id: &str, project_id: &str, order_index: i32) -> Step {
    Step {
        id: id.to_string(),
        project_id: project_id.to_string(),
        title: "t".to_string(),
        description: "d".to_string(),
        plain_text: None,
        order_index,
        completed: false,
        created_at: "c".to_string(),
        updated_at: "u".to_string(),
    }
}

fn note(id: &str, project_id: &str, created_at: &str) -> Note {
    Note {
        id: id.to_string(),
        project_id: project_id.to_string(),
        title: "t".to_string(),
        content: "c".to_string(),
        plain_text: "p".to_string(),
        created_at: created_at.to_string(),
        updated_at: "u".to_string(),
    }
}

fn attachment(id: &str, content_id: &str, kind: &str, created_at: &str) -> ImageAttachment {
    ImageAttachment {
        id: id.to_string(),
        file_path: "f".to_string(),
        filename: "n".to_string(),
        content_type: "image/png".to_string(),
        content_id: content_id.to_string(),
        content_type_enum: kind.to_string(),
        created_at: created_at.to_string(),
    }
}

/// A store at the latest generation whose text columns ignore case, so that
/// the engine selects and sorts otherwise than the library asks.
fn store_that_ignores_case() -> rusqlite::Connection {
    let conn = rusqlite::Connection::open_in_memory().unwrap();
    conn.execute_batch(
        "CREATE TABLE schema_version (version INTEGER PRIMARY KEY);
         INSERT INTO schema_version (version) VALUES (5);
         CREATE TABLE projects (id TEXT PRIMARY KEY, name TEXT NOT NULL, description TEXT,
             created_at TEXT NOT NULL COLLATE NOCASE, updated_at TEXT NOT NULL,
             gradient TEXT NOT NULL, current_step_id TEXT);
         CREATE TABLE steps (id TEXT PRIMARY KEY, project_id TEXT NOT NULL COLLATE NOCASE,
             title TEXT NOT NULL, description TEXT, plain_text TEXT,
             order_index INTEGER NOT NULL, completed INTEGER NOT NULL DEFAULT 0,
             created_at TEXT NOT NULL, updated_at TEXT NOT NULL);
         CREATE TABLE notes (id TEXT PRIMARY KEY, project_id TEXT NOT NULL, title TEXT NOT NULL,
             content TEXT NOT NULL, plain_text TEXT NOT NULL,
             created_at TEXT NOT NULL COLLATE NOCASE, updated_at TEXT NOT NULL);
         CREATE TABLE image_attachments (id TEXT PRIMARY KEY, file_path TEXT NOT NULL,
             filename TEXT NOT NULL, content_type TEXT NOT NULL,
             content_id TEXT NOT NULL COLLATE NOCASE, content_type_enum TEXT NOT NULL,
             created_at TEXT NOT NULL);",
    )
    .unwrap();
    conn
}

#[test]
fn text_order_is_the_order_of_the_bytes() {
    let texts = [
        "", " ", "0", "10", "2", "2024-01-01", "2024-01-01T00:00:00Z", "2024-01-02", "A", "B",
        "Z", "a", "ab", "abc", "b", "z", "~", "\u{7f}", "\u{80}", "ä", "é", "ß", "\u{7ff}", "\u{800}",
        "雪", "\u{ffff}", "\u{10000}", "🚀", "a🚀", "a雪",
    ];
    for a in texts {
        for b in texts {
            assert_eq!(text_at_most(a, b), a.as_bytes() <= b.as_bytes(), "{a:?} {b:?}");
            assert_eq!(text_at_most(a, b), a <= b, "{a:?} {b:?}");
        }
    }
}

#[test]
fn text_order_puts_a_prefix_first() {
    assert!(text_at_most("", ""));
    assert!(text_at_most("", "a"));
    assert!(!text_at_most("a", ""));
    assert!(text_at_most("2024-05", "2024-05-01"));
    assert!(!text_at_most("2024-05-01", "2024-05"));
    assert!(text_at_most("B", "a"));
    assert!(!text_at_most("a", "B"));
}

#[test]
fn projects_are_checked_for_newest_first() {
    assert!(is_newest_first_projects(&vec![]));
    assert!(is_newest_first_projects(&vec![project("a", "2024-01-01")]));
    assert!(is_newest_first_projects(&vec![
        project("c", "2024-03-01"),
        project("b", "2024-02-01"),
        project("b2", "2024-02-01"),
        project("a", "2024-01-01"),
    ]));
    assert!(!is_newest_first_projects(&vec![
        project("a", "2024-01-01"),
        project("b", "2024-02-01"),
    ]));
    assert!(!is_newest_first_projects(&vec![
        project("c", "2024-03-01"),
        project("a", "2024-01-01"),
        project("b", "2024-02-01"),
    ]));
}

#[test]
fn steps_are_checked_for_ascending_order_index() {
    assert!(is_ascending_steps(&vec![]));
    assert!(is_ascending_steps(&vec![step("a", "p", 4)]));
    assert!(is_ascending_steps(&vec![
        step("a", "p", i32::MIN),
        step("b", "p", -1),
        step("c", "p", -1),
        step("d", "q", 0),
        step("e", "p", i32::MAX),
    ]));
    assert!(!is_ascending_steps(&vec![step("a", "p", 1), step("b", "p", 0)]));
    assert!(!is_ascending_steps(&vec![step("a", "p", 0), step("b", "p", 2), step("c", "p", 1)]));
}

#[test]
fn steps_of_several_projects_are_checked_for_order_index_alone() {
    assert!(is_ascending_steps(&vec![
        step("a", "kitchen", 0),
        step("b", "garden", 1),
        step("c", "kitchen", 1),
        step("d", "garden", 5),
    ]));
    assert!(!is_ascending_steps(&vec![step("a", "garden", 5), step("b", "kitchen", 1)]));
}

#[test]
fn notes_are_checked_for_newest_first() {
    assert!(is_newest_first_notes(&vec![]));
    assert!(is_newest_first_notes(&vec![note("b", "p", "2024-02"), note("a", "p", "2024-01")]));
    assert!(!is_newest_first_notes(&vec![note("a", "p", "2024-01"), note("b", "p", "2024-02")]));
}

#[test]
fn attachments_are_checked_for_oldest_first() {
    assert!(is_oldest_first_attachments(&vec![]));
    assert!(is_oldest_first_attachments(&vec![
        attachment("a", "s", "step", "2024-01"),
        attachment("b", "s", "step", "2024-01"),
        attachment("c", "s", "step", "2024-02"),
    ]));
    assert!(!is_oldest_first_attachments(&vec![
        attachment("b", "s", "step", "2024-02"),
        attachment("a", "s", "step", "2024-01"),
    ]));
}

#[test]
fn lists_are_checked_for_their_scope() {
    let steps = vec![step("a", "garden", 0), step("b", "garden", 1)];
    assert!(is_steps_within(&steps, "garden"));
    assert!(!is_steps_within(&steps, "kitchen"));
    assert!(!is_steps_within(&vec![step("a", "garden", 0), step("b", "kitchen", 1)], "garden"));
    assert!(is_steps_within(&vec![], "garden"));
    let notes = vec![note("a", "garden", "2024-01")];
    assert!(is_notes_within(&notes, "garden"));
    assert!(!is_notes_within(&notes, "Garden"));
    assert!(is_notes_within(&vec![], "garden"));
    let attachments =
        vec![attachment("a", "x", "step", "2024-01"), attachment("b", "x", "step", "2024-02")];
    assert!(is_attachments_within(&attachments, "x", "step"));
    assert!(!is_attachments_within(&attachments, "x", "note"));
    assert!(!is_attachments_within(&attachments, "y", "step"));
    assert!(!is_attachments_within(
        &vec![attachment("a", "x", "step", "2024-01"), attachment("b", "x", "note", "2024-02")],
        "x",
        "step"
    ));
    assert!(is_attachments_within(&vec![], "x", "step"));
}

#[test]
fn projects_that_the_engine_sorts_otherwise_are_not_returned() {
    let mut db = Database::initialize(store_that_ignores_case(), true).unwrap();
    db.create_project(&project("lower", "a")).unwrap();
    assert_eq!(db.get_all_projects().map(|l| l.len()), Ok(1));
    db.create_project(&project("upper", "B")).unwrap();
    assert_eq!(
        db.get_all_projects(),
        Err(StoreError::UnexpectedRows("projects".to_string()))
    );
}

#[test]
fn notes_that_the_engine_sorts_otherwise_are_not_returned() {
    let mut db = Database::initialize(store_that_ignores_case(), true).unwrap();
    db.create_note(&note("n1", "garden", "a")).unwrap();
    db.create_note(&note("n2", "garden", "B")).unwrap();
    assert_eq!(
        db.get_notes_by_project("garden"),
        Err(StoreError::UnexpectedRows("notes of a project".to_string()))
    );
    assert_eq!(db.get_notes_by_project("kitchen"), Ok(vec![]));
}

#[test]
fn steps_that_the_engine_selects_otherwise_are_not_returned() {
    let mut db = Database::initialize(store_that_ignores_case(), true).unwrap();
    db.create_step(&step("s1", "Garden", 0)).unwrap();
    assert_eq!(db.get_steps_by_project("Garden"), Ok(vec![step("s1", "Garden", 0)]));
    assert_eq!(
        db.get_steps_by_project("garden"),
        Err(StoreError::UnexpectedRows("steps of a project".to_string()))
    );
    db.create_step(&step("s2", "a", 2)).unwrap();
    db.create_step(&step("s3", "B", 1)).unwrap();
    assert_eq!(
        db.get_all_steps(),
        Ok(vec![step("s1", "Garden", 0), step("s3", "B", 1), step("s2", "a", 2)])
    );
}

#[test]
fn attachments_that_the_engine_selects_otherwise_are_not_returned() {
    let mut db = Database::initialize(store_that_ignores_case(), true).unwrap();
    let a = attachment("i1", "Owner", "step", "2024-01");
    db.create_image_attachment(&a).unwrap();
    assert_eq!(db.get_image_attachments_by_content("Owner", "step"), Ok(vec![a]));
    assert_eq!(
        db.get_image_attachments_by_content("owner", "step"),
        Err(StoreError::UnexpectedRows("attachments of an owner".to_string()))
    );
    assert_eq!(db.get_image_attachments_by_content("owner", "note"), Ok(vec![]));
}

#[test]
fn unexpected_rows_have_a_message() {
    assert_eq!(
        StoreError::UnexpectedRows("steps".to_string()).message(),
        "rows out of place in the listing of steps"
    );
}

fn unexpected(listing: &str) -> StoreError {
    StoreError::UnexpectedRows(listing.to_string())
}

#[test]
fn projects_in_order_are_accepted_as_they_are() {
    assert_eq!(accept_projects(vec![]), Ok(vec![]));
    let listed = vec![project("b", "2024-02-01"), project("a", "2024-01-01")];
    assert_eq!(accept_projects(listed.clone()), Ok(listed));
}

#[test]
fn projects_out_of_order_are_refused_by_name() {
    let listed = vec![project("a", "2024-01-01"), project("b", "2024-02-01")];
    assert_eq!(accept_projects(listed), Err(unexpected("projects")));
}

#[test]
fn steps_of_a_project_are_accepted_or_refused_by_name() {
    assert_eq!(accept_steps_of_project(vec![], "garden"), Ok(vec![]));
    let listed = vec![step("a", "garden", 0), step("b", "garden", 4)];
    assert_eq!(accept_steps_of_project(listed.clone(), "garden"), Ok(listed.clone()));
    assert_eq!(
        accept_steps_of_project(listed, "kitchen"),
        Err(unexpected("steps of a project"))
    );
    let unordered = vec![step("b", "garden", 4), step("a", "garden", 0)];
    assert_eq!(
        accept_steps_of_project(unordered, "garden"),
        Err(unexpected("steps of a project"))
    );
}

#[test]
fn all_steps_are_accepted_or_refused_by_name() {
    let listed = vec![step("b", "kitchen", 1), step("a", "garden", 5)];
    assert_eq!(accept_steps(listed.clone()), Ok(listed));
    let tied = vec![step("a", "kitchen", 3), step("b", "garden", 3)];
    assert_eq!(accept_steps(tied.clone()), Ok(tied));
    assert_eq!(accept_steps(vec![]), Ok(vec![]));
    let unordered = vec![step("a", "garden", 5), step("b", "kitchen", 1)];
    assert_eq!(accept_steps(unordered), Err(unexpected("steps")));
}

#[test]
fn notes_of_a_project_are_accepted_or_refused_by_name() {
    let listed = vec![note("b", "garden", "2024-02"), note("a", "garden", "2024-01")];
    assert_eq!(accept_notes_of_project(listed.clone(), "garden"), Ok(listed.clone()));
    assert_eq!(
        accept_notes_of_project(listed, "kitchen"),
        Err(unexpected("notes of a project"))
    );
    let unordered = vec![note("a", "garden", "2024-01"), note("b", "garden", "2024-02")];
    assert_eq!(
        accept_notes_of_project(unordered, "garden"),
        Err(unexpected("notes of a project"))
    );
}

#[test]
fn attachments_of_an_owner_are_accepted_or_refused_by_name() {
    let listed = vec![
        attachment("a", "x", "step", "2024-01"),
        attachment("b", "x", "step", "2024-02"),
    ];
    assert_eq!(accept_attachments_of_owner(listed.clone(), "x", "step"), Ok(listed.clone()));
    assert_eq!(
        accept_attachments_of_owner(listed.clone(), "x", "note"),
        Err(unexpected("attachments of an owner"))
    );
    assert_eq!(
        accept_attachments_of_owner(listed, "y", "step"),
        Err(unexpected("attachments of an owner"))
    );
    let unordered = vec![
        attachment("b", "x", "step", "2024-02"),
        attachment("a", "x", "step", "2024-01"),
    ];
    assert_eq!(
        accept_attachments_of_owner(unordered, "x", "step"),
        Err(unexpected("attachments of an owner"))
    );
}
