use projectsteps::{Database, ImageAttachment, Note, Project, Step};

/// The rows that a store is expected to hold, kept in plain vectors.
struct Expected {
    projects: Vec<Project>,
    steps: Vec<Step>,
    notes: Vec<Note>,
    attachments: Vec<ImageAttachment>,
}

fn absent_if_empty(text: Option<String>) -> Option<String> {
    match text {
        Some(t) if t.is_empty() => None,
        other => other,
    }
}

impl Expected {
    fn new() -> Expected {
        Expected { projects: vec![], steps: vec![], notes: vec![], attachments: vec![] }
    }

    fn insert_project(&mut self, p: &Project) {
        if !self.projects.iter().any(|q| q.id == p.id) {
            self.projects.push(p.clone());
        }
    }

    fn update_project(&mut self, p: &Project) {
        for q in self.projects.iter_mut().filter(|q| q.id == p.id) {
            q.name = p.name.clone();
            q.description = p.description.clone();
            q.updated_at = p.updated_at.clone();
            q.gradient = p.gradient.clone();
            q.current_step_id = p.current_step_id.clone();
        }
    }

    fn delete_project(&mut self, id: &str) {
        self.steps.retain(|s| s.project_id != id);
        self.projects.retain(|p| p.id != id);
        self.notes.retain(|n| n.project_id != id);
    }

    fn set_current_step(&mut self, id: &str, step: Option<&str>) {
        for q in self.projects.iter_mut().filter(|q| q.id == id) {
            q.current_step_id = step.map(|s| s.to_string());
        }
    }

    fn insert_step(&mut self, s: &Step) {
        if !self.steps.iter().any(|t| t.id == s.id) {
            self.steps.push(s.clone());
        }
    }

    fn update_step(&mut self, s: &Step) {
        for t in self.steps.iter_mut().filter(|t| t.id == s.id) {
            t.title = s.title.clone();
            t.description = s.description.clone();
            t.plain_text = s.plain_text.clone();
            t.order_index = s.order_index;
            t.completed = s.completed;
            t.updated_at = s.updated_at.clone();
        }
    }

    fn insert_note(&mut self, n: &Note) {
        if !self.notes.iter().any(|m| m.id == n.id) {
            self.notes.push(n.clone());
        }
    }

    fn update_note(&mut self, n: &Note) {
        for m in self.notes.iter_mut().filter(|m| m.id == n.id) {
            m.title = n.title.clone();
            m.content = n.content.clone();
            m.plain_text = n.plain_text.clone();
            m.updated_at = n.updated_at.clone();
        }
    }

    fn insert_attachment(&mut self, a: &ImageAttachment) {
        if !self.attachments.iter().any(|b| b.id == a.id) {
            self.attachments.push(a.clone());
        }
    }

    fn listed_projects(&self) -> Vec<Project> {
        let mut listed: Vec<Project> = self
            .projects
            .iter()
            .map(|p| Project { current_step_id: absent_if_empty(p.current_step_id.clone()), ..p.clone() })
            .collect();
        listed.sort_by_key(|p| p.created_at.clone());
        listed.reverse();
        listed
    }

    fn listed_steps(&self, project_id: Option<&str>) -> Vec<Step> {
        let mut listed: Vec<Step> = self
            .steps
            .iter()
            .filter(|s| project_id.map_or(true, |id| s.project_id == id))
            .map(|s| Step { plain_text: absent_if_empty(s.plain_text.clone()), ..s.clone() })
            .collect();
        listed.sort_by_key(|s| s.order_index);
        listed
    }

    fn listed_notes(&self, project_id: &str) -> Vec<Note> {
        let mut listed: Vec<Note> =
            self.notes.iter().filter(|n| n.project_id == project_id).cloned().collect();
        listed.sort_by_key(|n| n.created_at.clone());
        listed.reverse();
        listed
    }

    fn listed_attachments(&self, content_id: &str, kind: &str) -> Vec<ImageAttachment> {
        let mut listed: Vec<ImageAttachment> = self
            .attachments
            .iter()
            .filter(|a| a.content_id == content_id && a.content_type_enum == kind)
            .cloned()
            .collect();
        listed.sort_by_key(|a| a.created_at.clone());
        listed
    }
}

/// A fixed sequence of numbers that looks irregular.
struct Sequence(u64);

impl Sequence {
    fn next(&mut self, below: u64) -> u64 {
        self.0 = self.0.wrapping_mul(6364136223846793005).wrapping_add(1442695040888963407);
        (self.0 >> 33) % below
    }

    fn pick<'a>(&mut self, from: &[&'a str]) -> &'a str {
        from[self.next(from.len() as u64) as usize]
    }
}

const PROJECTS: [&str; 4] = ["alder", "birch", "cedar", "douglas"];
const STEPS: [&str; 6] = ["s-a", "s-b", "s-c", "s-d", "s-e", "s-f"];
const NOTES: [&str; 4] = ["n-a", "n-b", "n-c", "n-d"];
const IMAGES: [&str; 5] = ["i-a", "i-b", "i-c", "i-d", "i-e"];
const OWNERS: [&str; 3] = ["alder", "s-a", "n-a"];
const KINDS: [&str; 3] = ["step", "note", "project_description"];

fn compare(db: &Database, expected: &Expected, moment: usize) {
    assert_eq!(db.get_all_projects().unwrap(), expected.listed_projects(), "at {moment}");
    assert_eq!(db.get_all_steps().unwrap(), expected.listed_steps(None), "at {moment}");
    for project in PROJECTS {
        assert_eq!(
            db.get_steps_by_project(project).unwrap(),
            expected.listed_steps(Some(project)),
            "at {moment}"
        );
        assert_eq!(
            db.get_notes_by_project(project).unwrap(),
            expected.listed_notes(project),
            "at {moment}"
        );
    }
    for owner in OWNERS {
        for kind in KINDS {
            assert_eq!(
                db.get_image_attachments_by_content(owner, kind).unwrap(),
                expected.listed_attachments(owner, kind),
                "at {moment}"
            );
        }
    }
}

fn run(seed: u64, moments: usize) {
    let mut db = Database::new(&std::path::PathBuf::from(":memory:")).unwrap();
    let mut expected = Expected::new();
    let mut numbers = Sequence(seed);
    for moment in 0..moments {
        // Times and indices are distinct, so that every order is decided.
        let time = format!("2024-01-01T00:{:02}:{:02}Z", moment / 60, moment % 60);
        let index = moment as i32 - 40;
        match numbers.next(14) {
            0 => {
                let p = Project {
                    id: numbers.pick(&PROJECTS).to_string(),
                    name: format!("name {moment}"),
                    description: format!("description {moment}"),
                    created_at: time.clone(),
                    updated_at: time.clone(),
                    gradient: format!("gradient {moment}"),
                    current_step_id: [None, Some(String::new()), Some("s-a".to_string())]
                        [numbers.next(3) as usize]
                        .clone(),
                };
                let fresh = !expected.projects.iter().any(|q| q.id == p.id);
                assert_eq!(db.create_project(&p).is_ok(), fresh, "at {moment}");
                expected.insert_project(&p);
            }
            1 => {
                let p = Project {
                    id: numbers.pick(&PROJECTS).to_string(),
                    name: format!("renamed {moment}"),
                    description: format!("rewritten {moment}"),
                    created_at: "ignored".to_string(),
                    updated_at: time.clone(),
                    gradient: format!("gradient {moment}"),
                    current_step_id: [None, Some("s-b".to_string())][numbers.next(2) as usize]
                        .clone(),
                };
                assert_eq!(db.update_project(&p), Ok(()), "at {moment}");
                expected.update_project(&p);
            }
            2 => {
                let id = numbers.pick(&PROJECTS);
                assert_eq!(db.delete_project(id), Ok(()), "at {moment}");
                expected.delete_project(id);
            }
            3 => {
                let id = numbers.pick(&PROJECTS);
                let step = [None, Some(""), Some("s-c")][numbers.next(3) as usize];
                assert_eq!(db.update_project_current_step(id, step), Ok(()), "at {moment}");
                expected.set_current_step(id, step);
            }
            4 | 5 => {
                let s = Step {
                    id: numbers.pick(&STEPS).to_string(),
                    project_id: numbers.pick(&PROJECTS).to_string(),
                    title: format!("title {moment}"),
                    description: format!("description {moment}"),
                    plain_text: [None, Some(String::new()), Some(format!("plain {moment}"))]
                        [numbers.next(3) as usize]
                        .clone(),
                    order_index: index,
                    completed: numbers.next(2) == 1,
                    created_at: time.clone(),
                    updated_at: time.clone(),
                };
                let accepted = !expected.steps.iter().any(|t| t.id == s.id)
                    && expected.projects.iter().any(|p| p.id == s.project_id);
                assert_eq!(db.create_step(&s).is_ok(), accepted, "at {moment}");
                if accepted {
                    expected.insert_step(&s);
                }
            }
            6 => {
                let s = Step {
                    id: numbers.pick(&STEPS).to_string(),
                    project_id: "ignored".to_string(),
                    title: format!("retitled {moment}"),
                    description: format!("rewritten {moment}"),
                    plain_text: [None, Some(format!("plain {moment}"))][numbers.next(2) as usize]
                        .clone(),
                    order_index: index,
                    completed: numbers.next(2) == 1,
                    created_at: "ignored".to_string(),
                    updated_at: time.clone(),
                };
                assert_eq!(db.update_step(&s), Ok(()), "at {moment}");
                expected.update_step(&s);
            }
            7 => {
                let mut batch = vec![];
                for (k, id) in STEPS.iter().enumerate() {
                    if numbers.next(2) == 1 {
                        batch.push(Step {
                            id: id.to_string(),
                            project_id: "ignored".to_string(),
                            title: format!("batch {moment}"),
                            description: format!("batch {moment}"),
                            plain_text: None,
                            order_index: 1000 * (moment as i32 + 1) + k as i32,
                            completed: k % 2 == 0,
                            created_at: "ignored".to_string(),
                            updated_at: time.clone(),
                        });
                    }
                }
                assert_eq!(db.update_steps_batch(&batch), Ok(()), "at {moment}");
                for s in &batch {
                    expected.update_step(s);
                }
            }
            8 => {
                let id = numbers.pick(&STEPS);
                assert_eq!(db.delete_step(id), Ok(()), "at {moment}");
                expected.steps.retain(|s| s.id != id);
            }
            9 => {
                let n = Note {
                    id: numbers.pick(&NOTES).to_string(),
                    project_id: numbers.pick(&PROJECTS).to_string(),
                    title: format!("title {moment}"),
                    content: format!("<p>{moment}</p>"),
                    plain_text: format!("{moment}"),
                    created_at: time.clone(),
                    updated_at: time.clone(),
                };
                let accepted = !expected.notes.iter().any(|m| m.id == n.id)
                    && expected.projects.iter().any(|p| p.id == n.project_id);
                assert_eq!(db.create_note(&n).is_ok(), accepted, "at {moment}");
                if accepted {
                    expected.insert_note(&n);
                }
            }
            10 => {
                let n = Note {
                    id: numbers.pick(&NOTES).to_string(),
                    project_id: "ignored".to_string(),
                    title: format!("retitled {moment}"),
                    content: format!("<p>new {moment}</p>"),
                    plain_text: String::new(),
                    created_at: "ignored".to_string(),
                    updated_at: time.clone(),
                };
                assert_eq!(db.update_note(&n), Ok(()), "at {moment}");
                expected.update_note(&n);
            }
            11 => {
                let id = numbers.pick(&NOTES);
                assert_eq!(db.delete_note(id), Ok(()), "at {moment}");
                expected.notes.retain(|n| n.id != id);
            }
            12 => {
                let a = ImageAttachment {
                    id: numbers.pick(&IMAGES).to_string(),
                    file_path: format!("/images/{moment}.png"),
                    filename: format!("{moment}.png"),
                    content_type: "image/png".to_string(),
                    content_id: numbers.pick(&OWNERS).to_string(),
                    content_type_enum: numbers.pick(&KINDS).to_string(),
                    created_at: time.clone(),
                };
                let fresh = !expected.attachments.iter().any(|b| b.id == a.id);
                assert_eq!(db.create_image_attachment(&a).is_ok(), fresh, "at {moment}");
                expected.insert_attachment(&a);
            }
            _ => {
                if numbers.next(2) == 0 {
                    let id = numbers.pick(&IMAGES);
                    assert_eq!(db.delete_image_attachment(id), Ok(()), "at {moment}");
                    expected.attachments.retain(|a| a.id != id);
                } else {
                    let owner = numbers.pick(&OWNERS);
                    let kind = numbers.pick(&KINDS);
                    assert_eq!(
                        db.delete_image_attachments_by_content(owner, kind),
                        Ok(()),
                        "at {moment}"
                    );
                    expected
                        .attachments
                        .retain(|a| !(a.content_id == owner && a.content_type_enum == kind));
                }
            }
        }
        compare(&db, &expected, moment);
    }
}

#[test]
fn store_follows_the_expected_rows_through_a_long_history() {
    run(1, 400);
}

#[test]
fn store_follows_the_expected_rows_through_other_histories() {
    for seed in 2..12 {
        run(seed, 120);
    }
}
