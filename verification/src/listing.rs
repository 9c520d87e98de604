//! What a listing owes its caller, and the checks that hold a list to it.
//!
//! The engine selects and sorts.  The library asks it for the records of one
//! scope in one order and then checks the answer, so that a list that a
//! repository operation returns is within its scope and in its order
//! whatever the engine did.

use vstd::prelude::*;
use crate::attachment::{ImageAttachment, ImageAttachmentView};
use crate::error::StoreError;
use crate::note::{Note, NoteView};
use crate::project::{Project, ProjectView};
use crate::step::{Step, StepView};
use crate::text::{text_at_most, text_equals, text_le, text_le_is_transitive};

verus! {

/// What the records of a list hold, in the order of the list.
pub open spec fn views<T: View>(records: Seq<T>) -> Seq<T::V> {
    records.map_values(|record: T| record@)
}

/// Projects as they come back from the store: none with a current step set
/// to the empty text.
pub open spec fn stored_projects(listed: Seq<ProjectView>) -> bool {
    forall|i: int| 0 <= i < listed.len() ==> (#[trigger] listed[i]).stored() == listed[i]
}

/// Steps as they come back from the store: none with a plain text set to
/// the empty text.
pub open spec fn stored_steps(listed: Seq<StepView>) -> bool {
    forall|i: int| 0 <= i < listed.len() ==> (#[trigger] listed[i]).stored() == listed[i]
}

/// Projects by descending time of creation: the one created last first.
pub open spec fn newest_first_projects(listed: Seq<ProjectView>) -> bool {
    forall|i: int, j: int|
        0 <= i < j < listed.len() ==> text_le(
            (#[trigger] listed[j]).created_at,
            (#[trigger] listed[i]).created_at,
        )
}

/// Steps by ascending order index.  Which of two steps with one index comes
/// first is left open.
pub open spec fn ascending_steps(listed: Seq<StepView>) -> bool {
    forall|i: int, j: int|
        0 <= i < j < listed.len() ==> (#[trigger] listed[i]).order_index <= (
        #[trigger] listed[j]).order_index
}

/// Notes by descending time of creation: the one created last first.
pub open spec fn newest_first_notes(listed: Seq<NoteView>) -> bool {
    forall|i: int, j: int|
        0 <= i < j < listed.len() ==> text_le(
            (#[trigger] listed[j]).created_at,
            (#[trigger] listed[i]).created_at,
        )
}

/// Attachments by ascending time of creation: the one created first first.
pub open spec fn oldest_first_attachments(listed: Seq<ImageAttachmentView>) -> bool {
    forall|i: int, j: int|
        0 <= i < j < listed.len() ==> text_le(
            (#[trigger] listed[i]).created_at,
            (#[trigger] listed[j]).created_at,
        )
}

/// Whether every step of a list belongs to one project.
pub open spec fn steps_within(listed: Seq<StepView>, project_id: Seq<char>) -> bool {
    forall|i: int| 0 <= i < listed.len() ==> (#[trigger] listed[i]).project_id == project_id
}

/// Whether every note of a list belongs to one project.
pub open spec fn notes_within(listed: Seq<NoteView>, project_id: Seq<char>) -> bool {
    forall|i: int| 0 <= i < listed.len() ==> (#[trigger] listed[i]).project_id == project_id
}

/// Whether every attachment of a list belongs to one owner: the owner of
/// that id and of that kind.
pub open spec fn attachments_within(
    listed: Seq<ImageAttachmentView>,
    content_id: Seq<char>,
    content_type_enum: Seq<char>,
) -> bool {
    forall|i: int|
        0 <= i < listed.len() ==> (#[trigger] listed[i]).content_id == content_id
            && listed[i].content_type_enum == content_type_enum
}

/// Whether `listed` holds projects by descending time of creation.
pub fn is_newest_first_projects(listed: &Vec<Project>) -> (ordered: bool)
    ensures
        ordered == newest_first_projects(views(listed@)),
{
    let mut i: usize = 1;
    while i < listed.len()
        invariant
            1 <= i,
            forall|a: int, b: int|
                0 <= a < b < i && b < listed.len() ==> text_le(
                    (#[trigger] listed[b])@.created_at,
                    (#[trigger] listed[a])@.created_at,
                ),
        decreases listed.len() - i,
    {
        if !text_at_most(listed[i].created_at.as_str(), listed[i - 1].created_at.as_str()) {
            assert(!text_le(
                views(listed@)[i as int].created_at,
                views(listed@)[i - 1].created_at,
            ));
            return false;
        }
        proof {
            assert forall|a: int| 0 <= a < i implies text_le(
                listed[i as int]@.created_at,
                (#[trigger] listed[a])@.created_at,
            ) by {
                if a < i - 1 {
                    text_le_is_transitive(
                        listed[i as int]@.created_at,
                        listed[i - 1]@.created_at,
                        listed[a]@.created_at,
                    );
                }
            }
        }
        i += 1;
    }
    true
}

/// Whether `listed` holds steps by ascending order index.
pub fn is_ascending_steps(listed: &Vec<Step>) -> (ordered: bool)
    ensures
        ordered == ascending_steps(views(listed@)),
{
    let mut i: usize = 1;
    while i < listed.len()
        invariant
            1 <= i,
            forall|a: int, b: int|
                0 <= a < b < i && b < listed.len() ==> (#[trigger] listed[a]).order_index <= (
                #[trigger] listed[b]).order_index,
        decreases listed.len() - i,
    {
        if listed[i - 1].order_index > listed[i].order_index {
            assert(views(listed@)[i - 1].order_index > views(listed@)[i as int].order_index);
            return false;
        }
        i += 1;
    }
    assert forall|a: int, b: int| 0 <= a < b < views(listed@).len() implies (#[trigger] views(
        listed@,
    )[a]).order_index <= (#[trigger] views(listed@)[b]).order_index by {
        assert(listed[a].order_index <= listed[b].order_index);
    }
    true
}

/// Whether `listed` holds notes by descending time of creation.
pub fn is_newest_first_notes(listed: &Vec<Note>) -> (ordered: bool)
    ensures
        ordered == newest_first_notes(views(listed@)),
{
    let mut i: usize = 1;
    while i < listed.len()
        invariant
            1 <= i,
            forall|a: int, b: int|
                0 <= a < b < i && b < listed.len() ==> text_le(
                    (#[trigger] listed[b])@.created_at,
                    (#[trigger] listed[a])@.created_at,
                ),
        decreases listed.len() - i,
    {
        if !text_at_most(listed[i].created_at.as_str(), listed[i - 1].created_at.as_str()) {
            assert(!text_le(
                views(listed@)[i as int].created_at,
                views(listed@)[i - 1].created_at,
            ));
            return false;
        }
        proof {
            assert forall|a: int| 0 <= a < i implies text_le(
                listed[i as int]@.created_at,
                (#[trigger] listed[a])@.created_at,
            ) by {
                if a < i - 1 {
                    text_le_is_transitive(
                        listed[i as int]@.created_at,
                        listed[i - 1]@.created_at,
                        listed[a]@.created_at,
                    );
                }
            }
        }
        i += 1;
    }
    true
}

/// Whether `listed` holds attachments by ascending time of creation.
pub fn is_oldest_first_attachments(listed: &Vec<ImageAttachment>) -> (ordered: bool)
    ensures
        ordered == oldest_first_attachments(views(listed@)),
{
    let mut i: usize = 1;
    while i < listed.len()
        invariant
            1 <= i,
            forall|a: int, b: int|
                0 <= a < b < i && b < listed.len() ==> text_le(
                    (#[trigger] listed[a])@.created_at,
                    (#[trigger] listed[b])@.created_at,
                ),
        decreases listed.len() - i,
    {
        if !text_at_most(listed[i - 1].created_at.as_str(), listed[i].created_at.as_str()) {
            assert(!text_le(
                views(listed@)[i - 1].created_at,
                views(listed@)[i as int].created_at,
            ));
            return false;
        }
        proof {
            assert forall|a: int| 0 <= a < i implies text_le(
                (#[trigger] listed[a])@.created_at,
                listed[i as int]@.created_at,
            ) by {
                if a < i - 1 {
                    text_le_is_transitive(
                        listed[a]@.created_at,
                        listed[i - 1]@.created_at,
                        listed[i as int]@.created_at,
                    );
                }
            }
        }
        i += 1;
    }
    true
}

/// Whether every step of `listed` belongs to the project `project_id`.
pub fn is_steps_within(listed: &Vec<Step>, project_id: &str) -> (within: bool)
    ensures
        within == steps_within(views(listed@), project_id@),
{
    let mut i: usize = 0;
    while i < listed.len()
        invariant
            forall|a: int|
                0 <= a < i && a < listed.len() ==> (#[trigger] listed[a])@.project_id
                    == project_id@,
        decreases listed.len() - i,
    {
        if !text_equals(listed[i].project_id.as_str(), project_id) {
            assert(views(listed@)[i as int].project_id != project_id@);
            return false;
        }
        i += 1;
    }
    true
}

/// Whether every note of `listed` belongs to the project `project_id`.
pub fn is_notes_within(listed: &Vec<Note>, project_id: &str) -> (within: bool)
    ensures
        within == notes_within(views(listed@), project_id@),
{
    let mut i: usize = 0;
    while i < listed.len()
        invariant
            forall|a: int|
                0 <= a < i && a < listed.len() ==> (#[trigger] listed[a])@.project_id
                    == project_id@,
        decreases listed.len() - i,
    {
        if !text_equals(listed[i].project_id.as_str(), project_id) {
            assert(views(listed@)[i as int].project_id != project_id@);
            return false;
        }
        i += 1;
    }
    true
}

/// Whether every attachment of `listed` belongs to the owner `content_id`
/// of kind `content_type_enum`.
pub fn is_attachments_within(
    listed: &Vec<ImageAttachment>,
    content_id: &str,
    content_type_enum: &str,
) -> (within: bool)
    ensures
        within == attachments_within(views(listed@), content_id@, content_type_enum@),
{
    let mut i: usize = 0;
    while i < listed.len()
        invariant
            forall|a: int|
                0 <= a < i && a < listed.len() ==> (#[trigger] listed[a])@.content_id
                    == content_id@ && listed[a]@.content_type_enum == content_type_enum@,
        decreases listed.len() - i,
    {
        if !text_equals(listed[i].content_id.as_str(), content_id) || !text_equals(
            listed[i].content_type_enum.as_str(),
            content_type_enum,
        ) {
            assert(!(views(listed@)[i as int].content_id == content_id@ && views(
                listed@,
            )[i as int].content_type_enum == content_type_enum@));
            return false;
        }
        i += 1;
    }
    true
}

/// The name of the listing of every project.
pub const LISTING_OF_PROJECTS: &'static str = "projects";

/// The name of the listing of the steps of one project.
pub const LISTING_OF_STEPS_OF_PROJECT: &'static str = "steps of a project";

/// The name of the listing of every step.
pub const LISTING_OF_STEPS: &'static str = "steps";

/// The name of the listing of the notes of one project.
pub const LISTING_OF_NOTES_OF_PROJECT: &'static str = "notes of a project";

/// The name of the listing of the attachments of one owner.
pub const LISTING_OF_ATTACHMENTS_OF_OWNER: &'static str = "attachments of an owner";

/// The library's error for a listing that the engine answered with rows out
/// of place.
fn unexpected_rows(listing: &str) -> (error: StoreError)
    ensures
        error matches StoreError::UnexpectedRows(named) && named@ == listing@,
{
    StoreError::UnexpectedRows(listing.to_owned())
}

/// What the engine's answer to the listing of every project comes to: the
/// answer itself where it is newest first, and else the error that names
/// the listing.
pub fn accept_projects(fetched: Vec<Project>) -> (accepted: Result<Vec<Project>, StoreError>)
    ensures
        match accepted {
            Ok(listed) => listed == fetched && newest_first_projects(views(fetched@)),
            Err(StoreError::UnexpectedRows(listing)) => listing@ == LISTING_OF_PROJECTS@
                && !newest_first_projects(views(fetched@)),
            Err(_) => false,
        },
{
    if !is_newest_first_projects(&fetched) {
        return Err(unexpected_rows(LISTING_OF_PROJECTS));
    }
    Ok(fetched)
}

/// What the engine's answer to the listing of the steps of the project
/// `project_id` comes to: the answer itself where every step belongs to the
/// project and the steps ascend by order index, and else the error that
/// names the listing.
pub fn accept_steps_of_project(fetched: Vec<Step>, project_id: &str) -> (accepted: Result<
    Vec<Step>,
    StoreError,
>)
    ensures
        match accepted {
            Ok(listed) => listed == fetched && steps_within(views(fetched@), project_id@)
                && ascending_steps(views(fetched@)),
            Err(StoreError::UnexpectedRows(listing)) => listing@ == LISTING_OF_STEPS_OF_PROJECT@
                && !(steps_within(views(fetched@), project_id@) && ascending_steps(
                views(fetched@),
            )),
            Err(_) => false,
        },
{
    if !is_steps_within(&fetched, project_id) || !is_ascending_steps(&fetched) {
        return Err(unexpected_rows(LISTING_OF_STEPS_OF_PROJECT));
    }
    Ok(fetched)
}

/// What the engine's answer to the listing of every step comes to: the
/// answer itself where the steps ascend by order index, whatever their
/// projects, and else the error that names the listing.
pub fn accept_steps(fetched: Vec<Step>) -> (accepted: Result<Vec<Step>, StoreError>)
    ensures
        match accepted {
            Ok(listed) => listed == fetched && ascending_steps(views(fetched@)),
            Err(StoreError::UnexpectedRows(listing)) => listing@ == LISTING_OF_STEPS@
                && !ascending_steps(views(fetched@)),
            Err(_) => false,
        },
{
    if !is_ascending_steps(&fetched) {
        return Err(unexpected_rows(LISTING_OF_STEPS));
    }
    Ok(fetched)
}

/// What the engine's answer to the listing of the notes of the project
/// `project_id` comes to: the answer itself where every note belongs to the
/// project and the notes are newest first, and else the error that names
/// the listing.
pub fn accept_notes_of_project(fetched: Vec<Note>, project_id: &str) -> (accepted: Result<
    Vec<Note>,
    StoreError,
>)
    ensures
        match accepted {
            Ok(listed) => listed == fetched && notes_within(views(fetched@), project_id@)
                && newest_first_notes(views(fetched@)),
            Err(StoreError::UnexpectedRows(listing)) => listing@ == LISTING_OF_NOTES_OF_PROJECT@
                && !(notes_within(views(fetched@), project_id@) && newest_first_notes(
                views(fetched@),
            )),
            Err(_) => false,
        },
{
    if !is_notes_within(&fetched, project_id) || !is_newest_first_notes(&fetched) {
        return Err(unexpected_rows(LISTING_OF_NOTES_OF_PROJECT));
    }
    Ok(fetched)
}

/// What the engine's answer to the listing of the attachments of the owner
/// `content_id` of kind `content_type_enum` comes to: the answer itself
/// where every attachment belongs to that owner and the attachments are
/// oldest first, and else the error that names the listing.
pub fn accept_attachments_of_owner(
    fetched: Vec<ImageAttachment>,
    content_id: &str,
    content_type_enum: &str,
) -> (accepted: Result<Vec<ImageAttachment>, StoreError>)
    ensures
        match accepted {
            Ok(listed) => listed == fetched && attachments_within(
                views(fetched@),
                content_id@,
                content_type_enum@,
            ) && oldest_first_attachments(views(fetched@)),
            Err(StoreError::UnexpectedRows(listing)) => listing@
                == LISTING_OF_ATTACHMENTS_OF_OWNER@ && !(attachments_within(
                views(fetched@),
                content_id@,
                content_type_enum@,
            ) && oldest_first_attachments(views(fetched@))),
            Err(_) => false,
        },
{
    if !is_attachments_within(&fetched, content_id, content_type_enum)
        || !is_oldest_first_attachments(&fetched) {
        return Err(unexpected_rows(LISTING_OF_ATTACHMENTS_OF_OWNER));
    }
    Ok(fetched)
}

} // verus!
