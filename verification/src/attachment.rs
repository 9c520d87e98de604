//! Image attachments: the record, the closed set of owner kinds, the
//! mutations, and the name under which an uploaded image is stored.
//!
//! An attachment belongs to a step, to a note or to the description of a
//! project.  It names its owner by the owner's id together with the owner's
//! kind; the same id under another kind is another owner.  An attachment is
//! never updated: to replace one, delete it and store a new one.

use vstd::prelude::*;
use vstd::string::{StrSliceExecFns, StringExecFns};
use crate::encoding::text_of_str;
use crate::engine::file_extension;
use crate::mutation::{Mutation, MutationKind, MutationView, SqlValue, SqlValueView};
use crate::text::text_equals;

verus! {

/// An image attached to a step, a note or a project's description.
#[derive(Debug, Clone, PartialEq, Eq)]
pub struct ImageAttachment {
    pub id: String,
    pub file_path: String,
    pub filename: String,
    pub content_type: String,
    pub content_id: String,
    pub content_type_enum: String,
    pub created_at: String,
}

/// What an [`ImageAttachment`] holds, which is also its row in the table of
/// attachments.
pub struct ImageAttachmentView {
    pub id: Seq<char>,
    pub file_path: Seq<char>,
    pub filename: Seq<char>,
    pub content_type: Seq<char>,
    pub content_id: Seq<char>,
    pub content_type_enum: Seq<char>,
    pub created_at: Seq<char>,
}

impl View for ImageAttachment {
    type V = ImageAttachmentView;

    open spec fn view(&self) -> ImageAttachmentView {
        ImageAttachmentView {
            id: self.id@,
            file_path: self.file_path@,
            filename: self.filename@,
            content_type: self.content_type@,
            content_id: self.content_id@,
            content_type_enum: self.content_type_enum@,
            created_at: self.created_at@,
        }
    }
}

/// The kinds of owner that an attachment can have.
#[derive(Debug, Clone, Copy, PartialEq, Eq)]
pub enum OwnerKind {
    Step,
    Note,
    ProjectDescription,
}

impl OwnerKind {
    /// The name under which the kind is stored.
    pub open spec fn name(self) -> Seq<char> {
        match self {
            OwnerKind::Step => "step"@,
            OwnerKind::Note => "note"@,
            OwnerKind::ProjectDescription => "project_description"@,
        }
    }

    /// The name under which the kind is stored.
    pub fn as_str(self) -> (name: &'static str)
        ensures
            name@ == self.name(),
    {
        match self {
            OwnerKind::Step => "step",
            OwnerKind::Note => "note",
            OwnerKind::ProjectDescription => "project_description",
        }
    }

    /// The kind stored under `name`, if `name` is one of the three names.
    pub open spec fn named(name: Seq<char>) -> Option<OwnerKind> {
        if name == "step"@ {
            Some(OwnerKind::Step)
        } else if name == "note"@ {
            Some(OwnerKind::Note)
        } else if name == "project_description"@ {
            Some(OwnerKind::ProjectDescription)
        } else {
            None
        }
    }

    /// The kind stored under `name`, if `name` is one of the three names.
    pub fn parse(name: &str) -> (kind: Option<OwnerKind>)
        ensures
            kind == OwnerKind::named(name@),
    {
        if text_equals(name, "step") {
            Some(OwnerKind::Step)
        } else if text_equals(name, "note") {
            Some(OwnerKind::Note)
        } else if text_equals(name, "project_description") {
            Some(OwnerKind::ProjectDescription)
        } else {
            None
        }
    }
}

/// Whether `name` names a kind of owner.
pub open spec fn is_owner_kind(name: Seq<char>) -> bool {
    OwnerKind::named(name) is Some
}

/// Every kind is the kind stored under its own name, so that no two kinds
/// share a name.
pub proof fn owner_kind_is_named(kind: OwnerKind)
    ensures
        OwnerKind::named(kind.name()) == Some(kind),
{
    reveal_strlit("step");
    reveal_strlit("note");
    reveal_strlit("project_description");
    assert("step"@.len() == 4);
    assert("note"@.len() == 4);
    assert("project_description"@.len() == 19);
    assert("step"@[0] != "note"@[0]);
}

/// The mutation that stores a new attachment.
pub open spec fn insert_attachment(attachment: ImageAttachmentView) -> MutationView {
    MutationView {
        kind: MutationKind::InsertAttachment,
        params: seq![
            SqlValueView::Text(attachment.id),
            SqlValueView::Text(attachment.file_path),
            SqlValueView::Text(attachment.filename),
            SqlValueView::Text(attachment.content_type),
            SqlValueView::Text(attachment.content_id),
            SqlValueView::Text(attachment.content_type_enum),
            SqlValueView::Text(attachment.created_at),
        ],
    }
}

/// The mutation that removes an attachment.
pub open spec fn delete_attachment(attachment_id: Seq<char>) -> MutationView {
    MutationView {
        kind: MutationKind::DeleteAttachment,
        params: seq![SqlValueView::Text(attachment_id)],
    }
}

/// The mutation that removes the attachments of one owner.
pub open spec fn delete_attachments_of_owner(
    content_id: Seq<char>,
    content_type_enum: Seq<char>,
) -> MutationView {
    MutationView {
        kind: MutationKind::DeleteAttachmentsOfOwner,
        params: seq![SqlValueView::Text(content_id), SqlValueView::Text(content_type_enum)],
    }
}

impl ImageAttachment {
    /// The attachment that a row of the table of attachments stands for,
    /// from the row's columns in the table's order.
    pub fn from_columns(
        id: String,
        file_path: String,
        filename: String,
        content_type: String,
        content_id: String,
        content_type_enum: String,
        created_at: String,
    ) -> (attachment: ImageAttachment)
        ensures
            attachment@ == (ImageAttachmentView {
                id: id@,
                file_path: file_path@,
                filename: filename@,
                content_type: content_type@,
                content_id: content_id@,
                content_type_enum: content_type_enum@,
                created_at: created_at@,
            }),
    {
        ImageAttachment {
            id,
            file_path,
            filename,
            content_type,
            content_id,
            content_type_enum,
            created_at,
        }
    }

    /// The kind of the attachment's owner, if the attachment names one of
    /// the three kinds.
    pub fn owner_kind(&self) -> (kind: Option<OwnerKind>)
        ensures
            kind == OwnerKind::named(self@.content_type_enum),
    {
        OwnerKind::parse(self.content_type_enum.as_str())
    }

    /// The mutation that stores this attachment as a new one.
    pub fn insert_mutation(&self) -> (mutation: Mutation)
        ensures
            mutation@ == insert_attachment(self@),
    {
        let mutation = Mutation {
            kind: MutationKind::InsertAttachment,
            params: vec![
                SqlValue::Text(self.id.clone()),
                SqlValue::Text(self.file_path.clone()),
                SqlValue::Text(self.filename.clone()),
                SqlValue::Text(self.content_type.clone()),
                SqlValue::Text(self.content_id.clone()),
                SqlValue::Text(self.content_type_enum.clone()),
                SqlValue::Text(self.created_at.clone()),
            ],
        };
        assert(mutation@.params =~= insert_attachment(self@).params);
        mutation
    }

    /// The mutation that removes the attachment `attachment_id`.
    pub fn delete_mutation(attachment_id: &str) -> (mutation: Mutation)
        ensures
            mutation@ == delete_attachment(attachment_id@),
    {
        let mutation = Mutation {
            kind: MutationKind::DeleteAttachment,
            params: vec![SqlValue::Text(attachment_id.to_owned())],
        };
        assert(mutation@.params =~= delete_attachment(attachment_id@).params);
        mutation
    }

    /// The mutation that removes the attachments of the owner `content_id`
    /// of kind `content_type_enum`.
    pub fn delete_of_owner_mutation(content_id: &str, content_type_enum: &str) -> (mutation:
        Mutation)
        ensures
            mutation@ == delete_attachments_of_owner(content_id@, content_type_enum@),
    {
        let mutation = Mutation {
            kind: MutationKind::DeleteAttachmentsOfOwner,
            params: vec![
                SqlValue::Text(content_id.to_owned()),
                SqlValue::Text(content_type_enum.to_owned()),
            ],
        };
        assert(mutation@.params =~= delete_attachments_of_owner(
            content_id@,
            content_type_enum@,
        ).params);
        mutation
    }
}

/// The extension that a stored file gets where the given name has none.
pub const DEFAULT_EXTENSION: &'static str = "png";

/// A file name with every dot replaced by an underscore.
pub open spec fn dots_replaced(filename: Seq<char>) -> Seq<char> {
    filename.map_values(
        |c: char|
            if c == '.' {
                '_'
            } else {
                c
            },
    )
}

/// The name under which an uploaded image is stored: the id of the image,
/// an underscore, the given name with its dots replaced, a dot, and the
/// extension of the given name, or `png` where it has none.
pub open spec fn stored_name(
    image_id: Seq<char>,
    filename: Seq<char>,
    extension: Option<Seq<char>>,
) -> Seq<char> {
    image_id + "_"@ + dots_replaced(filename) + "."@ + match extension {
        Some(given) => given,
        None => DEFAULT_EXTENSION@,
    }
}

/// `filename` with every dot replaced by an underscore.
pub fn with_dots_replaced(filename: &str) -> (replaced: String)
    ensures
        replaced@ == dots_replaced(filename@),
{
    let length = filename.unicode_len();
    let mut replaced = String::new();
    let mut i: usize = 0;
    proof {
        reveal_strlit("_");
    }
    assert(replaced@ =~= dots_replaced(filename@).take(0));
    while i < length
        invariant
            i <= length,
            length == filename@.len(),
            replaced@ == dots_replaced(filename@).take(i as int),
            "_"@ == seq!['_'],
        decreases length - i,
    {
        let c = filename.get_char(i);
        if c == '.' {
            replaced.append("_");
        } else {
            replaced.append(filename.substring_char(i, i + 1));
        }
        assert(replaced@ =~= dots_replaced(filename@).take(i + 1));
        i += 1;
    }
    assert(dots_replaced(filename@).take(length as int) =~= dots_replaced(filename@));
    replaced
}

/// The name under which the image `image_id` that was uploaded as
/// `filename` is stored, where `extension` is the extension of `filename`.
pub fn stored_file_name_with(image_id: &str, filename: &str, extension: Option<&str>) -> (name:
    String)
    ensures
        name@ == stored_name(image_id@, filename@, text_of_str(extension)),
{
    let ending = match extension {
        Some(given) => given,
        None => DEFAULT_EXTENSION,
    };
    String::from_str(image_id).concat("_").concat(with_dots_replaced(filename).as_str()).concat(
        ".",
    ).concat(ending)
}

/// The name under which the image `image_id` that was uploaded as
/// `filename` is stored.  The extension is the one that the platform finds
/// in `filename`.
pub fn stored_file_name(image_id: &str, filename: &str) -> (name: String)
    ensures
        exists|extension: Option<Seq<char>>|
            name@ == #[trigger] stored_name(image_id@, filename@, extension),
{
    let found = file_extension(filename);
    match found {
        Some(extension) => {
            let name = stored_file_name_with(image_id, filename, Some(extension.as_str()));
            assert(name@ == stored_name(image_id@, filename@, Some(extension@)));
            name
        },
        None => {
            let name = stored_file_name_with(image_id, filename, None);
            assert(name@ == stored_name(image_id@, filename@, None));
            name
        },
    }
}

} // verus!
