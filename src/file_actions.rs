use vstd::prelude::*;
use crate::models::IndexableType;
use crate::types::RecordId;

verus! {

/// What a change to a watched file asks of the store.
#[derive(Clone, Debug, PartialEq, Eq)]
pub enum FileActions {
    /// The file already has a record, `id`, among the records of kind `kind`;
    /// its metadata is to be revised.
    FileUpdateAction { changed_path: String, file_name: String, id: RecordId, kind: IndexableType },
    /// The file is to get a new record.
    FileCreateAction { changed_path: String, file_name: String },
    /// Nothing is to be done.
    NoAction,
}

/// The mathematical value of a `FileActions`.
pub enum ActionView {
    Update { path: Seq<char>, name: Seq<char>, id: RecordId, kind: IndexableType },
    Create { path: Seq<char>, name: Seq<char> },
    Nothing,
}

impl View for FileActions {
    type V = ActionView;

    open spec fn view(&self) -> ActionView {
        match self {
            FileActions::FileUpdateAction { changed_path, file_name, id, kind } => ActionView::Update {
                path: changed_path@,
                name: file_name@,
                id: *id,
                kind: *kind,
            },
            FileActions::FileCreateAction { changed_path, file_name } => ActionView::Create {
                path: changed_path@,
                name: file_name@,
            },
            FileActions::NoAction => ActionView::Nothing,
        }
    }
}

} // verus!
