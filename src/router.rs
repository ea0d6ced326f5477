use vstd::prelude::*;
use crate::classify::{lookup_spec, plan_spec, ChangeKind, StepView};
use crate::file_actions::{ActionView, FileActions};
use crate::filter::is_ignored_by;
use crate::models::{is_new_entity, is_new_image, IndexableEnum, IndexableType, LocalImage, Post};
use crate::paths::{extension, extension_of, file_stem_of, is_prefix_of, starts_with};
use crate::types::{PipelineError, RecordId, Timestamp};

verus! {

/// An ordered table of (path prefix, entity kind) pairs; the first entry
/// whose prefix starts the path decides its kind.
#[derive(Clone, Debug)]
pub struct RouteTable {
    pub routes: Vec<(String, IndexableType)>,
}

impl View for RouteTable {
    type V = Seq<(Seq<char>, IndexableType)>;

    open spec fn view(&self) -> Seq<(Seq<char>, IndexableType)> {
        self.routes@.map_values(|e: (String, IndexableType)| (e.0@, e.1))
    }
}

/// The kind of the first route whose prefix starts `path`.
pub open spec fn first_route(routes: Seq<(Seq<char>, IndexableType)>, path: Seq<char>) -> Option<IndexableType>
    decreases routes.len(),
{
    if routes.len() == 0 {
        None
    } else if is_prefix_of(routes[0].0, path) {
        Some(routes[0].1)
    } else {
        first_route(routes.subrange(1, routes.len() as int), path)
    }
}

impl RouteTable {
    /// The kind that `path` is routed to, if any entry matches.
    pub fn route(&self, path: &str) -> (r: Option<IndexableType>)
        ensures
            r == first_route(self@, path@),
    {
        let ghost all = self@;
        let mut i: usize = 0;
        assert(all.subrange(0, all.len() as int) =~= all);
        while i < self.routes.len()
            invariant
                all == self@,
                i <= all.len(),
                first_route(all, path@) == first_route(all.subrange(i as int, all.len() as int), path@),
            decreases all.len() - i,
        {
            let ghost rest = all.subrange(i as int, all.len() as int);
            assert(rest[0] == all[i as int]);
            assert(rest.subrange(1, rest.len() as int) =~= all.subrange(i + 1, all.len() as int));
            if starts_with(path, self.routes[i].0.as_str()) {
                return Some(self.routes[i].1);
            }
            i = i + 1;
        }
        None
    }
}

/// What the router makes of a new file: `RoutingError` where no route
/// matches, `MissingExtension` where the path has no extension, else a new
/// entity of the routed kind.
pub open spec fn created_as(
    r: Result<IndexableEnum, PipelineError>,
    path: Seq<char>,
    name: Seq<char>,
    routes: Seq<(Seq<char>, IndexableType)>,
    now: Timestamp,
) -> bool {
    match first_route(routes, path) {
        None => r == Err::<IndexableEnum, PipelineError>(PipelineError::RoutingError),
        Some(kind) => match extension_of(path) {
            None => r == Err::<IndexableEnum, PipelineError>(PipelineError::MissingExtension),
            Some(ext) => r is Ok && is_new_entity(r->Ok_0, kind, ext, name, now),
        },
    }
}

/// Builds the new entity for a created file named `file_name`, at time `now`.
pub fn create_indexable_object(
    changed_path: &str,
    file_name: &str,
    table: &RouteTable,
    now: Timestamp,
) -> (r: Result<IndexableEnum, PipelineError>)
    ensures
        created_as(r, changed_path@, file_name@, table@, now),
{
    let kind = match table.route(changed_path) {
        Some(k) => k,
        None => return Err(PipelineError::RoutingError),
    };
    let ext = match extension(changed_path) {
        Some(e) => e,
        None => return Err(PipelineError::MissingExtension),
    };
    let name = file_name.to_owned();
    match kind {
        IndexableType::LocalImage => Ok(IndexableEnum::LocalImage(LocalImage::new_record(ext, name, now))),
        IndexableType::Post => Ok(IndexableEnum::Post(Post::new_record(ext, name, now))),
    }
}

/// The fields that an update of an existing record sets: the type field of
/// its kind, its file name, and its time of last modification.
#[derive(Clone, Debug, PartialEq, Eq)]
pub struct FieldPatch {
    pub kind: IndexableType,
    pub type_value: String,
    pub file_name: String,
    pub date_last_modified: Timestamp,
}

/// The patch for a modified file whose record is of kind `kind`:
/// `MissingExtension` where the path has no extension, else a patch of that
/// kind with the extension, the file name and `now`.
pub open spec fn patched_as(
    r: Result<FieldPatch, PipelineError>,
    path: Seq<char>,
    name: Seq<char>,
    kind: IndexableType,
    now: Timestamp,
) -> bool {
    match extension_of(path) {
        None => r == Err::<FieldPatch, PipelineError>(PipelineError::MissingExtension),
        Some(ext) => r is Ok && r->Ok_0.kind == kind && r->Ok_0.type_value@ == ext
            && r->Ok_0.file_name@ == name && r->Ok_0.date_last_modified == now,
    }
}

/// Builds the patch that revises, in place, the record of kind `kind` of a
/// modified file.
pub fn update_file_index(
    changed_path: &str,
    file_name: &str,
    kind: IndexableType,
    now: Timestamp,
) -> (r: Result<FieldPatch, PipelineError>)
    ensures
        patched_as(r, changed_path@, file_name@, kind, now),
{
    let ext = match extension(changed_path) {
        Some(e) => e,
        None => return Err(PipelineError::MissingExtension),
    };
    Ok(FieldPatch { kind, type_value: ext, file_name: file_name.to_owned(), date_last_modified: now })
}

/// A write that the store is to perform.
#[derive(Clone, Debug)]
pub enum StoreWrite {
    /// Insert a new record.
    Insert(IndexableEnum),
    /// Set the patch's fields on the record `id`, inserting it where it is missing.
    Patch { id: RecordId, patch: FieldPatch },
    /// Nothing to write.
    Skip,
}

/// The write that an action calls for, at time `now`.
pub open spec fn write_as(
    r: Result<StoreWrite, PipelineError>,
    action: ActionView,
    routes: Seq<(Seq<char>, IndexableType)>,
    now: Timestamp,
) -> bool {
    match action {
        ActionView::Nothing => r matches Ok(StoreWrite::Skip),
        ActionView::Create { path, name } => match r {
            Ok(StoreWrite::Insert(e)) => created_as(Ok(e), path, name, routes, now),
            Err(err) => created_as(Err(err), path, name, routes, now),
            _ => false,
        },
        ActionView::Update { path, name, id, kind } => match r {
            Ok(StoreWrite::Patch { id: target, patch }) => target == id && patched_as(Ok(patch), path, name, kind, now),
            Err(err) => patched_as(Err(err), path, name, kind, now),
            _ => false,
        },
    }
}

/// Turns a classified action into the store write it calls for, at time `now`.
pub fn prepare_write(action: &FileActions, table: &RouteTable, now: Timestamp) -> (r: Result<StoreWrite, PipelineError>)
    ensures
        write_as(r, action@, table@, now),
{
    match action {
        FileActions::NoAction => Ok(StoreWrite::Skip),
        FileActions::FileCreateAction { changed_path, file_name } => {
            match create_indexable_object(changed_path.as_str(), file_name.as_str(), table, now) {
                Ok(e) => Ok(StoreWrite::Insert(e)),
                Err(err) => Err(err),
            }
        },
        FileActions::FileUpdateAction { changed_path, file_name, id, kind } => {
            match update_file_index(changed_path.as_str(), file_name.as_str(), *kind, now) {
                Ok(patch) => Ok(StoreWrite::Patch { id: *id, patch }),
                Err(err) => Err(err),
            }
        },
    }
}

/// Creating a file that the filter lets through and that is routed to images
/// gives one create action, whose write inserts a fresh image record: no
/// identity, the path's stem as file name, its extension as type, created at
/// `now`, never modified.
pub proof fn lemma_created_image_becomes_fresh_record(
    path: Seq<char>,
    patterns: Seq<Seq<char>>,
    routes: Seq<(Seq<char>, IndexableType)>,
    now: Timestamp,
    r: Result<StoreWrite, PipelineError>,
)
    requires
        !is_ignored_by(patterns, path),
        file_stem_of(path) is Some,
        extension_of(path) is Some,
        first_route(routes, path) == Some(IndexableType::LocalImage),
        write_as(r, ActionView::Create { path, name: file_stem_of(path)->Some_0 }, routes, now),
    ensures
        plan_spec(ChangeKind::Create, seq![(path, true)], patterns) == seq![
            StepView::Act(ActionView::Create { path, name: file_stem_of(path)->Some_0 }),
        ],
        r matches Ok(StoreWrite::Insert(IndexableEnum::LocalImage(img)))
            && is_new_image(img, extension_of(path)->Some_0, file_stem_of(path)->Some_0, now),
{
    crate::classify::lemma_created_file_is_created(path, patterns);
}

/// Modifying a file that the filter lets through and that already has the
/// record `ids[0]` first among the records of kind `kind` gives an update,
/// whose write patches that very record in place, whatever the routing table
/// says of the path: its type, its file name and its time of last
/// modification `now`.
pub proof fn lemma_modified_file_patches_its_record(
    path: Seq<char>,
    patterns: Seq<Seq<char>>,
    routes: Seq<(Seq<char>, IndexableType)>,
    kind: IndexableType,
    ids: Seq<RecordId>,
    now: Timestamp,
    r: Result<StoreWrite, PipelineError>,
)
    requires
        !is_ignored_by(patterns, path),
        file_stem_of(path) is Some,
        extension_of(path) is Some,
        ids.len() > 0,
        write_as(r, ActionView::Update { path, name: file_stem_of(path)->Some_0, id: ids[0], kind }, routes, now),
    ensures
        lookup_spec(path, file_stem_of(path)->Some_0, kind, Some(ids)) == Ok::<ActionView, PipelineError>(
            ActionView::Update { path, name: file_stem_of(path)->Some_0, id: ids[0], kind },
        ),
        r matches Ok(StoreWrite::Patch { id, patch }) && id == ids[0]
            && patch.kind == kind
            && patch.type_value@ == extension_of(path)->Some_0
            && patch.file_name@ == file_stem_of(path)->Some_0
            && patch.date_last_modified == now,
{
    crate::classify::lemma_modified_file_with_record_is_updated(path, patterns, kind, ids);
}

} // verus!
