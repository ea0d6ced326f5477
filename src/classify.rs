use vstd::prelude::*;
use crate::file_actions::{ActionView, FileActions};
use crate::models::IndexableType;
use crate::filter::{is_ignored_by, ChangeFilter};
use crate::paths::{file_stem, file_stem_of};
use crate::types::{PipelineError, RecordId, StoreError};

verus! {

/// The kind of a change notification.
#[derive(Clone, Copy, Debug, PartialEq, Eq)]
pub enum ChangeKind {
    Create,
    Modify,
    Other,
}

/// A path named by a notification: its text, and whether its file name is
/// valid Unicode (where it is not, `text` holds a lossy rendering).
#[derive(Clone, Debug)]
pub struct ChangedPath {
    pub text: String,
    pub name_is_text: bool,
}

impl View for ChangedPath {
    type V = (Seq<char>, bool);

    open spec fn view(&self) -> (Seq<char>, bool) {
        (self.text@, self.name_is_text)
    }
}

pub open spec fn paths_view(paths: Seq<ChangedPath>) -> Seq<(Seq<char>, bool)> {
    paths.map_values(|p: ChangedPath| p@)
}

/// One notification of the watcher: a kind and the paths it concerns.
#[derive(Clone, Debug)]
pub struct ChangeEvent {
    pub kind: ChangeKind,
    pub paths: Vec<ChangedPath>,
}

/// What one changed path of an event calls for.
#[derive(Clone, Debug, PartialEq, Eq)]
pub enum PathStep {
    /// The action is decided without the store.
    Act(FileActions),
    /// The store is to be asked for records whose `file_name` is `file_name`;
    /// `classify_lookup` then decides.
    Lookup { changed_path: String, file_name: String },
    /// The path cannot be handled.
    Fail(PipelineError),
}

/// The mathematical value of a `PathStep`.
pub enum StepView {
    Act(ActionView),
    Lookup { path: Seq<char>, name: Seq<char> },
    Fail(PipelineError),
}

impl View for PathStep {
    type V = StepView;

    open spec fn view(&self) -> StepView {
        match self {
            PathStep::Act(a) => StepView::Act(a@),
            PathStep::Lookup { changed_path, file_name } => StepView::Lookup {
                path: changed_path@,
                name: file_name@,
            },
            PathStep::Fail(e) => StepView::Fail(*e),
        }
    }
}

/// The step for one path that the filter let through, given with whether its
/// file name is valid Unicode.
pub open spec fn step_spec(kind: ChangeKind, changed: (Seq<char>, bool)) -> StepView {
    let path = changed.0;
    match kind {
        ChangeKind::Other => StepView::Act(ActionView::Nothing),
        _ => if !changed.1 {
            StepView::Fail(PipelineError::MissingIdentity)
        } else {
            match file_stem_of(path) {
            None => StepView::Fail(PipelineError::MissingIdentity),
                Some(name) => if kind == ChangeKind::Create {
                    StepView::Act(ActionView::Create { path, name })
                } else {
                    StepView::Lookup { path, name }
                },
            }
        },
    }
}

/// The steps for the paths of an event, in order, one for each path that no
/// pattern ignores.
pub open spec fn plan_spec(
    kind: ChangeKind,
    paths: Seq<(Seq<char>, bool)>,
    patterns: Seq<Seq<char>>,
) -> Seq<StepView>
    decreases paths.len(),
{
    if paths.len() == 0 {
        Seq::empty()
    } else {
        let rest = plan_spec(kind, paths.drop_last(), patterns);
        if is_ignored_by(patterns, paths.last().0) {
            rest
        } else {
            rest.push(step_spec(kind, paths.last()))
        }
    }
}

pub open spec fn steps_view(steps: Seq<PathStep>) -> Seq<StepView> {
    steps.map_values(|s: PathStep| s@)
}

/// The outcome of a lookup for a modified file: `None` when the query failed,
/// else the identities of the records found, in the store's order.
pub open spec fn lookup_view(found: Result<Vec<RecordId>, StoreError>) -> Option<Seq<RecordId>> {
    match found {
        Ok(ids) => Some(ids@),
        Err(_) => None,
    }
}

/// The action for a modified file once the records of kind `kind` have been
/// searched: an update of the first record found, else a creation.
pub open spec fn lookup_spec(
    path: Seq<char>,
    name: Seq<char>,
    kind: IndexableType,
    found: Option<Seq<RecordId>>,
) -> Result<ActionView, PipelineError> {
    match found {
        None => Err(PipelineError::ClassificationError),
        Some(ids) => if ids.len() > 0 {
            Ok(ActionView::Update { path, name, id: ids[0], kind })
        } else {
            Ok(ActionView::Create { path, name })
        },
    }
}

pub open spec fn action_result_view(r: Result<FileActions, PipelineError>) -> Result<ActionView, PipelineError> {
    match r {
        Ok(a) => Ok(a@),
        Err(e) => Err(e),
    }
}

/// The step for one path that the filter let through.
pub fn classify_path(kind: ChangeKind, path: &ChangedPath) -> (r: PathStep)
    ensures
        r@ == step_spec(kind, path@),
{
    match kind {
        ChangeKind::Other => PathStep::Act(FileActions::NoAction),
        _ => if !path.name_is_text {
            PathStep::Fail(PipelineError::MissingIdentity)
        } else {
            match file_stem(path.text.as_str()) {
                None => PathStep::Fail(PipelineError::MissingIdentity),
                Some(name) => if matches!(kind, ChangeKind::Create) {
                    PathStep::Act(FileActions::FileCreateAction { changed_path: path.text.clone(), file_name: name })
                } else {
                    PathStep::Lookup { changed_path: path.text.clone(), file_name: name }
                },
            }
        },
    }
}

/// Classifies an event: drops the paths that the filter ignores and gives
/// the step for each other path, in the order of the event.
pub fn get_file_action(event: &ChangeEvent, filter: &ChangeFilter) -> (r: Vec<PathStep>)
    requires
        filter.wf(),
    ensures
        steps_view(r@) == plan_spec(event.kind, paths_view(event.paths@), filter@),
{
    let ghost all = paths_view(event.paths@);
    let mut steps: Vec<PathStep> = Vec::new();
    let mut i: usize = 0;
    while i < event.paths.len()
        invariant
            filter.wf(),
            all == paths_view(event.paths@),
            i <= event.paths@.len(),
            steps_view(steps@) == plan_spec(event.kind, all.take(i as int), filter@),
        decreases event.paths@.len() - i,
    {
        let path = &event.paths[i];
        proof {
            assert(all.take(i + 1).drop_last() =~= all.take(i as int));
            assert(all.take(i + 1).last() == path@);
        }
        if !filter.is_ignored(path.text.as_str()) {
            let step = classify_path(event.kind, path);
            proof {
                assert(steps_view(steps@.push(step)) =~= steps_view(steps@).push(step@));
            }
            steps.push(step);
        }
        i = i + 1;
    }
    assert(all.take(event.paths@.len() as int) =~= all);
    steps
}

/// Decides the action for a modified file from the records of kind `kind`
/// whose `file_name` is its identity: `ClassificationError` when the query
/// failed, an update of the first record found, or a creation when none was
/// found.
pub fn classify_lookup(
    changed_path: String,
    file_name: String,
    kind: IndexableType,
    found: Result<Vec<RecordId>, StoreError>,
) -> (r: Result<FileActions, PipelineError>)
    ensures
        action_result_view(r) == lookup_spec(changed_path@, file_name@, kind, lookup_view(found)),
{
    match found {
        Err(_) => Err(PipelineError::ClassificationError),
        Ok(ids) => if ids.len() > 0 {
            Ok(FileActions::FileUpdateAction { changed_path, file_name, id: ids[0], kind })
        } else {
            Ok(FileActions::FileCreateAction { changed_path, file_name })
        },
    }
}

/// A path that a pattern ignores leaves no trace in the plan of its event: the
/// plan is the same as that of the event without the path, so the path
/// causes no store lookup and no action.
pub proof fn lemma_ignored_path_has_no_step(
    kind: ChangeKind,
    paths: Seq<(Seq<char>, bool)>,
    patterns: Seq<Seq<char>>,
    i: int,
)
    requires
        0 <= i < paths.len(),
        is_ignored_by(patterns, paths[i].0),
    ensures
        plan_spec(kind, paths, patterns) == plan_spec(kind, paths.remove(i), patterns),
    decreases paths.len(),
{
    if i == paths.len() - 1 {
        assert(paths.remove(i) =~= paths.drop_last());
    } else {
        let d = paths.drop_last();
        assert(d[i] == paths[i]);
        lemma_ignored_path_has_no_step(kind, d, patterns, i);
        let removed = paths.remove(i);
        assert(removed.drop_last() =~= d.remove(i));
        assert(removed.last() == paths.last());
    }
}

proof fn lemma_plan_of_one_path(kind: ChangeKind, path: (Seq<char>, bool), patterns: Seq<Seq<char>>)
    requires
        !is_ignored_by(patterns, path.0),
    ensures
        plan_spec(kind, seq![path], patterns) == seq![step_spec(kind, path)],
{
    let one = seq![path];
    assert(one.drop_last() =~= Seq::<(Seq<char>, bool)>::empty());
    assert(one.last() == path);
    assert(plan_spec(kind, one.drop_last(), patterns) == Seq::<StepView>::empty());
    assert(Seq::<StepView>::empty().push(step_spec(kind, path)) =~= seq![step_spec(kind, path)]);
}

/// A modified file, whose name is valid Unicode and that already has records
/// of kind `kind`, is looked up by its stem, and then updated in place of the
/// first record found.
pub proof fn lemma_modified_file_with_record_is_updated(
    path: Seq<char>,
    patterns: Seq<Seq<char>>,
    kind: IndexableType,
    ids: Seq<RecordId>,
)
    requires
        !is_ignored_by(patterns, path),
        file_stem_of(path) is Some,
        ids.len() > 0,
    ensures
        plan_spec(ChangeKind::Modify, seq![(path, true)], patterns) == seq![
            StepView::Lookup { path, name: file_stem_of(path)->Some_0 },
        ],
        lookup_spec(path, file_stem_of(path)->Some_0, kind, Some(ids)) == Ok::<ActionView, PipelineError>(
            ActionView::Update { path, name: file_stem_of(path)->Some_0, id: ids[0], kind },
        ),
{
    lemma_plan_of_one_path(ChangeKind::Modify, (path, true), patterns);
}

/// A modified file, whose name is valid Unicode and that has no record of
/// kind `kind`, is looked up by its stem, and then created.
pub proof fn lemma_modified_file_without_record_is_created(
    path: Seq<char>,
    patterns: Seq<Seq<char>>,
    kind: IndexableType,
    ids: Seq<RecordId>,
)
    requires
        !is_ignored_by(patterns, path),
        file_stem_of(path) is Some,
        ids.len() == 0,
    ensures
        plan_spec(ChangeKind::Modify, seq![(path, true)], patterns) == seq![
            StepView::Lookup { path, name: file_stem_of(path)->Some_0 },
        ],
        lookup_spec(path, file_stem_of(path)->Some_0, kind, Some(ids)) == Ok::<ActionView, PipelineError>(
            ActionView::Create { path, name: file_stem_of(path)->Some_0 },
        ),
{
    lemma_plan_of_one_path(ChangeKind::Modify, (path, true), patterns);
}

/// A created file whose name is valid Unicode is given a create action at
/// once: its plan holds no store lookup, so whether a record of the same stem
/// exists plays no part.
pub proof fn lemma_created_file_is_created(path: Seq<char>, patterns: Seq<Seq<char>>)
    requires
        !is_ignored_by(patterns, path),
        file_stem_of(path) is Some,
    ensures
        plan_spec(ChangeKind::Create, seq![(path, true)], patterns) == seq![
            StepView::Act(ActionView::Create { path, name: file_stem_of(path)->Some_0 }),
        ],
{
    lemma_plan_of_one_path(ChangeKind::Create, (path, true), patterns);
}

/// No path of a create event, however many it has, leads to a store lookup.
pub proof fn lemma_create_event_has_no_lookup(paths: Seq<(Seq<char>, bool)>, patterns: Seq<Seq<char>>)
    ensures
        forall|j: int|
            0 <= j < plan_spec(ChangeKind::Create, paths, patterns).len() ==> !(
            #[trigger] plan_spec(ChangeKind::Create, paths, patterns)[j] is Lookup),
    decreases paths.len(),
{
    if paths.len() > 0 {
        lemma_create_event_has_no_lookup(paths.drop_last(), patterns);
    }
}

} // verus!
