use vstd::prelude::*;
use crate::types::PipelineError;

verus! {

/// The options of an update by identity that the repository decides on.
#[derive(Clone, Copy, Debug, PartialEq, Eq)]
pub struct UpdateOptions {
    /// Whether an update of a missing record inserts it; `None` leaves it to the store.
    pub upsert: Option<bool>,
}

/// The options an update runs with: those given, else upsert switched on.
pub fn resolve_update_options(options: Option<UpdateOptions>) -> (r: UpdateOptions)
    ensures
        options is Some ==> r == options->Some_0,
        options is None ==> r.upsert == Some(true),
{
    match options {
        Some(o) => o,
        None => UpdateOptions { upsert: Some(true) },
    }
}

/// A lookup by identity: the record, or `NotFound`.
pub fn require_found<T>(found: Option<T>) -> (r: Result<T, PipelineError>)
    ensures
        found is Some ==> r == Ok::<T, PipelineError>(found->Some_0),
        found is None ==> r == Err::<T, PipelineError>(PipelineError::NotFound),
{
    match found {
        Some(t) => Ok(t),
        None => Err(PipelineError::NotFound),
    }
}

/// The outcome of a scan over decoded records: every record in order, or the
/// first decode error.
pub open spec fn scan_spec<T, E>(items: Seq<Result<T, E>>) -> Result<Seq<T>, E>
    decreases items.len(),
{
    if items.len() == 0 {
        Ok(Seq::empty())
    } else {
        match items[0] {
            Err(e) => Err(e),
            Ok(t) => match scan_spec(items.subrange(1, items.len() as int)) {
                Ok(rest) => Ok(seq![t] + rest),
                Err(e) => Err(e),
            },
        }
    }
}

/// `prefix` followed by the outcome of a scan.
pub open spec fn after<T, E>(prefix: Seq<T>, r: Result<Seq<T>, E>) -> Result<Seq<T>, E> {
    match r {
        Ok(rest) => Ok(prefix + rest),
        Err(e) => Err(e),
    }
}

pub open spec fn vec_result_view<T, E>(r: Result<Vec<T>, E>) -> Result<Seq<T>, E> {
    match r {
        Ok(v) => Ok(v@),
        Err(e) => Err(e),
    }
}

/// A scan over a cursor in progress: the records decoded so far.
pub struct ScanState<T> {
    pub found: Vec<T>,
}

impl<T> ScanState<T> {
    pub fn new() -> (r: ScanState<T>)
        ensures
            r.found@ == Seq::<T>::empty(),
    {
        ScanState { found: Vec::new() }
    }

    /// Takes the next item of the cursor: keeps a record, or hands back the
    /// error at which the scan stops.
    pub fn absorb<E>(&mut self, item: Result<T, E>) -> (r: Option<E>)
        ensures
            item is Ok ==> r is None && final(self).found@ == old(self).found@.push(item->Ok_0),
            item is Err ==> r == Some(item->Err_0) && final(self).found@ == old(self).found@,
    {
        match item {
            Ok(t) => {
                self.found.push(t);
                None
            },
            Err(e) => Some(e),
        }
    }
}

/// Collects the items of a cursor: every record in order, or the first error.
pub fn collect_results<T, E>(items: Vec<Result<T, E>>) -> (r: Result<Vec<T>, E>)
    ensures
        vec_result_view(r) == scan_spec(items@),
{
    let ghost all = items@;
    let mut pending = items;
    let mut scan: ScanState<T> = ScanState::new();
    proof {
        match scan_spec(all) {
            Ok(rest) => assert(scan.found@ + rest =~= rest),
            Err(_) => {},
        }
    }
    while pending.len() > 0
        invariant
            all == items@,
            scan_spec(all) == after(scan.found@, scan_spec(pending@)),
        decreases pending@.len(),
    {
        let ghost before = pending@;
        let item = pending.remove(0);
        assert(pending@ =~= before.subrange(1, before.len() as int));
        let ghost kept = scan.found@;
        match scan.absorb(item) {
            Some(e) => {
                assert(before[0] == Err::<T, E>(e));
                assert(scan_spec(before) == Err::<Seq<T>, E>(e));
                assert(scan_spec(all) == Err::<Seq<T>, E>(e));
                return Err(e);
            },
            None => {
                proof {
                    let t = before[0]->Ok_0;
                    match scan_spec(pending@) {
                        Ok(rest) => assert(kept + (seq![t] + rest) =~= kept.push(t) + rest),
                        Err(_) => {},
                    }
                }
            },
        }
    }
    assert(scan_spec(pending@) == Ok::<Seq<T>, E>(Seq::empty()));
    assert(scan.found@ + Seq::<T>::empty() =~= scan.found@);
    Ok(scan.found)
}

/// A scan ends in the first decode error of the cursor, and returns no
/// records, whatever follows that error.
pub proof fn lemma_scan_stops_at_first_error<T, E>(items: Seq<Result<T, E>>, i: int)
    requires
        0 <= i < items.len(),
        items[i] is Err,
        forall|j: int| 0 <= j < i ==> items[j] is Ok,
    ensures
        scan_spec(items) == Err::<Seq<T>, E>(items[i]->Err_0),
    decreases i,
{
    if i > 0 {
        let rest = items.subrange(1, items.len() as int);
        assert(items[0] is Ok);
        assert forall|j: int| 0 <= j < i - 1 implies rest[j] is Ok by {
            assert(rest[j] == items[j + 1]);
        }
        lemma_scan_stops_at_first_error(rest, i - 1);
    }
}

/// A scan that succeeds saw no error and returns every record, in order.
pub proof fn lemma_scan_success_keeps_all<T, E>(items: Seq<Result<T, E>>)
    requires
        scan_spec(items) is Ok,
    ensures
        forall|j: int| 0 <= j < items.len() ==> #[trigger] items[j] is Ok,
        scan_spec(items)->Ok_0 == items.map_values(|x: Result<T, E>| x->Ok_0),
    decreases items.len(),
{
    if items.len() > 0 {
        let rest = items.subrange(1, items.len() as int);
        lemma_scan_success_keeps_all(rest);
        assert forall|j: int| 0 <= j < items.len() implies #[trigger] items[j] is Ok by {
            if j > 0 {
                assert(rest[j - 1] == items[j]);
            }
        }
        assert(scan_spec(items)->Ok_0 =~= items.map_values(|x: Result<T, E>| x->Ok_0));
    } else {
        assert(items.map_values(|x: Result<T, E>| x->Ok_0) =~= Seq::<T>::empty());
    }
}

} // verus!
