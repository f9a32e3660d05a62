use vstd::prelude::*;
use crate::guard::{LockStore, MarkerState, WatchPaths, paths_of};
use crate::status::{PipelineStatus, Decision, preflight};

verus! {

/// Why a watch did not start.
#[derive(PartialEq, Eq, Structural, Clone, Copy, Debug)]
pub enum StartRefusal {
    /// A watcher is already active for the pipeline.
    AlreadyWatching,
    /// The pipeline is not deploying: there is nothing to watch.
    NotInProgress,
}

/// Starts a watch of `pipeline`, whose current status is `status`, in
/// `store`. A pipeline that already has a marker is refused first; then one
/// that is not deploying. Only a started watch puts a marker in place.
pub fn start_watch(store: &mut LockStore, pipeline: &String, status: &PipelineStatus) -> (r: Result<
    WatchPaths,
    StartRefusal,
>)
    requires
        old(store).wf(),
    ensures
        final(store).wf(),
        final(store).root() == old(store).root(),
        old(store).marker_of(pipeline@) is Some ==> r == Err::<WatchPaths, StartRefusal>(
            StartRefusal::AlreadyWatching,
        ),
        old(store).marker_of(pipeline@) is None && !status.spec_is_in_progress() ==> r == Err::<
            WatchPaths,
            StartRefusal,
        >(StartRefusal::NotInProgress),
        r is Err ==> forall|q: Seq<char>| final(store).marker_of(q) == old(store).marker_of(q),
        old(store).marker_of(pipeline@) is None && status.spec_is_in_progress() ==> {
            &&& r matches Ok(paths) && paths_of(paths, old(store).root(), pipeline@)
            &&& final(store).marker_of(pipeline@) == Some(Seq::<char>::empty())
            &&& forall|q: Seq<char>|
                q != pipeline@ ==> final(store).marker_of(q) == old(store).marker_of(q)
        },
{
    match store.state_of(pipeline) {
        MarkerState::Absent => {},
        _ => {
            return Err(StartRefusal::AlreadyWatching);
        },
    }
    if preflight(status) == Decision::NotInProgress {
        return Err(StartRefusal::NotInProgress);
    }
    match store.try_acquire(pipeline) {
        Ok(paths) => Ok(paths),
        Err(_) => Err(StartRefusal::AlreadyWatching),
    }
}

} // verus!
