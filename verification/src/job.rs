use vstd::prelude::*;
use crate::queue::DownloadQueue;
use crate::history::DownloadHistory;

verus! {

/// What the execution backend reported for one job.
#[derive(Clone, Copy, PartialEq, Eq, Structural, Debug)]
pub enum BackendOutcome {
    /// The backend ran and exited successfully.
    Success,
    /// The backend ran and reported failure (non-zero exit).
    Failure,
    /// The backend could not be invoked at all.
    NotFound,
}

/// The kind of a status event emitted to the notification collaborator.
#[derive(Clone, Copy, PartialEq, Eq, Structural, Debug)]
pub enum EventKind {
    Submitted,
    Started,
    Completed,
    Failed,
    Duplicate,
    AlreadyPending,
}

/// One status event: a kind together with the counts at the moment it was
/// built. Delivery is the embedding program's business.
pub struct StatusEvent {
    pub kind: EventKind,
    pub active_count: usize,
    pub queued_count: usize,
}

/// Builds a status event of the given kind from the controller's current
/// counts.
pub fn status_event(kind: EventKind, q: &DownloadQueue) -> (ev: StatusEvent)
    ensures
        ev.kind == kind,
        ev.active_count == q.active_urls().len(),
        ev.queued_count == q.queue_urls().len(),
{
    StatusEvent { kind, active_count: q.active.len(), queued_count: q.queue.len() }
}

/// The execution unit's completion step, applied once per admitted job after
/// the backend has reported. On success the URL enters the ledger; on either
/// failure kind the ledger is untouched. In every case the URL leaves the
/// active set, so a finished job frees its slot on every path.
pub fn complete_job(
    q: &mut DownloadQueue,
    history: &mut DownloadHistory,
    url: &str,
    outcome: BackendOutcome,
) -> (ev: EventKind)
    requires
        old(q).wf(),
        old(history).wf(),
    ensures
        final(q).wf(),
        final(history).wf(),
        final(q).queue_urls() == old(q).queue_urls(),
        !final(q).active_urls().contains(url@),
        old(q).active_urls().contains(url@) ==> final(q).active_urls()
            == old(q).active_urls().remove(old(q).active_urls().index_of(url@)),
        !old(q).active_urls().contains(url@) ==> final(q).active_urls()
            == old(q).active_urls(),
        outcome == BackendOutcome::Success ==> ev == EventKind::Completed
            && (forall|u: Seq<char>| final(history).contains_url(u)
                <==> (old(history).contains_url(u) || u == url@)),
        outcome != BackendOutcome::Success ==> ev == EventKind::Failed
            && *final(history) == *old(history),
{
    let ev = match outcome {
        BackendOutcome::Success => {
            history.add(url.to_owned());
            EventKind::Completed
        },
        BackendOutcome::Failure => EventKind::Failed,
        BackendOutcome::NotFound => EventKind::Failed,
    };
    q.remove_active(url);
    ev
}

} // verus!
