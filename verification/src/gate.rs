use vstd::prelude::*;
use crate::queue::DownloadQueue;
use crate::history::DownloadHistory;
use crate::settings::Settings;

verus! {

/// The answer of the submission gate for one candidate URL.
#[derive(Clone, Copy, PartialEq, Eq, Structural, Debug)]
pub enum SubmitOutcome {
    /// The URL was appended to the tail of the job queue.
    Accepted,
    /// Duplicate checking is on and the ledger already records the URL.
    Duplicate,
    /// The URL is already queued or already executing.
    AlreadyPending,
}

/// What the submission gate decides, as a function of the duplicate-checking
/// flag, the ledger's answer for the URL, and the two containers.
pub open spec fn submit_outcome_spec(
    check_duplicates: bool,
    in_history: bool,
    queue: Seq<Seq<char>>,
    active: Seq<Seq<char>>,
    url: Seq<char>,
) -> SubmitOutcome {
    if check_duplicates && in_history {
        SubmitOutcome::Duplicate
    } else if queue.contains(url) || active.contains(url) {
        SubmitOutcome::AlreadyPending
    } else {
        SubmitOutcome::Accepted
    }
}

/// The queue contents after a submission: unchanged unless the URL was
/// accepted, in which case it is appended at the tail.
pub open spec fn submit_queue_spec(
    check_duplicates: bool,
    in_history: bool,
    queue: Seq<Seq<char>>,
    active: Seq<Seq<char>>,
    url: Seq<char>,
) -> Seq<Seq<char>> {
    if submit_outcome_spec(check_duplicates, in_history, queue, active, url)
        == SubmitOutcome::Accepted {
        queue.push(url)
    } else {
        queue
    }
}

/// The submission gate: applies the deduplication oracle under the current
/// settings, then attempts to enqueue. Never touches the active set, and
/// mutates the queue exactly when it answers `Accepted`.
pub fn submit(
    q: &mut DownloadQueue,
    history: &DownloadHistory,
    settings: &Settings,
    url: String,
) -> (r: SubmitOutcome)
    requires
        old(q).wf(),
    ensures
        final(q).wf(),
        r == submit_outcome_spec(
            settings.check_duplicates,
            history.contains_url(url@),
            old(q).queue_urls(),
            old(q).active_urls(),
            url@,
        ),
        final(q).queue_urls() == submit_queue_spec(
            settings.check_duplicates,
            history.contains_url(url@),
            old(q).queue_urls(),
            old(q).active_urls(),
            url@,
        ),
        final(q).active_urls() == old(q).active_urls(),
        (settings.check_duplicates && history.contains_url(url@))
            ==> r == SubmitOutcome::Duplicate
                && final(q).queue_urls() == old(q).queue_urls(),
{
    if settings.check_duplicates && history.contains(url.as_str()) {
        return SubmitOutcome::Duplicate;
    }
    if q.add(url) {
        SubmitOutcome::Accepted
    } else {
        SubmitOutcome::AlreadyPending
    }
}

/// Resubmitting an already-queued URL is a no-op: the repeated call finds
/// it in the queue, reports `AlreadyPending`, and leaves everything as it
/// was, so back-to-back submissions yield a single queue entry.
pub proof fn lemma_submit_idempotent(
    check_duplicates: bool,
    in_history: bool,
    queue: Seq<Seq<char>>,
    active: Seq<Seq<char>>,
    url: Seq<char>,
)
    requires
        submit_outcome_spec(check_duplicates, in_history, queue, active, url)
            == SubmitOutcome::Accepted,
    ensures
        submit_outcome_spec(
            check_duplicates,
            in_history,
            submit_queue_spec(check_duplicates, in_history, queue, active, url),
            active,
            url,
        ) == SubmitOutcome::AlreadyPending,
        submit_queue_spec(
            check_duplicates,
            in_history,
            submit_queue_spec(check_duplicates, in_history, queue, active, url),
            active,
            url,
        ) == submit_queue_spec(check_duplicates, in_history, queue, active, url),
{
    let q1 = submit_queue_spec(check_duplicates, in_history, queue, active, url);
    assert(q1 == queue.push(url));
    assert(q1[queue.len() as int] == url);
    assert(q1.contains(url));
}

/// Once a failed job's URL has left the active set, with the ledger never
/// having recorded it, nothing stands in the way of submitting it anew: the
/// gate takes it at once, whatever the duplicate-checking flag says.
pub proof fn lemma_failed_job_resubmittable(
    check_duplicates: bool,
    queue: Seq<Seq<char>>,
    active: Seq<Seq<char>>,
    url: Seq<char>,
)
    requires
        !queue.contains(url),
        !active.contains(url),
    ensures
        submit_outcome_spec(check_duplicates, false, queue, active, url)
            == SubmitOutcome::Accepted,
{
}

/// With a single slot, two URLs taken in order run in order. `a` then `b`,
/// both accepted into an idle controller, stand in the queue as `[a, b]`; the
/// first admission takes the head `a`, leaving `[b]` waiting and `[a]`
/// running; one running job fills the single slot, so `b` cannot start yet;
/// once `a` is released, the next admission takes `b`.
pub proof fn lemma_fifo_limit_one(a: Seq<char>, b: Seq<char>)
    requires
        a != b,
    ensures
        submit_outcome_spec(false, false, Seq::<Seq<char>>::empty(), Seq::<Seq<char>>::empty(), a)
            == SubmitOutcome::Accepted,
        submit_queue_spec(false, false, Seq::<Seq<char>>::empty(), Seq::<Seq<char>>::empty(), a)
            == seq![a],
        submit_outcome_spec(false, false, seq![a], Seq::<Seq<char>>::empty(), b)
            == SubmitOutcome::Accepted,
        submit_queue_spec(false, false, seq![a], Seq::<Seq<char>>::empty(), b) == seq![a, b],
        // the first admission pops the head: `a`, never `b`
        seq![a, b].first() == a,
        seq![a, b].drop_first() == seq![b],
        // with `a` active, one active job is not below the limit of one
        !(seq![a].len() < 1),
        // after `a` is released the active set is empty again and the next
        // admission pops `b`
        seq![b].first() == b,
{
    assert(!seq![a].contains(b)) by {
        assert(seq![a][0] == a);
    }
    assert(submit_queue_spec(false, false, Seq::<Seq<char>>::empty(), Seq::<Seq<char>>::empty(), a)
        =~= seq![a]);
    assert(submit_queue_spec(false, false, seq![a], Seq::<Seq<char>>::empty(), b) =~= seq![a, b]);
    assert(seq![a, b].drop_first() =~= seq![b]);
}

} // verus!
