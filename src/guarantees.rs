//! What holds of sessions and of the registry over several calls.
use vstd::prelude::*;

use crate::registry::{
    advance_matches, after_advance, after_guild_enqueue, after_join, after_leave, enqueue_result,
    leave_result, registry_wf, LeaveOutcome, RegistryView,
};
use crate::session::{
    after_enqueue, after_take, next_kind, verdict, ActionKind, EnqueueOutcome, SessionView,
    StepOutcome, Utterance, WorkerAction, WorkerState,
};

verus! {

/// One call on a session: a message offered to it, or a worker of
/// `worker_epoch`, whose previous step ended as `previous`, asking for its
/// next action.
pub enum SessionOp {
    Offer { message_id: u64, author_id: u64, text_channel_id: u64, utterance: Utterance },
    Take { worker_epoch: u64, previous: StepOutcome },
}

/// The outcome of a run of calls: the final session, the utterances handed
/// out to be played, and the utterances accepted into the queue, in order.
pub struct RunTrace {
    pub session: SessionView,
    pub played: Seq<Utterance>,
    pub accepted: Seq<Utterance>,
}

pub open spec fn run(s: SessionView, bot_user_id: u64, ops: Seq<SessionOp>) -> RunTrace
    decreases ops.len(),
{
    if ops.len() == 0 {
        RunTrace { session: s, played: Seq::empty(), accepted: Seq::empty() }
    } else {
        let t = run(s, bot_user_id, ops.drop_last());
        match ops.last() {
            SessionOp::Offer { message_id, author_id, text_channel_id, utterance } => RunTrace {
                session: after_enqueue(t.session, bot_user_id, message_id, author_id, text_channel_id, utterance),
                accepted: if verdict(t.session, bot_user_id, message_id, author_id, text_channel_id) is Enqueued {
                    t.accepted.push(utterance)
                } else {
                    t.accepted
                },
                ..t
            },
            SessionOp::Take { worker_epoch, previous } => RunTrace {
                session: after_take(t.session, worker_epoch, previous),
                played: if next_kind(t.session, worker_epoch) == ActionKind::Play {
                    t.played.push(t.session.queue[0])
                } else {
                    t.played
                },
                ..t
            },
        }
    }
}

/// Playback follows enqueue order: over any run of offers and takes, what
/// was handed out to be played, followed by what is still queued, is what
/// was queued at the start followed by every accepted utterance in the order
/// accepted. So no utterance is reordered, dropped or played twice.
pub proof fn lemma_playback_in_enqueue_order(s: SessionView, bot_user_id: u64, ops: Seq<SessionOp>)
    ensures
        run(s, bot_user_id, ops).played + run(s, bot_user_id, ops).session.queue
            == s.queue + run(s, bot_user_id, ops).accepted,
    decreases ops.len(),
{
    if ops.len() > 0 {
        lemma_playback_in_enqueue_order(s, bot_user_id, ops.drop_last());
        let t = run(s, bot_user_id, ops.drop_last());
        let r = run(s, bot_user_id, ops);
        match ops.last() {
            SessionOp::Offer { message_id, author_id, text_channel_id, utterance } => {
                if verdict(t.session, bot_user_id, message_id, author_id, text_channel_id) is Enqueued {
                    assert(r.played + r.session.queue =~= (t.played + t.session.queue).push(utterance));
                    assert(s.queue + r.accepted =~= (s.queue + t.accepted).push(utterance));
                }
            },
            SessionOp::Take { worker_epoch, .. } => {
                if next_kind(t.session, worker_epoch) == ActionKind::Play {
                    assert(r.played + r.session.queue =~= t.played + t.session.queue);
                }
            },
        }
    }
}

/// A message delivered again right after it was offered is never enqueued a
/// second time, and the second delivery changes nothing.
pub proof fn lemma_redelivery_not_enqueued(
    v: RegistryView,
    guild_id: u64,
    message_id: u64,
    author_id: u64,
    text_channel_id: u64,
    u1: Utterance,
    u2: Utterance,
)
    ensures
        ({
            let v1 = after_guild_enqueue(v, guild_id, message_id, author_id, text_channel_id, u1);
            &&& !(enqueue_result(v1, guild_id, message_id, author_id, text_channel_id) matches Some(
                EnqueueOutcome::Enqueued { .. },
            ))
            &&& after_guild_enqueue(v1, guild_id, message_id, author_id, text_channel_id, u2) == v1
        }),
{
    let v1 = after_guild_enqueue(v, guild_id, message_id, author_id, text_channel_id, u1);
    if v1.sessions.contains_key(guild_id) {
        assert(v1.sessions.insert(guild_id, v1.sessions[guild_id]) =~= v1.sessions);
    }
}

/// A message whose identifier is the last one read is never enqueued, and
/// offering it changes nothing.
pub proof fn lemma_last_read_not_enqueued(
    v: RegistryView,
    guild_id: u64,
    message_id: u64,
    author_id: u64,
    text_channel_id: u64,
    u: Utterance,
)
    requires
        v.sessions.contains_key(guild_id),
        v.sessions[guild_id].last_message_read == Some(message_id),
    ensures
        !(enqueue_result(v, guild_id, message_id, author_id, text_channel_id) matches Some(
            EnqueueOutcome::Enqueued { .. },
        )),
        after_guild_enqueue(v, guild_id, message_id, author_id, text_channel_id, u) == v,
{
    assert(v.sessions.insert(guild_id, v.sessions[guild_id]) =~= v.sessions);
}

/// Enqueue on a guild without a session does nothing and creates none.
pub proof fn lemma_enqueue_without_session(
    v: RegistryView,
    guild_id: u64,
    message_id: u64,
    author_id: u64,
    text_channel_id: u64,
    u: Utterance,
)
    requires
        !v.sessions.contains_key(guild_id),
    ensures
        enqueue_result(v, guild_id, message_id, author_id, text_channel_id) == None::<EnqueueOutcome>,
        after_guild_enqueue(v, guild_id, message_id, author_id, text_channel_id, u) == v,
        !after_guild_enqueue(v, guild_id, message_id, author_id, text_channel_id, u).sessions.contains_key(guild_id),
{
}

/// A join that replaces a session shuts out the prior session's worker: it
/// gets no item of the new session, and where it may still run, the new
/// session waits for it and starts no worker of its own meanwhile.
pub proof fn lemma_join_shuts_out_prior_worker(v: RegistryView, guild_id: u64, text_channel_id: u64)
    requires
        registry_wf(v),
        v.sessions.contains_key(guild_id),
        v.next_epoch < u64::MAX,
    ensures
        ({
            let prior = v.sessions[guild_id];
            let s = after_join(v, guild_id, text_channel_id).sessions[guild_id];
            &&& s.epoch != prior.epoch
            &&& next_kind(s, prior.epoch) != ActionKind::Play
            &&& prior.worker != WorkerState::Idle ==> s.worker == WorkerState::Stopping
        }),
{
}

/// A session that waits for a prior worker starts no worker on enqueue and
/// keeps waiting; only a worker of another epoch asking for its next action
/// ends the wait.
pub proof fn lemma_waiting_session_starts_no_worker(
    s: SessionView,
    bot_user_id: u64,
    message_id: u64,
    author_id: u64,
    text_channel_id: u64,
    u: Utterance,
    previous: StepOutcome,
)
    requires
        s.worker == WorkerState::Stopping,
    ensures
        verdict(s, bot_user_id, message_id, author_id, text_channel_id)
            != (EnqueueOutcome::Enqueued { start_worker: true }),
        after_enqueue(s, bot_user_id, message_id, author_id, text_channel_id, u).worker
            == WorkerState::Stopping,
        next_kind(s, s.epoch) != ActionKind::HandOver,
        after_take(s, s.epoch, previous).worker != WorkerState::Running,
{
}

/// After a leave the guild has no session, and no worker of any epoch gets
/// a further item on it; a later join starts from an empty queue, so nothing
/// queued before the leave is ever played.
pub proof fn lemma_leave_drains(
    v: RegistryView,
    guild_id: u64,
    worker_epoch: u64,
    previous: StepOutcome,
    a: WorkerAction,
    text_channel_id: u64,
)
    requires
        registry_wf(v),
    ensures
        after_join(after_leave(v, guild_id), guild_id, text_channel_id).sessions.contains_key(guild_id)
            ==> after_join(after_leave(v, guild_id), guild_id, text_channel_id).sessions[guild_id].queue.len() == 0,
        !after_leave(v, guild_id).sessions.contains_key(guild_id),
        advance_matches(after_leave(v, guild_id), guild_id, worker_epoch, a) ==> a is Exit,
        after_advance(after_leave(v, guild_id), guild_id, worker_epoch, previous) == after_leave(v, guild_id),
        registry_wf(after_leave(v, guild_id)),
{
}

/// Leaving a guild without a session reports it and changes nothing.
pub proof fn lemma_leave_without_session(v: RegistryView, guild_id: u64)
    requires
        !v.sessions.contains_key(guild_id),
    ensures
        leave_result(v, guild_id) == LeaveOutcome::NotConnected,
        after_leave(v, guild_id) == v,
{
    assert(v.sessions.remove(guild_id) =~= v.sessions);
}

/// The registry after the worker of `worker_epoch` made one request per
/// entry of `outcomes`, each reporting how its previous step ended.
pub open spec fn advance_all(
    v: RegistryView,
    guild_id: u64,
    worker_epoch: u64,
    outcomes: Seq<StepOutcome>,
) -> RegistryView
    decreases outcomes.len(),
{
    if outcomes.len() == 0 {
        v
    } else {
        after_advance(
            advance_all(v, guild_id, worker_epoch, outcomes.drop_last()),
            guild_id,
            worker_epoch,
            outcomes.last(),
        )
    }
}

/// A failed step stalls nothing: after any `k` requests of the worker,
/// whichever of them reported a synthesis or playback failure, the next
/// request is handed the `k`-th queued item.
pub proof fn lemma_every_item_attempted(
    v: RegistryView,
    guild_id: u64,
    worker_epoch: u64,
    outcomes: Seq<StepOutcome>,
)
    requires
        v.sessions.contains_key(guild_id),
        v.sessions[guild_id].epoch == worker_epoch,
        outcomes.len() < v.sessions[guild_id].queue.len(),
    ensures
        advance_all(v, guild_id, worker_epoch, outcomes).sessions.contains_key(guild_id),
        next_kind(advance_all(v, guild_id, worker_epoch, outcomes).sessions[guild_id], worker_epoch)
            == ActionKind::Play,
        advance_all(v, guild_id, worker_epoch, outcomes).sessions[guild_id].queue[0]
            == v.sessions[guild_id].queue[outcomes.len() as int],
{
    lemma_advance_all_queue(v, guild_id, worker_epoch, outcomes);
}

proof fn lemma_advance_all_queue(
    v: RegistryView,
    guild_id: u64,
    worker_epoch: u64,
    outcomes: Seq<StepOutcome>,
)
    requires
        v.sessions.contains_key(guild_id),
        v.sessions[guild_id].epoch == worker_epoch,
        outcomes.len() <= v.sessions[guild_id].queue.len(),
    ensures
        advance_all(v, guild_id, worker_epoch, outcomes).sessions.contains_key(guild_id),
        advance_all(v, guild_id, worker_epoch, outcomes).sessions[guild_id].epoch == worker_epoch,
        advance_all(v, guild_id, worker_epoch, outcomes).sessions[guild_id].queue
            == v.sessions[guild_id].queue.subrange(
            outcomes.len() as int,
            v.sessions[guild_id].queue.len() as int,
        ),
    decreases outcomes.len(),
{
    let q = v.sessions[guild_id].queue;
    let k = outcomes.len() as int;
    if k == 0 {
        assert(q.subrange(0, q.len() as int) =~= q);
    } else {
        lemma_advance_all_queue(v, guild_id, worker_epoch, outcomes.drop_last());
        let prev = advance_all(v, guild_id, worker_epoch, outcomes.drop_last()).sessions[guild_id];
        assert(prev.queue.drop_first() =~= q.subrange(k, q.len() as int));
    }
}

} // verus!
