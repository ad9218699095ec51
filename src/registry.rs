//! The process-wide registry from guild to its live speech session, and the
//! join, leave, enqueue and worker decisions taken against it.
use std::collections::HashMap;
use vstd::prelude::*;

use crate::session::{
    after_enqueue, after_take, fresh, verdict, action_matches, EnqueueOutcome,
    SessionView, SpeechSession, StepOutcome, Utterance, WorkerAction, WorkerState,
};

verus! {

broadcast use vstd::std_specs::hash::group_hash_axioms;

/// Why a join was refused by the registry itself.
#[derive(PartialEq, Eq, Structural, Clone, Copy, Debug)]
pub enum JoinError {
    /// Every session epoch has been handed out.
    EpochsExhausted,
}

/// What a successful join registered.
#[derive(PartialEq, Eq, Structural, Clone, Copy, Debug)]
pub struct JoinReceipt {
    /// The epoch of the new session; its worker asks with this epoch.
    pub epoch: u64,
    /// A prior session of the guild was replaced.
    pub replaced: bool,
    /// The new session waits for the prior session's worker to exit.
    pub waits_for_prior_worker: bool,
}

/// What a leave did.
#[derive(PartialEq, Eq, Structural, Clone, Copy, Debug)]
pub enum LeaveOutcome {
    /// The guild had no session; nothing changed.
    NotConnected,
    /// The session was removed and its queue discarded. `worker_alive`
    /// tells the caller to wait for the worker to exit before releasing the
    /// playback sink.
    Left { discarded: usize, worker_alive: bool },
}

/// The mathematical state of the registry.
pub struct RegistryView {
    pub sessions: Map<u64, SessionView>,
    pub next_epoch: u64,
    pub bot_user_id: u64,
}

/// Each session sits under its own guild, and each epoch handed out lies
/// below the next one.
pub open spec fn registry_wf(v: RegistryView) -> bool {
    forall|g: u64| #[trigger] v.sessions.contains_key(g) ==> {
        &&& v.sessions[g].guild_id == g
        &&& v.sessions[g].epoch < v.next_epoch
    }
}

/// The worker state of a session that replaces the guild's current one: it
/// waits while a worker of the current session may still run.
pub open spec fn successor_worker(v: RegistryView, guild_id: u64) -> WorkerState {
    if v.sessions.contains_key(guild_id) && v.sessions[guild_id].worker != WorkerState::Idle {
        WorkerState::Stopping
    } else {
        WorkerState::Idle
    }
}

pub open spec fn join_result(v: RegistryView, guild_id: u64) -> Result<JoinReceipt, JoinError> {
    if v.next_epoch == u64::MAX {
        Err(JoinError::EpochsExhausted)
    } else {
        Ok(JoinReceipt {
            epoch: v.next_epoch,
            replaced: v.sessions.contains_key(guild_id),
            waits_for_prior_worker: successor_worker(v, guild_id) == WorkerState::Stopping,
        })
    }
}

pub open spec fn after_join(v: RegistryView, guild_id: u64, text_channel_id: u64) -> RegistryView {
    if v.next_epoch == u64::MAX {
        v
    } else {
        RegistryView {
            sessions: v.sessions.insert(
                guild_id,
                fresh(guild_id, text_channel_id, successor_worker(v, guild_id), v.next_epoch),
            ),
            next_epoch: (v.next_epoch + 1) as u64,
            ..v
        }
    }
}

pub open spec fn leave_result(v: RegistryView, guild_id: u64) -> LeaveOutcome {
    if v.sessions.contains_key(guild_id) {
        LeaveOutcome::Left {
            discarded: v.sessions[guild_id].queue.len() as usize,
            worker_alive: v.sessions[guild_id].worker != WorkerState::Idle,
        }
    } else {
        LeaveOutcome::NotConnected
    }
}

pub open spec fn after_leave(v: RegistryView, guild_id: u64) -> RegistryView {
    RegistryView { sessions: v.sessions.remove(guild_id), ..v }
}

pub open spec fn enqueue_result(
    v: RegistryView,
    guild_id: u64,
    message_id: u64,
    author_id: u64,
    text_channel_id: u64,
) -> Option<EnqueueOutcome> {
    if v.sessions.contains_key(guild_id) {
        Some(verdict(v.sessions[guild_id], v.bot_user_id, message_id, author_id, text_channel_id))
    } else {
        None
    }
}

pub open spec fn after_guild_enqueue(
    v: RegistryView,
    guild_id: u64,
    message_id: u64,
    author_id: u64,
    text_channel_id: u64,
    u: Utterance,
) -> RegistryView {
    if v.sessions.contains_key(guild_id) {
        RegistryView {
            sessions: v.sessions.insert(
                guild_id,
                after_enqueue(v.sessions[guild_id], v.bot_user_id, message_id, author_id, text_channel_id, u),
            ),
            ..v
        }
    } else {
        v
    }
}

pub open spec fn after_advance(
    v: RegistryView,
    guild_id: u64,
    worker_epoch: u64,
    previous: StepOutcome,
) -> RegistryView {
    if v.sessions.contains_key(guild_id) {
        RegistryView {
            sessions: v.sessions.insert(guild_id, after_take(v.sessions[guild_id], worker_epoch, previous)),
            ..v
        }
    } else {
        v
    }
}

/// The action handed to a worker of `worker_epoch` on `guild_id`: as the
/// session decides, or an exit where the guild has no session.
pub open spec fn advance_matches(v: RegistryView, guild_id: u64, worker_epoch: u64, a: WorkerAction) -> bool {
    if v.sessions.contains_key(guild_id) {
        action_matches(v.sessions[guild_id], worker_epoch, a)
    } else {
        a matches WorkerAction::Exit
    }
}

pub struct VoiceRegistry {
    sessions: HashMap<u64, SpeechSession>,
    next_epoch: u64,
    bot_user_id: u64,
}

impl View for VoiceRegistry {
    type V = RegistryView;

    closed spec fn view(&self) -> RegistryView {
        RegistryView {
            sessions: self.sessions@.map_values(|s: SpeechSession| s@),
            next_epoch: self.next_epoch,
            bot_user_id: self.bot_user_id,
        }
    }
}

impl VoiceRegistry {
    pub open spec fn wf(&self) -> bool {
        registry_wf(self@)
    }

    /// An empty registry for a bot whose own user is `bot_user_id`.
    pub fn new(bot_user_id: u64) -> (r: VoiceRegistry)
        ensures
            r.wf(),
            r@.sessions == Map::<u64, SessionView>::empty(),
            r@.next_epoch == 0,
            r@.bot_user_id == bot_user_id,
    {
        let r = VoiceRegistry { sessions: HashMap::new(), next_epoch: 0, bot_user_id };
        assert(r@.sessions =~= Map::<u64, SessionView>::empty());
        r
    }

    /// A session exists for the guild exactly while the bot holds a voice
    /// connection there.
    pub fn is_connected(&self, guild_id: u64) -> (r: bool)
        ensures
            r == self@.sessions.contains_key(guild_id),
    {
        self.sessions.contains_key(&guild_id)
    }

    /// A non-owning lookup of the guild's session.
    pub fn get(&self, guild_id: u64) -> (r: Option<&SpeechSession>)
        ensures
            match r {
                Some(s) => self@.sessions.contains_key(guild_id) && s@ == self@.sessions[guild_id],
                None => !self@.sessions.contains_key(guild_id),
            },
    {
        self.sessions.get(&guild_id)
    }

    /// Registers a fresh session for the guild once its connection is up,
    /// replacing any prior one. The new session has an empty queue, nothing
    /// read, and a new epoch, so a worker of the prior session gets no item
    /// of it.
    pub fn join(&mut self, guild_id: u64, text_channel_id: u64) -> (r: Result<JoinReceipt, JoinError>)
        requires
            old(self).wf(),
        ensures
            final(self).wf(),
            r == join_result(old(self)@, guild_id),
            final(self)@ == after_join(old(self)@, guild_id, text_channel_id),
    {
        if self.next_epoch == u64::MAX {
            return Err(JoinError::EpochsExhausted);
        }
        let ghost v0 = self@;
        let epoch = self.next_epoch;
        let replaced = self.sessions.contains_key(&guild_id);
        let worker = match self.sessions.get(&guild_id) {
            Some(prior) => if prior.worker() != WorkerState::Idle {
                WorkerState::Stopping
            } else {
                WorkerState::Idle
            },
            None => WorkerState::Idle,
        };
        let session = SpeechSession::new(guild_id, text_channel_id, worker, epoch);
        self.sessions.insert(guild_id, session);
        self.next_epoch = epoch + 1;
        assert(self@.sessions =~= after_join(v0, guild_id, text_channel_id).sessions);
        Ok(JoinReceipt {
            epoch,
            replaced,
            waits_for_prior_worker: worker == WorkerState::Stopping,
        })
    }

    /// Removes the guild's session and discards its queue; a worker of it
    /// gets no further item. Leaving a guild without a session changes
    /// nothing.
    pub fn leave(&mut self, guild_id: u64) -> (r: LeaveOutcome)
        requires
            old(self).wf(),
        ensures
            final(self).wf(),
            r == leave_result(old(self)@, guild_id),
            final(self)@ == after_leave(old(self)@, guild_id),
    {
        let ghost v0 = self@;
        match self.sessions.remove(&guild_id) {
            None => {
                assert(self@.sessions =~= v0.sessions.remove(guild_id));
                LeaveOutcome::NotConnected
            },
            Some(mut session) => {
                assert(self@.sessions =~= v0.sessions.remove(guild_id));
                let worker_alive = session.worker() != WorkerState::Idle;
                let discarded = session.drain();
                LeaveOutcome::Left { discarded, worker_alive }
            },
        }
    }

    /// Offers a chat message of the guild to its session. `None` where the
    /// guild has no session: none is created.
    pub fn enqueue(
        &mut self,
        guild_id: u64,
        message_id: u64,
        author_id: u64,
        text_channel_id: u64,
        u: Utterance,
    ) -> (r: Option<EnqueueOutcome>)
        requires
            old(self).wf(),
        ensures
            final(self).wf(),
            r == enqueue_result(old(self)@, guild_id, message_id, author_id, text_channel_id),
            final(self)@ == after_guild_enqueue(old(self)@, guild_id, message_id, author_id, text_channel_id, u),
    {
        let ghost v0 = self@;
        match self.sessions.remove(&guild_id) {
            None => {
                assert(self@.sessions =~= v0.sessions);
                None
            },
            Some(mut session) => {
                let bot = self.bot_user_id;
                let outcome = session.enqueue(bot, message_id, author_id, text_channel_id, u);
                self.sessions.insert(guild_id, session);
                assert(self@.sessions =~= after_guild_enqueue(
                    v0, guild_id, message_id, author_id, text_channel_id, u).sessions);
                Some(outcome)
            },
        }
    }

    /// Answers the worker of `worker_epoch` on the guild after its previous
    /// step: the next utterance in queue order, an exit, or a hand-over. How
    /// the previous step ended is recorded, and has no part in the answer.
    pub fn advance(&mut self, guild_id: u64, worker_epoch: u64, previous: StepOutcome) -> (r: WorkerAction)
        requires
            old(self).wf(),
        ensures
            final(self).wf(),
            advance_matches(old(self)@, guild_id, worker_epoch, r),
            final(self)@ == after_advance(old(self)@, guild_id, worker_epoch, previous),
    {
        let ghost v0 = self@;
        match self.sessions.remove(&guild_id) {
            None => {
                assert(self@.sessions =~= v0.sessions);
                WorkerAction::Exit
            },
            Some(mut session) => {
                let action = session.take_next(worker_epoch, previous);
                self.sessions.insert(guild_id, session);
                assert(self@.sessions =~= after_advance(v0, guild_id, worker_epoch, previous).sessions);
                action
            },
        }
    }
}

} // verus!
