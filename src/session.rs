//! One guild's speech session: the bound text channel, the duplicate guard,
//! the FIFO queue of utterances and the state of its playback worker.
use vstd::prelude::*;

verus! {

/// Voice parameters resolved for the speaking user at enqueue time.
/// `speed_milli` and `pitch_milli` hold thousandths: a speed of 1.0 is 1000.
pub struct VoiceParams {
    pub kind: Option<String>,
    pub speed_milli: i64,
    pub pitch_milli: i64,
}

/// The speed of a user who set none: 1.0.
pub const DEFAULT_SPEED_MILLI: i64 = 1000;
/// The pitch of a user who set none: 0.0.
pub const DEFAULT_PITCH_MILLI: i64 = 0;

impl VoiceParams {
    /// A user's stored settings, with the defaults where one is unset: the
    /// default voice kind, speed 1.0 and pitch 0.0.
    pub fn resolve(kind: Option<String>, speed_milli: Option<i64>, pitch_milli: Option<i64>) -> (r: VoiceParams)
        ensures
            r.kind == kind,
            r.speed_milli == match speed_milli { Some(s) => s, None => DEFAULT_SPEED_MILLI },
            r.pitch_milli == match pitch_milli { Some(p) => p, None => DEFAULT_PITCH_MILLI },
    {
        let speed = match speed_milli {
            Some(s) => s,
            None => DEFAULT_SPEED_MILLI,
        };
        let pitch = match pitch_milli {
            Some(p) => p,
            None => DEFAULT_PITCH_MILLI,
        };
        VoiceParams { kind, speed_milli: speed, pitch_milli: pitch }
    }
}

/// One speakable unit derived from a single chat message.
pub struct Utterance {
    pub raw_text: String,
    pub resolved_text: String,
    pub voice: VoiceParams,
}

/// Whether a worker drives this session's queue.
#[derive(PartialEq, Eq, Structural, Clone, Copy, Debug)]
pub enum WorkerState {
    /// No worker runs; the next accepted message starts one.
    Idle,
    /// The worker of this session runs.
    Running,
    /// The worker of a replaced session still runs; this session's worker
    /// starts only once that one has exited.
    Stopping,
}

/// What happened to a message offered to a session.
#[derive(PartialEq, Eq, Structural, Clone, Copy, Debug)]
pub enum EnqueueOutcome {
    /// Appended to the queue; `start_worker` asks the caller to start the
    /// worker of this session.
    Enqueued { start_worker: bool },
    /// The message came from another text channel than the bound one.
    WrongChannel,
    /// The message was written by the bot itself.
    OwnMessage,
    /// The message has the identifier recorded as the last one read.
    Duplicate,
}

/// The mathematical state of a session.
pub struct SessionView {
    pub guild_id: u64,
    pub bound_text_channel: u64,
    pub last_message_read: Option<u64>,
    pub queue: Seq<Utterance>,
    pub worker: WorkerState,
    pub epoch: u64,
    /// How the worker's latest step on this session ended.
    pub last_step: StepOutcome,
}

pub struct SpeechSession {
    guild_id: u64,
    bound_text_channel: u64,
    last_message_read: Option<u64>,
    queue: Vec<Utterance>,
    worker: WorkerState,
    epoch: u64,
    last_step: StepOutcome,
}

impl View for SpeechSession {
    type V = SessionView;

    closed spec fn view(&self) -> SessionView {
        SessionView {
            guild_id: self.guild_id,
            bound_text_channel: self.bound_text_channel,
            last_message_read: self.last_message_read,
            queue: self.queue@,
            worker: self.worker,
            epoch: self.epoch,
            last_step: self.last_step,
        }
    }
}

/// The verdict on a message, before anything changes.
pub open spec fn verdict(
    s: SessionView,
    bot_user_id: u64,
    message_id: u64,
    author_id: u64,
    text_channel_id: u64,
) -> EnqueueOutcome {
    if text_channel_id != s.bound_text_channel {
        EnqueueOutcome::WrongChannel
    } else if author_id == bot_user_id {
        EnqueueOutcome::OwnMessage
    } else if s.last_message_read == Some(message_id) {
        EnqueueOutcome::Duplicate
    } else {
        EnqueueOutcome::Enqueued { start_worker: s.worker == WorkerState::Idle }
    }
}

/// The session after a message was offered to it.
pub open spec fn after_enqueue(
    s: SessionView,
    bot_user_id: u64,
    message_id: u64,
    author_id: u64,
    text_channel_id: u64,
    u: Utterance,
) -> SessionView {
    match verdict(s, bot_user_id, message_id, author_id, text_channel_id) {
        EnqueueOutcome::Enqueued { start_worker } => SessionView {
            last_message_read: Some(message_id),
            queue: s.queue.push(u),
            worker: if start_worker { WorkerState::Running } else { s.worker },
            ..s
        },
        _ => s,
    }
}

/// A fresh session: empty queue, nothing read yet.
pub open spec fn fresh(guild_id: u64, bound_text_channel: u64, worker: WorkerState, epoch: u64) -> SessionView {
    SessionView {
        guild_id,
        bound_text_channel,
        last_message_read: None,
        queue: Seq::empty(),
        worker,
        epoch,
        last_step: StepOutcome::Started,
    }
}

/// What a playback worker does next.
pub enum WorkerAction {
    /// Synthesize and play this utterance, then ask again.
    Play(Utterance),
    /// Exit; no item is left for this worker.
    Exit,
    /// Exit, and start the worker of the session with this epoch, which
    /// waited for this one to stop.
    HandOver { epoch: u64 },
}

/// How the worker's previous step ended. A failure is reported by the
/// caller and skipped: it never changes what comes next.
#[derive(PartialEq, Eq, Structural, Clone, Copy, Debug)]
pub enum StepOutcome {
    /// The worker has just started and played nothing yet.
    Started,
    Played,
    SynthesisFailed,
    PlaybackFailed,
}

/// The kind of a worker action, without its payload.
#[derive(PartialEq, Eq, Structural, Clone, Copy, Debug)]
pub enum ActionKind {
    Play,
    Exit,
    HandOver,
}

pub open spec fn kind_of(a: WorkerAction) -> ActionKind {
    match a {
        WorkerAction::Play(_) => ActionKind::Play,
        WorkerAction::Exit => ActionKind::Exit,
        WorkerAction::HandOver { .. } => ActionKind::HandOver,
    }
}

/// The next action for a worker of `worker_epoch` on session `s`: the
/// session's own worker takes the head of the queue, or exits when it is
/// empty; a worker of a replaced session exits, and hands over to this
/// session's worker when this one waited for it with items queued.
pub open spec fn next_kind(s: SessionView, worker_epoch: u64) -> ActionKind {
    if worker_epoch == s.epoch {
        if s.queue.len() > 0 { ActionKind::Play } else { ActionKind::Exit }
    } else if s.worker == WorkerState::Stopping && s.queue.len() > 0 {
        ActionKind::HandOver
    } else {
        ActionKind::Exit
    }
}

/// The session after a worker of `worker_epoch`, whose previous step ended
/// as `previous`, asked for its next action. The session records how its own
/// worker's step ended; that record has no part in what comes next.
pub open spec fn after_take(s: SessionView, worker_epoch: u64, previous: StepOutcome) -> SessionView {
    if worker_epoch == s.epoch {
        if s.queue.len() > 0 {
            SessionView { queue: s.queue.drop_first(), last_step: previous, ..s }
        } else {
            SessionView { worker: WorkerState::Idle, last_step: previous, ..s }
        }
    } else if s.worker == WorkerState::Stopping {
        SessionView {
            worker: if s.queue.len() > 0 { WorkerState::Running } else { WorkerState::Idle },
            ..s
        }
    } else {
        s
    }
}

/// The action is the one `next_kind` names, with the head of the queue or
/// this session's epoch as its payload.
pub open spec fn action_matches(s: SessionView, worker_epoch: u64, a: WorkerAction) -> bool {
    &&& kind_of(a) == next_kind(s, worker_epoch)
    &&& (a matches WorkerAction::Play(u) ==> u == s.queue[0])
    &&& (a matches WorkerAction::HandOver { epoch } ==> epoch == s.epoch)
}

/// The session once left: its queue discarded, its worker told to stop.
pub open spec fn drained(s: SessionView) -> SessionView {
    SessionView {
        queue: Seq::empty(),
        worker: if s.worker == WorkerState::Idle { WorkerState::Idle } else { WorkerState::Stopping },
        ..s
    }
}

impl SpeechSession {
    pub fn new(guild_id: u64, bound_text_channel: u64, worker: WorkerState, epoch: u64) -> (r: SpeechSession)
        ensures
            r@ == fresh(guild_id, bound_text_channel, worker, epoch),
    {
        SpeechSession {
            guild_id,
            bound_text_channel,
            last_message_read: None,
            queue: Vec::new(),
            worker,
            epoch,
            last_step: StepOutcome::Started,
        }
    }

    pub fn guild_id(&self) -> (r: u64)
        ensures
            r == self@.guild_id,
    {
        self.guild_id
    }

    pub fn bound_text_channel(&self) -> (r: u64)
        ensures
            r == self@.bound_text_channel,
    {
        self.bound_text_channel
    }

    pub fn last_message_read(&self) -> (r: Option<u64>)
        ensures
            r == self@.last_message_read,
    {
        self.last_message_read
    }

    pub fn queue_len(&self) -> (r: usize)
        ensures
            r == self@.queue.len(),
    {
        self.queue.len()
    }

    pub fn worker(&self) -> (r: WorkerState)
        ensures
            r == self@.worker,
    {
        self.worker
    }

    pub fn epoch(&self) -> (r: u64)
        ensures
            r == self@.epoch,
    {
        self.epoch
    }

    pub fn last_step(&self) -> (r: StepOutcome)
        ensures
            r == self@.last_step,
    {
        self.last_step
    }

    /// Offers a message: appended if it comes from the bound channel, is not
    /// the bot's own and is not the last one read.
    pub fn enqueue(
        &mut self,
        bot_user_id: u64,
        message_id: u64,
        author_id: u64,
        text_channel_id: u64,
        u: Utterance,
    ) -> (r: EnqueueOutcome)
        ensures
            r == verdict(old(self)@, bot_user_id, message_id, author_id, text_channel_id),
            final(self)@ == after_enqueue(old(self)@, bot_user_id, message_id, author_id, text_channel_id, u),
    {
        if text_channel_id != self.bound_text_channel {
            return EnqueueOutcome::WrongChannel;
        }
        if author_id == bot_user_id {
            return EnqueueOutcome::OwnMessage;
        }
        if self.last_message_read == Some(message_id) {
            return EnqueueOutcome::Duplicate;
        }
        let start_worker = self.worker == WorkerState::Idle;
        self.last_message_read = Some(message_id);
        self.queue.push(u);
        if start_worker {
            self.worker = WorkerState::Running;
        }
        EnqueueOutcome::Enqueued { start_worker }
    }
    /// Answers a worker of `worker_epoch` that asks what to do next.
    pub fn take_next(&mut self, worker_epoch: u64, previous: StepOutcome) -> (r: WorkerAction)
        ensures
            final(self)@ == after_take(old(self)@, worker_epoch, previous),
            action_matches(old(self)@, worker_epoch, r),
    {
        if worker_epoch == self.epoch {
            self.last_step = previous;
            if self.queue.len() > 0 {
                let u = self.queue.remove(0);
                WorkerAction::Play(u)
            } else {
                self.worker = WorkerState::Idle;
                WorkerAction::Exit
            }
        } else if self.worker == WorkerState::Stopping {
            if self.queue.len() > 0 {
                self.worker = WorkerState::Running;
                WorkerAction::HandOver { epoch: self.epoch }
            } else {
                self.worker = WorkerState::Idle;
                WorkerAction::Exit
            }
        } else {
            WorkerAction::Exit
        }
    }

    /// Discards every queued utterance and marks a running worker as
    /// stopping; returns how many utterances were discarded.
    pub fn drain(&mut self) -> (r: usize)
        ensures
            r == old(self)@.queue.len(),
            final(self)@ == drained(old(self)@),
    {
        let n = self.queue.len();
        self.queue.clear();
        if self.worker != WorkerState::Idle {
            self.worker = WorkerState::Stopping;
        }
        n
    }
}

} // verus!
