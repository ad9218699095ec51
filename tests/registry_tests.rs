use koe::command::{handle_leave, plan_join, JoinStep, LeaveStep};
use koe::registry::{JoinReceipt, LeaveOutcome, VoiceRegistry};
use koe::session::{
    EnqueueOutcome, SpeechSession, StepOutcome, Utterance, VoiceParams, WorkerAction, WorkerState,
};

const BOT: u64 = 1;
const GUILD: u64 = 10;
const VOICE: u64 = 20;
const TEXT: u64 = 30;
const OTHER_TEXT: u64 = 31;
const ALICE: u64 = 2;

fn utterance(text: &str) -> Utterance {
    Utterance {
        raw_text: text.to_string(),
        resolved_text: text.to_string(),
        voice: VoiceParams::resolve(None, None, None),
    }
}

fn joined() -> (VoiceRegistry, u64) {
    let mut reg = VoiceRegistry::new(BOT);
    let receipt = reg.join(GUILD, TEXT).unwrap();
    (reg, receipt.epoch)
}

/// Runs the worker of `epoch` until it exits; `synthesize` gives the
/// virtual time that each text takes, or `None` for a failure.
fn run_worker(
    reg: &mut VoiceRegistry,
    epoch: u64,
    synthesize: &dyn Fn(&str) -> Option<u64>,
) -> (Vec<String>, Vec<u64>) {
    let mut played = Vec::new();
    let mut finished_at = Vec::new();
    let mut clock: u64 = 0;
    let mut previous = StepOutcome::Started;
    loop {
        match reg.advance(GUILD, epoch, previous) {
            WorkerAction::Play(u) => match synthesize(&u.resolved_text) {
                Some(delay) => {
                    clock += delay;
                    finished_at.push(clock);
                    played.push(u.resolved_text);
                    previous = StepOutcome::Played;
                }
                None => previous = StepOutcome::SynthesisFailed,
            },
            WorkerAction::Exit | WorkerAction::HandOver { .. } => break,
        }
    }
    (played, finished_at)
}

#[test]
fn playback_follows_enqueue_order_despite_synthesis_delays() {
    let (mut reg, epoch) = joined();
    for (id, text) in [(100, "A"), (101, "B"), (102, "C")] {
        reg.enqueue(GUILD, id, ALICE, TEXT, utterance(text));
    }
    let delays = |t: &str| match t {
        "A" => Some(20),
        "B" => Some(30),
        _ => Some(5),
    };
    let (played, finished_at) = run_worker(&mut reg, epoch, &delays);
    assert_eq!(played, vec!["A", "B", "C"]);
    assert_eq!(finished_at, vec![20, 50, 55]);
}

#[test]
fn first_accepted_message_starts_the_worker_once() {
    let (mut reg, _) = joined();
    assert_eq!(
        reg.enqueue(GUILD, 100, ALICE, TEXT, utterance("a")),
        Some(EnqueueOutcome::Enqueued { start_worker: true })
    );
    assert_eq!(
        reg.enqueue(GUILD, 101, ALICE, TEXT, utterance("b")),
        Some(EnqueueOutcome::Enqueued { start_worker: false })
    );
}

#[test]
fn exhausted_worker_is_restarted_by_next_enqueue() {
    let (mut reg, epoch) = joined();
    reg.enqueue(GUILD, 100, ALICE, TEXT, utterance("a"));
    let (played, _) = run_worker(&mut reg, epoch, &|_| Some(1));
    assert_eq!(played, vec!["a"]);
    assert_eq!(
        reg.enqueue(GUILD, 101, ALICE, TEXT, utterance("b")),
        Some(EnqueueOutcome::Enqueued { start_worker: true })
    );
}

#[test]
fn redelivered_message_is_not_enqueued_twice() {
    let (mut reg, epoch) = joined();
    reg.enqueue(GUILD, 100, ALICE, TEXT, utterance("a"));
    assert_eq!(
        reg.enqueue(GUILD, 100, ALICE, TEXT, utterance("a")),
        Some(EnqueueOutcome::Duplicate)
    );
    let (played, _) = run_worker(&mut reg, epoch, &|_| Some(1));
    assert_eq!(played, vec!["a"]);
}

#[test]
fn own_messages_are_ignored() {
    let (mut reg, epoch) = joined();
    assert_eq!(
        reg.enqueue(GUILD, 100, BOT, TEXT, utterance("a")),
        Some(EnqueueOutcome::OwnMessage)
    );
    let (played, _) = run_worker(&mut reg, epoch, &|_| Some(1));
    assert!(played.is_empty());
}

#[test]
fn enqueue_without_session_creates_none() {
    let mut reg = VoiceRegistry::new(BOT);
    assert_eq!(reg.enqueue(GUILD, 100, ALICE, TEXT, utterance("a")), None);
    assert!(!reg.is_connected(GUILD));
}

#[test]
fn enqueue_from_other_channel_leaves_queue_unchanged() {
    let (mut reg, epoch) = joined();
    reg.enqueue(GUILD, 100, ALICE, TEXT, utterance("a"));
    assert_eq!(
        reg.enqueue(GUILD, 101, ALICE, OTHER_TEXT, utterance("b")),
        Some(EnqueueOutcome::WrongChannel)
    );
    let (played, _) = run_worker(&mut reg, epoch, &|_| Some(1));
    assert_eq!(played, vec!["a"]);
}

#[test]
fn session_queue_length_unchanged_by_other_channel() {
    let mut s = SpeechSession::new(GUILD, TEXT, WorkerState::Idle, 0);
    s.enqueue(BOT, 100, ALICE, TEXT, utterance("a"));
    assert_eq!(s.queue_len(), 1);
    assert_eq!(s.enqueue(BOT, 101, ALICE, OTHER_TEXT, utterance("b")), EnqueueOutcome::WrongChannel);
    assert_eq!(s.queue_len(), 1);
    assert_eq!(s.last_message_read(), Some(100));
}

#[test]
fn failure_does_not_stall_later_items() {
    let (mut reg, epoch) = joined();
    for (id, text) in [(100, "ok1"), (101, "bad"), (102, "ok2"), (103, "ok3")] {
        reg.enqueue(GUILD, id, ALICE, TEXT, utterance(text));
    }
    let synth = |t: &str| if t == "bad" { None } else { Some(1) };
    let (played, _) = run_worker(&mut reg, epoch, &synth);
    assert_eq!(played, vec!["ok1", "ok2", "ok3"]);
}

#[test]
fn leave_drains_queue_and_disconnects() {
    let (mut reg, epoch) = joined();
    reg.enqueue(GUILD, 100, ALICE, TEXT, utterance("a"));
    reg.enqueue(GUILD, 101, ALICE, TEXT, utterance("b"));
    assert_eq!(reg.leave(GUILD), LeaveOutcome::Left { discarded: 2, worker_alive: true });
    assert!(!reg.is_connected(GUILD));
    assert!(matches!(reg.advance(GUILD, epoch, StepOutcome::Played), WorkerAction::Exit));
}

#[test]
fn leave_without_session_reports_not_connected() {
    let mut reg = VoiceRegistry::new(BOT);
    reg.join(GUILD + 1, TEXT).unwrap();
    assert_eq!(reg.leave(GUILD), LeaveOutcome::NotConnected);
    assert!(!reg.is_connected(GUILD));
    assert!(reg.is_connected(GUILD + 1));
    assert_eq!(handle_leave(&mut reg, Some(GUILD)), LeaveStep::NotConnected);
    assert!(reg.is_connected(GUILD + 1));
}

#[test]
fn handle_leave_outside_guild_and_with_session() {
    let (mut reg, _) = joined();
    assert_eq!(handle_leave(&mut reg, None), LeaveStep::GuildOnly);
    assert!(reg.is_connected(GUILD));
    assert_eq!(
        handle_leave(&mut reg, Some(GUILD)),
        LeaveStep::Disconnect { guild_id: GUILD, worker_alive: false }
    );
    assert!(!reg.is_connected(GUILD));
}

#[test]
fn join_replaces_session_and_shuts_out_prior_worker() {
    let (mut reg, old_epoch) = joined();
    reg.enqueue(GUILD, 100, ALICE, TEXT, utterance("old"));
    let receipt = reg.join(GUILD, OTHER_TEXT).unwrap();
    assert_eq!(
        receipt,
        JoinReceipt { epoch: old_epoch + 1, replaced: true, waits_for_prior_worker: true }
    );
    // The new session waits: no worker of its own is started.
    assert_eq!(
        reg.enqueue(GUILD, 101, ALICE, OTHER_TEXT, utterance("new")),
        Some(EnqueueOutcome::Enqueued { start_worker: false })
    );
    // The prior worker gets nothing of the new session and hands over.
    match reg.advance(GUILD, old_epoch, StepOutcome::Played) {
        WorkerAction::HandOver { epoch } => assert_eq!(epoch, receipt.epoch),
        _ => panic!("prior worker should hand over"),
    }
    let (played, _) = run_worker(&mut reg, receipt.epoch, &|_| Some(1));
    assert_eq!(played, vec!["new"]);
}

#[test]
fn join_over_idle_session_needs_no_wait() {
    let (mut reg, _) = joined();
    let receipt = reg.join(GUILD, TEXT).unwrap();
    assert_eq!(receipt, JoinReceipt { epoch: 1, replaced: true, waits_for_prior_worker: false });
    assert_eq!(
        reg.enqueue(GUILD, 100, ALICE, TEXT, utterance("a")),
        Some(EnqueueOutcome::Enqueued { start_worker: true })
    );
}

#[test]
fn fresh_session_has_nothing_read() {
    let s = SpeechSession::new(GUILD, TEXT, WorkerState::Idle, 4);
    assert_eq!(s.guild_id(), GUILD);
    assert_eq!(s.bound_text_channel(), TEXT);
    assert_eq!(s.last_message_read(), None);
    assert_eq!(s.queue_len(), 0);
    assert_eq!(s.worker(), WorkerState::Idle);
    assert_eq!(s.epoch(), 4);
}

#[test]
fn drain_discards_queue() {
    let mut s = SpeechSession::new(GUILD, TEXT, WorkerState::Idle, 0);
    s.enqueue(BOT, 100, ALICE, TEXT, utterance("a"));
    assert_eq!(s.worker(), WorkerState::Running);
    assert_eq!(s.drain(), 1);
    assert_eq!(s.queue_len(), 0);
    assert_eq!(s.worker(), WorkerState::Stopping);
}

#[test]
fn plan_join_cases() {
    assert_eq!(plan_join(None, Some(VOICE)), JoinStep::GuildOnly);
    assert_eq!(plan_join(Some(GUILD), None), JoinStep::NotInVoice);
    assert_eq!(
        plan_join(Some(GUILD), Some(VOICE)),
        JoinStep::Connect { guild_id: GUILD, voice_channel_id: VOICE }
    );
}

#[test]
fn voice_params_defaults() {
    let d = VoiceParams::resolve(None, None, None);
    assert_eq!(d.kind, None);
    assert_eq!(d.speed_milli, 1000);
    assert_eq!(d.pitch_milli, 0);
    let set = VoiceParams::resolve(Some("B".to_string()), Some(1500), Some(-3000));
    assert_eq!(set.kind, Some("B".to_string()));
    assert_eq!(set.speed_milli, 1500);
    assert_eq!(set.pitch_milli, -3000);
}

#[test]
fn get_finds_only_registered_sessions() {
    let (mut reg, epoch) = joined();
    assert!(reg.get(GUILD + 1).is_none());
    reg.enqueue(GUILD, 100, ALICE, TEXT, utterance("a"));
    let s = reg.get(GUILD).unwrap();
    assert_eq!(s.guild_id(), GUILD);
    assert_eq!(s.epoch(), epoch);
    assert_eq!(s.queue_len(), 1);
    assert_eq!(s.last_message_read(), Some(100));
}

#[test]
fn failed_step_is_recorded_and_next_item_follows() {
    let (mut reg, epoch) = joined();
    reg.enqueue(GUILD, 100, ALICE, TEXT, utterance("a"));
    reg.enqueue(GUILD, 101, ALICE, TEXT, utterance("b"));
    assert!(matches!(reg.advance(GUILD, epoch, StepOutcome::Started), WorkerAction::Play(_)));
    match reg.advance(GUILD, epoch, StepOutcome::PlaybackFailed) {
        WorkerAction::Play(u) => assert_eq!(u.resolved_text, "b"),
        _ => panic!("the next item should follow a failure"),
    }
    assert_eq!(reg.get(GUILD).unwrap().last_step(), StepOutcome::PlaybackFailed);
    assert!(matches!(reg.advance(GUILD, epoch, StepOutcome::Played), WorkerAction::Exit));
    assert_eq!(reg.get(GUILD).unwrap().last_step(), StepOutcome::Played);
    assert_eq!(reg.get(GUILD).unwrap().worker(), WorkerState::Idle);
}
