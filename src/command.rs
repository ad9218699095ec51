//! Slash commands: decoding of the platform's loosely structured command
//! payload into a closed set of commands, and the decisions that the command
//! handlers take before any outside work.
use vstd::prelude::*;
use vstd::string::StringExecFns;

use crate::registry::{after_leave, leave_result, LeaveOutcome, VoiceRegistry};

verus! {

/// A resolved option value. Numbers are carried in thousandths.
pub enum OptionValue {
    Text(String),
    Number(i64),
    Other,
}

/// The first option of a command: a subcommand with its resolved values.
pub struct SubcommandInput {
    pub name: String,
    pub values: Vec<Option<OptionValue>>,
}

/// A command as the platform delivered it.
pub struct CommandInput {
    pub name: String,
    pub options: Vec<SubcommandInput>,
}

pub struct DictAddOption {
    pub word: String,
    pub read_as: String,
}

pub struct DictRemoveOption {
    pub word: String,
}

pub struct VoiceKindOption {
    pub kind: String,
}

/// A speed in thousandths.
#[derive(PartialEq, Eq, Structural, Clone, Copy, Debug)]
pub struct VoiceSpeedOption {
    pub speed_milli: i64,
}

/// A pitch in thousandths.
#[derive(PartialEq, Eq, Structural, Clone, Copy, Debug)]
pub struct VoicePitchOption {
    pub pitch_milli: i64,
}

/// Every command the bot understands, and `Unknown` for a payload that is
/// none of them.
pub enum CommandKind {
    Join,
    Leave,
    DictAdd(DictAddOption),
    DictRemove(DictRemoveOption),
    DictView,
    VoiceKind(VoiceKindOption),
    VoiceSpeed(VoiceSpeedOption),
    VoicePitch(VoicePitchOption),
    Help,
    Unknown,
}

pub enum ValueModel {
    Text(Seq<char>),
    Number(i64),
    Other,
}

pub struct SubcommandModel {
    pub name: Seq<char>,
    pub values: Seq<Option<ValueModel>>,
}

pub enum CommandModel {
    Join,
    Leave,
    DictAdd { word: Seq<char>, read_as: Seq<char> },
    DictRemove { word: Seq<char> },
    DictView,
    VoiceKind { kind: Seq<char> },
    VoiceSpeed { speed_milli: i64 },
    VoicePitch { pitch_milli: i64 },
    Help,
    Unknown,
}

impl View for OptionValue {
    type V = ValueModel;

    open spec fn view(&self) -> ValueModel {
        match self {
            OptionValue::Text(t) => ValueModel::Text(t@),
            OptionValue::Number(n) => ValueModel::Number(*n),
            OptionValue::Other => ValueModel::Other,
        }
    }
}

pub open spec fn value_model(v: Option<OptionValue>) -> Option<ValueModel> {
    match v {
        Some(x) => Some(x@),
        None => None,
    }
}

impl View for SubcommandInput {
    type V = SubcommandModel;

    open spec fn view(&self) -> SubcommandModel {
        SubcommandModel { name: self.name@, values: self.values@.map_values(|v| value_model(v)) }
    }
}

impl View for CommandInput {
    type V = (Seq<char>, Seq<SubcommandModel>);

    open spec fn view(&self) -> (Seq<char>, Seq<SubcommandModel>) {
        (self.name@, self.options@.map_values(|s: SubcommandInput| s@))
    }
}

impl View for CommandKind {
    type V = CommandModel;

    open spec fn view(&self) -> CommandModel {
        match self {
            CommandKind::Join => CommandModel::Join,
            CommandKind::Leave => CommandModel::Leave,
            CommandKind::DictAdd(o) => CommandModel::DictAdd { word: o.word@, read_as: o.read_as@ },
            CommandKind::DictRemove(o) => CommandModel::DictRemove { word: o.word@ },
            CommandKind::DictView => CommandModel::DictView,
            CommandKind::VoiceKind(o) => CommandModel::VoiceKind { kind: o.kind@ },
            CommandKind::VoiceSpeed(o) => CommandModel::VoiceSpeed { speed_milli: o.speed_milli },
            CommandKind::VoicePitch(o) => CommandModel::VoicePitch { pitch_milli: o.pitch_milli },
            CommandKind::Help => CommandModel::Help,
            CommandKind::Unknown => CommandModel::Unknown,
        }
    }
}

/// The text at position `i` of a subcommand's values, if there is one.
pub open spec fn text_at(values: Seq<Option<ValueModel>>, i: int) -> Option<Seq<char>> {
    if 0 <= i < values.len() {
        match values[i] {
            Some(ValueModel::Text(t)) => Some(t),
            _ => None,
        }
    } else {
        None
    }
}

/// The number at position `i` of a subcommand's values, if there is one.
pub open spec fn number_at(values: Seq<Option<ValueModel>>, i: int) -> Option<i64> {
    if 0 <= i < values.len() {
        match values[i] {
            Some(ValueModel::Number(n)) => Some(n),
            _ => None,
        }
    } else {
        None
    }
}

pub open spec fn dict_command(sub: SubcommandModel) -> CommandModel {
    if sub.name == "add"@ {
        match (text_at(sub.values, 0), text_at(sub.values, 1)) {
            (Some(word), Some(read_as)) => CommandModel::DictAdd { word, read_as },
            _ => CommandModel::Unknown,
        }
    } else if sub.name == "remove"@ {
        match text_at(sub.values, 0) {
            Some(word) => CommandModel::DictRemove { word },
            None => CommandModel::Unknown,
        }
    } else if sub.name == "view"@ {
        CommandModel::DictView
    } else {
        CommandModel::Unknown
    }
}

pub open spec fn voice_command(sub: SubcommandModel) -> CommandModel {
    if sub.name == "kind"@ {
        match text_at(sub.values, 0) {
            Some(kind) => CommandModel::VoiceKind { kind },
            None => CommandModel::Unknown,
        }
    } else if sub.name == "speed"@ {
        match number_at(sub.values, 0) {
            Some(speed_milli) => CommandModel::VoiceSpeed { speed_milli },
            None => CommandModel::Unknown,
        }
    } else if sub.name == "pitch"@ {
        match number_at(sub.values, 0) {
            Some(pitch_milli) => CommandModel::VoicePitch { pitch_milli },
            None => CommandModel::Unknown,
        }
    } else {
        CommandModel::Unknown
    }
}

/// The command that a payload stands for.
pub open spec fn command_of(name: Seq<char>, options: Seq<SubcommandModel>) -> CommandModel {
    if name == "join"@ || name == "kjoin"@ {
        CommandModel::Join
    } else if name == "leave"@ || name == "kleave"@ {
        CommandModel::Leave
    } else if name == "dict"@ {
        if options.len() > 0 { dict_command(options[0]) } else { CommandModel::Unknown }
    } else if name == "voice"@ {
        if options.len() > 0 { voice_command(options[0]) } else { CommandModel::Unknown }
    } else if name == "help"@ {
        CommandModel::Help
    } else {
        CommandModel::Unknown
    }
}

/// Whether `s` reads exactly `lit`.
fn text_is(s: &String, lit: &str) -> (r: bool)
    ensures
        r == (s@ == lit@),
{
    let l = String::from_str(lit);
    s.eq(&l)
}

fn text_value(values: &Vec<Option<OptionValue>>, i: usize) -> (r: Option<String>)
    ensures
        match r {
            Some(t) => text_at(values@.map_values(|v| value_model(v)), i as int) == Some(t@),
            None => text_at(values@.map_values(|v| value_model(v)), i as int) is None,
        },
{
    if i < values.len() {
        match &values[i] {
            Some(OptionValue::Text(t)) => Some(t.clone()),
            _ => None,
        }
    } else {
        None
    }
}

fn number_value(values: &Vec<Option<OptionValue>>, i: usize) -> (r: Option<i64>)
    ensures
        r == number_at(values@.map_values(|v| value_model(v)), i as int),
{
    if i < values.len() {
        match &values[i] {
            Some(OptionValue::Number(n)) => Some(*n),
            _ => None,
        }
    } else {
        None
    }
}

impl CommandKind {
    /// Decodes a payload once, at the boundary.
    pub fn from_input(input: &CommandInput) -> (r: CommandKind)
        ensures
            r@ == command_of(input@.0, input@.1),
    {
        let name = &input.name;
        if text_is(name, "join") || text_is(name, "kjoin") {
            CommandKind::Join
        } else if text_is(name, "leave") || text_is(name, "kleave") {
            CommandKind::Leave
        } else if text_is(name, "dict") {
            if input.options.len() == 0 {
                return CommandKind::Unknown;
            }
            let sub = &input.options[0];
            let ghost model = input@.1[0];
            assert(sub@ == model);
            if text_is(&sub.name, "add") {
                match (text_value(&sub.values, 0), text_value(&sub.values, 1)) {
                    (Some(word), Some(read_as)) => CommandKind::DictAdd(DictAddOption { word, read_as }),
                    _ => CommandKind::Unknown,
                }
            } else if text_is(&sub.name, "remove") {
                match text_value(&sub.values, 0) {
                    Some(word) => CommandKind::DictRemove(DictRemoveOption { word }),
                    None => CommandKind::Unknown,
                }
            } else if text_is(&sub.name, "view") {
                CommandKind::DictView
            } else {
                CommandKind::Unknown
            }
        } else if text_is(name, "voice") {
            if input.options.len() == 0 {
                return CommandKind::Unknown;
            }
            let sub = &input.options[0];
            let ghost model = input@.1[0];
            assert(sub@ == model);
            if text_is(&sub.name, "kind") {
                match text_value(&sub.values, 0) {
                    Some(kind) => CommandKind::VoiceKind(VoiceKindOption { kind }),
                    None => CommandKind::Unknown,
                }
            } else if text_is(&sub.name, "speed") {
                match number_value(&sub.values, 0) {
                    Some(speed_milli) => CommandKind::VoiceSpeed(VoiceSpeedOption { speed_milli }),
                    None => CommandKind::Unknown,
                }
            } else if text_is(&sub.name, "pitch") {
                match number_value(&sub.values, 0) {
                    Some(pitch_milli) => CommandKind::VoicePitch(VoicePitchOption { pitch_milli }),
                    None => CommandKind::Unknown,
                }
            } else {
                CommandKind::Unknown
            }
        } else if text_is(name, "help") {
            CommandKind::Help
        } else {
            CommandKind::Unknown
        }
    }
}

/// The slowest speed a user may set, in thousandths.
pub const MIN_SPEED_MILLI: i64 = 250;
/// The fastest speed a user may set, in thousandths.
pub const MAX_SPEED_MILLI: i64 = 4000;
/// The lowest pitch a user may set, in thousandths.
pub const MIN_PITCH_MILLI: i64 = -20000;
/// The highest pitch a user may set, in thousandths.
pub const MAX_PITCH_MILLI: i64 = 20000;

pub open spec fn needs_guild_spec(c: CommandModel) -> bool {
    match c {
        CommandModel::Join | CommandModel::Leave | CommandModel::DictAdd { .. }
        | CommandModel::DictRemove { .. } | CommandModel::DictView => true,
        _ => false,
    }
}

impl CommandKind {
    /// Join, leave and the dictionary commands act on a guild and are
    /// refused outside one.
    pub fn needs_guild(&self) -> (r: bool)
        ensures
            r == needs_guild_spec(self@),
    {
        match self {
            CommandKind::Join | CommandKind::Leave | CommandKind::DictAdd(_)
            | CommandKind::DictRemove(_) | CommandKind::DictView => true,
            _ => false,
        }
    }
}

impl VoiceKindOption {
    /// The voice kinds on offer are A, B, C and D.
    pub fn is_valid(&self) -> (r: bool)
        ensures
            r == (self.kind@ == "A"@ || self.kind@ == "B"@ || self.kind@ == "C"@ || self.kind@ == "D"@),
    {
        text_is(&self.kind, "A") || text_is(&self.kind, "B") || text_is(&self.kind, "C")
            || text_is(&self.kind, "D")
    }
}

impl VoiceSpeedOption {
    /// A speed from 0.25 to 4.0, both included.
    pub fn is_valid(&self) -> (r: bool)
        ensures
            r == (MIN_SPEED_MILLI <= self.speed_milli <= MAX_SPEED_MILLI),
    {
        MIN_SPEED_MILLI <= self.speed_milli && self.speed_milli <= MAX_SPEED_MILLI
    }
}

impl VoicePitchOption {
    /// A pitch from -20.0 to 20.0, both included.
    pub fn is_valid(&self) -> (r: bool)
        ensures
            r == (MIN_PITCH_MILLI <= self.pitch_milli <= MAX_PITCH_MILLI),
    {
        MIN_PITCH_MILLI <= self.pitch_milli && self.pitch_milli <= MAX_PITCH_MILLI
    }
}

/// The first step of a join command.
#[derive(PartialEq, Eq, Structural, Clone, Copy, Debug)]
pub enum JoinStep {
    /// The command was not sent in a guild.
    GuildOnly,
    /// The user is in no voice channel.
    NotInVoice,
    /// Connect to this voice channel, then register the session.
    Connect { guild_id: u64, voice_channel_id: u64 },
}

/// Decides a join command from the guild it came from and the voice channel
/// its sender is in.
pub fn plan_join(guild_id: Option<u64>, voice_channel_id: Option<u64>) -> (r: JoinStep)
    ensures
        r == match (guild_id, voice_channel_id) {
            (None, _) => JoinStep::GuildOnly,
            (Some(_), None) => JoinStep::NotInVoice,
            (Some(g), Some(c)) => JoinStep::Connect { guild_id: g, voice_channel_id: c },
        },
{
    match guild_id {
        None => JoinStep::GuildOnly,
        Some(g) => match voice_channel_id {
            None => JoinStep::NotInVoice,
            Some(c) => JoinStep::Connect { guild_id: g, voice_channel_id: c },
        },
    }
}

/// What a leave command did, and what is left to the caller.
#[derive(PartialEq, Eq, Structural, Clone, Copy, Debug)]
pub enum LeaveStep {
    /// The command was not sent in a guild.
    GuildOnly,
    /// The guild had no session.
    NotConnected,
    /// The session is gone: wait for its worker where `worker_alive`, then
    /// release the sink and disconnect.
    Disconnect { guild_id: u64, worker_alive: bool },
}

/// Carries out the registry's part of a leave command: the session is
/// removed before anything else, so that no new message reaches it.
pub fn handle_leave(registry: &mut VoiceRegistry, guild_id: Option<u64>) -> (r: LeaveStep)
    requires
        old(registry).wf(),
    ensures
        final(registry).wf(),
        match guild_id {
            None => r == LeaveStep::GuildOnly && final(registry)@ == old(registry)@,
            Some(g) => {
                &&& final(registry)@ == after_leave(old(registry)@, g)
                &&& r == match leave_result(old(registry)@, g) {
                    LeaveOutcome::NotConnected => LeaveStep::NotConnected,
                    LeaveOutcome::Left { worker_alive, .. } => LeaveStep::Disconnect { guild_id: g, worker_alive },
                }
            },
        },
{
    match guild_id {
        None => LeaveStep::GuildOnly,
        Some(g) => match registry.leave(g) {
            LeaveOutcome::NotConnected => LeaveStep::NotConnected,
            LeaveOutcome::Left { worker_alive, .. } => LeaveStep::Disconnect { guild_id: g, worker_alive },
        },
    }
}

} // verus!
