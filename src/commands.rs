use vstd::prelude::*;
use vstd::string::*;
use crate::types::{AudioAction, SummarizeMethod, TaskType};

verus! {

/// The bot's commands.
#[derive(Clone, Copy, Debug, PartialEq, Eq, Structural)]
pub enum BotCommand {
    Help,
    Start,
    Transcribe,
    Translate,
    Summarize,
    Caveman,
    Privacy,
}

pub const WELCOME_TEXT: &'static str = "Welcome! Send a voice message or video note to transcribe it. You can also use /help to see all available commands.";

pub const PRIVACY_TEXT: &'static str = "Privacy Policy:\n- Bot is open source: https://github.com/DuckyBlender/duck_transcriber\n- Bot caches: unique file id \u{2192} transcription/translation\n- Nothing else is stored, not even in logs\n- Cache is cleared after 7 days\n- Join @sussy_announcements for support/questions\n- No guarantees about model accuracy or reliability\n- Uses Whisper v3 (GroqCloud) for transcription/translation";

pub const TRANSCRIBE_HELP: &'static str = "Reply to an audio message or video note to transcribe it.";

pub const TRANSCRIBE_HELP_TRANSLATE: &'static str = "Reply to an audio message or video note to translate it.";

pub const SUMMARIZE_HELP: &'static str = "Reply to an audio message or video note to summarize it.";

pub const CAVEMAN_HELP: &'static str = "Reply to an audio message or video note to summarize it like a caveman.";

/// What a command does.
#[derive(Debug)]
pub enum CommandAction {
    /// Send the list of commands.
    ShowHelp,
    /// Send a fixed text.
    Reply(String),
    /// Work on the audio of the message or of the one it replies to; the
    /// text is sent when neither carries audio.
    Audio { action: AudioAction, help: String },
}

pub open spec fn fixed_reply(cmd: BotCommand) -> Seq<char> {
    match cmd {
        BotCommand::Start => WELCOME_TEXT@,
        _ => PRIVACY_TEXT@,
    }
}

pub open spec fn audio_action_of(cmd: BotCommand) -> AudioAction {
    match cmd {
        BotCommand::Transcribe => AudioAction::Transcribe(TaskType::Transcribe),
        BotCommand::Translate => AudioAction::Transcribe(TaskType::Translate),
        BotCommand::Summarize => AudioAction::Summarize(SummarizeMethod::Default),
        _ => AudioAction::Summarize(SummarizeMethod::Caveman),
    }
}

pub open spec fn audio_help_of(cmd: BotCommand) -> Seq<char> {
    match cmd {
        BotCommand::Transcribe => TRANSCRIBE_HELP@,
        BotCommand::Translate => TRANSCRIBE_HELP_TRANSLATE@,
        BotCommand::Summarize => SUMMARIZE_HELP@,
        _ => CAVEMAN_HELP@,
    }
}

pub open spec fn is_audio_command(cmd: BotCommand) -> bool {
    cmd is Transcribe || cmd is Translate || cmd is Summarize || cmd is Caveman
}

/// Maps a command to what it does.
pub fn command_action(cmd: BotCommand) -> (r: CommandAction)
    ensures
        cmd is Help ==> r is ShowHelp,
        (cmd is Start || cmd is Privacy) ==> (r is Reply && r->Reply_0@ == fixed_reply(cmd)),
        is_audio_command(cmd) ==> (r is Audio && r->Audio_action == audio_action_of(cmd)
            && r->Audio_help@ == audio_help_of(cmd)),
{
    match cmd {
        BotCommand::Help => CommandAction::ShowHelp,
        BotCommand::Start => CommandAction::Reply(String::from_str(WELCOME_TEXT)),
        BotCommand::Privacy => CommandAction::Reply(String::from_str(PRIVACY_TEXT)),
        BotCommand::Transcribe => CommandAction::Audio {
            action: AudioAction::Transcribe(TaskType::Transcribe),
            help: String::from_str(TRANSCRIBE_HELP),
        },
        BotCommand::Translate => CommandAction::Audio {
            action: AudioAction::Transcribe(TaskType::Translate),
            help: String::from_str(TRANSCRIBE_HELP_TRANSLATE),
        },
        BotCommand::Summarize => CommandAction::Audio {
            action: AudioAction::Summarize(SummarizeMethod::Default),
            help: String::from_str(SUMMARIZE_HELP),
        },
        BotCommand::Caveman => CommandAction::Audio {
            action: AudioAction::Summarize(SummarizeMethod::Caveman),
            help: String::from_str(CAVEMAN_HELP),
        },
    }
}

/// Which message an audio command works on.
#[derive(Clone, Copy, Debug, PartialEq, Eq, Structural)]
pub enum AudioTarget {
    /// The command came as the caption of the media itself.
    Current,
    /// The command replies to a message with media.
    Replied,
    /// Neither: the command's help text is sent instead.
    Missing,
}

/// Picks the message an audio command works on: the message itself when it
/// carries audio, else the message it replies to when that one does.
/// `replied` is `None` when the command replies to nothing.
pub fn audio_target(current_has_audio: bool, replied: Option<bool>) -> (r: AudioTarget)
    ensures
        current_has_audio ==> r == AudioTarget::Current,
        !current_has_audio && replied == Some(true) ==> r == AudioTarget::Replied,
        !current_has_audio && replied != Some(true) ==> r == AudioTarget::Missing,
{
    if current_has_audio {
        AudioTarget::Current
    } else {
        match replied {
            Some(true) => AudioTarget::Replied,
            _ => AudioTarget::Missing,
        }
    }
}

/// What an incoming message leads to.
#[derive(Clone, Copy, Debug, PartialEq, Eq, Structural)]
pub enum Route {
    Command(BotCommand),
    /// Voice messages and video notes are transcribed without a command.
    AutoTranscribe,
    /// Anything else is acknowledged and left alone.
    Ignore,
}

/// Routes a message: a command in its text, else one in its caption, else
/// automatic transcription of a voice message or video note.
pub fn route_message(text_command: Option<BotCommand>, caption_command: Option<BotCommand>, voice_or_video_note: bool) -> (r: Route)
    ensures
        text_command is Some ==> r == Route::Command(text_command->Some_0),
        text_command is None && caption_command is Some ==> r == Route::Command(caption_command->Some_0),
        text_command is None && caption_command is None && voice_or_video_note ==> r == Route::AutoTranscribe,
        text_command is None && caption_command is None && !voice_or_video_note ==> r == Route::Ignore,
{
    match text_command {
        Some(c) => Route::Command(c),
        None => match caption_command {
            Some(c) => Route::Command(c),
            None => if voice_or_video_note {
                Route::AutoTranscribe
            } else {
                Route::Ignore
            },
        },
    }
}

} // verus!
