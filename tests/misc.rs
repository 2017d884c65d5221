use duck_transcriber::backend::{
    chat_request, classify_error_body, download_mime, endpoint_path, error_from_fields, pick_mime, summary_text,
    upload_file_name, GroqChatChoice, GroqChatMessage, GroqChatResponse, CAVEMAN_PROMPT, DEFAULT_PROMPT,
};
use duck_transcriber::commands::{audio_target, command_action, route_message, AudioTarget, BotCommand, CommandAction, Route};
use duck_transcriber::dev_commands::{
    dev_command_of, is_authorized_developer, is_command_match, looks_like_dev_command, webhook_info_text, DevCommand,
};
use duck_transcriber::gate::{GateError, GateLimits};
use duck_transcriber::keys::parse_api_keys;
use duck_transcriber::media::{has_audio_content, Attachment, AudioFileInfo, AudioSourceKind, MessageMedia};
use duck_transcriber::messages::{MessageInfo, MessageKind};
use duck_transcriber::reply::{plan_reply, ReplyPlan};
use duck_transcriber::speech::{OpenAIError, TranscribeError, TranscribeType, Voice};
use duck_transcriber::stats::{lifetime_limit_reached, smart_add_write, stats_text};
use duck_transcriber::cache::CacheWrite;
use duck_transcriber::types::{AudioAction, ItemReturnInfo, SummarizeMethod, TaskType, TranscriptionError};
use duck_transcriber::retry::retry_after_seconds;
use duck_transcriber::backend::json_error_message;
use duck_transcriber::orchestrator::{Action, Event, Orchestrator};

#[test]
fn api_keys_are_trimmed_and_blank_ones_dropped() {
    assert_eq!(parse_api_keys(" k1, ,k2 ,,k3 "), vec!["k1", "k2", "k3"]);
    assert!(parse_api_keys("").is_empty());
    assert!(parse_api_keys(" , ").is_empty());
    assert_eq!(parse_api_keys("only"), vec!["only"]);
}

#[test]
fn short_reply_is_a_message() {
    match plan_reply(Some("  hi  "), true, Some(TaskType::Transcribe)) {
        ReplyPlan::Message { text, markdown } => {
            assert_eq!(text, "hi");
            assert!(markdown);
        },
        other => panic!("unexpected {:?}", other),
    }
    match plan_reply(None, false, None) {
        ReplyPlan::Message { text, .. } => assert_eq!(text, "<no text>"),
        other => panic!("unexpected {:?}", other),
    }
}

#[test]
fn long_reply_is_a_document() {
    let long = "a".repeat(4097);
    match plan_reply(Some(&long), false, Some(TaskType::Translate)) {
        ReplyPlan::Document { content, file_name, caption } => {
            assert_eq!(content.len(), 4097);
            assert_eq!(file_name, "translation.txt");
            assert_eq!(caption, "Your translation is too long. Here is the file:");
        },
        other => panic!("unexpected {:?}", other),
    }
    let exact = "b".repeat(4096);
    assert!(matches!(plan_reply(Some(&exact), false, None), ReplyPlan::Message { .. }));
    match plan_reply(Some(&long), false, Some(TaskType::SummarizeDefault)) {
        ReplyPlan::Document { file_name, .. } => assert_eq!(file_name, "summary.txt"),
        other => panic!("unexpected {:?}", other),
    }
}

#[test]
fn error_bodies_are_classified() {
    let rate = r#"{"error":{"code":"rate_limit_exceeded","message":"try again in 1m51s"}}"#;
    assert!(matches!(classify_error_body(rate, false), TranscriptionError::RateLimitReached));
    assert!(matches!(classify_error_body(rate, true), TranscriptionError::RateLimitReached));
    let auth = r#"{"error":{"code":"invalid_api_key","message":"Invalid API Key"}}"#;
    match classify_error_body(auth, false) {
        TranscriptionError::ApiError(d) => assert_eq!(d, "Groq error: invalid_api_key"),
        other => panic!("unexpected {:?}", other),
    }
    match classify_error_body(auth, true) {
        TranscriptionError::ApiError(d) => assert_eq!(d, "Groq error: Invalid API Key"),
        other => panic!("unexpected {:?}", other),
    }
    match classify_error_body("<html>", false) {
        TranscriptionError::ParseError(d) => assert_eq!(d, "Failed to parse API error response"),
        other => panic!("unexpected {:?}", other),
    }
    match classify_error_body("{}", false) {
        TranscriptionError::ApiError(d) => assert_eq!(d, "Groq error: unknown"),
        other => panic!("unexpected {:?}", other),
    }
    match error_from_fields(Some(None), Some(None), true) {
        TranscriptionError::ApiError(d) => assert_eq!(d, "Groq error: unknown error"),
        other => panic!("unexpected {:?}", other),
    }
}

#[test]
fn chat_request_per_persona() {
    let r = chat_request("text", SummarizeMethod::Default);
    assert_eq!(r.model, "moonshotai/kimi-k2-instruct");
    assert_eq!(r.messages.len(), 2);
    assert_eq!(r.messages[0].role, "system");
    assert_eq!(r.messages[0].content, DEFAULT_PROMPT);
    assert_eq!(r.messages[1].role, "user");
    assert_eq!(r.messages[1].content, "text");
    assert_eq!(r.temperature_tenths, 4);
    assert_eq!(r.max_tokens, 512);
    let c = chat_request("t", SummarizeMethod::Caveman);
    assert_eq!(c.messages[0].content, CAVEMAN_PROMPT);
    assert_eq!(c.temperature_tenths, 7);
}

#[test]
fn summary_is_the_first_choice_trimmed() {
    let msg = |c: &str| GroqChatChoice { message: GroqChatMessage { role: "assistant".to_string(), content: c.to_string() } };
    let resp = GroqChatResponse { choices: vec![msg("  gist \n"), msg("other")] };
    assert_eq!(summary_text(&resp).unwrap(), "gist");
    let empty = GroqChatResponse { choices: vec![] };
    assert!(matches!(summary_text(&empty), Err(TranscriptionError::ParseError(_))));
}

#[test]
fn endpoints_by_task() {
    assert_eq!(endpoint_path(TaskType::Transcribe), "/audio/transcriptions");
    assert_eq!(endpoint_path(TaskType::Translate), "/audio/translations");
    assert_eq!(endpoint_path(TaskType::SummarizeCaveman), "/chat/completions");
}

#[test]
fn upload_names_and_mime_choice() {
    assert_eq!(upload_file_name("audio/ogg").unwrap(), "audio.ogg");
    assert_eq!(upload_file_name("video/mp4").unwrap(), "audio.mp4");
    assert!(matches!(upload_file_name("not a mime"), Err(TranscriptionError::ParseError(_))));
    assert_eq!(download_mime(Some("audio/ogg".to_string()), "voice/file_1.mp3"), "audio/ogg");
    assert_eq!(download_mime(None, "voice/file_1.mp3"), "audio/mpeg");
    assert_eq!(download_mime(None, "voice/file_1"), "application/octet-stream");
    assert_eq!(pick_mime(None, "x/y".to_string(), false), "application/octet-stream");
}

fn att(id: &str) -> Attachment {
    Attachment {
        file_id: format!("file-{id}"),
        unique_id: format!("uniq-{id}"),
        duration: 42,
        size: 50000,
        mime: Some("audio/ogg".to_string()),
    }
}

#[test]
fn resolver_prefers_voice_then_video_note_then_video_then_audio() {
    let all = MessageMedia { voice: Some(att("v")), video_note: Some(att("n")), video: Some(att("d")), audio: Some(att("a")) };
    let info = AudioFileInfo::from_message(&all).unwrap();
    assert_eq!(info.kind, AudioSourceKind::Voice);
    assert_eq!(info.unique_id, "uniq-v");
    let note = MessageMedia { voice: None, video_note: Some(att("n")), video: Some(att("d")), audio: None };
    let info = AudioFileInfo::from_message(&note).unwrap();
    assert_eq!(info.kind, AudioSourceKind::VideoNote);
    assert_eq!(info.mime, Some("video/mp4".to_string()));
    let audio = MessageMedia { voice: None, video_note: None, video: None, audio: Some(att("a")) };
    assert_eq!(AudioFileInfo::from_message(&audio).unwrap().file_id, "file-a");
    let none = MessageMedia { voice: None, video_note: None, video: None, audio: None };
    assert!(AudioFileInfo::from_message(&none).is_none());
    assert!(!has_audio_content(&none));
    assert!(has_audio_content(&audio));
}

#[test]
fn gate_limits_and_messages() {
    let g = GateLimits::defaults();
    assert!(g.check(20 * 1024 * 1024, 1800).is_ok());
    assert_eq!(g.check(20 * 1024 * 1024 + 1, 5000), Err(GateError::TooLarge { size: 20 * 1024 * 1024 + 1, max_mb: 20 }));
    assert_eq!(g.check(10, 1801), Err(GateError::TooLong { duration: 1801, max_minutes: 30 }));
    assert_eq!(GateError::TooLong { duration: 1801, max_minutes: 30 }.message(), "Duration is above 30 minutes");
    assert_eq!(GateError::TooLarge { size: 26_000_000, max_mb: 25 }.message(), "File can't be larger than 25MB (is 24MB)");
}

#[test]
fn commands_map_to_actions() {
    assert!(matches!(command_action(BotCommand::Help), CommandAction::ShowHelp));
    match command_action(BotCommand::Translate) {
        CommandAction::Audio { action, help } => {
            assert_eq!(action, AudioAction::Transcribe(TaskType::Translate));
            assert_eq!(help, "Reply to an audio message or video note to translate it.");
        },
        other => panic!("unexpected {:?}", other),
    }
    match command_action(BotCommand::Caveman) {
        CommandAction::Audio { action, .. } => assert_eq!(action, AudioAction::Summarize(SummarizeMethod::Caveman)),
        other => panic!("unexpected {:?}", other),
    }
    match command_action(BotCommand::Start) {
        CommandAction::Reply(t) => assert!(t.starts_with("Welcome!")),
        other => panic!("unexpected {:?}", other),
    }
    assert_eq!(audio_target(true, None), AudioTarget::Current);
    assert_eq!(audio_target(false, Some(true)), AudioTarget::Replied);
    assert_eq!(audio_target(false, Some(false)), AudioTarget::Missing);
    assert_eq!(audio_target(false, None), AudioTarget::Missing);
    assert_eq!(route_message(Some(BotCommand::Help), Some(BotCommand::Start), true), Route::Command(BotCommand::Help));
    assert_eq!(route_message(None, Some(BotCommand::Start), true), Route::Command(BotCommand::Start));
    assert_eq!(route_message(None, None, true), Route::AutoTranscribe);
    assert_eq!(route_message(None, None, false), Route::Ignore);
}

#[test]
fn dev_commands_match_plain_and_addressed_forms() {
    assert!(is_command_match("/check", "/check", "duckbot"));
    assert!(is_command_match("  /check@duckbot now", "/check", "duckbot"));
    assert!(!is_command_match("/checkx", "/check", "duckbot"));
    assert!(!is_command_match("/check@other", "/check", "duckbot"));
    assert!(!is_command_match("", "/check", "duckbot"));
    assert_eq!(dev_command_of("/reset", "b"), Some(DevCommand::Reset));
    assert_eq!(dev_command_of("/check@b", "b"), Some(DevCommand::Check));
    assert_eq!(dev_command_of("/resetting", "b"), None);
    assert!(looks_like_dev_command("/resetting"));
    assert!(!looks_like_dev_command("hello /check"));
    assert!(is_authorized_developer(Some(7), Some(7)));
    assert!(!is_authorized_developer(Some(7), Some(8)));
    assert!(!is_authorized_developer(None, Some(8)));
    assert!(!is_authorized_developer(Some(7), None));
    assert_eq!(webhook_info_text(3, None), "Pending updates: 3");
    assert_eq!(webhook_info_text(0, Some("boom")), "Pending updates: 0\nLast error: boom");
}

#[test]
fn stats_texts() {
    assert_eq!(smart_add_write(Some(5)), CacheWrite::Update);
    assert_eq!(smart_add_write(None), CacheWrite::Insert);
    assert_eq!(
        stats_text("duck", Some(125)),
        "<b>Your stats:</b>\n- Username: <code>duck</code>\n- Transcribed: <code>125s</code>"
    );
    assert!(stats_text("duck", None).starts_with("You have no stats."));
}

#[test]
fn speech_names_and_messages() {
    assert_eq!(TranscribeType::Translate.url_suffix(), "translations");
    assert_eq!(TranscribeType::Transcribe.url_suffix(), "transcriptions");
    assert_eq!(Voice::Shimmer.name(), "Shimmer");
    assert_eq!(Voice::Onyx.api_id(), "onyx");
    assert_eq!(OpenAIError::QuotaExceeded.message(), "Quota exceeded or rate limited");
    assert_eq!(OpenAIError::Other("x".to_string()).message(), "x");
    assert_eq!(TranscribeError::TooLong.message(), "Audio length is more than 5 minutes");
    assert_eq!(TranscribeError::Unknown("e".to_string()).message(), "Unknown error: e");
    assert_eq!(TranscriptionError::NetworkError("n".to_string()).detail(), "n");
    assert!(TranscriptionError::RateLimitReached.is_rate_limit());
}

#[test]
fn message_info_kind_and_description() {
    let m = MessageInfo { is_text: false, is_voice: true, is_video_note: true };
    assert_eq!(m.kind(), MessageKind::Voice);
    assert_eq!(m.describe(), "Message: (is_text: false, is_voice: true, is_video_note: true)");
    let n = MessageInfo { is_text: false, is_voice: false, is_video_note: false };
    assert_eq!(n.kind(), MessageKind::Unsupported);
}

#[test]
fn summarize_method_columns() {
    assert_eq!(SummarizeMethod::Default.task_type(), TaskType::SummarizeDefault);
    assert_eq!(SummarizeMethod::Caveman.task_type(), TaskType::SummarizeCaveman);
}

#[test]
fn rate_limit_wait_is_read_from_the_message() {
    assert_eq!(retry_after_seconds("Rate limit reached. Please try again in 1m51s. Visit ..."), Some(111));
    assert_eq!(retry_after_seconds("Please try again in 1m51.264s."), Some(112));
    assert_eq!(retry_after_seconds("try again in 7.5s"), Some(8));
    assert_eq!(retry_after_seconds("try again in 2h3m"), Some(7380));
    assert_eq!(retry_after_seconds("try again in 350ms"), Some(1));
    assert_eq!(retry_after_seconds("try again in 5 minutes"), None);
    assert_eq!(retry_after_seconds("slow down"), None);
    assert_eq!(retry_after_seconds(""), None);
}

#[test]
fn error_message_is_read_from_the_body() {
    assert_eq!(json_error_message(r#"{"error":{"message":"try again in 2s"}}"#), Some(Some("try again in 2s".to_string())));
    assert_eq!(json_error_message(r#"{"error":{}}"#), Some(None));
    assert_eq!(json_error_message("nope"), None);
}

#[test]
fn markdown_escape_backslashes_specials() {
    let (mut o, _) = Orchestrator::start(AudioAction::Summarize(SummarizeMethod::Default), GateLimits::defaults(), 1, 1);
    o.step(Event::Looked(ItemReturnInfo::Text("t".to_string())));
    o.step(Event::Summarized(Ok("a_b (c) 1.5!".to_string())));
    match o.step(Event::Stored) {
        Action::Finish(out) => assert_eq!(out.reply, Some("_a\\_b \\(c\\) 1\\.5\\!_".to_string())),
        other => panic!("unexpected {:?}", other),
    }
}

#[test]
fn lifetime_limit_applies_from_thirty_minutes() {
    assert!(!lifetime_limit_reached(None));
    assert!(!lifetime_limit_reached(Some(1799)));
    assert!(lifetime_limit_reached(Some(1800)));
}
