use duck_transcriber::cache::CacheTable;
use duck_transcriber::gate::GateLimits;
use duck_transcriber::orchestrator::{Action, Event, Orchestrator, Outcome};
use duck_transcriber::segments::{transcript_text, Segment};
use duck_transcriber::types::{AudioAction, ItemReturnInfo, SummarizeMethod, TaskType, TranscriptionError};

fn finished(a: Action) -> Outcome {
    match a {
        Action::Finish(o) => o,
        other => panic!("expected the end of the request, got {:?}", other),
    }
}

fn transcribe_job() -> AudioAction {
    AudioAction::Transcribe(TaskType::Transcribe)
}

#[test]
fn cache_hit_is_served_without_any_backend_call() {
    let limits = GateLimits::defaults();
    let mut table = CacheTable::new();
    let id = "abc123".to_string();
    table.smart_put(&id, TaskType::Transcribe, "stored text".to_string(), 0);
    let (mut o, first) = Orchestrator::start(transcribe_job(), limits, 50000, 42);
    assert!(matches!(first, Action::LookupCache(TaskType::Transcribe)));
    let out = finished(o.step(Event::Looked(table.get(&id, TaskType::Transcribe))));
    assert_eq!(out.reply, Some("stored text".to_string()));
    assert_eq!(out.status, 200);
}

#[test]
fn cache_hit_is_served_even_for_oversized_media() {
    let (mut o, _) = Orchestrator::start(transcribe_job(), GateLimits::defaults(), 100_000_000, 99_999);
    let out = finished(o.step(Event::Looked(ItemReturnInfo::Text("old".to_string()))));
    assert_eq!(out.reply, Some("old".to_string()));
}

#[test]
fn too_long_media_is_rejected_before_download() {
    let (mut o, _) = Orchestrator::start(transcribe_job(), GateLimits::defaults(), 50000, 1801);
    let out = finished(o.step(Event::Looked(ItemReturnInfo::Absent)));
    assert_eq!(out.reply, Some("Duration is above 30 minutes".to_string()));
    assert_eq!(out.status, 200);
}

#[test]
fn too_large_media_is_rejected_before_download() {
    let (mut o, _) = Orchestrator::start(transcribe_job(), GateLimits::defaults(), 25 * 1024 * 1024, 10);
    let out = finished(o.step(Event::LookupFailed));
    assert_eq!(out.reply, Some("File can't be larger than 20MB (is 25MB)".to_string()));
}

#[test]
fn rate_limit_defers_with_429() {
    let (mut o, _) = Orchestrator::start(transcribe_job(), GateLimits::defaults(), 1000, 10);
    assert!(matches!(o.step(Event::Looked(ItemReturnInfo::Absent)), Action::Download));
    assert!(matches!(o.step(Event::Downloaded), Action::Transcribe(TaskType::Transcribe)));
    let out = finished(o.step(Event::Transcribed(Err(TranscriptionError::RateLimitReached))));
    assert_eq!(out.status, 429);
    assert_eq!(out.reply, None);
}

#[test]
fn other_backend_errors_answer_200_with_a_reply() {
    let (mut o, _) = Orchestrator::start(transcribe_job(), GateLimits::defaults(), 1000, 10);
    o.step(Event::Looked(ItemReturnInfo::Absent));
    o.step(Event::Downloaded);
    let out = finished(o.step(Event::Transcribed(Err(TranscriptionError::ApiError("Groq error: bad".to_string())))));
    assert_eq!(out.status, 200);
    assert_eq!(out.reply, Some("Error: Groq error: bad. Please try again later.".to_string()));
}

#[test]
fn download_failure_is_reported_with_200() {
    let (mut o, _) = Orchestrator::start(transcribe_job(), GateLimits::defaults(), 1000, 10);
    o.step(Event::Looked(ItemReturnInfo::Exists));
    let out = finished(o.step(Event::DownloadFailed("transcoding failed".to_string())));
    assert_eq!(out.status, 200);
    assert_eq!(out.reply, Some("Error: transcoding failed. Please try again later.".to_string()));
}

#[test]
fn voice_message_end_to_end() {
    let mut table = CacheTable::new();
    let id = "abc123".to_string();
    let (mut o, first) = Orchestrator::start(transcribe_job(), GateLimits::defaults(), 50000, 42);
    assert!(matches!(first, Action::LookupCache(TaskType::Transcribe)));
    assert!(matches!(o.step(Event::Looked(table.get(&id, TaskType::Transcribe))), Action::Download));
    assert!(matches!(o.step(Event::Downloaded), Action::Transcribe(TaskType::Transcribe)));
    let segs = vec![Segment { text: "hello".to_string(), no_speech_prob_ppm: 100000, avg_logprob_ppm: -200000 }];
    let text = transcript_text(&segs);
    assert_eq!(text, Some("hello".to_string()));
    match o.step(Event::Transcribed(Ok(text))) {
        Action::Store(task, t) => {
            assert_eq!(task, TaskType::Transcribe);
            assert_eq!(t, "hello");
            table.smart_put(&id, task, t, 1_700_000_000);
        },
        other => panic!("expected a cache write, got {:?}", other),
    }
    let out = finished(o.step(Event::Stored));
    assert_eq!(out.reply, Some("hello".to_string()));
    assert_eq!(out.status, 200);
    assert!(matches!(table.get(&id, TaskType::Transcribe), ItemReturnInfo::Text(ref t) if t == "hello"));
}

#[test]
fn no_speech_is_cached_as_placeholder() {
    let (mut o, _) = Orchestrator::start(AudioAction::Transcribe(TaskType::Translate), GateLimits::defaults(), 10, 1);
    o.step(Event::Looked(ItemReturnInfo::Absent));
    assert!(matches!(o.step(Event::Downloaded), Action::Transcribe(TaskType::Translate)));
    match o.step(Event::Transcribed(Ok(None))) {
        Action::Store(TaskType::Translate, t) => assert_eq!(t, "<no text>"),
        other => panic!("unexpected {:?}", other),
    }
    let out = finished(o.step(Event::Stored));
    assert_eq!(out.reply, Some("<no text>".to_string()));
    assert_eq!(out.label, Some(TaskType::Translate));
}

#[test]
fn transcript_is_trimmed_before_caching() {
    let (mut o, _) = Orchestrator::start(transcribe_job(), GateLimits::defaults(), 10, 1);
    o.step(Event::Looked(ItemReturnInfo::Absent));
    o.step(Event::Downloaded);
    match o.step(Event::Transcribed(Ok(Some("  hi there \n".to_string())))) {
        Action::Store(_, t) => assert_eq!(t, "hi there"),
        other => panic!("unexpected {:?}", other),
    }
}

#[test]
fn summary_uses_cached_translation() {
    let (mut o, first) = Orchestrator::start(AudioAction::Summarize(SummarizeMethod::Caveman), GateLimits::defaults(), 10, 1);
    assert!(matches!(first, Action::LookupCache(TaskType::Translate)));
    match o.step(Event::Looked(ItemReturnInfo::Text("we hunt".to_string()))) {
        Action::Summarize(SummarizeMethod::Caveman, t) => assert_eq!(t, "we hunt"),
        other => panic!("unexpected {:?}", other),
    }
    match o.step(Event::Summarized(Ok("MAN HUNT. MAMMOTH!".to_string()))) {
        Action::Store(TaskType::SummarizeCaveman, t) => assert_eq!(t, "MAN HUNT. MAMMOTH!"),
        other => panic!("unexpected {:?}", other),
    }
    let out = finished(o.step(Event::Stored));
    assert_eq!(out.reply, Some("_MAN HUNT\\. MAMMOTH\\!_".to_string()));
    assert!(out.markdown);
    assert_eq!(out.label, Some(TaskType::SummarizeCaveman));
}

#[test]
fn summary_translates_first_on_a_miss() {
    let (mut o, _) = Orchestrator::start(AudioAction::Summarize(SummarizeMethod::Default), GateLimits::defaults(), 10, 1);
    assert!(matches!(o.step(Event::Looked(ItemReturnInfo::Exists)), Action::Download));
    assert!(matches!(o.step(Event::Downloaded), Action::Transcribe(TaskType::Translate)));
    match o.step(Event::Transcribed(Ok(Some("hello".to_string())))) {
        Action::Store(TaskType::Translate, t) => assert_eq!(t, "hello"),
        other => panic!("unexpected {:?}", other),
    }
    match o.step(Event::Stored) {
        Action::Summarize(SummarizeMethod::Default, t) => assert_eq!(t, "hello"),
        other => panic!("unexpected {:?}", other),
    }
    let out = finished(o.step(Event::Summarized(Err(TranscriptionError::RateLimitReached))));
    assert_eq!(out.status, 429);
}

#[test]
fn summary_of_silence_is_reported() {
    let (mut o, _) = Orchestrator::start(AudioAction::Summarize(SummarizeMethod::Default), GateLimits::defaults(), 10, 1);
    o.step(Event::Looked(ItemReturnInfo::Absent));
    o.step(Event::Downloaded);
    let out = finished(o.step(Event::Transcribed(Ok(None))));
    assert_eq!(out.reply, Some("No text found in audio".to_string()));
}

#[test]
fn unexpected_event_ends_quietly() {
    let (mut o, _) = Orchestrator::start(transcribe_job(), GateLimits::defaults(), 10, 1);
    let out = finished(o.step(Event::Stored));
    assert_eq!(out.reply, None);
    assert_eq!(out.status, 200);
}
