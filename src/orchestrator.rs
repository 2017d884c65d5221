use vstd::prelude::*;
use vstd::string::*;
use crate::gate::{gate_message, GateError, GateLimits};
use crate::text::{escape_markdown, markdown_escaped, trim_text, trimmed};
use crate::types::{error_detail, AudioAction, ItemReturnInfo, SummarizeMethod, TaskType, TranscriptionError};

verus! {

/// The text cached and sent when no speech was found in a transcription.
pub const NO_TEXT: &'static str = "<no text>";

/// The reply when a summary was asked for media without speech.
pub const NO_TEXT_FOUND: &'static str = "No text found in audio";

/// HTTP status of every handled request, failures included.
pub const STATUS_OK: u16 = 200;

/// HTTP status that makes the platform deliver the update again later.
pub const STATUS_RATE_LIMITED: u16 = 429;

/// What the caller reports back after performing an action.
#[derive(Debug)]
pub enum Event {
    /// The cache lookup answered.
    Looked(ItemReturnInfo),
    /// The cache could not be read.
    LookupFailed,
    /// The media bytes were fetched (and transcoded where needed).
    Downloaded,
    /// Fetching or transcoding failed, with a short detail.
    DownloadFailed(String),
    /// The transcription backend answered; `None` when no speech was found.
    Transcribed(Result<Option<String>, TranscriptionError>),
    /// The summarization backend answered.
    Summarized(Result<String, TranscriptionError>),
    /// The cache write is done, or failed; either way the request goes on.
    Stored,
}

/// How the request ends.
#[derive(Debug)]
pub struct Outcome {
    /// The text sent in reply to the originating message, if any.
    pub reply: Option<String>,
    /// The reply is MarkdownV2.
    pub markdown: bool,
    /// What the reply holds, for the file name when it is sent as a document.
    pub label: Option<TaskType>,
    /// The status of the webhook response.
    pub status: u16,
}

/// What the caller performs next.
#[derive(Debug)]
pub enum Action {
    /// Look the content up in the cache, for that task type.
    LookupCache(TaskType),
    /// Fetch the media bytes.
    Download,
    /// Call the transcription backend for that task type, with key failover.
    Transcribe(TaskType),
    /// Call the summarization backend with this text, with key failover.
    Summarize(SummarizeMethod, String),
    /// Write this text to the cache column of the task (read, then update or insert).
    Store(TaskType, String),
    /// Reply and answer the webhook; nothing follows.
    Finish(Outcome),
}

#[derive(Clone, Copy, Debug, PartialEq, Eq, Structural)]
pub enum Phase {
    Lookup,
    Download,
    Transcription,
    StoringTranslation,
    Summary,
    Storing,
    Done,
}

/// The cache column that is looked up first.
pub open spec fn lookup_task(job: AudioAction) -> TaskType {
    match job {
        AudioAction::Transcribe(t) => t,
        AudioAction::Summarize(_) => TaskType::Translate,
    }
}

/// Only transcripts and translations come from the transcription backend.
pub open spec fn valid_job(job: AudioAction) -> bool {
    job matches AudioAction::Transcribe(t) ==> (t is Transcribe || t is Translate)
}

/// Tells whether a request may be started.
pub fn valid_action(job: AudioAction) -> (r: bool)
    ensures
        r == valid_job(job),
{
    match job {
        AudioAction::Transcribe(TaskType::Transcribe) => true,
        AudioAction::Transcribe(TaskType::Translate) => true,
        AudioAction::Transcribe(_) => false,
        AudioAction::Summarize(_) => true,
    }
}

pub open spec fn summary_task(m: SummarizeMethod) -> TaskType {
    match m {
        SummarizeMethod::Default => TaskType::SummarizeDefault,
        SummarizeMethod::Caveman => TaskType::SummarizeCaveman,
    }
}

/// The rejection owed to a media that exceeds the limits.
pub open spec fn gate_error(limits: GateLimits, size: u32, duration: u32) -> GateError {
    if !limits.size_ok(size) {
        GateError::TooLarge { size, max_mb: limits.max_file_size_mb }
    } else {
        GateError::TooLong { duration, max_minutes: limits.max_duration_minutes }
    }
}

/// The user-facing text of a failure.
pub open spec fn error_reply(detail: Seq<char>) -> Seq<char> {
    "Error: "@ + detail + ". Please try again later."@
}

/// The text that a transcription yields for the reply and the cache.
pub open spec fn transcript_of(o: Option<String>) -> Seq<char> {
    match o {
        Option::Some(s) => trimmed(s@),
        Option::None => NO_TEXT@,
    }
}

/// A summary as sent: escaped for MarkdownV2 and set in italics.
pub open spec fn summary_reply(s: Seq<char>) -> Seq<char> {
    "_"@ + markdown_escaped(s) + "_"@
}

/// The outcome carries the reply `text` as plain text, with status 200.
pub open spec fn replies(r: Action, text: Seq<char>, markdown: bool, label: Option<TaskType>) -> bool {
    &&& r is Finish
    &&& r->Finish_0.reply is Some
    &&& r->Finish_0.reply->Some_0@ == text
    &&& r->Finish_0.markdown == markdown
    &&& r->Finish_0.label == label
    &&& r->Finish_0.status == STATUS_OK
}

/// The event is a backend failure whose final error is a rate limit.
pub open spec fn is_rate_limit_failure(e: Event) -> bool {
    ||| (e is Transcribed && e->Transcribed_0 is Err && e->Transcribed_0->Err_0 is RateLimitReached)
    ||| (e is Summarized && e->Summarized_0 is Err && e->Summarized_0->Err_0 is RateLimitReached)
}

/// The events that the phase waits for.
pub open spec fn expects(phase: Phase, e: Event) -> bool {
    match phase {
        Phase::Lookup => e is Looked || e is LookupFailed,
        Phase::Download => e is Downloaded || e is DownloadFailed,
        Phase::Transcription => e is Transcribed,
        Phase::StoringTranslation => e is Stored,
        Phase::Summary => e is Summarized,
        Phase::Storing => e is Stored,
        Phase::Done => false,
    }
}

/// The request state machine: gate checks, cache lookup, acquisition,
/// transcription, cache population and reply, one action at a time.
pub struct Orchestrator {
    job: AudioAction,
    limits: GateLimits,
    size: u32,
    duration: u32,
    phase: Phase,
    text: String,
}

impl Orchestrator {
    pub closed spec fn job(&self) -> AudioAction {
        self.job
    }

    pub closed spec fn limits(&self) -> GateLimits {
        self.limits
    }

    pub closed spec fn size(&self) -> u32 {
        self.size
    }

    pub closed spec fn duration(&self) -> u32 {
        self.duration
    }

    pub closed spec fn phase(&self) -> Phase {
        self.phase
    }

    /// The text awaiting its cache write or its summary.
    pub closed spec fn pending(&self) -> Seq<char> {
        self.text@
    }

    pub open spec fn same_request(&self, other: &Orchestrator) -> bool {
        &&& self.job() == other.job()
        &&& self.limits() == other.limits()
        &&& self.size() == other.size()
        &&& self.duration() == other.duration()
    }

    /// Starts a request for the media of `size` bytes and `duration` seconds;
    /// the first action is always the cache lookup.
    pub fn start(job: AudioAction, limits: GateLimits, size: u32, duration: u32) -> (r: (Orchestrator, Action))
        requires
            valid_job(job),
        ensures
            r.0.job() == job,
            r.0.limits() == limits,
            r.0.size() == size,
            r.0.duration() == duration,
            r.0.phase() == Phase::Lookup,
            r.1 == Action::LookupCache(lookup_task(job)),
    {
        let task = match job {
            AudioAction::Transcribe(t) => t,
            AudioAction::Summarize(_) => TaskType::Translate,
        };
        (Orchestrator { job, limits, size, duration, phase: Phase::Lookup, text: String::new() }, Action::LookupCache(task))
    }

    /// Takes the caller's report on the last action and returns the next one.
    pub fn step(&mut self, event: Event) -> (r: Action)
        requires
            old(self).phase() != Phase::Done,
        ensures
            final(self).same_request(old(self)),
            r is Finish <==> final(self).phase() == Phase::Done,
            // Nothing is fetched for media over the limits.
            r is Download ==> old(self).limits().passes(old(self).size(), old(self).duration()),
            // Only a final rate limit of a backend answers other than 200.
            r is Finish ==> (r->Finish_0.status == STATUS_RATE_LIMITED
                <==> (expects(old(self).phase(), event) && is_rate_limit_failure(event))),
            r is Finish ==> (r->Finish_0.status == STATUS_OK || r->Finish_0.status == STATUS_RATE_LIMITED),
            // A cached text is served as it is, and ends the request.
            (old(self).phase() == Phase::Lookup && event is Looked && event->Looked_0 is Text
                && old(self).job() is Transcribe) ==> replies(r, event->Looked_0->Text_0@, false, Some(lookup_task(old(self).job()))),
            // A cached translation goes straight to the summarization backend.
            (old(self).phase() == Phase::Lookup && event is Looked && event->Looked_0 is Text
                && old(self).job() is Summarize) ==> r == Action::Summarize(old(self).job()->Summarize_0, event->Looked_0->Text_0)
                && final(self).phase() == Phase::Summary,
            // On a miss, the limits decide between fetching and rejecting.
            (old(self).phase() == Phase::Lookup && (event is LookupFailed || (event is Looked && !(event->Looked_0 is Text))))
                ==> (old(self).limits().passes(old(self).size(), old(self).duration()) ==> r is Download
                    && final(self).phase() == Phase::Download)
                && (!old(self).limits().passes(old(self).size(), old(self).duration()) ==> replies(r,
                    gate_message(gate_error(old(self).limits(), old(self).size(), old(self).duration())), false, None)),
            (old(self).phase() == Phase::Download && event is Downloaded) ==> r == Action::Transcribe(lookup_task(old(self).job()))
                && final(self).phase() == Phase::Transcription,
            (old(self).phase() == Phase::Download && event is DownloadFailed)
                ==> replies(r, error_reply(event->DownloadFailed_0@), false, None),
            // A backend failure ends the request: deferred on a rate limit, reported otherwise.
            ((old(self).phase() == Phase::Transcription && event is Transcribed && event->Transcribed_0 is Err)
                || (old(self).phase() == Phase::Summary && event is Summarized && event->Summarized_0 is Err))
                ==> (is_rate_limit_failure(event) ==> r == Action::Finish(
                    Outcome { reply: None, markdown: false, label: None, status: STATUS_RATE_LIMITED }))
                && (!is_rate_limit_failure(event) ==> replies(r, error_reply(error_detail(
                    if event is Transcribed { event->Transcribed_0->Err_0 } else { event->Summarized_0->Err_0 })), false, None)),
            // A fresh transcript or translation is cached before it is sent.
            (old(self).phase() == Phase::Transcription && event is Transcribed && event->Transcribed_0 is Ok
                && old(self).job() is Transcribe) ==> r is Store && r->Store_0 == old(self).job()->Transcribe_0
                && r->Store_1@ == transcript_of(event->Transcribed_0->Ok_0)
                && final(self).pending() == transcript_of(event->Transcribed_0->Ok_0)
                && final(self).phase() == Phase::Storing,
            (old(self).phase() == Phase::Transcription && event is Transcribed && event->Transcribed_0 is Ok
                && event->Transcribed_0->Ok_0 is None && old(self).job() is Summarize)
                ==> replies(r, NO_TEXT_FOUND@, false, None),
            // A fresh translation for a summary is cached, then summarized.
            (old(self).phase() == Phase::Transcription && event is Transcribed && event->Transcribed_0 is Ok
                && event->Transcribed_0->Ok_0 is Some && old(self).job() is Summarize)
                ==> r == Action::Store(TaskType::Translate, event->Transcribed_0->Ok_0->Some_0)
                && final(self).pending() == event->Transcribed_0->Ok_0->Some_0@
                && final(self).phase() == Phase::StoringTranslation,
            (old(self).phase() == Phase::StoringTranslation && event is Stored && old(self).job() is Summarize)
                ==> r is Summarize && r->Summarize_0 == old(self).job()->Summarize_0
                && r->Summarize_1@ == old(self).pending() && final(self).phase() == Phase::Summary,
            (old(self).phase() == Phase::Summary && event is Summarized && event->Summarized_0 is Ok
                && old(self).job() is Summarize) ==> r is Store
                && r->Store_0 == summary_task(old(self).job()->Summarize_0)
                && r->Store_1@ == event->Summarized_0->Ok_0@
                && final(self).pending() == event->Summarized_0->Ok_0@
                && final(self).phase() == Phase::Storing,
            // Once the cache write is done, whatever it gave, the text is sent.
            (old(self).phase() == Phase::Storing && event is Stored && old(self).job() is Transcribe)
                ==> replies(r, old(self).pending(), false, Some(old(self).job()->Transcribe_0)),
            (old(self).phase() == Phase::Storing && event is Stored && old(self).job() is Summarize)
                ==> replies(r, summary_reply(old(self).pending()), true, Some(summary_task(old(self).job()->Summarize_0))),
            // An event that the phase does not wait for ends the request quietly.
            !expects(old(self).phase(), event) ==> r == Action::Finish(
                Outcome { reply: None, markdown: false, label: None, status: STATUS_OK }),
    {
        match self.phase {
            Phase::Lookup => match event {
                Event::Looked(ItemReturnInfo::Text(s)) => match self.job {
                    AudioAction::Transcribe(t) => self.finish(Some(s), false, Some(t), STATUS_OK),
                    AudioAction::Summarize(m) => {
                        self.phase = Phase::Summary;
                        Action::Summarize(m, s)
                    },
                },
                Event::Looked(_) | Event::LookupFailed => match self.limits.check(self.size, self.duration) {
                    Ok(()) => {
                        self.phase = Phase::Download;
                        Action::Download
                    },
                    Err(e) => {
                        let m = e.message();
                        self.finish(Some(m), false, None, STATUS_OK)
                    },
                },
                _ => self.finish(None, false, None, STATUS_OK),
            },
            Phase::Download => match event {
                Event::Downloaded => {
                    self.phase = Phase::Transcription;
                    match self.job {
                        AudioAction::Transcribe(t) => Action::Transcribe(t),
                        AudioAction::Summarize(_) => Action::Transcribe(TaskType::Translate),
                    }
                },
                Event::DownloadFailed(d) => {
                    let reply = error_text(d.as_str());
                    self.finish(Some(reply), false, None, STATUS_OK)
                },
                _ => self.finish(None, false, None, STATUS_OK),
            },
            Phase::Transcription => match event {
                Event::Transcribed(Err(e)) => self.fail(e),
                Event::Transcribed(Ok(o)) => match self.job {
                    AudioAction::Transcribe(t) => {
                        let x = match o {
                            Some(s) => trim_text(s.as_str()),
                            None => String::from_str(NO_TEXT),
                        };
                        self.text = x.clone();
                        self.phase = Phase::Storing;
                        Action::Store(t, x)
                    },
                    AudioAction::Summarize(_) => match o {
                        Some(tr) => {
                            self.text = tr.clone();
                            self.phase = Phase::StoringTranslation;
                            Action::Store(TaskType::Translate, tr)
                        },
                        None => {
                            let reply = String::from_str(NO_TEXT_FOUND);
                            self.finish(Some(reply), false, None, STATUS_OK)
                        },
                    },
                },
                _ => self.finish(None, false, None, STATUS_OK),
            },
            Phase::StoringTranslation => match event {
                Event::Stored => match self.job {
                    AudioAction::Summarize(m) => {
                        self.phase = Phase::Summary;
                        Action::Summarize(m, self.text.clone())
                    },
                    AudioAction::Transcribe(_) => self.finish(None, false, None, STATUS_OK),
                },
                _ => self.finish(None, false, None, STATUS_OK),
            },
            Phase::Summary => match event {
                Event::Summarized(Err(e)) => self.fail(e),
                Event::Summarized(Ok(s)) => match self.job {
                    AudioAction::Summarize(m) => {
                        self.text = s.clone();
                        self.phase = Phase::Storing;
                        Action::Store(m.task_type(), s)
                    },
                    AudioAction::Transcribe(_) => self.finish(None, false, None, STATUS_OK),
                },
                _ => self.finish(None, false, None, STATUS_OK),
            },
            Phase::Storing => match event {
                Event::Stored => match self.job {
                    AudioAction::Transcribe(t) => {
                        let x = self.text.clone();
                        self.finish(Some(x), false, Some(t), STATUS_OK)
                    },
                    AudioAction::Summarize(m) => {
                        let mut reply = String::from_str("_");
                        reply.append(escape_markdown(self.text.as_str()).as_str());
                        reply.append("_");
                        self.finish(Some(reply), true, Some(m.task_type()), STATUS_OK)
                    },
                },
                _ => self.finish(None, false, None, STATUS_OK),
            },
            Phase::Done => self.finish(None, false, None, STATUS_OK),
        }
    }

    fn finish(&mut self, reply: Option<String>, markdown: bool, label: Option<TaskType>, status: u16) -> (r: Action)
        ensures
            final(self).phase == Phase::Done,
            final(self).job == old(self).job,
            final(self).limits == old(self).limits,
            final(self).size == old(self).size,
            final(self).duration == old(self).duration,
            r == Action::Finish(Outcome { reply, markdown, label, status }),
    {
        self.phase = Phase::Done;
        Action::Finish(Outcome { reply, markdown, label, status })
    }

    fn fail(&mut self, e: TranscriptionError) -> (r: Action)
        ensures
            final(self).phase == Phase::Done,
            final(self).job == old(self).job,
            final(self).limits == old(self).limits,
            final(self).size == old(self).size,
            final(self).duration == old(self).duration,
            e is RateLimitReached ==> r == Action::Finish(
                Outcome { reply: None, markdown: false, label: None, status: STATUS_RATE_LIMITED },
            ),
            !(e is RateLimitReached) ==> replies(r, error_reply(error_detail(e)), false, None),
    {
        if e.is_rate_limit() {
            self.finish(None, false, None, STATUS_RATE_LIMITED)
        } else {
            let d = e.detail();
            let reply = error_text(d.as_str());
            self.finish(Some(reply), false, None, STATUS_OK)
        }
    }
}

/// Wraps a failure detail for the user.
pub fn error_text(detail: &str) -> (r: String)
    ensures
        r@ == error_reply(detail@),
{
    let mut s = String::from_str("Error: ");
    s.append(detail);
    s.append(". Please try again later.");
    s
}

} // verus!
