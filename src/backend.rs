use vstd::prelude::*;
use vstd::string::*;
use crate::text::{trim_text, trimmed};
use crate::types::{SummarizeMethod, TaskType, TranscriptionError};

verus! {

/// Base URL of the OpenAI-compatible backend.
pub const BASE_URL: &'static str = "https://api.groq.com/openai/v1";

/// Speech-to-text model.
pub const WHISPER_MODEL: &'static str = "whisper-large-v3";

/// Response format that yields timed segments with confidence metrics.
pub const RESPONSE_FORMAT: &'static str = "verbose_json";

/// Chat model used for summaries.
pub const CHAT_MODEL: &'static str = "moonshotai/kimi-k2-instruct";

/// Upper bound of a summary's length, in tokens.
pub const SUMMARY_MAX_TOKENS: u32 = 512;

/// The error code by which the backend reports an exhausted quota.
pub const RATE_LIMIT_CODE: &'static str = "rate_limit_exceeded";

pub const DEFAULT_PROMPT: &'static str = "You are an AI that explains transcriptions of voice messages. Don't speak as the user, instead describe what the user is saying. Always provide the summary in English, ensuring it is concise yet comprehensive. If the content is unclear, nonsensical, or you're unsure about the message's meaning, respond **only** with three question marks (`???`). Do not include any additional text, explanations, or formatting\u{2014}output **strictly** the summary or `???`.";

pub const CAVEMAN_PROMPT: &'static str = "You are an AI that explains transcriptions of voice messages like a caveman. Don't speak as the user, instead describe what the user is saying in caveman language. Use all caps, no verbs. If the content is unclear, nonsensical, or you're unsure about the message's meaning, respond **only** with three question marks (`???`). Do not include any additional text, explanations, or formatting\u{2014}output **strictly** the summary or `???`.";

pub open spec fn endpoint_of(task: TaskType) -> Seq<char> {
    match task {
        TaskType::Transcribe => "/audio/transcriptions"@,
        TaskType::Translate => "/audio/translations"@,
        TaskType::SummarizeDefault => "/chat/completions"@,
        TaskType::SummarizeCaveman => "/chat/completions"@,
    }
}

/// The path, under `BASE_URL`, of the endpoint serving a task.
pub fn endpoint_path(task: TaskType) -> (r: &'static str)
    ensures
        r@ == endpoint_of(task),
{
    proof {
        reveal_strlit("/audio/transcriptions");
        reveal_strlit("/audio/translations");
        reveal_strlit("/chat/completions");
    }
    match task {
        TaskType::Transcribe => "/audio/transcriptions",
        TaskType::Translate => "/audio/translations",
        TaskType::SummarizeDefault => "/chat/completions",
        TaskType::SummarizeCaveman => "/chat/completions",
    }
}

/// What the JSON text `body` holds at `error.<field>`: `None` when `body` is
/// not JSON, `Some(None)` when there is no text there.
pub uninterp spec fn json_error_field(body: Seq<char>, field: Seq<char>) -> Option<Option<Seq<char>>>;

pub open spec fn field_view(r: Option<Option<String>>) -> Option<Option<Seq<char>>> {
    match r {
        Option::None => Option::None,
        Option::Some(Option::None) => Option::Some(Option::None),
        Option::Some(Option::Some(s)) => Option::Some(Option::Some(s@)),
    }
}

/// Relies on `serde_json::from_str` to read the body as a JSON value, and on
/// `Value::pointer` and `Value::as_str` to pick the text at `error.<field>`.
#[verifier::external_body]
fn error_field(body: &str, field: &str) -> (r: Option<Option<String>>)
    ensures
        field_view(r) == json_error_field(body@, field@),
{
    match serde_json::from_str::<serde_json::Value>(body) {
        Ok(v) => Some(
            v.pointer(&format!("/error/{field}")).and_then(serde_json::Value::as_str).map(|s| s.to_string()),
        ),
        Err(_) => None,
    }
}

/// Detail of the error when an error body is not JSON.
pub const BAD_ERROR_BODY: &'static str = "Failed to parse API error response";

/// Detail of the error when a success body cannot be read.
pub const BAD_RESPONSE_BODY: &'static str = "Failed to parse API response";

/// Detail of the error when the media type cannot be read.
pub const BAD_MIME: &'static str = "Invalid MIME type";

pub open spec fn text_or(t: Option<Option<Seq<char>>>, fallback: Seq<char>) -> Seq<char> {
    match t {
        Option::Some(Option::Some(s)) => s,
        _ => fallback,
    }
}

/// `e` is the error owed for a failed call whose error body held `code` and
/// `message` at `error.code` and `error.message`: a rate limit by its code,
/// otherwise an API error naming the message (summaries) or the code
/// (transcriptions), and a parse error when the body is not JSON.
pub open spec fn classified(
    e: TranscriptionError,
    code: Option<Option<Seq<char>>>,
    message: Option<Option<Seq<char>>>,
    chat: bool,
) -> bool {
    match code {
        Option::None => e matches TranscriptionError::ParseError(d) && d@ == BAD_ERROR_BODY@,
        Option::Some(c) => if c == Option::Some(RATE_LIMIT_CODE@) {
            e is RateLimitReached
        } else if chat {
            e matches TranscriptionError::ApiError(d) && d@ == "Groq error: "@ + text_or(message, "unknown error"@)
        } else {
            e matches TranscriptionError::ApiError(d) && d@ == "Groq error: "@ + text_or(code, "unknown"@)
        },
    }
}

/// The text at `error.message` of an error body.
pub fn json_error_message(body: &str) -> (r: Option<Option<String>>)
    ensures
        field_view(r) == json_error_field(body@, "message"@),
{
    error_field(body, "message")
}

/// The error for a failed call, from the fields read out of its error body.
pub fn error_from_fields(code: Option<Option<String>>, message: Option<Option<String>>, chat: bool) -> (r: TranscriptionError)
    ensures
        classified(r, field_view(code), field_view(message), chat),
{
    match code {
        None => TranscriptionError::ParseError(String::from_str(BAD_ERROR_BODY)),
        Some(c) => {
            let rate = String::from_str(RATE_LIMIT_CODE);
            let is_rate = match &c {
                Some(t) => *t == rate,
                None => false,
            };
            if is_rate {
                return TranscriptionError::RateLimitReached;
            }
            let mut d = String::from_str("Groq error: ");
            if chat {
                match message {
                    Some(Some(m)) => d.append(m.as_str()),
                    _ => d.append("unknown error"),
                }
            } else {
                match c {
                    Some(t) => d.append(t.as_str()),
                    None => d.append("unknown"),
                }
            }
            TranscriptionError::ApiError(d)
        },
    }
}

/// Classifies the error body of a failed call.
pub fn classify_error_body(body: &str, chat: bool) -> (r: TranscriptionError)
    ensures
        classified(r, json_error_field(body@, "code"@), json_error_field(body@, "message"@), chat),
{
    let code = error_field(body, "code");
    let message = error_field(body, "message");
    error_from_fields(code, message, chat)
}

/// One message of a chat exchange.
#[derive(Clone, Debug)]
pub struct GroqChatMessage {
    pub role: String,
    pub content: String,
}

#[derive(Clone, Debug)]
pub struct GroqChatChoice {
    pub message: GroqChatMessage,
}

/// The success body of a chat completion.
#[derive(Clone, Debug)]
pub struct GroqChatResponse {
    pub choices: Vec<GroqChatChoice>,
}

/// A chat-completion request; the temperature is in tenths.
#[derive(Clone, Debug)]
pub struct ChatRequest {
    pub model: String,
    pub messages: Vec<GroqChatMessage>,
    pub temperature_tenths: u32,
    pub max_tokens: u32,
}

pub open spec fn persona_prompt(m: SummarizeMethod) -> Seq<char> {
    match m {
        SummarizeMethod::Default => DEFAULT_PROMPT@,
        SummarizeMethod::Caveman => CAVEMAN_PROMPT@,
    }
}

pub open spec fn persona_temperature(m: SummarizeMethod) -> u32 {
    match m {
        SummarizeMethod::Default => 4,
        SummarizeMethod::Caveman => 7,
    }
}

/// The summary request for a text: the persona's fixed prompt as the system
/// message, the text as the user message, and the persona's temperature.
pub fn chat_request(text: &str, method: SummarizeMethod) -> (r: ChatRequest)
    ensures
        r.model@ == CHAT_MODEL@,
        r.messages@.len() == 2,
        r.messages@[0].role@ == "system"@,
        r.messages@[0].content@ == persona_prompt(method),
        r.messages@[1].role@ == "user"@,
        r.messages@[1].content@ == text@,
        r.temperature_tenths == persona_temperature(method),
        r.max_tokens == SUMMARY_MAX_TOKENS,
{
    let prompt = match method {
        SummarizeMethod::Default => DEFAULT_PROMPT,
        SummarizeMethod::Caveman => CAVEMAN_PROMPT,
    };
    let temperature_tenths: u32 = match method {
        SummarizeMethod::Default => 4,
        SummarizeMethod::Caveman => 7,
    };
    let system = GroqChatMessage { role: String::from_str("system"), content: String::from_str(prompt) };
    let user = GroqChatMessage { role: String::from_str("user"), content: String::from_str(text) };
    let mut messages: Vec<GroqChatMessage> = Vec::new();
    messages.push(system);
    messages.push(user);
    ChatRequest { model: String::from_str(CHAT_MODEL), messages, temperature_tenths, max_tokens: SUMMARY_MAX_TOKENS }
}

/// The summary in a chat completion: the first choice's text, trimmed.
pub fn summary_text(resp: &GroqChatResponse) -> (r: Result<String, TranscriptionError>)
    ensures
        resp.choices@.len() == 0 ==> (r matches Err(TranscriptionError::ParseError(d)) && d@ == BAD_RESPONSE_BODY@),
        resp.choices@.len() > 0 ==> (r matches Ok(s) && s@ == trimmed(resp.choices@[0].message.content@)),
{
    if resp.choices.len() == 0 {
        Err(TranscriptionError::ParseError(String::from_str(BAD_RESPONSE_BODY)))
    } else {
        Ok(trim_text(resp.choices[0].message.content.as_str()))
    }
}

/// The subtype of a media type, `None` when the text is no media type.
pub uninterp spec fn subtype_of(mime: Seq<char>) -> Option<Seq<char>>;

/// The media type that `mime_guess` gives a file path, by its extension.
pub uninterp spec fn guessed_mime(path: Seq<char>) -> Seq<char>;

/// Relies on `mime::Mime`'s `FromStr` to read the media type and on
/// `Mime::subtype` for its subtype.
#[verifier::external_body]
fn mime_subtype(mime: &str) -> (r: Option<String>)
    ensures
        match r {
            Option::Some(t) => subtype_of(mime@) == Option::Some(t@),
            Option::None => subtype_of(mime@) is None,
        },
{
    mime.parse::<mime::Mime>().ok().map(|m| m.subtype().as_str().to_string())
}

/// Relies on `mime_guess::from_path` and `MimeGuess::first_or_octet_stream`:
/// the first media type known for the path's extension, as its essence.
#[verifier::external_body]
fn guess_mime(path: &str) -> (r: String)
    ensures
        r@ == guessed_mime(path@),
{
    mime_guess::from_path(path).first_or_octet_stream().essence_str().to_string()
}

pub open spec fn upload_name_of(sub: Option<Seq<char>>) -> Result<Seq<char>, Seq<char>> {
    match sub {
        Option::Some(t) => Ok("audio."@ + t),
        Option::None => Err(BAD_MIME@),
    }
}

pub open spec fn named_as(r: Result<String, TranscriptionError>, owed: Result<Seq<char>, Seq<char>>) -> bool {
    match owed {
        Ok(n) => r matches Ok(s) && s@ == n,
        Err(d) => r matches Err(TranscriptionError::ParseError(e)) && e@ == d,
    }
}

/// The file name of an upload, from the subtype of its media type.
pub fn file_name_for_subtype(sub: Option<String>) -> (r: Result<String, TranscriptionError>)
    ensures
        named_as(r, upload_name_of(match sub {
            Option::Some(t) => Option::Some(t@),
            Option::None => Option::None,
        })),
{
    match sub {
        Some(t) => {
            let mut s = String::from_str("audio.");
            s.append(t.as_str());
            Ok(s)
        },
        None => Err(TranscriptionError::ParseError(String::from_str(BAD_MIME))),
    }
}

/// The file name under which audio of media type `mime` is uploaded.
pub fn upload_file_name(mime: &str) -> (r: Result<String, TranscriptionError>)
    ensures
        named_as(r, upload_name_of(subtype_of(mime@))),
{
    file_name_for_subtype(mime_subtype(mime))
}

/// The media type used when nothing better is known.
pub const OCTET_STREAM: &'static str = "application/octet-stream";

pub open spec fn picked_mime(hint: Option<Seq<char>>, guessed: Seq<char>, guessed_ok: bool) -> Seq<char> {
    match hint {
        Option::Some(h) => h,
        Option::None => if guessed_ok { guessed } else { OCTET_STREAM@ },
    }
}

/// The media type of a download: the one the message gave, else the guess
/// from the file path when it is a media type, else octet-stream.
pub fn pick_mime(hint: Option<String>, guessed: String, guessed_ok: bool) -> (r: String)
    ensures
        r@ == picked_mime(match hint {
            Option::Some(h) => Option::Some(h@),
            Option::None => Option::None,
        }, guessed@, guessed_ok),
{
    match hint {
        Some(h) => h,
        None => if guessed_ok {
            guessed
        } else {
            String::from_str(OCTET_STREAM)
        },
    }
}

/// The media type of a download whose file lies at `path` on the platform.
pub fn download_mime(hint: Option<String>, path: &str) -> (r: String)
    ensures
        r@ == picked_mime(match hint {
            Option::Some(h) => Option::Some(h@),
            Option::None => Option::None,
        }, guessed_mime(path@), subtype_of(guessed_mime(path@)) is Some),
{
    match hint {
        Some(h) => h,
        None => {
            let g = guess_mime(path);
            let ok = mime_subtype(g.as_str()).is_some();
            pick_mime(None, g, ok)
        },
    }
}

} // verus!
