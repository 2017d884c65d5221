use vstd::prelude::*;
use vstd::string::*;

verus! {

/// What a cached text is: the cache-key discriminator and the endpoint selector.
#[derive(Clone, Copy, Debug, PartialEq, Eq, Structural)]
pub enum TaskType {
    Transcribe,
    Translate,
    SummarizeDefault,
    SummarizeCaveman,
}

/// The two personas of the summarization backend.
#[derive(Clone, Copy, Debug, PartialEq, Eq, Structural)]
pub enum SummarizeMethod {
    Default,
    Caveman,
}

impl SummarizeMethod {
    /// The cache column under which a summary of this persona is stored.
    pub fn task_type(self) -> (r: TaskType)
        ensures
            r == (match self {
                SummarizeMethod::Default => TaskType::SummarizeDefault,
                SummarizeMethod::Caveman => TaskType::SummarizeCaveman,
            }),
    {
        match self {
            SummarizeMethod::Default => TaskType::SummarizeDefault,
            SummarizeMethod::Caveman => TaskType::SummarizeCaveman,
        }
    }
}

/// What a request asks for: a cached or fresh text of one task, or a summary.
#[derive(Clone, Copy, Debug, PartialEq, Eq, Structural)]
pub enum AudioAction {
    Transcribe(TaskType),
    Summarize(SummarizeMethod),
}

} // verus!

verus! {

/// Failure of one call to the transcription or summarization backend.
/// Only `RateLimitReached` makes the caller try the next key of the pool.
#[derive(Clone, Debug)]
pub enum TranscriptionError {
    RateLimitReached,
    NetworkError(String),
    ApiError(String),
    ParseError(String),
}

/// The short detail of an error, as shown to the user.
pub open spec fn error_detail(e: TranscriptionError) -> Seq<char> {
    match e {
        TranscriptionError::RateLimitReached => "Rate limit reached"@,
        TranscriptionError::NetworkError(d) => d@,
        TranscriptionError::ApiError(d) => d@,
        TranscriptionError::ParseError(d) => d@,
    }
}

impl TranscriptionError {
    pub fn detail(&self) -> (r: String)
        ensures
            r@ == error_detail(*self),
    {
        match self {
            TranscriptionError::RateLimitReached => String::from_str("Rate limit reached"),
            TranscriptionError::NetworkError(d) => d.clone(),
            TranscriptionError::ApiError(d) => d.clone(),
            TranscriptionError::ParseError(d) => d.clone(),
        }
    }

    pub fn is_rate_limit(&self) -> (r: bool)
        ensures
            r == (*self is RateLimitReached),
    {
        match self {
            TranscriptionError::RateLimitReached => true,
            _ => false,
        }
    }
}

} // verus!

verus! {

/// Outcome of a point lookup in the cache.
#[derive(Debug)]
pub enum ItemReturnInfo {
    /// The text cached for the task asked about.
    Text(String),
    /// A row exists for the content, but not for that task type.
    Exists,
    /// No row at all.
    Absent,
}

/// A text to be inserted as a new cache row.
#[derive(Debug)]
pub struct DBItem {
    pub text: String,
    pub unique_file_id: String,
    pub task_type: TaskType,
    /// Unix timestamp after which the store drops the row.
    pub expires_at: i64,
}

} // verus!
