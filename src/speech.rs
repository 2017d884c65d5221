use vstd::prelude::*;
use vstd::string::*;
use crate::text::{decimal, decimal_text};

verus! {

/// The two audio endpoints of the speech API.
#[derive(Clone, Copy, Debug, PartialEq, Eq, Structural)]
pub enum TranscribeType {
    Transcribe,
    Translate,
}

impl TranscribeType {
    /// The last part of the endpoint's URL.
    pub fn url_suffix(&self) -> (r: &'static str)
        ensures
            r@ == (match self {
                TranscribeType::Transcribe => "transcriptions"@,
                TranscribeType::Translate => "translations"@,
            }),
    {
        proof {
            reveal_strlit("transcriptions");
            reveal_strlit("translations");
        }
        match self {
            TranscribeType::Transcribe => "transcriptions",
            TranscribeType::Translate => "translations",
        }
    }
}

/// The voices of the text-to-speech API.
#[derive(Clone, Copy, Debug, PartialEq, Eq, Structural)]
pub enum Voice {
    Alloy,
    Echo,
    Fable,
    Onyx,
    Nova,
    Shimmer,
}

pub open spec fn voice_name(v: Voice) -> Seq<char> {
    match v {
        Voice::Alloy => "Alloy"@,
        Voice::Echo => "Echo"@,
        Voice::Fable => "Fable"@,
        Voice::Onyx => "Onyx"@,
        Voice::Nova => "Nova"@,
        Voice::Shimmer => "Shimmer"@,
    }
}

pub open spec fn voice_id(v: Voice) -> Seq<char> {
    match v {
        Voice::Alloy => "alloy"@,
        Voice::Echo => "echo"@,
        Voice::Fable => "fable"@,
        Voice::Onyx => "onyx"@,
        Voice::Nova => "nova"@,
        Voice::Shimmer => "shimmer"@,
    }
}

impl Voice {
    /// The display name.
    pub fn name(&self) -> (r: &'static str)
        ensures
            r@ == voice_name(*self),
    {
        proof {
            reveal_strlit("Alloy");
            reveal_strlit("Echo");
            reveal_strlit("Fable");
            reveal_strlit("Onyx");
            reveal_strlit("Nova");
            reveal_strlit("Shimmer");
        }
        match self {
            Voice::Alloy => "Alloy",
            Voice::Echo => "Echo",
            Voice::Fable => "Fable",
            Voice::Onyx => "Onyx",
            Voice::Nova => "Nova",
            Voice::Shimmer => "Shimmer",
        }
    }

    /// The identifier the API expects.
    pub fn api_id(&self) -> (r: &'static str)
        ensures
            r@ == voice_id(*self),
    {
        proof {
            reveal_strlit("alloy");
            reveal_strlit("echo");
            reveal_strlit("fable");
            reveal_strlit("onyx");
            reveal_strlit("nova");
            reveal_strlit("shimmer");
        }
        match self {
            Voice::Alloy => "alloy",
            Voice::Echo => "echo",
            Voice::Fable => "fable",
            Voice::Onyx => "onyx",
            Voice::Nova => "nova",
            Voice::Shimmer => "shimmer",
        }
    }
}

/// Errors of the speech API, by their documented kinds.
#[derive(Clone, Debug)]
pub enum OpenAIError {
    InvalidAuth,
    IncorrectAPIKey,
    NotInOrg,
    RateLimit,
    QuotaExceeded,
    ServerError,
    Overloaded,
    Other(String),
}

pub open spec fn openai_error_text(e: OpenAIError) -> Seq<char> {
    match e {
        OpenAIError::InvalidAuth => "Invalid authentication"@,
        OpenAIError::IncorrectAPIKey => "Incorrect API key"@,
        OpenAIError::NotInOrg => "Not in an organization"@,
        OpenAIError::RateLimit => "Rate limit exceeded or quota exceeded"@,
        OpenAIError::QuotaExceeded => "Quota exceeded or rate limited"@,
        OpenAIError::ServerError => "Server error"@,
        OpenAIError::Overloaded => "Server overloaded"@,
        OpenAIError::Other(s) => s@,
    }
}

impl OpenAIError {
    pub fn message(&self) -> (r: String)
        ensures
            r@ == openai_error_text(*self),
    {
        match self {
            OpenAIError::InvalidAuth => String::from_str("Invalid authentication"),
            OpenAIError::IncorrectAPIKey => String::from_str("Incorrect API key"),
            OpenAIError::NotInOrg => String::from_str("Not in an organization"),
            OpenAIError::RateLimit => String::from_str("Rate limit exceeded or quota exceeded"),
            OpenAIError::QuotaExceeded => String::from_str("Quota exceeded or rate limited"),
            OpenAIError::ServerError => String::from_str("Server error"),
            OpenAIError::Overloaded => String::from_str("Server overloaded"),
            OpenAIError::Other(s) => s.clone(),
        }
    }
}

/// The longest audio the local model transcribes, in minutes.
pub const LOCAL_MINUTE_LIMIT: u32 = 5;

/// Errors of the local speech model.
#[derive(Clone, Debug)]
pub enum TranscribeError {
    TooLong,
    Unknown(String),
}

pub open spec fn transcribe_error_text(e: TranscribeError) -> Seq<char> {
    match e {
        TranscribeError::TooLong => "Audio length is more than "@ + decimal(LOCAL_MINUTE_LIMIT as nat) + " minutes"@,
        TranscribeError::Unknown(s) => "Unknown error: "@ + s@,
    }
}

impl TranscribeError {
    pub fn message(&self) -> (r: String)
        ensures
            r@ == transcribe_error_text(*self),
    {
        match self {
            TranscribeError::TooLong => {
                let mut s = String::from_str("Audio length is more than ");
                s.append(decimal_text(LOCAL_MINUTE_LIMIT as u64).as_str());
                s.append(" minutes");
                s
            },
            TranscribeError::Unknown(e) => {
                let mut s = String::from_str("Unknown error: ");
                s.append(e.as_str());
                s
            },
        }
    }
}

} // verus!
