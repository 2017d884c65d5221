use vstd::prelude::*;
use vstd::string::*;
use crate::text::{decimal, decimal_text};

verus! {

/// The file-size limit of the platform's download API, in MiB.
pub const DEFAULT_MAX_FILE_SIZE_MB: u32 = 20;

/// The longest media that is transcribed, in minutes.
pub const DEFAULT_MAX_DURATION_MINUTES: u32 = 30;

/// Size and duration limits, checked before any download or paid call.
#[derive(Clone, Copy, Debug, PartialEq, Eq, Structural)]
pub struct GateLimits {
    pub max_file_size_mb: u32,
    pub max_duration_minutes: u32,
}

/// Why a media was rejected by the size and duration limits.
#[derive(Clone, Copy, Debug, PartialEq, Eq, Structural)]
pub enum GateError {
    /// The size in bytes is above the limit.
    TooLarge { size: u32, max_mb: u32 },
    /// The duration in seconds is above the limit.
    TooLong { duration: u32, max_minutes: u32 },
}

impl GateLimits {
    pub fn defaults() -> (r: GateLimits)
        ensures
            r.max_file_size_mb == DEFAULT_MAX_FILE_SIZE_MB,
            r.max_duration_minutes == DEFAULT_MAX_DURATION_MINUTES,
    {
        GateLimits {
            max_file_size_mb: DEFAULT_MAX_FILE_SIZE_MB,
            max_duration_minutes: DEFAULT_MAX_DURATION_MINUTES,
        }
    }

    pub open spec fn size_ok(self, size: u32) -> bool {
        size as int <= self.max_file_size_mb as int * 1024 * 1024
    }

    pub open spec fn duration_ok(self, duration: u32) -> bool {
        duration as int <= self.max_duration_minutes as int * 60
    }

    pub open spec fn passes(self, size: u32, duration: u32) -> bool {
        self.size_ok(size) && self.duration_ok(duration)
    }

    /// Refuses a file above the size limit.
    pub fn validate_file_size(&self, size: u32) -> (r: Result<(), GateError>)
        ensures
            r is Ok <==> self.size_ok(size),
            r is Err ==> r == Err::<(), GateError>(GateError::TooLarge { size, max_mb: self.max_file_size_mb }),
    {
        if size as u64 > self.max_file_size_mb as u64 * 1024 * 1024 {
            Err(GateError::TooLarge { size, max_mb: self.max_file_size_mb })
        } else {
            Ok(())
        }
    }

    /// Refuses a media above the duration limit.
    pub fn validate_duration(&self, duration: u32) -> (r: Result<(), GateError>)
        ensures
            r is Ok <==> self.duration_ok(duration),
            r is Err ==> r == Err::<(), GateError>(GateError::TooLong { duration, max_minutes: self.max_duration_minutes }),
    {
        if duration as u64 > self.max_duration_minutes as u64 * 60 {
            Err(GateError::TooLong { duration, max_minutes: self.max_duration_minutes })
        } else {
            Ok(())
        }
    }

    /// Both checks, size first.
    pub fn check(&self, size: u32, duration: u32) -> (r: Result<(), GateError>)
        ensures
            r is Ok <==> self.passes(size, duration),
            !self.size_ok(size) ==> r == Err::<(), GateError>(GateError::TooLarge { size, max_mb: self.max_file_size_mb }),
            self.size_ok(size) && !self.duration_ok(duration)
                ==> r == Err::<(), GateError>(GateError::TooLong { duration, max_minutes: self.max_duration_minutes }),
    {
        match self.validate_file_size(size) {
            Err(e) => Err(e),
            Ok(()) => self.validate_duration(duration),
        }
    }
}

/// The user-facing text of a gate rejection.
pub open spec fn gate_message(e: GateError) -> Seq<char> {
    match e {
        GateError::TooLarge { size, max_mb } => "File can't be larger than "@ + decimal(max_mb as nat)
            + "MB (is "@ + decimal((size / 1024 / 1024) as nat) + "MB)"@,
        GateError::TooLong { duration, max_minutes } => "Duration is above "@ + decimal(max_minutes as nat)
            + " minutes"@,
    }
}

impl GateError {
    pub fn message(&self) -> (r: String)
        ensures
            r@ == gate_message(*self),
    {
        match self {
            GateError::TooLarge { size, max_mb } => {
                let mut s = String::from_str("File can't be larger than ");
                s.append(decimal_text(*max_mb as u64).as_str());
                s.append("MB (is ");
                s.append(decimal_text((*size / 1024 / 1024) as u64).as_str());
                s.append("MB)");
                s
            },
            GateError::TooLong { max_minutes, .. } => {
                let mut s = String::from_str("Duration is above ");
                s.append(decimal_text(*max_minutes as u64).as_str());
                s.append(" minutes");
                s
            },
        }
    }
}

} // verus!
