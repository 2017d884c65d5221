use vstd::prelude::*;
use vstd::string::*;

verus! {

/// Which kind of attachment carried the audio.
#[derive(Clone, Copy, Debug, PartialEq, Eq, Structural)]
pub enum AudioSourceKind {
    Voice,
    VideoNote,
    Video,
    Audio,
}

/// One media attachment of a message, as the platform describes it.
#[derive(Clone, Debug)]
pub struct Attachment {
    /// Short-lived handle usable to fetch the bytes.
    pub file_id: String,
    /// Stable identifier of the content, the same across re-sends.
    pub unique_id: String,
    pub duration: u32,
    pub size: u32,
    pub mime: Option<String>,
}

/// The audio-bearing attachments a message may carry.
#[derive(Clone, Debug)]
pub struct MessageMedia {
    pub voice: Option<Attachment>,
    pub video_note: Option<Attachment>,
    pub video: Option<Attachment>,
    pub audio: Option<Attachment>,
}

/// The media a request works on.
#[derive(Debug)]
pub struct AudioFileInfo {
    pub file_id: String,
    pub unique_id: String,
    pub duration: u32,
    pub size: u32,
    pub kind: AudioSourceKind,
    pub mime: Option<String>,
}

/// The MIME type given to video notes, which the platform sends without one.
pub const VIDEO_NOTE_MIME: &'static str = "video/mp4";

/// `info` describes attachment `a` as of kind `kind`, with MIME type `mime`.
pub open spec fn describes(info: AudioFileInfo, a: Attachment, kind: AudioSourceKind, mime: Option<Seq<char>>) -> bool {
    &&& info.file_id@ == a.file_id@
    &&& info.unique_id@ == a.unique_id@
    &&& info.duration == a.duration
    &&& info.size == a.size
    &&& info.kind == kind
    &&& match (info.mime, mime) {
        (Option::None, Option::None) => true,
        (Option::Some(m), Option::Some(n)) => m@ == n,
        _ => false,
    }
}

pub open spec fn mime_view(m: Option<String>) -> Option<Seq<char>> {
    match m {
        Option::Some(s) => Option::Some(s@),
        Option::None => Option::None,
    }
}

pub open spec fn has_audio(m: MessageMedia) -> bool {
    m.voice is Some || m.video_note is Some || m.video is Some || m.audio is Some
}

pub fn has_audio_content(m: &MessageMedia) -> (r: bool)
    ensures
        r == has_audio(*m),
{
    m.voice.is_some() || m.video_note.is_some() || m.video.is_some() || m.audio.is_some()
}

fn info_of(a: &Attachment, kind: AudioSourceKind, mime: Option<String>) -> (r: AudioFileInfo)
    ensures
        describes(r, *a, kind, mime_view(mime)),
{
    AudioFileInfo {
        file_id: a.file_id.clone(),
        unique_id: a.unique_id.clone(),
        duration: a.duration,
        size: a.size,
        kind,
        mime,
    }
}

impl AudioFileInfo {
    /// The first audio-bearing attachment, in the order voice, video note,
    /// video, audio; `None` when there is none.
    pub fn from_message(m: &MessageMedia) -> (r: Option<AudioFileInfo>)
        ensures
            r is None <==> !has_audio(*m),
            m.voice is Some ==> (r is Some
                && describes(r->Some_0, m.voice->Some_0, AudioSourceKind::Voice, mime_view(m.voice->Some_0.mime))),
            (m.voice is None && m.video_note is Some) ==> (r is Some
                && describes(r->Some_0, m.video_note->Some_0, AudioSourceKind::VideoNote, Option::Some(VIDEO_NOTE_MIME@))),
            (m.voice is None && m.video_note is None && m.video is Some) ==> (r is Some
                && describes(r->Some_0, m.video->Some_0, AudioSourceKind::Video, mime_view(m.video->Some_0.mime))),
            (m.voice is None && m.video_note is None && m.video is None && m.audio is Some)
                ==> (r is Some
                && describes(r->Some_0, m.audio->Some_0, AudioSourceKind::Audio, mime_view(m.audio->Some_0.mime))),
    {
        if let Some(a) = &m.voice {
            return Some(info_of(a, AudioSourceKind::Voice, a.mime.clone()));
        }
        if let Some(a) = &m.video_note {
            return Some(info_of(a, AudioSourceKind::VideoNote, Some(String::from_str(VIDEO_NOTE_MIME))));
        }
        if let Some(a) = &m.video {
            return Some(info_of(a, AudioSourceKind::Video, a.mime.clone()));
        }
        if let Some(a) = &m.audio {
            return Some(info_of(a, AudioSourceKind::Audio, a.mime.clone()));
        }
        None
    }
}

} // verus!
