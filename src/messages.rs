use vstd::prelude::*;
use vstd::string::*;

verus! {

/// Which kinds of content a message carries.
#[derive(Clone, Copy, Debug, PartialEq, Eq, Structural)]
pub struct MessageInfo {
    pub is_text: bool,
    pub is_voice: bool,
    pub is_video_note: bool,
}

/// The handler a message goes to.
#[derive(Clone, Copy, Debug, PartialEq, Eq, Structural)]
pub enum MessageKind {
    Text,
    Voice,
    VideoNote,
    Unsupported,
}

pub open spec fn bool_text(b: bool) -> Seq<char> {
    if b { "true"@ } else { "false"@ }
}

fn bool_str(b: bool) -> (r: &'static str)
    ensures
        r@ == bool_text(b),
{
    proof {
        reveal_strlit("true");
        reveal_strlit("false");
    }
    if b { "true" } else { "false" }
}

impl MessageInfo {
    /// Text first, then voice, then video note.
    pub fn kind(&self) -> (r: MessageKind)
        ensures
            self.is_text ==> r == MessageKind::Text,
            !self.is_text && self.is_voice ==> r == MessageKind::Voice,
            !self.is_text && !self.is_voice && self.is_video_note ==> r == MessageKind::VideoNote,
            !self.is_text && !self.is_voice && !self.is_video_note ==> r == MessageKind::Unsupported,
    {
        if self.is_text {
            MessageKind::Text
        } else if self.is_voice {
            MessageKind::Voice
        } else if self.is_video_note {
            MessageKind::VideoNote
        } else {
            MessageKind::Unsupported
        }
    }

    /// A one-line description for logs.
    pub fn describe(&self) -> (r: String)
        ensures
            r@ == "Message: (is_text: "@ + bool_text(self.is_text) + ", is_voice: "@ + bool_text(self.is_voice)
                + ", is_video_note: "@ + bool_text(self.is_video_note) + ")"@,
    {
        let mut s = String::from_str("Message: (is_text: ");
        s.append(bool_str(self.is_text));
        s.append(", is_voice: ");
        s.append(bool_str(self.is_voice));
        s.append(", is_video_note: ");
        s.append(bool_str(self.is_video_note));
        s.append(")");
        s
    }
}

} // verus!
