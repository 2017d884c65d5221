use vstd::prelude::*;
use vstd::string::*;
use vstd::utf8::encode_utf8;
use crate::orchestrator::NO_TEXT;
use crate::text::{trim_text, trimmed};
use crate::types::TaskType;

verus! {

/// The longest text, in bytes, sent as a message; longer ones go as a file.
pub const MAX_MESSAGE_BYTES: usize = 4096;

/// How a reply is delivered.
#[derive(Debug)]
pub enum ReplyPlan {
    /// A text message threaded under the originating message.
    Message { text: String, markdown: bool },
    /// A text file with a caption, for texts too long for one message.
    Document { content: String, file_name: String, caption: String },
}

/// The word naming what a reply holds.
pub open spec fn label_word(label: Option<TaskType>) -> Seq<char> {
    match label {
        Option::Some(TaskType::Transcribe) => "transcript"@,
        Option::Some(TaskType::Translate) => "translation"@,
        Option::Some(TaskType::SummarizeDefault) => "summary"@,
        Option::Some(TaskType::SummarizeCaveman) => "summary"@,
        Option::None => "content"@,
    }
}

fn label_text(label: Option<TaskType>) -> (r: &'static str)
    ensures
        r@ == label_word(label),
{
    proof {
        reveal_strlit("transcript");
        reveal_strlit("translation");
        reveal_strlit("summary");
        reveal_strlit("content");
    }
    match label {
        Some(TaskType::Transcribe) => "transcript",
        Some(TaskType::Translate) => "translation",
        Some(TaskType::SummarizeDefault) => "summary",
        Some(TaskType::SummarizeCaveman) => "summary",
        None => "content",
    }
}

/// The length of a text in UTF-8 bytes, as `str::len` reports it.
pub open spec fn byte_len(s: Seq<char>) -> usize {
    encode_utf8(s).len() as usize
}

/// The text sent: the content trimmed, or a placeholder when there is none.
pub open spec fn reply_text(content: Option<Seq<char>>) -> Seq<char> {
    match content {
        Option::Some(c) => trimmed(c),
        Option::None => trimmed(NO_TEXT@),
    }
}

/// `r` delivers the text `t`: as a message when it fits, as a file otherwise.
pub open spec fn delivers(r: ReplyPlan, t: Seq<char>, markdown: bool, label: Option<TaskType>) -> bool {
    &&& byte_len(t) <= MAX_MESSAGE_BYTES ==> r == (ReplyPlan::Message { text: r->Message_text, markdown })
        && r->Message_text@ == t
    &&& byte_len(t) > MAX_MESSAGE_BYTES ==> r is Document
        && r->Document_content@ == t
        && r->Document_file_name@ == label_word(label) + ".txt"@
        && r->Document_caption@ == "Your "@ + label_word(label) + " is too long. Here is the file:"@
}

/// Decides how an already trimmed text is sent.
pub fn plan_trimmed_reply(text: String, markdown: bool, label: Option<TaskType>) -> (r: ReplyPlan)
    ensures
        delivers(r, text@, markdown, label),
{
    if text.as_str().len() > MAX_MESSAGE_BYTES {
        let word = label_text(label);
        let mut file_name = String::from_str(word);
        file_name.append(".txt");
        let mut caption = String::from_str("Your ");
        caption.append(word);
        caption.append(" is too long. Here is the file:");
        ReplyPlan::Document { content: text, file_name, caption }
    } else {
        ReplyPlan::Message { text, markdown }
    }
}

/// Decides how a reply is sent: the content (or a placeholder when there is
/// none) trimmed, as a message when it fits, as a file otherwise.
pub fn plan_reply(content: Option<&str>, markdown: bool, label: Option<TaskType>) -> (r: ReplyPlan)
    ensures
        delivers(r, reply_text(match content {
            Option::Some(c) => Option::Some(c@),
            Option::None => Option::None,
        }), markdown, label),
{
    let text = match content {
        Some(c) => trim_text(c),
        None => trim_text(NO_TEXT),
    };
    plan_trimmed_reply(text, markdown, label)
}

} // verus!
