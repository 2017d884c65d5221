use vstd::prelude::*;
use vstd::string::*;

verus! {

/// A segment above this no-speech probability (in millionths) may be silence.
pub const NO_SPEECH_LIMIT_PPM: i64 = 600000;

/// A segment below this average log-probability (in millionths) may be a hallucination.
pub const AVG_LOGPROB_LIMIT_PPM: i64 = -400000;

/// A timed span of transcribed audio.
///
/// The two confidence metrics are kept as fixed-point integers in millionths
/// (`0.7` is `700000`, `-0.5` is `-500000`).
#[derive(Clone, Debug)]
pub struct Segment {
    pub text: String,
    pub no_speech_prob_ppm: i64,
    pub avg_logprob_ppm: i64,
}

/// A segment is dropped when both conditions hold: a high no-speech
/// probability and a low average log-probability.
pub open spec fn is_silent(seg: Segment) -> bool {
    seg.no_speech_prob_ppm > NO_SPEECH_LIMIT_PPM && seg.avg_logprob_ppm < AVG_LOGPROB_LIMIT_PPM
}

/// The text of the segments that are kept, concatenated in their order.
pub open spec fn kept_text(segs: Seq<Segment>) -> Seq<char>
    decreases segs.len(),
{
    if segs.len() == 0 {
        Seq::empty()
    } else {
        let last = segs.last();
        kept_text(segs.drop_last()) + (if is_silent(last) {
            Seq::empty()
        } else {
            last.text@
        })
    }
}

/// Decides whether one segment is kept.
pub fn is_silent_segment(seg: &Segment) -> (r: bool)
    ensures
        r == is_silent(*seg),
{
    seg.no_speech_prob_ppm > NO_SPEECH_LIMIT_PPM && seg.avg_logprob_ppm < AVG_LOGPROB_LIMIT_PPM
}

/// Concatenates the text of the kept segments; `None` when nothing is left,
/// which callers report as "no text" rather than as an error.
pub fn transcript_text(segs: &Vec<Segment>) -> (r: Option<String>)
    ensures
        r is None <==> kept_text(segs@).len() == 0,
        r matches Some(t) ==> t@ == kept_text(segs@),
{
    let mut out = String::new();
    let mut i: usize = 0;
    while i < segs.len()
        invariant
            i <= segs@.len(),
            out@ == kept_text(segs@.take(i as int)),
        decreases segs@.len() - i,
    {
        assert(segs@.take(i as int + 1).drop_last() == segs@.take(i as int));
        if !is_silent_segment(&segs[i]) {
            out.append(segs[i].text.as_str());
        }
        i = i + 1;
    }
    assert(segs@.take(segs@.len() as int) == segs@);
    if out.unicode_len() == 0 {
        None
    } else {
        Some(out)
    }
}

} // verus!
