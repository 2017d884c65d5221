use duck_transcriber::segments::{transcript_text, Segment};

fn seg(text: &str, no_speech: i64, logprob: i64) -> Segment {
    Segment { text: text.to_string(), no_speech_prob_ppm: no_speech, avg_logprob_ppm: logprob }
}

#[test]
fn segment_with_both_conditions_is_dropped() {
    let segs = vec![seg("noise", 700000, -500000)];
    assert_eq!(transcript_text(&segs), None);
}

#[test]
fn segment_with_one_condition_is_kept() {
    let segs = vec![seg(" kept", 700000, -100000)];
    assert_eq!(transcript_text(&segs), Some(" kept".to_string()));
}

#[test]
fn kept_segments_are_concatenated_in_order() {
    let segs = vec![
        seg("Hello", 100000, -200000),
        seg(" uh", 900000, -900000),
        seg(" world", 650000, -300000),
        seg("!", 500000, -450000),
    ];
    assert_eq!(transcript_text(&segs), Some("Hello world!".to_string()));
}

#[test]
fn thresholds_are_strict() {
    let segs = vec![seg("a", 600000, -500000), seg("b", 700000, -400000)];
    assert_eq!(transcript_text(&segs), Some("ab".to_string()));
}

#[test]
fn no_segments_give_no_text() {
    assert_eq!(transcript_text(&Vec::new()), None);
}
