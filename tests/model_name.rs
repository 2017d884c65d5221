use duck_transcriber::model_name::{pretty_model_name, word_for_part};

#[test]
fn test_whisper() {
    assert_eq!(pretty_model_name("whisper-large-v3"), "Whisper Large V3");
}

#[test]
fn test_moonshotai() {
    assert_eq!(
        pretty_model_name("moonshotai/kimi-k2-instruct-0905"),
        "Kimi K2"
    );
}

#[test]
fn pretty_name_splits_on_underscores_and_trims_parts() {
    assert_eq!(pretty_model_name("llama_3.1-8b- instant"), "Llama 3.1 8b Instant");
}

#[test]
fn pretty_name_falls_back_to_whole_input() {
    assert_eq!(pretty_model_name("org/2024-0905"), "Org/2024-0905");
    assert_eq!(pretty_model_name(""), "");
    assert_eq!(pretty_model_name("instruct"), "Instruct");
}

#[test]
fn word_decision_after_case_mapping() {
    assert_eq!(word_for_part("kimi", "kimi", "K"), Some("Kimi".to_string()));
    assert_eq!(word_for_part("0905", "0905", "0"), None);
    assert_eq!(word_for_part("Instruct", "instruct", "I"), None);
    assert_eq!(word_for_part("", "", ""), None);
    assert_eq!(word_for_part("\u{df}x", "\u{df}x", "SS"), Some("SSx".to_string()));
}
