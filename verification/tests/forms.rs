use llm_sdk::TranscriptionRequest;
use llm_sdk::TranscriptionRequestBuilder;
use llm_sdk::TranscriptionResponseFormat;
use llm_sdk::WhisperRequest;
use llm_sdk::WhisperRequestBuilder;
use llm_sdk::WhisperRequestType;
use llm_sdk::WhisperResponseFormat;

#[test]
fn translation_form_never_carries_a_language_part() {
    let mut req = WhisperRequest::translation(vec![1, 2, 3]);
    req.language = Some("zh".to_string());
    let parts = req.text_parts();
    assert!(parts.iter().all(|(name, _)| name != "language"));
    assert_eq!(parts.len(), 4);
}

#[test]
fn transcription_form_sends_language_even_when_unset() {
    let unset = WhisperRequest::transcription(vec![1, 2, 3]);
    let parts = unset.text_parts();
    assert_eq!(parts.len(), 5);
    assert_eq!(parts[4], ("language".to_string(), String::new()));

    let mut set = WhisperRequest::transcription(vec![1, 2, 3]);
    set.language = Some("en".to_string());
    let parts = set.text_parts();
    assert_eq!(parts[4], ("language".to_string(), "en".to_string()));
}

#[test]
fn whisper_form_text_parts_carry_model_and_format() {
    let req = WhisperRequestBuilder::default()
        .file(vec![9, 9])
        .response_format(WhisperResponseFormat::Srt)
        .request_type(WhisperRequestType::Translation)
        .build()
        .unwrap();
    let parts = req.text_parts();
    assert_eq!(parts[0], ("model".to_string(), "whisper-1".to_string()));
    assert_eq!(
        parts[1],
        ("response_format".to_string(), "srt".to_string())
    );
    assert_eq!(parts[2], ("prompt".to_string(), String::new()));
    assert_eq!(parts[3], ("temperature".to_string(), String::new()));
}

#[test]
fn transcription_request_form_lists_every_scalar() {
    let req = TranscriptionRequestBuilder::default()
        .file(vec![7])
        .response_format(TranscriptionResponseFormat::Text)
        .prompt("speak plainly".to_string())
        .temperature("0.2".to_string())
        .build()
        .unwrap();
    let parts = req.text_parts();
    assert_eq!(
        parts,
        vec![
            ("model".to_string(), "whisper-1".to_string()),
            ("response_format".to_string(), "text".to_string()),
            ("language".to_string(), String::new()),
            ("prompt".to_string(), "speak plainly".to_string()),
            ("temperature".to_string(), "0.2".to_string()),
        ]
    );

    let minimal = TranscriptionRequest::new(vec![7]);
    let parts = minimal.text_parts();
    assert_eq!(parts[1], ("response_format".to_string(), "json".to_string()));
    assert_eq!(parts[2], ("language".to_string(), String::new()));
}

#[test]
fn whisper_builder_without_file_fails() {
    assert!(WhisperRequestBuilder::default().build().is_err());
    assert!(TranscriptionRequestBuilder::default().build().is_err());
}
