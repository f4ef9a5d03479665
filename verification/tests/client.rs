use llm_sdk::ChatCompletionMessage;
use llm_sdk::ChatCompletionRequestBuilder;
use llm_sdk::CreateImageRequest;
use llm_sdk::EmbeddingInput;
use llm_sdk::EmbeddingRequest;
use llm_sdk::Json;
use llm_sdk::LLmSdk;
use llm_sdk::SpeechRequest;
use llm_sdk::TranscriptionRequest;
use llm_sdk::WhisperRequest;
use llm_sdk::WhisperRequestBuilder;
use llm_sdk::WhisperRequestType;
use llm_sdk::WhisperResponseFormat;

#[test]
fn chat_completion_call_targets_the_chat_endpoint() {
    let sdk = LLmSdk::new("https://api.openai.com/v1", "SECRET-REDACTED");
    let req = ChatCompletionRequestBuilder::default()
        .messages(vec![ChatCompletionMessage::new_user("HI!", "zheng")])
        .build()
        .unwrap();
    let call = sdk.chat_completion(req);
    assert_eq!(call.url, "https://api.openai.com/v1/chat/completions");
    assert_eq!(call.bearer.as_deref(), Some("SECRET-REDACTED"));
    assert_eq!(call.timeout_secs, 30);
    match &call.body {
        Json::Obj(entries) => {
            assert_eq!(entries.len(), 2);
            assert_eq!(entries[0].0, "messages");
            assert_eq!(entries[1].0, "model");
        }
        _ => panic!("a chat body is an object"),
    }
}

#[test]
fn empty_token_sends_no_bearer_credential() {
    let sdk = LLmSdk::new("https://api.openai.com/v1", "");
    let call = sdk.speech(SpeechRequest::new("hello"));
    assert_eq!(call.bearer, None);
    assert_eq!(call.url, "https://api.openai.com/v1/audio/speech");
    assert_eq!(call.timeout_secs, 30);
}

#[test]
fn image_and_embedding_calls_target_their_endpoints() {
    let sdk = LLmSdk::new("https://api.openai.com/v1", "SECRET-REDACTED");

    let image = sdk.create_image(CreateImageRequest::new("a chicken eating rice"));
    assert_eq!(image.url, "https://api.openai.com/v1/images/generations");

    let embedding = sdk.embedding(EmbeddingRequest::new(EmbeddingInput::from(
        "some text".to_string(),
    )));
    assert_eq!(embedding.url, "https://api.openai.com/v1/embeddings");
    assert_eq!(embedding.timeout_secs, 30);
}

#[test]
fn whisper_call_picks_the_endpoint_by_request_type() {
    let sdk = LLmSdk::new("https://api.openai.com/v1", "SECRET-REDACTED");

    let transcribe = sdk.whisper(WhisperRequest::transcription(vec![1]));
    assert_eq!(
        transcribe.url,
        "https://api.openai.com/v1/audio/transcriptions"
    );
    assert!(transcribe.expects_json);

    let translate = sdk.whisper(
        WhisperRequestBuilder::default()
            .file(vec![1])
            .response_format(WhisperResponseFormat::Srt)
            .request_type(WhisperRequestType::Translation)
            .build()
            .unwrap(),
    );
    assert_eq!(
        translate.url,
        "https://api.openai.com/v1/audio/translations"
    );
    assert!(!translate.expects_json);

    let transcription = sdk.transcription(TranscriptionRequest::new(vec![1]));
    assert_eq!(
        transcription.url,
        "https://api.openai.com/v1/audio/transcriptions"
    );
    assert!(transcription.expects_json);
}
