use llm_sdk::AssistantMessage;
use llm_sdk::BuildError;
use llm_sdk::ChatCompleteModel;
use llm_sdk::ChatCompletionRequestBuilder;
use llm_sdk::ChatCompletionResponse;
use llm_sdk::CreateImageResponse;
use llm_sdk::EmbeddingUsage;
use llm_sdk::FinishReason;
use llm_sdk::FunctionCall;
use llm_sdk::Json;
use llm_sdk::SdkError;
use llm_sdk::ToolCalls;
use llm_sdk::ToolType;
use llm_sdk::WhisperResponse;
use llm_sdk::response_outcome;

fn value_to_json(v: &serde_json::Value) -> Json {
    match v {
        serde_json::Value::Null => Json::Null,
        serde_json::Value::Bool(b) => Json::Bool(*b),
        serde_json::Value::Number(n) => {
            if let Some(i) = n.as_i64() {
                Json::Int(i)
            } else if let Some(u) = n.as_u64() {
                Json::UInt(u)
            } else {
                Json::Num(n.to_string())
            }
        }
        serde_json::Value::String(s) => Json::Str(s.clone()),
        serde_json::Value::Array(a) => Json::Arr(a.iter().map(value_to_json).collect()),
        serde_json::Value::Object(o) => {
            Json::Obj(o.iter().map(|(k, v)| (k.clone(), value_to_json(v))).collect())
        }
    }
}

fn parse(text: &str) -> Json {
    value_to_json(&serde_json::from_str(text).unwrap())
}

#[test]
fn chat_completion_with_tool_calls_decodes() {
    let body = parse(
        r#"{
            "id": "chatcmpl-abc123",
            "object": "chat.completion",
            "created": 1699896916,
            "model": "gpt-3.5-turbo-1106",
            "system_fingerprint": "fp_44709d6fcb",
            "choices": [
                {
                    "index": 0,
                    "message": {
                        "role": "assistant",
                        "content": null,
                        "tool_calls": [
                            {
                                "id": "call_abc123",
                                "type": "function",
                                "function": {
                                    "name": "get_weather_forecast",
                                    "arguments": "{\"city\":\"ShangHai\",\"unit\":\"Celsius\"}"
                                }
                            }
                        ]
                    },
                    "finish_reason": "tool_calls"
                }
            ],
            "usage": {
                "prompt_tokens": 82,
                "completion_tokens": 17,
                "total_tokens": 99
            }
        }"#,
    );

    let res = ChatCompletionResponse::from_json(&body).unwrap();
    assert_eq!(res.model, ChatCompleteModel::GPT3Turbo);
    assert_eq!(res.id, "chatcmpl-abc123");
    assert_eq!(res.object, "chat.completion");
    assert_eq!(res.created, 1699896916);
    assert_eq!(res.choices.len(), 1);
    let choice = &res.choices[0];
    assert_eq!(choice.finish_reason, FinishReason::ToolCalls);
    assert_eq!(choice.index, 0);
    assert_eq!(choice.message.content, None);
    assert_eq!(choice.message.tool_calls.len(), 1);
    let tool_call = &choice.message.tool_calls[0];
    assert_eq!(tool_call.id, "call_abc123");
    assert_eq!(tool_call.function.name, "get_weather_forecast");
    assert_eq!(
        tool_call.function.arguments,
        "{\"city\":\"ShangHai\",\"unit\":\"Celsius\"}"
    );
    assert_eq!(res.usage.prompt_tokens, 82);
    assert_eq!(res.usage.completion_tokens, 17);
    assert_eq!(res.usage.total_tokens, 99);
}

#[test]
fn chat_completion_decode_ignores_unknown_keys() {
    let body = parse(
        r#"{
            "id": "chatcmpl-1",
            "object": "chat.completion",
            "created": 1,
            "model": "gpt-4-1106-preview",
            "system_fingerprint": "fp",
            "some_future_key": {"x": 1},
            "choices": [],
            "usage": {"prompt_tokens": 1, "completion_tokens": 2, "total_tokens": 3}
        }"#,
    );
    let res = ChatCompletionResponse::from_json(&body).unwrap();
    assert_eq!(res.model, ChatCompleteModel::GPT4Turbo);
    assert_eq!(res.choices.len(), 0);
}

#[test]
fn chat_completion_decode_rejects_missing_and_misshapen_fields() {
    let no_id = parse(r#"{"object": "chat.completion"}"#);
    assert!(matches!(
        ChatCompletionResponse::from_json(&no_id),
        Err(SdkError::Decode)
    ));

    let bad_reason = parse(
        r#"{
            "id": "x",
            "object": "chat.completion",
            "created": 1,
            "model": "gpt-3.5-turbo-1106",
            "system_fingerprint": "fp",
            "choices": [
                {"index": 0, "finish_reason": "unheard_of", "message": {"role": "assistant"}}
            ],
            "usage": {"prompt_tokens": 1, "completion_tokens": 2, "total_tokens": 3}
        }"#,
    );
    assert!(matches!(
        ChatCompletionResponse::from_json(&bad_reason),
        Err(SdkError::Decode)
    ));

    let not_an_object = Json::Str("nope".to_string());
    assert!(ChatCompletionResponse::from_json(&not_an_object).is_err());
}

#[test]
fn assistant_message_round_trips_through_its_serialization() {
    let original = AssistantMessage {
        content: Some("Let me check the weather.".to_string()),
        name: Some("Q-bot".to_string()),
        tool_calls: vec![ToolCalls {
            id: "call_1".to_string(),
            kind: ToolType::Function,
            function: FunctionCall {
                name: "get_weather_forecast".to_string(),
                arguments: "{\"city\":\"ShangHai\"}".to_string(),
            },
        }],
    };
    let encoded = original.to_json();
    let decoded = AssistantMessage::from_json(&encoded).unwrap();
    assert_eq!(decoded.content, original.content);
    assert_eq!(decoded.name, original.name);
    assert_eq!(decoded.tool_calls.len(), 1);
    assert_eq!(decoded.tool_calls[0].id, original.tool_calls[0].id);
    assert_eq!(decoded.tool_calls[0].kind, ToolType::Function);
    assert_eq!(
        decoded.tool_calls[0].function.name,
        original.tool_calls[0].function.name
    );
    assert_eq!(
        decoded.tool_calls[0].function.arguments,
        original.tool_calls[0].function.arguments
    );

    let bare = AssistantMessage {
        content: None,
        name: None,
        tool_calls: vec![],
    };
    let decoded = AssistantMessage::from_json(&bare.to_json()).unwrap();
    assert_eq!(decoded.content, None);
    assert_eq!(decoded.name, None);
    assert_eq!(decoded.tool_calls.len(), 0);
}

#[test]
fn model_and_finish_reason_wire_names_round_trip() {
    let models = [
        ChatCompleteModel::GPT3Turbo,
        ChatCompleteModel::GPT3TurboInstruct,
        ChatCompleteModel::GPT4Turbo,
        ChatCompleteModel::GPT4TurboVersion,
        ChatCompleteModel::Test,
    ];
    for m in models {
        assert_eq!(ChatCompleteModel::from_wire(&m.wire()), Some(m));
    }
    assert_eq!(ChatCompleteModel::from_wire(&"gpt-9".to_string()), None);

    let reasons = [
        FinishReason::Stop,
        FinishReason::Length,
        FinishReason::ContentFilter,
        FinishReason::ToolCalls,
    ];
    for r in reasons {
        assert_eq!(FinishReason::from_wire(&r.wire()), Some(r));
    }
    assert_eq!(FinishReason::from_wire(&"gave_up".to_string()), None);
}

#[test]
fn remote_error_carries_the_body_text_verbatim() {
    let outcome = response_outcome(400, "bad request".to_string());
    match outcome {
        Err(SdkError::Remote { status, body }) => {
            assert_eq!(status, 400);
            assert_eq!(body, "bad request");
        }
        _ => panic!("a client error status must fail"),
    }

    let err = response_outcome(500, "bad request".to_string()).unwrap_err();
    assert_eq!(err.detail(), "bad request");

    let ok = response_outcome(200, "{}".to_string());
    assert_eq!(ok.unwrap(), "{}");
}

#[test]
fn builder_without_required_field_reports_missing_field() {
    let err = ChatCompletionRequestBuilder::default().build().unwrap_err();
    assert_eq!(err, BuildError::MissingField);
    assert_eq!(err.message(), "missing required field");
}

#[test]
fn whisper_response_decodes_from_json_or_wraps_text() {
    let body = parse(r#"{"text": "The quick brown fox jumped over the lazy dog."}"#);
    let res = WhisperResponse::from_json(&body).unwrap();
    assert_eq!(res.text, "The quick brown fox jumped over the lazy dog.");

    let plain = WhisperResponse::from_text(
        "The quick brown fox jumped over the lazy dog.\n".to_string(),
    );
    assert_eq!(plain.text, "The quick brown fox jumped over the lazy dog.\n");

    let bad = parse(r#"{"transcript": "x"}"#);
    assert!(WhisperResponse::from_json(&bad).is_err());
}

#[test]
fn image_response_decodes_urls_and_inline_data() {
    let body = parse(
        r#"{
            "created": 1699900000,
            "data": [
                {
                    "revised_prompt": "a chicken eating rice, in detail",
                    "url": "https://images.example/one.png"
                },
                {
                    "revised_prompt": "a chicken eating rice",
                    "b64_json": "aGVsbG8="
                }
            ]
        }"#,
    );
    let res = CreateImageResponse::from_json(&body).unwrap();
    assert_eq!(res.created, 1699900000);
    assert_eq!(res.data.len(), 2);
    assert_eq!(
        res.data[0].url.as_deref(),
        Some("https://images.example/one.png")
    );
    assert_eq!(res.data[0].b64_json, None);
    assert_eq!(res.data[1].b64_json.as_deref(), Some("aGVsbG8="));
    assert_eq!(res.data[1].revised_prompt, "a chicken eating rice");
}

#[test]
fn embedding_usage_decodes() {
    let body = parse(r#"{"prompt_tokens": 8, "total_tokens": 8, "extra": true}"#);
    let usage = EmbeddingUsage::from_json(&body).unwrap();
    assert_eq!(usage.prompt_tokens, 8);
    assert_eq!(usage.total_tokens, 8);

    let bad = parse(r#"{"prompt_tokens": "eight", "total_tokens": 8}"#);
    assert!(EmbeddingUsage::from_json(&bad).is_err());
}
