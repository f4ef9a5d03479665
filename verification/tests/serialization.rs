use llm_sdk::ChatCompletionMessage;
use llm_sdk::ChatCompletionRequestBuilder;
use llm_sdk::CreateImageRequest;
use llm_sdk::CreateImageRequestBuilder;
use llm_sdk::EmbeddingInput;
use llm_sdk::EmbeddingRequest;
use llm_sdk::ImageQuality;
use llm_sdk::ImageStyle;
use llm_sdk::Json;
use llm_sdk::SpeechRequest;
use llm_sdk::Tool;
use llm_sdk::ToolChoice;
use llm_sdk::ToolType;

fn to_value(j: &Json) -> serde_json::Value {
    match j {
        Json::Null => serde_json::Value::Null,
        Json::Bool(b) => serde_json::Value::Bool(*b),
        Json::Int(i) => serde_json::Value::Number(serde_json::Number::from(*i)),
        Json::UInt(u) => serde_json::Value::Number(serde_json::Number::from(*u)),
        Json::Num(s) => serde_json::Value::Number(s.parse().unwrap()),
        Json::Str(s) => serde_json::Value::String(s.clone()),
        Json::Arr(a) => serde_json::Value::Array(a.iter().map(to_value).collect()),
        Json::Obj(o) => {
            let mut m = serde_json::Map::new();
            for (k, v) in o {
                m.insert(k.clone(), to_value(v));
            }
            serde_json::Value::Object(m)
        }
    }
}

fn from_value(v: &serde_json::Value) -> Json {
    match v {
        serde_json::Value::Null => Json::Null,
        serde_json::Value::Bool(b) => Json::Bool(*b),
        serde_json::Value::Number(n) => {
            if let Some(i) = n.as_i64() {
                Json::Int(i)
            } else if let Some(u) = n.as_u64() {
                Json::UInt(u)
            } else {
                Json::Num(n.to_string())
            }
        }
        serde_json::Value::String(s) => Json::Str(s.clone()),
        serde_json::Value::Array(a) => Json::Arr(a.iter().map(from_value).collect()),
        serde_json::Value::Object(o) => {
            Json::Obj(o.iter().map(|(k, v)| (k.clone(), from_value(v))).collect())
        }
    }
}

#[test]
fn chat_completion_request_serialize_should_work() {
    let messages = vec![
        ChatCompletionMessage::new_system("I'm Q-bot.", "Q-bot"),
        ChatCompletionMessage::new_user("HI!", "zheng"),
    ];
    let mut req = ChatCompletionRequestBuilder::default()
        .messages(messages)
        .build()
        .unwrap();
    req.tool_choice = Some(ToolChoice::Function {
        kind: ToolType::Function,
        name: "my_function".to_string(),
    });

    let json = to_value(&req.to_json());

    let expected: serde_json::Value = serde_json::from_str(
        r#"{
            "tool_choice": {
                "function": {
                    "type": "function",
                    "name": "my_function"
                }
            },
            "model": "gpt-3.5-turbo-1106",
            "messages": [
                {
                    "role": "system",
                    "content": "I'm Q-bot.",
                    "name": "Q-bot"
                },
                {
                    "role": "user",
                    "content": "HI!",
                    "name": "zheng"
                }
            ]
        }"#,
    )
    .unwrap();
    assert_eq!(json, expected);
}

#[test]
fn chat_choice_completion_request_serialize_should_work() {
    let messages = vec![
        ChatCompletionMessage::new_system("I'm Q-bot.", "Q-bot"),
        ChatCompletionMessage::new_user("HI!", "zheng"),
    ];
    let mut req = ChatCompletionRequestBuilder::default()
        .messages(messages)
        .build()
        .unwrap();
    req.tool_choice = Some(ToolChoice::Auto);

    let json = to_value(&req.to_json());

    let expected: serde_json::Value = serde_json::from_str(
        r#"{
            "tool_choice": "auto",
            "model": "gpt-3.5-turbo-1106",
            "messages": [
                {
                    "role": "system",
                    "content": "I'm Q-bot.",
                    "name": "Q-bot"
                },
                {
                    "role": "user",
                    "content": "HI!",
                    "name": "zheng"
                }
            ]
        }"#,
    )
    .unwrap();
    assert_eq!(json, expected);
}

#[test]
fn chat_completion_request_with_tools_serialize_should_work() {
    let weather_schema: serde_json::Value = serde_json::from_str(
        r#"{
            "$schema": "http://json-schema.org/draft-07/schema#",
            "title": "GetWeatherArgs",
            "type": "object",
            "required": ["city", "unit"],
            "properties": {
                "city": {
                    "description": "Get the weather for the city",
                    "type": "string"
                },
                "unit": {
                    "description": "the unit",
                    "type": "string",
                    "enum": ["Celsius", "Fahrenheit"]
                }
            }
        }"#,
    )
    .unwrap();
    let mood_schema: serde_json::Value = serde_json::from_str(
        r#"{
            "$schema": "http://json-schema.org/draft-07/schema#",
            "title": "ExplainMoodArgs",
            "type": "object",
            "required": ["name"],
            "properties": {
                "name": {
                    "description": "The mood to explain.",
                    "type": "string"
                }
            }
        }"#,
    )
    .unwrap();

    let messages = vec![
        ChatCompletionMessage::new_system("I can choose the right function for you.", "Q-bot"),
        ChatCompletionMessage::new_user("What is the weather like in ShangHai?", "zheng"),
    ];
    let tools = vec![
        Tool::new_function(
            "get_weather_forecast",
            "Get the weather forecast for a city.",
            from_value(&weather_schema),
        ),
        Tool::new_function(
            "explain_mood",
            "Explain the meaning of the give mood.",
            from_value(&mood_schema),
        ),
    ];
    let req = ChatCompletionRequestBuilder::default()
        .messages(messages)
        .tools(tools)
        .build()
        .unwrap();

    let json = to_value(&req.to_json());

    let mut expected: serde_json::Value = serde_json::from_str(
        r#"{
            "model": "gpt-3.5-turbo-1106",
            "messages": [
                {
                    "role": "system",
                    "content": "I can choose the right function for you.",
                    "name": "Q-bot"
                },
                {
                    "role": "user",
                    "content": "What is the weather like in ShangHai?",
                    "name": "zheng"
                }
            ],
            "tools": [
                {
                    "type": "function",
                    "function": {
                        "name": "get_weather_forecast",
                        "description": "Get the weather forecast for a city.",
                        "parameters": null
                    }
                },
                {
                    "type": "function",
                    "function": {
                        "name": "explain_mood",
                        "description": "Explain the meaning of the give mood.",
                        "parameters": null
                    }
                }
            ]
        }"#,
    )
    .unwrap();
    expected["tools"][0]["function"]["parameters"] = weather_schema;
    expected["tools"][1]["function"]["parameters"] = mood_schema;
    assert_eq!(json, expected);
}

#[test]
fn create_image_request_should_serialize() {
    let req = CreateImageRequest::new("draw a picture of a chicken eating rice");
    let json = to_value(&req.to_json());

    let expected: serde_json::Value = serde_json::from_str(
        r#"{
            "prompt": "draw a picture of a chicken eating rice",
            "model": "dall-e-3"
        }"#,
    )
    .unwrap();
    assert_eq!(json, expected);
}

#[test]
fn create_image_request_custom_should_serialize() {
    let req = CreateImageRequestBuilder::default()
        .prompt("draw a picture of a chicken eating rice")
        .style(ImageStyle::Natural)
        .quality(ImageQuality::Hd)
        .build()
        .unwrap();
    let json = to_value(&req.to_json());

    let expected: serde_json::Value = serde_json::from_str(
        r#"{
            "prompt": "draw a picture of a chicken eating rice",
            "model": "dall-e-3",
            "style": "natural",
            "quality": "hd"
        }"#,
    )
    .unwrap();
    assert_eq!(json, expected);
}

#[test]
fn minimal_chat_request_serializes_to_exactly_model_and_messages() {
    let req = ChatCompletionRequestBuilder::default()
        .messages(vec![ChatCompletionMessage::new_user("HI!", "")])
        .build()
        .unwrap();
    let json = to_value(&req.to_json());

    let obj = json.as_object().unwrap();
    assert_eq!(obj.len(), 2);
    assert!(obj.contains_key("model"));
    assert!(obj.contains_key("messages"));
    assert_eq!(obj["model"], serde_json::Value::String("gpt-3.5-turbo-1106".to_string()));
}

#[test]
fn chat_request_with_optional_fields_serializes_them_all() {
    let req = ChatCompletionRequestBuilder::default()
        .messages(vec![ChatCompletionMessage::new_user("HI!", "")])
        .max_tokens(256)
        .n(2)
        .seed(7)
        .stop("END".to_string())
        .stream(true)
        .temperature(1)
        .response_format(llm_sdk::ChatResponseFormatObject {
            kind: llm_sdk::ChatResponseFormat::Text,
        })
        .user("zheng".to_string())
        .build()
        .unwrap();
    let json = to_value(&req.to_json());

    let expected: serde_json::Value = serde_json::from_str(
        r#"{
            "model": "gpt-3.5-turbo-1106",
            "messages": [{"role": "user", "content": "HI!"}],
            "max_tokens": 256,
            "n": 2,
            "seed": 7,
            "stop": "END",
            "stream": true,
            "temperature": 1,
            "response_format": {"type": "text"},
            "user": "zheng"
        }"#,
    )
    .unwrap();
    assert_eq!(json, expected);
}

#[test]
fn tool_choice_serializes_to_bare_strings_and_nested_function() {
    assert_eq!(
        to_value(&ToolChoice::Auto.to_json()),
        serde_json::Value::String("auto".to_string())
    );
    assert_eq!(
        to_value(&ToolChoice::NoTool.to_json()),
        serde_json::Value::String("none".to_string())
    );
    let choice = ToolChoice::Function {
        kind: ToolType::Function,
        name: "my_function".to_string(),
    };
    let expected: serde_json::Value =
        serde_json::from_str(r#"{"function": {"type": "function", "name": "my_function"}}"#)
            .unwrap();
    assert_eq!(to_value(&choice.to_json()), expected);
}

#[test]
fn empty_participant_name_is_omitted_and_nonempty_kept() {
    let anonymous = ChatCompletionMessage::new_system("hello", "");
    let named = ChatCompletionMessage::new_system("hello", "Q-bot");

    let v1 = to_value(&anonymous.to_json());
    assert!(v1.as_object().unwrap().get("name").is_none());

    let v2 = to_value(&named.to_json());
    assert_eq!(v2["name"], serde_json::Value::String("Q-bot".to_string()));
}

#[test]
fn tool_embeds_argument_schema_verbatim() {
    let schema: serde_json::Value = serde_json::from_str(
        r#"{"type": "object", "properties": {"city": {"type": "string"}}}"#,
    )
    .unwrap();
    let tool = Tool::new_function("get_weather_forecast", "weather", from_value(&schema));
    let json = to_value(&tool.to_json());
    assert_eq!(json["function"]["parameters"], schema);
}

#[test]
fn speech_request_serializes_with_defaults() {
    let req = SpeechRequest::new("The quick brown fox jumped over the lazy dog");
    let json = to_value(&req.to_json());
    let expected: serde_json::Value = serde_json::from_str(
        r#"{
            "model": "tts-1",
            "input": "The quick brown fox jumped over the lazy dog",
            "voice": "echo",
            "response_format": "mp3"
        }"#,
    )
    .unwrap();
    assert_eq!(json, expected);
}

#[test]
fn embedding_request_serializes_single_and_array_inputs() {
    let single = EmbeddingRequest::new(EmbeddingInput::from(
        "The food was delicious and the waiter...".to_string(),
    ));
    let expected_single: serde_json::Value = serde_json::from_str(
        r#"{
            "input": "The food was delicious and the waiter...",
            "model": "text-embedding-ada-002"
        }"#,
    )
    .unwrap();
    assert_eq!(to_value(&single.to_json()), expected_single);

    let many = EmbeddingRequest::new(EmbeddingInput::from(vec![
        "The quick brown fox jumped over the lazy dog.".to_string(),
        "我是谁？我在哪？".to_string(),
    ]));
    let expected_many: serde_json::Value = serde_json::from_str(
        r#"{
            "input": [
                "The quick brown fox jumped over the lazy dog.",
                "我是谁？我在哪？"
            ],
            "model": "text-embedding-ada-002"
        }"#,
    )
    .unwrap();
    assert_eq!(to_value(&many.to_json()), expected_many);
}

#[test]
fn embedding_input_borrowed_conversions_copy_the_texts() {
    let expected_single: serde_json::Value = serde_json::from_str(
        r#"{
            "input": "The food was delicious and the waiter...",
            "model": "text-embedding-ada-002"
        }"#,
    )
    .unwrap();
    let borrowed = EmbeddingRequest::new(EmbeddingInput::from(
        "The food was delicious and the waiter...",
    ));
    assert_eq!(to_value(&borrowed.to_json()), expected_single);

    let texts = vec!["one".to_string(), "two".to_string()];
    let expected_many: serde_json::Value = serde_json::from_str(
        r#"{
            "input": ["one", "two"],
            "model": "text-embedding-ada-002"
        }"#,
    )
    .unwrap();
    let borrowed = EmbeddingRequest::new(EmbeddingInput::from(&texts[..]));
    assert_eq!(to_value(&borrowed.to_json()), expected_many);
}
