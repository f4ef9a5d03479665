//! Request and response types, one submodule per endpoint.
mod chat_completion;
mod create_image;
mod embedding;
mod speech;
mod transcription;
mod whisper;

pub use chat_completion::AssistantMessage;
pub use chat_completion::ChatCompleteModel;
pub use chat_completion::ChatCompletionMessage;
pub use chat_completion::ChatCompletionRequest;
pub use chat_completion::ChatResponseFormat;
pub use chat_completion::ChatResponseFormatObject;
pub use chat_completion::FinishReason;
pub use chat_completion::FunctionCall;
pub use chat_completion::FunctionInfo;
pub use chat_completion::SystemMessage;
pub use chat_completion::Tool;
pub use chat_completion::ToolCalls;
pub use chat_completion::ToolChoice;
pub use chat_completion::ToolMessage;
pub use chat_completion::ToolType;
pub use chat_completion::UserMessage;
pub use chat_completion::opt_view;
pub use whisper::WhisperModel;
pub use whisper::WhisperRequest;
pub use whisper::WhisperRequestBuilder;
pub use whisper::WhisperRequestType;
pub use whisper::WhisperResponse;
pub use whisper::WhisperResponseFormat;
pub use chat_completion::ChatCompletionChoice;
pub use chat_completion::ChatCompletionRequestBuilder;
pub use chat_completion::ChatCompletionResponse;
pub use chat_completion::ChatCompletionUsage;
pub use create_image::CreateImageRequest;
pub use create_image::CreateImageRequestBuilder;
pub use create_image::CreateImageResponse;
pub use create_image::ImageModel;
pub use create_image::ImageObject;
pub use create_image::ImageQuality;
pub use create_image::ImageResponseFormat;
pub use create_image::ImageSize;
pub use create_image::ImageStyle;
pub use embedding::EmbeddingEncodingFormat;
pub use embedding::EmbeddingInput;
pub use embedding::EmbeddingModel;
pub use embedding::EmbeddingRequest;
pub use embedding::EmbeddingRequestBuilder;
pub use embedding::EmbeddingUsage;
pub use speech::SpeechModel;
pub use speech::SpeechRequest;
pub use speech::SpeechRequestBuilder;
pub use speech::SpeechResponseFormat;
pub use speech::SpeechVoice;
pub use transcription::TranscriptionModel;
pub use transcription::TranscriptionRequest;
pub use transcription::TranscriptionRequestBuilder;
pub use transcription::TranscriptionResponse;
pub use transcription::TranscriptionResponseFormat;
pub use chat_completion::lemma_assistant_message_encode_matches;
pub use chat_completion::lemma_assistant_message_matches_unique;
pub use chat_completion::lemma_chat_model_wire_injective;
pub use chat_completion::lemma_function_call_encode_matches;
pub use chat_completion::lemma_function_call_matches_unique;
pub use chat_completion::lemma_minimal_request_entries;
pub use chat_completion::lemma_system_message_name_key;
pub use chat_completion::lemma_tool_calls_encode_matches;
pub use chat_completion::lemma_tool_calls_matches_unique;
pub use chat_completion::lemma_tool_choice_json;
pub use chat_completion::lemma_tool_parameters_verbatim;
pub use chat_completion::lemma_user_message_name_key;
pub use chat_completion::spec_msgs_json;
pub use chat_completion::spec_name_of;
pub use chat_completion::spec_tool_calls_json;
pub use chat_completion::spec_tools_json;
pub use whisper::lemma_transcription_form_language;
pub use whisper::lemma_translation_form_no_language;
