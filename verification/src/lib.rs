//! Typed client library for a generative-AI HTTP service.
//!
//! The library builds correctly-shaped requests (JSON bodies or multipart
//! forms), proves that the wire encoding of every request is exactly what
//! the remote service expects, and decides how each response is to be
//! interpreted. Sending the prepared calls over the network is left to the
//! surrounding program.
mod api;
mod error;
mod json;
mod multipart;

pub use api::AssistantMessage;
pub use api::ChatCompleteModel;
pub use api::ChatCompletionChoice;
pub use api::ChatCompletionMessage;
pub use api::ChatCompletionRequest;
pub use api::ChatCompletionRequestBuilder;
pub use api::ChatCompletionResponse;
pub use api::ChatCompletionUsage;
pub use api::ChatResponseFormat;
pub use api::ChatResponseFormatObject;
pub use api::CreateImageRequest;
pub use api::CreateImageRequestBuilder;
pub use api::CreateImageResponse;
pub use api::EmbeddingEncodingFormat;
pub use api::EmbeddingInput;
pub use api::EmbeddingModel;
pub use api::EmbeddingRequest;
pub use api::EmbeddingRequestBuilder;
pub use api::EmbeddingUsage;
pub use api::FinishReason;
pub use api::FunctionCall;
pub use api::FunctionInfo;
pub use api::ImageModel;
pub use api::ImageObject;
pub use api::ImageQuality;
pub use api::ImageResponseFormat;
pub use api::ImageSize;
pub use api::ImageStyle;
pub use api::SpeechModel;
pub use api::SpeechRequest;
pub use api::SpeechRequestBuilder;
pub use api::SpeechResponseFormat;
pub use api::SpeechVoice;
pub use api::SystemMessage;
pub use api::Tool;
pub use api::ToolCalls;
pub use api::ToolChoice;
pub use api::ToolMessage;
pub use api::ToolType;
pub use api::TranscriptionModel;
pub use api::TranscriptionRequest;
pub use api::TranscriptionRequestBuilder;
pub use api::TranscriptionResponse;
pub use api::TranscriptionResponseFormat;
pub use api::UserMessage;
pub use api::WhisperModel;
pub use api::WhisperRequest;
pub use api::WhisperRequestBuilder;
pub use api::WhisperRequestType;
pub use api::WhisperResponse;
pub use api::WhisperResponseFormat;
pub use api::lemma_assistant_message_encode_matches;
pub use api::lemma_assistant_message_matches_unique;
pub use api::lemma_chat_model_wire_injective;
pub use api::lemma_function_call_encode_matches;
pub use api::lemma_function_call_matches_unique;
pub use api::lemma_minimal_request_entries;
pub use api::lemma_system_message_name_key;
pub use api::lemma_tool_calls_encode_matches;
pub use api::lemma_tool_calls_matches_unique;
pub use api::lemma_tool_choice_json;
pub use api::lemma_tool_parameters_verbatim;
pub use api::lemma_transcription_form_language;
pub use api::lemma_translation_form_no_language;
pub use api::lemma_user_message_name_key;
pub use api::opt_view;
pub use api::spec_msgs_json;
pub use api::spec_name_of;
pub use api::spec_tool_calls_json;
pub use api::spec_tools_json;
pub use error::BuildError;
pub use error::SdkError;
pub use error::response_outcome;
pub use json::Json;
pub use json::JsonModel;
pub use json::entries_model;
pub use json::elems_model;
pub use json::lookup;
pub use json::opt_entry;
pub use json::opt_str_model;
pub use json::unwrap_or_empty;
pub use multipart::form_files;
pub use multipart::form_texts;
pub use multipart::pairs_view;

use vstd::prelude::*;
use vstd::string::StringExecFns;

verus! {

/// Seconds before any operation times out, applied uniformly.
pub const TIMEOUT_SECS: u64 = 30;

/// The bearer credential a call carries: none when the configured token is
/// empty, the token itself otherwise.
pub open spec fn spec_auth(token: Seq<char>) -> Option<Seq<char>> {
    if token.len() == 0 {
        Option::None
    } else {
        Option::Some(token)
    }
}

/// The client: where the service lives and how to authenticate against it.
///
/// Its operations prepare one HTTP call each; the surrounding program sends
/// what they return.
#[derive(Debug)]
pub struct LLmSdk {
    /// The base URL every operation's path is appended to.
    pub base_url: String,
    /// The bearer credential; an empty string means no authentication.
    pub token: String,
}

/// One prepared JSON-bodied operation: where it goes, how it authenticates,
/// how long it may take, and the exact body.
pub struct JsonCall {
    /// The full URL to POST to.
    pub url: String,
    /// The bearer credential to attach, if any.
    pub bearer: Option<String>,
    /// The request timeout, in seconds.
    pub timeout_secs: u64,
    /// The JSON body.
    pub body: Json,
}

/// One prepared multipart operation: where it goes, how it authenticates,
/// how long it may take, the form to send, and whether the answer is to be
/// decoded as JSON.
pub struct FormCall {
    /// The full URL to POST to.
    pub url: String,
    /// The bearer credential to attach, if any.
    pub bearer: Option<String>,
    /// The request timeout, in seconds.
    pub timeout_secs: u64,
    /// The multipart form body.
    pub form: reqwest::multipart::Form,
    /// Whether the answer body is JSON, or raw text to be kept as is.
    pub expects_json: bool,
}

impl LLmSdk {
    /// Builds a client from a base URL and a bearer credential.
    pub fn new(base_url: &str, token: &str) -> (r: Self)
        ensures
            r.base_url@ == base_url@,
            r.token@ == token@,
    {
        LLmSdk { base_url: base_url.to_owned(), token: token.to_owned() }
    }

    /// The bearer credential to attach: none when the token is empty.
    fn bearer(&self) -> (r: Option<String>)
        ensures
            opt_view(r) == spec_auth(self.token@),
    {
        if self.token.as_str().is_empty() {
            None
        } else {
            Some(self.token.clone())
        }
    }

    /// The full URL of one operation.
    fn url_for(&self, suffix: &str) -> (r: String)
        ensures
            r@ == self.base_url@ + suffix@,
    {
        let mut url = self.base_url.clone();
        url.append(suffix);
        url
    }

    /// Prepares a chat-completion call.
    pub fn chat_completion(&self, req: ChatCompletionRequest) -> (r: JsonCall)
        ensures
            r.url@ == self.base_url@ + "/chat/completions"@,
            opt_view(r.bearer) == spec_auth(self.token@),
            r.timeout_secs == TIMEOUT_SECS,
            r.body@ == req.spec_json(),
    {
        JsonCall {
            url: self.url_for("/chat/completions"),
            bearer: self.bearer(),
            timeout_secs: TIMEOUT_SECS,
            body: req.to_json(),
        }
    }

    /// Prepares an image-generation call.
    pub fn create_image(&self, req: CreateImageRequest) -> (r: JsonCall)
        ensures
            r.url@ == self.base_url@ + "/images/generations"@,
            opt_view(r.bearer) == spec_auth(self.token@),
            r.timeout_secs == TIMEOUT_SECS,
            r.body@ == req.spec_json(),
    {
        JsonCall {
            url: self.url_for("/images/generations"),
            bearer: self.bearer(),
            timeout_secs: TIMEOUT_SECS,
            body: req.to_json(),
        }
    }

    /// Prepares a speech call; the answer is raw audio bytes.
    pub fn speech(&self, req: SpeechRequest) -> (r: JsonCall)
        ensures
            r.url@ == self.base_url@ + "/audio/speech"@,
            opt_view(r.bearer) == spec_auth(self.token@),
            r.timeout_secs == TIMEOUT_SECS,
            r.body@ == req.spec_json(),
    {
        JsonCall {
            url: self.url_for("/audio/speech"),
            bearer: self.bearer(),
            timeout_secs: TIMEOUT_SECS,
            body: req.to_json(),
        }
    }

    /// Prepares an embedding call.
    pub fn embedding(&self, req: EmbeddingRequest) -> (r: JsonCall)
        ensures
            r.url@ == self.base_url@ + "/embeddings"@,
            opt_view(r.bearer) == spec_auth(self.token@),
            r.timeout_secs == TIMEOUT_SECS,
            r.body@ == req.spec_json(),
    {
        JsonCall {
            url: self.url_for("/embeddings"),
            bearer: self.bearer(),
            timeout_secs: TIMEOUT_SECS,
            body: req.to_json(),
        }
    }

    /// Prepares an audio call: a translation goes to the translation
    /// endpoint, a transcription to the transcription endpoint, and the
    /// answer is JSON exactly when the JSON transcript format was asked for.
    pub fn whisper(&self, req: WhisperRequest) -> (r: FormCall)
        ensures
            req.request_type == WhisperRequestType::Translation ==> r.url@ == self.base_url@
                + "/audio/translations"@,
            req.request_type == WhisperRequestType::Transcription ==> r.url@ == self.base_url@
                + "/audio/transcriptions"@,
            opt_view(r.bearer) == spec_auth(self.token@),
            r.timeout_secs == TIMEOUT_SECS,
            form_files(r.form) == seq![("file"@, "file"@, "audio/mp3"@, req.file@)],
            form_texts(r.form) == req.spec_text_parts(),
            r.expects_json == (req.response_format == WhisperResponseFormat::Json),
    {
        let url = if req.request_type == WhisperRequestType::Translation {
            self.url_for("/audio/translations")
        } else {
            self.url_for("/audio/transcriptions")
        };
        let expects_json = req.response_format == WhisperResponseFormat::Json;
        FormCall {
            url,
            bearer: self.bearer(),
            timeout_secs: TIMEOUT_SECS,
            form: req.into_form(),
            expects_json,
        }
    }

    /// Prepares a transcription call; the answer is JSON exactly when the
    /// JSON transcript format was asked for.
    pub fn transcription(&self, req: TranscriptionRequest) -> (r: FormCall)
        ensures
            r.url@ == self.base_url@ + "/audio/transcriptions"@,
            opt_view(r.bearer) == spec_auth(self.token@),
            r.timeout_secs == TIMEOUT_SECS,
            form_files(r.form) == seq![("file"@, "file"@, "audio/mp3"@, req.file@)],
            form_texts(r.form) == req.spec_text_parts(),
            r.expects_json == (req.response_format == TranscriptionResponseFormat::Json),
    {
        let expects_json = req.response_format == TranscriptionResponseFormat::Json;
        FormCall {
            url: self.url_for("/audio/transcriptions"),
            bearer: self.bearer(),
            timeout_secs: TIMEOUT_SECS,
            form: req.into_form(),
            expects_json,
        }
    }
}

} // verus!
