//! Audio transcription and translation over one shared request shape.
use crate::error::BuildError;
use crate::error::SdkError;
use crate::json::Json;
use crate::json::JsonModel;
use crate::json::lookup;
use crate::json::unwrap_or_empty;
use crate::multipart::form_file;
use crate::multipart::form_files;
use crate::multipart::form_new;
use crate::multipart::form_text;
use crate::multipart::form_texts;
use vstd::prelude::*;

verus! {

broadcast use vstd::string::group_string_axioms;

/// A request against one of the two audio endpoints.
///
/// The sampling temperature travels as form text, so it is carried here as
/// the decimal text that is written to the wire.
#[derive(Debug)]
pub struct WhisperRequest {
    /// The audio to work on: flac, mp3, mp4, mpeg, mpga, m4a, ogg, wav or
    /// webm bytes.
    pub file: Vec<u8>,
    /// The model to use.
    pub model: WhisperModel,
    /// The language of the audio, as an ISO-639-1 code. A translation
    /// request never sends it; a transcription request sends it even when
    /// empty.
    pub language: Option<String>,
    /// Text guiding the model's style, in the audio's language.
    pub prompt: Option<String>,
    /// The format of the transcript.
    pub response_format: WhisperResponseFormat,
    /// The sampling temperature between 0 and 1, as decimal text.
    pub temperature: Option<String>,
    /// Whether this request transcribes or translates.
    pub request_type: WhisperRequestType,
}

/// The two operations the audio endpoints offer.
#[derive(Debug, Clone, Copy, PartialEq, Eq, Structural)]
pub enum WhisperRequestType {
    Transcription,
    Translation,
}

/// The formats a transcript can come back in.
#[derive(Debug, Clone, Copy, PartialEq, Eq, Structural)]
pub enum WhisperResponseFormat {
    Json,
    Text,
    Srt,
    VerboseJson,
    Vtt,
}

/// The audio models with their fixed wire names.
#[derive(Debug, Clone, Copy, PartialEq, Eq, Structural)]
pub enum WhisperModel {
    Whisper1,
}

/// The text an audio operation produced.
#[derive(Debug)]
pub struct WhisperResponse {
    /// The transcript or translation.
    pub text: String,
}

impl Default for WhisperRequestType {
    fn default() -> (r: Self)
        ensures
            r == WhisperRequestType::Transcription,
    {
        WhisperRequestType::Transcription
    }
}

impl Default for WhisperResponseFormat {
    /// The default transcript format is JSON.
    fn default() -> (r: Self)
        ensures
            r == WhisperResponseFormat::Json,
    {
        WhisperResponseFormat::Json
    }
}

impl Default for WhisperModel {
    fn default() -> (r: Self)
        ensures
            r == WhisperModel::Whisper1,
    {
        WhisperModel::Whisper1
    }
}

impl WhisperResponseFormat {
    /// The fixed wire name of this format.
    pub open spec fn spec_wire(self) -> Seq<char> {
        match self {
            WhisperResponseFormat::Json => "json"@,
            WhisperResponseFormat::Text => "text"@,
            WhisperResponseFormat::Srt => "srt"@,
            WhisperResponseFormat::VerboseJson => "verbose_json"@,
            WhisperResponseFormat::Vtt => "vtt"@,
        }
    }

    /// Writes the fixed wire name of this format.
    pub fn wire(&self) -> (r: String)
        ensures
            r@ == self.spec_wire(),
    {
        match self {
            WhisperResponseFormat::Json => "json".to_owned(),
            WhisperResponseFormat::Text => "text".to_owned(),
            WhisperResponseFormat::Srt => "srt".to_owned(),
            WhisperResponseFormat::VerboseJson => "verbose_json".to_owned(),
            WhisperResponseFormat::Vtt => "vtt".to_owned(),
        }
    }
}

impl WhisperModel {
    /// The fixed wire name of this model.
    pub open spec fn spec_wire(self) -> Seq<char> {
        "whisper-1"@
    }

    /// Writes the fixed wire name of this model.
    pub fn wire(&self) -> (r: String)
        ensures
            r@ == self.spec_wire(),
    {
        "whisper-1".to_owned()
    }
}

impl WhisperRequest {
    /// Builds a transcription request around audio bytes, everything else at
    /// its default.
    pub fn transcription(stream: Vec<u8>) -> (r: WhisperRequest)
        ensures
            r.file == stream,
            r.model == WhisperModel::Whisper1,
            r.language is None,
            r.prompt is None,
            r.response_format == WhisperResponseFormat::Json,
            r.temperature is None,
            r.request_type == WhisperRequestType::Transcription,
    {
        WhisperRequest {
            file: stream,
            model: WhisperModel::Whisper1,
            language: None,
            prompt: None,
            response_format: WhisperResponseFormat::Json,
            temperature: None,
            request_type: WhisperRequestType::Transcription,
        }
    }

    /// Builds a translation request around audio bytes, everything else at
    /// its default.
    pub fn translation(stream: Vec<u8>) -> (r: WhisperRequest)
        ensures
            r.file == stream,
            r.model == WhisperModel::Whisper1,
            r.language is None,
            r.prompt is None,
            r.response_format == WhisperResponseFormat::Json,
            r.temperature is None,
            r.request_type == WhisperRequestType::Translation,
    {
        WhisperRequest {
            file: stream,
            model: WhisperModel::Whisper1,
            language: None,
            prompt: None,
            response_format: WhisperResponseFormat::Json,
            temperature: None,
            request_type: WhisperRequestType::Translation,
        }
    }

    /// The text parts of this request's multipart form, in writing order.
    ///
    /// Unset prompt and temperature travel as empty strings. The language is
    /// sent only by a transcription — empty when unset — and never by a
    /// translation, which does not accept a language hint.
    pub open spec fn spec_text_parts(self) -> Seq<(Seq<char>, Seq<char>)> {
        seq![
            ("model"@, self.model.spec_wire()),
            ("response_format"@, self.response_format.spec_wire()),
            ("prompt"@, unwrap_or_empty(self.prompt)),
            ("temperature"@, unwrap_or_empty(self.temperature)),
        ] + (if self.request_type == WhisperRequestType::Transcription {
            seq![("language"@, unwrap_or_empty(self.language))]
        } else {
            Seq::<(Seq<char>, Seq<char>)>::empty()
        })
    }

    /// The text parts of this request's form, as values: what
    /// [`Self::into_form`] writes, made observable.
    pub fn text_parts(&self) -> (r: Vec<(String, String)>)
        ensures
            crate::multipart::pairs_view(r@) == self.spec_text_parts(),
    {
        let mut out: Vec<(String, String)> = Vec::new();
        out.push(("model".to_owned(), self.model.wire()));
        out.push(("response_format".to_owned(), self.response_format.wire()));
        out.push((
            "prompt".to_owned(),
            match &self.prompt {
                Some(p) => p.clone(),
                None => String::new(),
            },
        ));
        out.push((
            "temperature".to_owned(),
            match &self.temperature {
                Some(t) => t.clone(),
                None => String::new(),
            },
        ));
        if self.request_type == WhisperRequestType::Transcription {
            out.push((
                "language".to_owned(),
                match &self.language {
                    Some(l) => l.clone(),
                    None => String::new(),
                },
            ));
        }
        proof {
            assert(crate::multipart::pairs_view(out@) =~~= self.spec_text_parts());
        }
        out
    }

    /// Encodes this request as a multipart form: the audio as the one file
    /// part, named and titled `file` with media type `audio/mp3`, and the
    /// scalar fields as text parts.
    pub fn into_form(self) -> (r: reqwest::multipart::Form)
        ensures
            form_files(r) == seq![("file"@, "file"@, "audio/mp3"@, self.file@)],
            form_texts(r) == self.spec_text_parts(),
    {
        let ghost g = self;
        let WhisperRequest {
            file,
            model,
            language,
            prompt,
            response_format,
            temperature,
            request_type,
        } = self;
        let f = form_new();
        let f = match form_file(f, "file", "file", "audio/mp3", file) {
            Some(f) => f,
            None => vstd::pervasive::unreached(),
        };
        let f = form_text(f, "model", model.wire());
        let f = form_text(f, "response_format", response_format.wire());
        let f = form_text(f, "prompt", prompt.unwrap_or(String::new()));
        let f = form_text(f, "temperature", temperature.unwrap_or(String::new()));
        let f = if request_type == WhisperRequestType::Transcription {
            form_text(f, "language", language.unwrap_or(String::new()))
        } else {
            f
        };
        proof {
            assert(form_texts(f) =~~= g.spec_text_parts());
            assert(form_files(f) =~~= seq![("file"@, "file"@, "audio/mp3"@, g.file@)]);
        }
        f
    }
}

impl WhisperResponse {
    /// This response is what the JSON document describes.
    pub open spec fn matches_json(self, j: JsonModel) -> bool {
        &&& j is Obj
        &&& lookup(j->Obj_0, "text"@) == Option::Some(JsonModel::Str(self.text@))
    }

    /// Reads an audio response from a JSON document; other keys are ignored.
    pub fn from_json(j: &Json) -> (r: Result<WhisperResponse, SdkError>)
        ensures
            match r {
                Result::Ok(v) => v.matches_json(j@),
                Result::Err(e) => e is Decode && forall|v: WhisperResponse| !v.matches_json(j@),
            },
    {
        match j.get(&"text".to_owned()) {
            Some(v) => match crate::json::json_str(v) {
                Some(s) => Ok(WhisperResponse { text: s }),
                None => Err(SdkError::Decode),
            },
            None => Err(SdkError::Decode),
        }
    }

    /// Wraps transcript text that arrived outside JSON.
    pub fn from_text(text: String) -> (r: WhisperResponse)
        ensures
            r.text == text,
    {
        WhisperResponse { text }
    }
}

/// Builds a [`WhisperRequest`]; only the audio bytes are required.
#[derive(Debug)]
pub struct WhisperRequestBuilder {
    pub file: Option<Vec<u8>>,
    pub model: Option<WhisperModel>,
    pub language: Option<String>,
    pub prompt: Option<String>,
    pub response_format: Option<WhisperResponseFormat>,
    pub temperature: Option<String>,
    pub request_type: Option<WhisperRequestType>,
}

impl Default for WhisperRequestBuilder {
    /// A builder with nothing set yet.
    fn default() -> (r: Self)
        ensures
            r == (WhisperRequestBuilder {
                file: Option::None,
                model: Option::None,
                language: Option::None,
                prompt: Option::None,
                response_format: Option::None,
                temperature: Option::None,
                request_type: Option::None,
            }),
    {
        WhisperRequestBuilder {
            file: None,
            model: None,
            language: None,
            prompt: None,
            response_format: None,
            temperature: None,
            request_type: None,
        }
    }
}

impl WhisperRequestBuilder {
    /// Sets the audio bytes.
    pub fn file(self, v: Vec<u8>) -> (r: Self)
        ensures
            r == (WhisperRequestBuilder { file: Option::Some(v), ..self }),
    {
        WhisperRequestBuilder { file: Some(v), ..self }
    }

    /// Sets the model.
    pub fn model(self, v: WhisperModel) -> (r: Self)
        ensures
            r == (WhisperRequestBuilder { model: Option::Some(v), ..self }),
    {
        WhisperRequestBuilder { model: Some(v), ..self }
    }

    /// Sets the language hint.
    pub fn language(self, v: String) -> (r: Self)
        ensures
            r == (WhisperRequestBuilder { language: Option::Some(v), ..self }),
    {
        WhisperRequestBuilder { language: Some(v), ..self }
    }

    /// Sets the style prompt.
    pub fn prompt(self, v: String) -> (r: Self)
        ensures
            r == (WhisperRequestBuilder { prompt: Option::Some(v), ..self }),
    {
        WhisperRequestBuilder { prompt: Some(v), ..self }
    }

    /// Sets the transcript format.
    pub fn response_format(self, v: WhisperResponseFormat) -> (r: Self)
        ensures
            r == (WhisperRequestBuilder { response_format: Option::Some(v), ..self }),
    {
        WhisperRequestBuilder { response_format: Some(v), ..self }
    }

    /// Sets the sampling temperature, as decimal text.
    pub fn temperature(self, v: String) -> (r: Self)
        ensures
            r == (WhisperRequestBuilder { temperature: Option::Some(v), ..self }),
    {
        WhisperRequestBuilder { temperature: Some(v), ..self }
    }

    /// Sets whether the request transcribes or translates.
    pub fn request_type(self, v: WhisperRequestType) -> (r: Self)
        ensures
            r == (WhisperRequestBuilder { request_type: Option::Some(v), ..self }),
    {
        WhisperRequestBuilder { request_type: Some(v), ..self }
    }

    /// Finishes the builder; this fails exactly when the required audio
    /// bytes were never set.
    pub fn build(self) -> (r: Result<WhisperRequest, BuildError>)
        ensures
            match r {
                Result::Ok(req) => {
                    &&& self.file is Some
                    &&& req.file == self.file.unwrap()
                    &&& req.model == self.model.unwrap_or(WhisperModel::Whisper1)
                    &&& req.language == self.language
                    &&& req.prompt == self.prompt
                    &&& req.response_format == self.response_format.unwrap_or(
                        WhisperResponseFormat::Json,
                    )
                    &&& req.temperature == self.temperature
                    &&& req.request_type == self.request_type.unwrap_or(
                        WhisperRequestType::Transcription,
                    )
                },
                Result::Err(e) => self.file is None && e == BuildError::MissingField,
            },
    {
        match self.file {
            Some(file) => Ok(
                WhisperRequest {
                    file,
                    model: match self.model {
                        Some(m) => m,
                        None => WhisperModel::Whisper1,
                    },
                    language: self.language,
                    prompt: self.prompt,
                    response_format: match self.response_format {
                        Some(f) => f,
                        None => WhisperResponseFormat::Json,
                    },
                    temperature: self.temperature,
                    request_type: match self.request_type {
                        Some(t) => t,
                        None => WhisperRequestType::Transcription,
                    },
                },
            ),
            None => Err(BuildError::MissingField),
        }
    }
}

/// A translation request's form never carries a `language` part, whatever
/// the request's language field holds.
pub proof fn lemma_translation_form_no_language(req: WhisperRequest)
    requires
        req.request_type == WhisperRequestType::Translation,
    ensures
        forall|i: int|
            0 <= i < req.spec_text_parts().len() ==> #[trigger] req.spec_text_parts()[i].0
                != "language"@,
{
    reveal_strlit("model");
    reveal_strlit("response_format");
    reveal_strlit("prompt");
    reveal_strlit("temperature");
    reveal_strlit("language");
    assert("model"@.len() == 5);
    assert("response_format"@.len() == 15);
    assert("prompt"@.len() == 6);
    assert("temperature"@.len() == 11);
    assert("language"@.len() == 8);
    let parts = req.spec_text_parts();
    assert(parts =~~= seq![
        ("model"@, req.model.spec_wire()),
        ("response_format"@, req.response_format.spec_wire()),
        ("prompt"@, unwrap_or_empty(req.prompt)),
        ("temperature"@, unwrap_or_empty(req.temperature)),
    ]);
}

/// A transcription request's form always ends in a `language` part: the set
/// value, or the empty string when unset.
pub proof fn lemma_transcription_form_language(req: WhisperRequest)
    requires
        req.request_type == WhisperRequestType::Transcription,
    ensures
        req.spec_text_parts().len() == 5,
        req.spec_text_parts()[4] == ("language"@, unwrap_or_empty(req.language)),
{
}

} // verus!
