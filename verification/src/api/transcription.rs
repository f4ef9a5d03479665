//! Audio transcription requests.
use crate::error::BuildError;
use crate::error::SdkError;
use crate::json::Json;
use crate::json::JsonModel;
use crate::json::lookup;
use crate::json::unwrap_or_empty;
use crate::multipart::form_file;
use crate::multipart::form_files;
use crate::multipart::form_new;
use crate::multipart::form_text;
use crate::multipart::form_texts;
use vstd::prelude::*;

verus! {

/// A request against the transcription endpoint.
///
/// The sampling temperature travels as form text, so it is carried here as
/// the decimal text that is written to the wire.
#[derive(Debug)]
pub struct TranscriptionRequest {
    /// The audio to transcribe: flac, mp3, mp4, mpeg, mpga, m4a, ogg, wav or
    /// webm bytes.
    pub file: Vec<u8>,
    /// The model to use.
    pub model: TranscriptionModel,
    /// The language of the audio, as an ISO-639-1 code; sent as an empty
    /// string when unset.
    pub language: Option<String>,
    /// Text guiding the model's style, in the audio's language.
    pub prompt: Option<String>,
    /// The format of the transcript.
    pub response_format: TranscriptionResponseFormat,
    /// The sampling temperature between 0 and 1, as decimal text.
    pub temperature: Option<String>,
}

/// The formats a transcript can come back in.
#[derive(Debug, Clone, Copy, PartialEq, Eq, Structural)]
pub enum TranscriptionResponseFormat {
    Json,
    Text,
    Srt,
    VerboseJson,
    Vtt,
}

/// The transcription models with their fixed wire names.
#[derive(Debug, Clone, Copy, PartialEq, Eq, Structural)]
pub enum TranscriptionModel {
    Whisper1,
}

/// The text a transcription produced.
#[derive(Debug)]
pub struct TranscriptionResponse {
    /// The transcript.
    pub text: String,
}

impl Default for TranscriptionResponseFormat {
    /// The default transcript format is JSON.
    fn default() -> (r: Self)
        ensures
            r == TranscriptionResponseFormat::Json,
    {
        TranscriptionResponseFormat::Json
    }
}

impl Default for TranscriptionModel {
    fn default() -> (r: Self)
        ensures
            r == TranscriptionModel::Whisper1,
    {
        TranscriptionModel::Whisper1
    }
}

impl TranscriptionResponseFormat {
    /// The fixed wire name of this format.
    pub open spec fn spec_wire(self) -> Seq<char> {
        match self {
            TranscriptionResponseFormat::Json => "json"@,
            TranscriptionResponseFormat::Text => "text"@,
            TranscriptionResponseFormat::Srt => "srt"@,
            TranscriptionResponseFormat::VerboseJson => "verbose_json"@,
            TranscriptionResponseFormat::Vtt => "vtt"@,
        }
    }

    /// Writes the fixed wire name of this format.
    pub fn wire(&self) -> (r: String)
        ensures
            r@ == self.spec_wire(),
    {
        match self {
            TranscriptionResponseFormat::Json => "json".to_owned(),
            TranscriptionResponseFormat::Text => "text".to_owned(),
            TranscriptionResponseFormat::Srt => "srt".to_owned(),
            TranscriptionResponseFormat::VerboseJson => "verbose_json".to_owned(),
            TranscriptionResponseFormat::Vtt => "vtt".to_owned(),
        }
    }
}

impl TranscriptionModel {
    /// The fixed wire name of this model.
    pub open spec fn spec_wire(self) -> Seq<char> {
        "whisper-1"@
    }

    /// Writes the fixed wire name of this model.
    pub fn wire(&self) -> (r: String)
        ensures
            r@ == self.spec_wire(),
    {
        "whisper-1".to_owned()
    }
}

impl TranscriptionRequest {
    /// Builds a transcription request around audio bytes, everything else at
    /// its default.
    pub fn new(stream: Vec<u8>) -> (r: TranscriptionRequest)
        ensures
            r.file == stream,
            r.model == TranscriptionModel::Whisper1,
            r.language is None,
            r.prompt is None,
            r.response_format == TranscriptionResponseFormat::Json,
            r.temperature is None,
    {
        TranscriptionRequest {
            file: stream,
            model: TranscriptionModel::Whisper1,
            language: None,
            prompt: None,
            response_format: TranscriptionResponseFormat::Json,
            temperature: None,
        }
    }

    /// The text parts of this request's multipart form, in writing order;
    /// every unset scalar travels as an empty string.
    pub open spec fn spec_text_parts(self) -> Seq<(Seq<char>, Seq<char>)> {
        seq![
            ("model"@, self.model.spec_wire()),
            ("response_format"@, self.response_format.spec_wire()),
            ("language"@, unwrap_or_empty(self.language)),
            ("prompt"@, unwrap_or_empty(self.prompt)),
            ("temperature"@, unwrap_or_empty(self.temperature)),
        ]
    }

    /// The text parts of this request's form, as values: what
    /// [`Self::into_form`] writes, made observable.
    pub fn text_parts(&self) -> (r: Vec<(String, String)>)
        ensures
            crate::multipart::pairs_view(r@) == self.spec_text_parts(),
    {
        let mut out: Vec<(String, String)> = Vec::new();
        out.push(("model".to_owned(), self.model.wire()));
        out.push(("response_format".to_owned(), self.response_format.wire()));
        out.push((
            "language".to_owned(),
            match &self.language {
                Some(l) => l.clone(),
                None => String::new(),
            },
        ));
        out.push((
            "prompt".to_owned(),
            match &self.prompt {
                Some(p) => p.clone(),
                None => String::new(),
            },
        ));
        out.push((
            "temperature".to_owned(),
            match &self.temperature {
                Some(t) => t.clone(),
                None => String::new(),
            },
        ));
        proof {
            assert(crate::multipart::pairs_view(out@) =~~= self.spec_text_parts());
        }
        out
    }

    /// Encodes this request as a multipart form: the audio as the one file
    /// part, named and titled `file` with media type `audio/mp3`, and the
    /// scalar fields as text parts.
    pub fn into_form(self) -> (r: reqwest::multipart::Form)
        ensures
            form_files(r) == seq![("file"@, "file"@, "audio/mp3"@, self.file@)],
            form_texts(r) == self.spec_text_parts(),
    {
        let ghost g = self;
        let TranscriptionRequest { file, model, language, prompt, response_format, temperature } =
            self;
        let f = form_new();
        let f = match form_file(f, "file", "file", "audio/mp3", file) {
            Some(f) => f,
            None => vstd::pervasive::unreached(),
        };
        let f = form_text(f, "model", model.wire());
        let f = form_text(f, "response_format", response_format.wire());
        let f = form_text(f, "language", language.unwrap_or(String::new()));
        let f = form_text(f, "prompt", prompt.unwrap_or(String::new()));
        let f = form_text(f, "temperature", temperature.unwrap_or(String::new()));
        proof {
            assert(form_texts(f) =~~= g.spec_text_parts());
            assert(form_files(f) =~~= seq![("file"@, "file"@, "audio/mp3"@, g.file@)]);
        }
        f
    }
}

impl TranscriptionResponse {
    /// This response is what the JSON document describes.
    pub open spec fn matches_json(self, j: JsonModel) -> bool {
        &&& j is Obj
        &&& lookup(j->Obj_0, "text"@) == Option::Some(JsonModel::Str(self.text@))
    }

    /// Reads a transcription response from a JSON document; other keys are
    /// ignored.
    pub fn from_json(j: &Json) -> (r: Result<TranscriptionResponse, SdkError>)
        ensures
            match r {
                Result::Ok(v) => v.matches_json(j@),
                Result::Err(e) => e is Decode && forall|v: TranscriptionResponse| !v.matches_json(j@),
            },
    {
        match j.get(&"text".to_owned()) {
            Some(v) => match crate::json::json_str(v) {
                Some(s) => Ok(TranscriptionResponse { text: s }),
                None => Err(SdkError::Decode),
            },
            None => Err(SdkError::Decode),
        }
    }

    /// Wraps transcript text that arrived outside JSON.
    pub fn from_text(text: String) -> (r: TranscriptionResponse)
        ensures
            r.text == text,
    {
        TranscriptionResponse { text }
    }
}

/// Builds a [`TranscriptionRequest`]; only the audio bytes are required.
#[derive(Debug)]
pub struct TranscriptionRequestBuilder {
    pub file: Option<Vec<u8>>,
    pub model: Option<TranscriptionModel>,
    pub language: Option<String>,
    pub prompt: Option<String>,
    pub response_format: Option<TranscriptionResponseFormat>,
    pub temperature: Option<String>,
}

impl Default for TranscriptionRequestBuilder {
    /// A builder with nothing set yet.
    fn default() -> (r: Self)
        ensures
            r == (TranscriptionRequestBuilder {
                file: Option::None,
                model: Option::None,
                language: Option::None,
                prompt: Option::None,
                response_format: Option::None,
                temperature: Option::None,
            }),
    {
        TranscriptionRequestBuilder {
            file: None,
            model: None,
            language: None,
            prompt: None,
            response_format: None,
            temperature: None,
        }
    }
}

impl TranscriptionRequestBuilder {
    /// Sets the audio bytes.
    pub fn file(self, v: Vec<u8>) -> (r: Self)
        ensures
            r == (TranscriptionRequestBuilder { file: Option::Some(v), ..self }),
    {
        TranscriptionRequestBuilder { file: Some(v), ..self }
    }

    /// Sets the model.
    pub fn model(self, v: TranscriptionModel) -> (r: Self)
        ensures
            r == (TranscriptionRequestBuilder { model: Option::Some(v), ..self }),
    {
        TranscriptionRequestBuilder { model: Some(v), ..self }
    }

    /// Sets the language hint.
    pub fn language(self, v: String) -> (r: Self)
        ensures
            r == (TranscriptionRequestBuilder { language: Option::Some(v), ..self }),
    {
        TranscriptionRequestBuilder { language: Some(v), ..self }
    }

    /// Sets the style prompt.
    pub fn prompt(self, v: String) -> (r: Self)
        ensures
            r == (TranscriptionRequestBuilder { prompt: Option::Some(v), ..self }),
    {
        TranscriptionRequestBuilder { prompt: Some(v), ..self }
    }

    /// Sets the transcript format.
    pub fn response_format(self, v: TranscriptionResponseFormat) -> (r: Self)
        ensures
            r == (TranscriptionRequestBuilder { response_format: Option::Some(v), ..self }),
    {
        TranscriptionRequestBuilder { response_format: Some(v), ..self }
    }

    /// Sets the sampling temperature, as decimal text.
    pub fn temperature(self, v: String) -> (r: Self)
        ensures
            r == (TranscriptionRequestBuilder { temperature: Option::Some(v), ..self }),
    {
        TranscriptionRequestBuilder { temperature: Some(v), ..self }
    }

    /// Finishes the builder; this fails exactly when the required audio
    /// bytes were never set.
    pub fn build(self) -> (r: Result<TranscriptionRequest, BuildError>)
        ensures
            match r {
                Result::Ok(req) => {
                    &&& self.file is Some
                    &&& req.file == self.file.unwrap()
                    &&& req.model == self.model.unwrap_or(TranscriptionModel::Whisper1)
                    &&& req.language == self.language
                    &&& req.prompt == self.prompt
                    &&& req.response_format == self.response_format.unwrap_or(
                        TranscriptionResponseFormat::Json,
                    )
                    &&& req.temperature == self.temperature
                },
                Result::Err(e) => self.file is None && e == BuildError::MissingField,
            },
    {
        match self.file {
            Some(file) => Ok(
                TranscriptionRequest {
                    file,
                    model: match self.model {
                        Some(m) => m,
                        None => TranscriptionModel::Whisper1,
                    },
                    language: self.language,
                    prompt: self.prompt,
                    response_format: match self.response_format {
                        Some(f) => f,
                        None => TranscriptionResponseFormat::Json,
                    },
                    temperature: self.temperature,
                },
            ),
            None => Err(BuildError::MissingField),
        }
    }
}

} // verus!
