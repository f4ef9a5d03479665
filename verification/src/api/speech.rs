//! Speech-synthesis requests.
use crate::error::BuildError;
use crate::json::Json;
use crate::json::JsonModel;
use crate::json::entries_model;
use crate::json::lemma_obj_model;
use crate::json::obj_push;
use crate::json::obj_push_opt;
use crate::json::opt_entry;
use vstd::prelude::*;

verus! {

/// A request against the speech endpoint.
///
/// The speed is a JSON number on the wire, so it is carried here as the
/// decimal text that is written verbatim.
#[derive(Debug)]
pub struct SpeechRequest {
    /// The model to speak with.
    pub model: SpeechModel,
    /// The text to speak, at most 4096 characters.
    pub input: String,
    /// The voice to speak in.
    pub voice: SpeechVoice,
    /// The audio format of the answer.
    pub response_format: SpeechResponseFormat,
    /// The speed of the audio, from 0.25 to 4.0, as decimal text.
    pub speed: Option<String>,
}

/// The audio formats speech can come back in.
#[derive(Debug, Clone, Copy, PartialEq, Eq, Structural)]
pub enum SpeechResponseFormat {
    Mp3,
    Opus,
    Aac,
    Flac,
}

/// The voices the service can speak in.
#[derive(Debug, Clone, Copy, PartialEq, Eq, Structural)]
pub enum SpeechVoice {
    Alloy,
    Echo,
    Fable,
    Onyx,
    Nova,
    Shimmer,
}

/// The speech models with their fixed wire names.
#[derive(Debug, Clone, Copy, PartialEq, Eq, Structural)]
pub enum SpeechModel {
    Tts1,
    Tts1Hd,
}

impl Default for SpeechResponseFormat {
    /// The default speech format is mp3.
    fn default() -> (r: Self)
        ensures
            r == SpeechResponseFormat::Mp3,
    {
        SpeechResponseFormat::Mp3
    }
}

impl Default for SpeechVoice {
    /// The default voice is echo.
    fn default() -> (r: Self)
        ensures
            r == SpeechVoice::Echo,
    {
        SpeechVoice::Echo
    }
}

impl Default for SpeechModel {
    /// The default speech model is the plain one.
    fn default() -> (r: Self)
        ensures
            r == SpeechModel::Tts1,
    {
        SpeechModel::Tts1
    }
}

impl SpeechResponseFormat {
    /// The fixed wire name of this format.
    pub open spec fn spec_wire(self) -> Seq<char> {
        match self {
            SpeechResponseFormat::Mp3 => "mp3"@,
            SpeechResponseFormat::Opus => "opus"@,
            SpeechResponseFormat::Aac => "aac"@,
            SpeechResponseFormat::Flac => "flac"@,
        }
    }

    /// Writes the fixed wire name of this format.
    pub fn wire(&self) -> (r: String)
        ensures
            r@ == self.spec_wire(),
    {
        match self {
            SpeechResponseFormat::Mp3 => "mp3".to_owned(),
            SpeechResponseFormat::Opus => "opus".to_owned(),
            SpeechResponseFormat::Aac => "aac".to_owned(),
            SpeechResponseFormat::Flac => "flac".to_owned(),
        }
    }
}

impl SpeechVoice {
    /// The fixed wire name of this voice.
    pub open spec fn spec_wire(self) -> Seq<char> {
        match self {
            SpeechVoice::Alloy => "alloy"@,
            SpeechVoice::Echo => "echo"@,
            SpeechVoice::Fable => "fable"@,
            SpeechVoice::Onyx => "onyx"@,
            SpeechVoice::Nova => "nova"@,
            SpeechVoice::Shimmer => "shimmer"@,
        }
    }

    /// Writes the fixed wire name of this voice.
    pub fn wire(&self) -> (r: String)
        ensures
            r@ == self.spec_wire(),
    {
        match self {
            SpeechVoice::Alloy => "alloy".to_owned(),
            SpeechVoice::Echo => "echo".to_owned(),
            SpeechVoice::Fable => "fable".to_owned(),
            SpeechVoice::Onyx => "onyx".to_owned(),
            SpeechVoice::Nova => "nova".to_owned(),
            SpeechVoice::Shimmer => "shimmer".to_owned(),
        }
    }
}

impl SpeechModel {
    /// The fixed wire name of this model.
    pub open spec fn spec_wire(self) -> Seq<char> {
        match self {
            SpeechModel::Tts1 => "tts-1"@,
            SpeechModel::Tts1Hd => "tts-1-hd"@,
        }
    }

    /// Writes the fixed wire name of this model.
    pub fn wire(&self) -> (r: String)
        ensures
            r@ == self.spec_wire(),
    {
        match self {
            SpeechModel::Tts1 => "tts-1".to_owned(),
            SpeechModel::Tts1Hd => "tts-1-hd".to_owned(),
        }
    }
}

impl SpeechRequest {
    /// Builds a speech request around the text to speak, everything else at
    /// its default.
    pub fn new(input: &str) -> (r: SpeechRequest)
        ensures
            r.model == SpeechModel::Tts1,
            r.input@ == input@,
            r.voice == SpeechVoice::Echo,
            r.response_format == SpeechResponseFormat::Mp3,
            r.speed is None,
    {
        SpeechRequest {
            model: SpeechModel::Tts1,
            input: input.to_owned(),
            voice: SpeechVoice::Echo,
            response_format: SpeechResponseFormat::Mp3,
            speed: None,
        }
    }

    /// The serialized entries of this request: every field always, except
    /// the speed, which is left out when unset.
    pub open spec fn spec_entries(self) -> Seq<(Seq<char>, JsonModel)> {
        seq![
            ("model"@, JsonModel::Str(self.model.spec_wire())),
            ("input"@, JsonModel::Str(self.input@)),
            ("voice"@, JsonModel::Str(self.voice.spec_wire())),
            ("response_format"@, JsonModel::Str(self.response_format.spec_wire())),
        ] + opt_entry(
            "speed"@,
            match self.speed {
                Option::Some(s) => Option::Some(JsonModel::Num(s@)),
                Option::None => Option::None,
            },
        )
    }

    /// The serialized shape of this request.
    pub open spec fn spec_json(self) -> JsonModel {
        JsonModel::Obj(self.spec_entries())
    }

    /// Serializes this request as the body of a speech call.
    pub fn to_json(self) -> (r: Json)
        ensures
            r@ == self.spec_json(),
    {
        broadcast use lemma_obj_model;

        let mut o: Vec<(String, Json)> = Vec::new();
        obj_push(&mut o, "model", Json::Str(self.model.wire()));
        obj_push(&mut o, "input", Json::Str(self.input.clone()));
        obj_push(&mut o, "voice", Json::Str(self.voice.wire()));
        obj_push(&mut o, "response_format", Json::Str(self.response_format.wire()));
        obj_push_opt(
            &mut o,
            "speed",
            match &self.speed {
                Some(s) => Some(Json::Num(s.clone())),
                None => None,
            },
        );
        proof {
            assert(entries_model(o@) =~~= self.spec_entries());
        }
        Json::Obj(o)
    }
}

/// Builds a [`SpeechRequest`]; only the text to speak is required.
#[derive(Debug)]
pub struct SpeechRequestBuilder {
    pub model: Option<SpeechModel>,
    pub input: Option<String>,
    pub voice: Option<SpeechVoice>,
    pub response_format: Option<SpeechResponseFormat>,
    pub speed: Option<String>,
}

impl Default for SpeechRequestBuilder {
    /// A builder with nothing set yet.
    fn default() -> (r: Self)
        ensures
            r == (SpeechRequestBuilder {
                model: Option::None,
                input: Option::None,
                voice: Option::None,
                response_format: Option::None,
                speed: Option::None,
            }),
    {
        SpeechRequestBuilder { model: None, input: None, voice: None, response_format: None, speed: None }
    }
}

impl SpeechRequestBuilder {
    /// Sets the model.
    pub fn model(self, v: SpeechModel) -> (r: Self)
        ensures
            r == (SpeechRequestBuilder { model: Option::Some(v), ..self }),
    {
        SpeechRequestBuilder { model: Some(v), ..self }
    }

    /// Sets the text to speak.
    pub fn input(self, v: String) -> (r: Self)
        ensures
            r == (SpeechRequestBuilder { input: Option::Some(v), ..self }),
    {
        SpeechRequestBuilder { input: Some(v), ..self }
    }

    /// Sets the voice.
    pub fn voice(self, v: SpeechVoice) -> (r: Self)
        ensures
            r == (SpeechRequestBuilder { voice: Option::Some(v), ..self }),
    {
        SpeechRequestBuilder { voice: Some(v), ..self }
    }

    /// Sets the audio format.
    pub fn response_format(self, v: SpeechResponseFormat) -> (r: Self)
        ensures
            r == (SpeechRequestBuilder { response_format: Option::Some(v), ..self }),
    {
        SpeechRequestBuilder { response_format: Some(v), ..self }
    }

    /// Sets the speed, as decimal text.
    pub fn speed(self, v: String) -> (r: Self)
        ensures
            r == (SpeechRequestBuilder { speed: Option::Some(v), ..self }),
    {
        SpeechRequestBuilder { speed: Some(v), ..self }
    }

    /// Finishes the builder; this fails exactly when the required input text
    /// was never set.
    pub fn build(self) -> (r: Result<SpeechRequest, BuildError>)
        ensures
            match r {
                Result::Ok(req) => {
                    &&& self.input is Some
                    &&& req.input == self.input.unwrap()
                    &&& req.model == self.model.unwrap_or(SpeechModel::Tts1)
                    &&& req.voice == self.voice.unwrap_or(SpeechVoice::Echo)
                    &&& req.response_format == self.response_format.unwrap_or(
                        SpeechResponseFormat::Mp3,
                    )
                    &&& req.speed == self.speed
                },
                Result::Err(e) => self.input is None && e == BuildError::MissingField,
            },
    {
        match self.input {
            Some(input) => Ok(
                SpeechRequest {
                    model: match self.model {
                        Some(m) => m,
                        None => SpeechModel::Tts1,
                    },
                    input,
                    voice: match self.voice {
                        Some(v) => v,
                        None => SpeechVoice::Echo,
                    },
                    response_format: match self.response_format {
                        Some(f) => f,
                        None => SpeechResponseFormat::Mp3,
                    },
                    speed: self.speed,
                },
            ),
            None => Err(BuildError::MissingField),
        }
    }
}

} // verus!
