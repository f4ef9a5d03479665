//! Embedding requests.
use crate::error::BuildError;
use crate::error::SdkError;
use crate::json::Json;
use crate::json::JsonModel;
use crate::json::arr_push;
use crate::json::elems_model;
use crate::json::entries_model;
use crate::json::lemma_obj_model;
use crate::json::lookup;
use crate::json::obj_push;
use crate::json::obj_push_opt;
use crate::json::opt_entry;
use crate::json::opt_str_model;
use vstd::prelude::*;

verus! {

/// A request against the embedding endpoint.
///
/// Every optional field that is unset is left out of the serialized body
/// entirely.
#[derive(Debug)]
pub struct EmbeddingRequest {
    /// The text, or texts, to embed.
    pub input: EmbeddingInput,
    /// The model to embed with.
    pub model: EmbeddingModel,
    /// Whether the vectors come back as numbers or base64.
    pub encoding_format: Option<EmbeddingEncodingFormat>,
    /// An end-user identifier.
    pub user: Option<String>,
}

/// The formats an embedding vector can come back in.
#[derive(Debug, Clone, Copy, PartialEq, Eq, Structural)]
pub enum EmbeddingEncodingFormat {
    FLOAT,
    BASE64,
}

/// The embedding models with their fixed wire names.
#[derive(Debug, Clone, Copy, PartialEq, Eq, Structural)]
pub enum EmbeddingModel {
    TextEmbeddingAda002,
}

/// One text or several texts to embed; a single text serializes as a bare
/// string, several as an array of strings.
#[derive(Debug)]
pub enum EmbeddingInput {
    String(String),
    StringArray(Vec<String>),
}

/// Token counts of one embedding call.
#[derive(Debug, Clone, Copy, PartialEq, Eq, Structural)]
pub struct EmbeddingUsage {
    /// Tokens in the prompt.
    pub prompt_tokens: usize,
    /// Tokens in the whole call.
    pub total_tokens: usize,
}

impl Default for EmbeddingEncodingFormat {
    /// The default encoding is numbers.
    fn default() -> (r: Self)
        ensures
            r == EmbeddingEncodingFormat::FLOAT,
    {
        EmbeddingEncodingFormat::FLOAT
    }
}

impl Default for EmbeddingModel {
    /// The single supported embedding model.
    fn default() -> (r: Self)
        ensures
            r == EmbeddingModel::TextEmbeddingAda002,
    {
        EmbeddingModel::TextEmbeddingAda002
    }
}

impl EmbeddingEncodingFormat {
    /// The fixed wire name of this encoding.
    pub open spec fn spec_wire(self) -> Seq<char> {
        match self {
            EmbeddingEncodingFormat::FLOAT => "float"@,
            EmbeddingEncodingFormat::BASE64 => "base64"@,
        }
    }

    /// Writes the fixed wire name of this encoding.
    pub fn wire(&self) -> (r: String)
        ensures
            r@ == self.spec_wire(),
    {
        match self {
            EmbeddingEncodingFormat::FLOAT => "float".to_owned(),
            EmbeddingEncodingFormat::BASE64 => "base64".to_owned(),
        }
    }
}

impl EmbeddingModel {
    /// The fixed wire name of this model.
    pub open spec fn spec_wire(self) -> Seq<char> {
        "text-embedding-ada-002"@
    }

    /// Writes the fixed wire name of this model.
    pub fn wire(&self) -> (r: String)
        ensures
            r@ == self.spec_wire(),
    {
        "text-embedding-ada-002".to_owned()
    }
}

/// The serialized shapes of a sequence of texts.
pub open spec fn spec_texts_json(s: Seq<String>) -> Seq<JsonModel> {
    s.map_values(|t: String| JsonModel::Str(t@))
}

/// Taking one more text appends one more serialized text.
proof fn lemma_texts_json_step(s: Seq<String>, i: int)
    requires
        0 <= i < s.len(),
    ensures
        spec_texts_json(s.take(i + 1)) == spec_texts_json(s.take(i)) + seq![
            JsonModel::Str(s[i]@),
        ],
{
    assert(s.take(i + 1) =~~= s.take(i).push(s[i]));
    assert(spec_texts_json(s.take(i).push(s[i])) =~~= spec_texts_json(s.take(i)) + seq![
        JsonModel::Str(s[i]@),
    ]);
}

impl EmbeddingInput {
    /// The serialized shape of the input: a bare string or an array of
    /// strings.
    pub open spec fn spec_json(self) -> JsonModel {
        match self {
            EmbeddingInput::String(s) => JsonModel::Str(s@),
            EmbeddingInput::StringArray(v) => JsonModel::Arr(spec_texts_json(v@)),
        }
    }

    /// Serializes this input.
    pub fn to_json(self) -> (r: Json)
        ensures
            r@ == self.spec_json(),
    {
        broadcast use crate::json::lemma_arr_model;

        match self {
            EmbeddingInput::String(s) => Json::Str(s),
            EmbeddingInput::StringArray(v) => {
                let mut arr: Vec<Json> = Vec::new();
                let mut i: usize = 0;
                while i < v.len()
                    invariant
                        i <= v.len(),
                        elems_model(arr@) == spec_texts_json(v@.take(i as int)),
                    decreases v.len() - i,
                {
                    arr_push(&mut arr, Json::Str(v[i].clone()));
                    proof {
                        lemma_texts_json_step(v@, i as int);
                    }
                    i = i + 1;
                }
                proof {
                    assert(v@.take(v@.len() as int) =~~= v@);
                }
                Json::Arr(arr)
            },
        }
    }
}

impl From<String> for EmbeddingInput {
    /// A single text embeds as itself.
    fn from(value: String) -> (r: Self) {
        EmbeddingInput::String(value)
    }
}

impl vstd::std_specs::convert::FromSpecImpl<String> for EmbeddingInput {
    open spec fn obeys_from_spec() -> bool {
        true
    }

    open spec fn from_spec(value: String) -> Self {
        EmbeddingInput::String(value)
    }
}

impl From<Vec<String>> for EmbeddingInput {
    /// Several texts embed as an array.
    fn from(value: Vec<String>) -> (r: Self) {
        EmbeddingInput::StringArray(value)
    }
}

impl vstd::std_specs::convert::FromSpecImpl<Vec<String>> for EmbeddingInput {
    open spec fn obeys_from_spec() -> bool {
        true
    }

    open spec fn from_spec(value: Vec<String>) -> Self {
        EmbeddingInput::StringArray(value)
    }
}

impl From<&str> for EmbeddingInput {
    /// A borrowed text embeds as an owned copy of itself.
    fn from(value: &str) -> (r: Self) {
        EmbeddingInput::String(value.to_owned())
    }
}

impl vstd::std_specs::convert::FromSpecImpl<&str> for EmbeddingInput {
    /// No specification value can name the owned copy of a borrowed string,
    /// so nothing is claimed of this conversion; the owned conversions carry
    /// the exact contract.
    open spec fn obeys_from_spec() -> bool {
        false
    }

    open spec fn from_spec(value: &str) -> Self {
        vstd::pervasive::arbitrary()
    }
}

impl From<&[String]> for EmbeddingInput {
    /// Borrowed texts embed as an owned copy of the list.
    fn from(value: &[String]) -> (r: Self) {
        let mut texts: Vec<String> = Vec::new();
        let mut i: usize = 0;
        while i < value.len()
            invariant
                i <= value@.len(),
                texts@.len() == i,
                forall|k: int| 0 <= k < i ==> #[trigger] texts@[k]@ == value@[k]@,
            decreases value@.len() - i,
        {
            texts.push(value[i].clone());
            i = i + 1;
        }
        EmbeddingInput::StringArray(texts)
    }
}

impl vstd::std_specs::convert::FromSpecImpl<&[String]> for EmbeddingInput {
    /// No specification value can name the owned copy of a borrowed list,
    /// so nothing is claimed of this conversion; the owned conversions carry
    /// the exact contract.
    open spec fn obeys_from_spec() -> bool {
        false
    }

    open spec fn from_spec(value: &[String]) -> Self {
        vstd::pervasive::arbitrary()
    }
}

impl EmbeddingRequest {
    /// Builds an embedding request around its input, everything else at its
    /// default.
    pub fn new(input: EmbeddingInput) -> (r: EmbeddingRequest)
        ensures
            r.input == input,
            r.model == EmbeddingModel::TextEmbeddingAda002,
            r.encoding_format is None,
            r.user is None,
    {
        EmbeddingRequest {
            input,
            model: EmbeddingModel::TextEmbeddingAda002,
            encoding_format: None,
            user: None,
        }
    }

    /// The serialized entries of this request: input and model always, and
    /// the optional fields only when set.
    pub open spec fn spec_entries(self) -> Seq<(Seq<char>, JsonModel)> {
        seq![
            ("input"@, self.input.spec_json()),
            ("model"@, JsonModel::Str(self.model.spec_wire())),
        ] + opt_entry(
            "encoding_format"@,
            match self.encoding_format {
                Option::Some(f) => Option::Some(JsonModel::Str(f.spec_wire())),
                Option::None => Option::None,
            },
        ) + opt_entry("user"@, opt_str_model(self.user))
    }

    /// The serialized shape of this request.
    pub open spec fn spec_json(self) -> JsonModel {
        JsonModel::Obj(self.spec_entries())
    }

    /// Serializes this request as the body of an embedding call.
    pub fn to_json(self) -> (r: Json)
        ensures
            r@ == self.spec_json(),
    {
        broadcast use lemma_obj_model;

        let ghost g = self;
        let EmbeddingRequest { input, model, encoding_format, user } = self;
        let mut o: Vec<(String, Json)> = Vec::new();
        obj_push(&mut o, "input", input.to_json());
        obj_push(&mut o, "model", Json::Str(model.wire()));
        obj_push_opt(
            &mut o,
            "encoding_format",
            match &encoding_format {
                Some(f) => Some(Json::Str(f.wire())),
                None => None,
            },
        );
        obj_push_opt(
            &mut o,
            "user",
            match &user {
                Some(u) => Some(Json::Str(u.clone())),
                None => None,
            },
        );
        proof {
            assert(entries_model(o@) =~~= g.spec_entries());
        }
        Json::Obj(o)
    }
}

impl EmbeddingUsage {
    /// These token counts are what the JSON document describes.
    pub open spec fn matches_json(self, j: JsonModel) -> bool {
        &&& j is Obj
        &&& lookup(j->Obj_0, "prompt_tokens"@) == Option::Some(
            JsonModel::Int(self.prompt_tokens as int),
        )
        &&& lookup(j->Obj_0, "total_tokens"@) == Option::Some(
            JsonModel::Int(self.total_tokens as int),
        )
    }

    /// Reads token counts from a JSON document; other keys are ignored.
    pub fn from_json(j: &Json) -> (r: Result<EmbeddingUsage, SdkError>)
        ensures
            match r {
                Result::Ok(v) => v.matches_json(j@),
                Result::Err(e) => e is Decode && forall|v: EmbeddingUsage| !v.matches_json(j@),
            },
    {
        let prompt_tokens = match j.get(&"prompt_tokens".to_owned()) {
            Some(v) => match crate::json::json_usize(v) {
                Some(u) => u,
                None => {
                    return Err(SdkError::Decode);
                },
            },
            None => {
                return Err(SdkError::Decode);
            },
        };
        let total_tokens = match j.get(&"total_tokens".to_owned()) {
            Some(v) => match crate::json::json_usize(v) {
                Some(u) => u,
                None => {
                    return Err(SdkError::Decode);
                },
            },
            None => {
                return Err(SdkError::Decode);
            },
        };
        Ok(EmbeddingUsage { prompt_tokens, total_tokens })
    }
}

/// Builds an [`EmbeddingRequest`]; only the input is required.
#[derive(Debug)]
pub struct EmbeddingRequestBuilder {
    pub input: Option<EmbeddingInput>,
    pub model: Option<EmbeddingModel>,
    pub encoding_format: Option<EmbeddingEncodingFormat>,
    pub user: Option<String>,
}

impl Default for EmbeddingRequestBuilder {
    /// A builder with nothing set yet.
    fn default() -> (r: Self)
        ensures
            r == (EmbeddingRequestBuilder {
                input: Option::None,
                model: Option::None,
                encoding_format: Option::None,
                user: Option::None,
            }),
    {
        EmbeddingRequestBuilder { input: None, model: None, encoding_format: None, user: None }
    }
}

impl EmbeddingRequestBuilder {
    /// Sets the input.
    pub fn input(self, v: EmbeddingInput) -> (r: Self)
        ensures
            r == (EmbeddingRequestBuilder { input: Option::Some(v), ..self }),
    {
        EmbeddingRequestBuilder { input: Some(v), ..self }
    }

    /// Sets the model.
    pub fn model(self, v: EmbeddingModel) -> (r: Self)
        ensures
            r == (EmbeddingRequestBuilder { model: Option::Some(v), ..self }),
    {
        EmbeddingRequestBuilder { model: Some(v), ..self }
    }

    /// Sets the vector encoding.
    pub fn encoding_format(self, v: EmbeddingEncodingFormat) -> (r: Self)
        ensures
            r == (EmbeddingRequestBuilder { encoding_format: Option::Some(v), ..self }),
    {
        EmbeddingRequestBuilder { encoding_format: Some(v), ..self }
    }

    /// Sets the end-user identifier.
    pub fn user(self, v: String) -> (r: Self)
        ensures
            r == (EmbeddingRequestBuilder { user: Option::Some(v), ..self }),
    {
        EmbeddingRequestBuilder { user: Some(v), ..self }
    }

    /// Finishes the builder; this fails exactly when the required input was
    /// never set.
    pub fn build(self) -> (r: Result<EmbeddingRequest, BuildError>)
        ensures
            match r {
                Result::Ok(req) => {
                    &&& self.input is Some
                    &&& req.input == self.input.unwrap()
                    &&& req.model == self.model.unwrap_or(EmbeddingModel::TextEmbeddingAda002)
                    &&& req.encoding_format == self.encoding_format
                    &&& req.user == self.user
                },
                Result::Err(e) => self.input is None && e == BuildError::MissingField,
            },
    {
        match self.input {
            Some(input) => Ok(
                EmbeddingRequest {
                    input,
                    model: match self.model {
                        Some(m) => m,
                        None => EmbeddingModel::TextEmbeddingAda002,
                    },
                    encoding_format: self.encoding_format,
                    user: self.user,
                },
            ),
            None => Err(BuildError::MissingField),
        }
    }
}

} // verus!
