//! Image-generation requests and responses.
use crate::error::BuildError;
use crate::error::SdkError;
use crate::json::Json;
use crate::json::JsonModel;
use crate::json::elems_model;
use crate::json::entries_model;
use crate::json::json_str;
use crate::json::json_u64;
use crate::json::lemma_obj_model;
use crate::json::lookup;
use crate::json::obj_push;
use crate::json::obj_push_opt;
use crate::json::opt_entry;
use crate::json::opt_str_model;
use vstd::prelude::*;

verus! {

/// A request against the image-generation endpoint.
///
/// Every optional field that is unset is left out of the serialized body
/// entirely.
#[derive(Debug)]
pub struct CreateImageRequest {
    /// A text description of the desired image, at most 4000 characters.
    pub prompt: String,
    /// The model to draw with.
    pub model: ImageModel,
    /// How many images to generate, between 1 and 10; the current model only
    /// supports 1.
    pub n: Option<usize>,
    /// The quality of the generated image.
    pub quality: Option<ImageQuality>,
    /// Whether the image comes back as a URL or inline.
    pub response_format: Option<ImageResponseFormat>,
    /// The size of the generated image.
    pub size: Option<ImageSize>,
    /// The style of the generated image.
    pub style: Option<ImageStyle>,
    /// An end-user identifier.
    pub user: Option<String>,
}

/// The image models with their fixed wire names.
#[derive(Debug, Clone, Copy, PartialEq, Eq, Structural)]
pub enum ImageModel {
    DallE3,
}

/// The qualities an image can be generated in.
#[derive(Debug, Clone, Copy, PartialEq, Eq, Structural)]
pub enum ImageQuality {
    Standard,
    Hd,
}

/// Whether a generated image comes back as a URL or as inline data.
#[derive(Debug, Clone, Copy, PartialEq, Eq, Structural)]
pub enum ImageResponseFormat {
    Url,
    B64Json,
}

/// The sizes an image can be generated in.
#[derive(Debug, Clone, Copy, PartialEq, Eq, Structural)]
pub enum ImageSize {
    Large,
    LargeWide,
    LargeTall,
}

/// The styles an image can be generated in.
#[derive(Debug, Clone, Copy, PartialEq, Eq, Structural)]
pub enum ImageStyle {
    Vivid,
    Natural,
}

/// The answer to an image-generation request.
#[derive(Debug)]
pub struct CreateImageResponse {
    /// When the images were created, in seconds since the epoch.
    pub created: u64,
    /// The generated images.
    pub data: Vec<ImageObject>,
}

/// One generated image.
#[derive(Debug)]
pub struct ImageObject {
    /// The image as base64 data, when inline data was asked for.
    pub b64_json: Option<String>,
    /// The image's URL, when a URL was asked for.
    pub url: Option<String>,
    /// The prompt actually used, after any revision.
    pub revised_prompt: String,
}

impl Default for ImageModel {
    /// The single supported image model.
    fn default() -> (r: Self)
        ensures
            r == ImageModel::DallE3,
    {
        ImageModel::DallE3
    }
}

impl Default for ImageQuality {
    /// The default quality is standard.
    fn default() -> (r: Self)
        ensures
            r == ImageQuality::Standard,
    {
        ImageQuality::Standard
    }
}

impl Default for ImageSize {
    /// The default size is the square one.
    fn default() -> (r: Self)
        ensures
            r == ImageSize::Large,
    {
        ImageSize::Large
    }
}

impl Default for ImageStyle {
    /// The default style is vivid.
    fn default() -> (r: Self)
        ensures
            r == ImageStyle::Vivid,
    {
        ImageStyle::Vivid
    }
}

impl ImageModel {
    /// The fixed wire name of this model.
    pub open spec fn spec_wire(self) -> Seq<char> {
        "dall-e-3"@
    }

    /// Writes the fixed wire name of this model.
    pub fn wire(&self) -> (r: String)
        ensures
            r@ == self.spec_wire(),
    {
        "dall-e-3".to_owned()
    }
}

impl ImageQuality {
    /// The fixed wire name of this quality.
    pub open spec fn spec_wire(self) -> Seq<char> {
        match self {
            ImageQuality::Standard => "standard"@,
            ImageQuality::Hd => "hd"@,
        }
    }

    /// Writes the fixed wire name of this quality.
    pub fn wire(&self) -> (r: String)
        ensures
            r@ == self.spec_wire(),
    {
        match self {
            ImageQuality::Standard => "standard".to_owned(),
            ImageQuality::Hd => "hd".to_owned(),
        }
    }
}

impl ImageResponseFormat {
    /// The fixed wire name of this format.
    pub open spec fn spec_wire(self) -> Seq<char> {
        match self {
            ImageResponseFormat::Url => "url"@,
            ImageResponseFormat::B64Json => "b64_json"@,
        }
    }

    /// Writes the fixed wire name of this format.
    pub fn wire(&self) -> (r: String)
        ensures
            r@ == self.spec_wire(),
    {
        match self {
            ImageResponseFormat::Url => "url".to_owned(),
            ImageResponseFormat::B64Json => "b64_json".to_owned(),
        }
    }
}

impl ImageSize {
    /// The fixed wire name of this size.
    pub open spec fn spec_wire(self) -> Seq<char> {
        match self {
            ImageSize::Large => "1024x1024"@,
            ImageSize::LargeWide => "1792x1024"@,
            ImageSize::LargeTall => "1024x1792"@,
        }
    }

    /// Writes the fixed wire name of this size.
    pub fn wire(&self) -> (r: String)
        ensures
            r@ == self.spec_wire(),
    {
        match self {
            ImageSize::Large => "1024x1024".to_owned(),
            ImageSize::LargeWide => "1792x1024".to_owned(),
            ImageSize::LargeTall => "1024x1792".to_owned(),
        }
    }
}

impl ImageStyle {
    /// The fixed wire name of this style.
    pub open spec fn spec_wire(self) -> Seq<char> {
        match self {
            ImageStyle::Vivid => "vivid"@,
            ImageStyle::Natural => "natural"@,
        }
    }

    /// Writes the fixed wire name of this style.
    pub fn wire(&self) -> (r: String)
        ensures
            r@ == self.spec_wire(),
    {
        match self {
            ImageStyle::Vivid => "vivid".to_owned(),
            ImageStyle::Natural => "natural".to_owned(),
        }
    }
}

impl CreateImageRequest {
    /// Builds an image request around a prompt, everything else at its
    /// default.
    pub fn new(prompt: &str) -> (r: CreateImageRequest)
        ensures
            r.prompt@ == prompt@,
            r.model == ImageModel::DallE3,
            r.n is None,
            r.quality is None,
            r.response_format is None,
            r.size is None,
            r.style is None,
            r.user is None,
    {
        CreateImageRequest {
            prompt: prompt.to_owned(),
            model: ImageModel::DallE3,
            n: None,
            quality: None,
            response_format: None,
            size: None,
            style: None,
            user: None,
        }
    }

    /// The serialized entries of this request: prompt and model always, and
    /// every optional field only when set.
    pub open spec fn spec_entries(self) -> Seq<(Seq<char>, JsonModel)> {
        seq![
            ("prompt"@, JsonModel::Str(self.prompt@)),
            ("model"@, JsonModel::Str(self.model.spec_wire())),
        ] + opt_entry("n"@, crate::json::opt_usize_model(self.n)) + opt_entry(
            "quality"@,
            match self.quality {
                Option::Some(q) => Option::Some(JsonModel::Str(q.spec_wire())),
                Option::None => Option::None,
            },
        ) + opt_entry(
            "response_format"@,
            match self.response_format {
                Option::Some(f) => Option::Some(JsonModel::Str(f.spec_wire())),
                Option::None => Option::None,
            },
        ) + opt_entry(
            "size"@,
            match self.size {
                Option::Some(s) => Option::Some(JsonModel::Str(s.spec_wire())),
                Option::None => Option::None,
            },
        ) + opt_entry(
            "style"@,
            match self.style {
                Option::Some(s) => Option::Some(JsonModel::Str(s.spec_wire())),
                Option::None => Option::None,
            },
        ) + opt_entry("user"@, opt_str_model(self.user))
    }

    /// The serialized shape of this request.
    pub open spec fn spec_json(self) -> JsonModel {
        JsonModel::Obj(self.spec_entries())
    }

    /// Serializes this request as the body of an image-generation call.
    #[verifier::rlimit(100)]
    pub fn to_json(self) -> (r: Json)
        ensures
            r@ == self.spec_json(),
    {
        broadcast use lemma_obj_model;
        broadcast use Seq::add_empty_left;
        broadcast use Seq::add_empty_right;

        let mut o: Vec<(String, Json)> = Vec::new();
        obj_push(&mut o, "prompt", Json::Str(self.prompt.clone()));
        obj_push(&mut o, "model", Json::Str(self.model.wire()));
        let ghost mut acc: Seq<(Seq<char>, JsonModel)> = seq![
            ("prompt"@, JsonModel::Str(self.prompt@)),
            ("model"@, JsonModel::Str(self.model.spec_wire())),
        ];
        proof {
            assert(entries_model(o@) =~= acc);
        }
        obj_push_opt(
            &mut o,
            "n",
            match self.n {
                Some(v) => Some(Json::UInt(v as u64)),
                None => None,
            },
        );
        proof {
            acc = acc + opt_entry("n"@, crate::json::opt_usize_model(self.n));
            assert(entries_model(o@) == acc);
        }
        obj_push_opt(
            &mut o,
            "quality",
            match &self.quality {
                Some(q) => Some(Json::Str(q.wire())),
                None => None,
            },
        );
        proof {
            acc = acc + opt_entry(
                "quality"@,
                match self.quality {
                    Option::Some(q) => Option::Some(JsonModel::Str(q.spec_wire())),
                    Option::None => Option::None,
                },
            );
            assert(entries_model(o@) == acc);
        }
        obj_push_opt(
            &mut o,
            "response_format",
            match &self.response_format {
                Some(f) => Some(Json::Str(f.wire())),
                None => None,
            },
        );
        proof {
            acc = acc + opt_entry(
                "response_format"@,
                match self.response_format {
                    Option::Some(f) => Option::Some(JsonModel::Str(f.spec_wire())),
                    Option::None => Option::None,
                },
            );
            assert(entries_model(o@) == acc);
        }
        obj_push_opt(
            &mut o,
            "size",
            match &self.size {
                Some(s) => Some(Json::Str(s.wire())),
                None => None,
            },
        );
        proof {
            acc = acc + opt_entry(
                "size"@,
                match self.size {
                    Option::Some(s) => Option::Some(JsonModel::Str(s.spec_wire())),
                    Option::None => Option::None,
                },
            );
            assert(entries_model(o@) == acc);
        }
        obj_push_opt(
            &mut o,
            "style",
            match &self.style {
                Some(s) => Some(Json::Str(s.wire())),
                None => None,
            },
        );
        proof {
            acc = acc + opt_entry(
                "style"@,
                match self.style {
                    Option::Some(s) => Option::Some(JsonModel::Str(s.spec_wire())),
                    Option::None => Option::None,
                },
            );
            assert(entries_model(o@) == acc);
        }
        obj_push_opt(
            &mut o,
            "user",
            match &self.user {
                Some(u) => Some(Json::Str(u.clone())),
                None => None,
            },
        );
        proof {
            acc = acc + opt_entry("user"@, opt_str_model(self.user));
            assert(entries_model(o@) == acc);
            assert(acc == self.spec_entries());
        }
        Json::Obj(o)
    }
}

impl ImageObject {
    /// This image is what the JSON document describes: the two delivery
    /// fields may be absent or null.
    pub open spec fn matches_json(self, j: JsonModel) -> bool {
        &&& j is Obj
        &&& match self.b64_json {
            Option::Some(s) => lookup(j->Obj_0, "b64_json"@) == Option::Some(JsonModel::Str(s@)),
            Option::None => lookup(j->Obj_0, "b64_json"@) is None || lookup(j->Obj_0, "b64_json"@)
                == Option::Some(JsonModel::Null),
        }
        &&& match self.url {
            Option::Some(s) => lookup(j->Obj_0, "url"@) == Option::Some(JsonModel::Str(s@)),
            Option::None => lookup(j->Obj_0, "url"@) is None || lookup(j->Obj_0, "url"@)
                == Option::Some(JsonModel::Null),
        }
        &&& lookup(j->Obj_0, "revised_prompt"@) == Option::Some(
            JsonModel::Str(self.revised_prompt@),
        )
    }

    /// Reads one image from a JSON document; other keys are ignored.
    pub fn from_json(j: &Json) -> (r: Result<ImageObject, SdkError>)
        ensures
            match r {
                Result::Ok(v) => v.matches_json(j@),
                Result::Err(e) => e is Decode && forall|v: ImageObject| !v.matches_json(j@),
            },
    {
        if let Json::Obj(_) = j {
        } else {
            return Err(SdkError::Decode);
        }
        let b64_json = match j.get(&"b64_json".to_owned()) {
            None => None,
            Some(v) => match v {
                Json::Null => None,
                Json::Str(s) => Some(s.clone()),
                _ => {
                    return Err(SdkError::Decode);
                },
            },
        };
        let url = match j.get(&"url".to_owned()) {
            None => None,
            Some(v) => match v {
                Json::Null => None,
                Json::Str(s) => Some(s.clone()),
                _ => {
                    return Err(SdkError::Decode);
                },
            },
        };
        let revised_prompt = match j.get(&"revised_prompt".to_owned()) {
            Some(v) => match json_str(v) {
                Some(s) => s,
                None => {
                    return Err(SdkError::Decode);
                },
            },
            None => {
                return Err(SdkError::Decode);
            },
        };
        Ok(ImageObject { b64_json, url, revised_prompt })
    }
}

impl CreateImageResponse {
    /// This answer is what the JSON document describes.
    pub open spec fn matches_json(self, j: JsonModel) -> bool {
        &&& j is Obj
        &&& lookup(j->Obj_0, "created"@) == Option::Some(JsonModel::Int(self.created as int))
        &&& match lookup(j->Obj_0, "data"@) {
            Option::Some(JsonModel::Arr(a)) => self.data@.len() == a.len() && (forall|i: int|
                0 <= i < a.len() ==> #[trigger] self.data@[i].matches_json(a[i])),
            _ => false,
        }
    }

    /// Reads an image-generation answer from a JSON document; unknown keys
    /// are ignored.
    pub fn from_json(j: &Json) -> (r: Result<CreateImageResponse, SdkError>)
        ensures
            match r {
                Result::Ok(v) => v.matches_json(j@),
                Result::Err(e) => e is Decode && forall|v: CreateImageResponse| !v.matches_json(j@),
            },
    {
        broadcast use crate::json::lemma_arr_model;

        let created = match j.get(&"created".to_owned()) {
            Some(v) => match json_u64(v) {
                Some(u) => u,
                None => {
                    return Err(SdkError::Decode);
                },
            },
            None => {
                return Err(SdkError::Decode);
            },
        };
        let data = match j.get(&"data".to_owned()) {
            Some(v) => match v {
                Json::Arr(a) => {
                    proof {
                        assert(v@ == JsonModel::Arr(elems_model(a@)));
                    }
                    let mut out: Vec<ImageObject> = Vec::new();
                    let mut i: usize = 0;
                    while i < a.len()
                        invariant
                            i <= a.len(),
                            out@.len() == i,
                            v@ == JsonModel::Arr(elems_model(a@)),
                            j@ is Obj,
                            lookup(j@->Obj_0, "data"@) == Option::Some(v@),
                            forall|k: int|
                                0 <= k < i ==> #[trigger] out@[k].matches_json(
                                    elems_model(a@)[k],
                                ),
                        decreases a.len() - i,
                    {
                        match ImageObject::from_json(&a[i]) {
                            Ok(img) => {
                                out.push(img);
                            },
                            Err(e) => {
                                proof {
                                    assert forall|m: CreateImageResponse| !m.matches_json(
                                        j@,
                                    ) by {
                                        if m.matches_json(j@) {
                                            let arr = lookup(j@->Obj_0, "data"@)->Some_0->Arr_0;
                                            assert(m.data@[i as int].matches_json(
                                                arr[i as int],
                                            ));
                                            assert(arr[i as int] == a@[i as int]@);
                                        }
                                    }
                                }
                                return Err(e);
                            },
                        }
                        i = i + 1;
                    }
                    out
                },
                _ => {
                    return Err(SdkError::Decode);
                },
            },
            None => {
                return Err(SdkError::Decode);
            },
        };
        Ok(CreateImageResponse { created, data })
    }
}

/// Builds a [`CreateImageRequest`]; only the prompt is required.
#[derive(Debug)]
pub struct CreateImageRequestBuilder {
    pub prompt: Option<String>,
    pub model: Option<ImageModel>,
    pub n: Option<usize>,
    pub quality: Option<ImageQuality>,
    pub response_format: Option<ImageResponseFormat>,
    pub size: Option<ImageSize>,
    pub style: Option<ImageStyle>,
    pub user: Option<String>,
}

impl Default for CreateImageRequestBuilder {
    /// A builder with nothing set yet.
    fn default() -> (r: Self)
        ensures
            r == (CreateImageRequestBuilder {
                prompt: Option::None,
                model: Option::None,
                n: Option::None,
                quality: Option::None,
                response_format: Option::None,
                size: Option::None,
                style: Option::None,
                user: Option::None,
            }),
    {
        CreateImageRequestBuilder {
            prompt: None,
            model: None,
            n: None,
            quality: None,
            response_format: None,
            size: None,
            style: None,
            user: None,
        }
    }
}

impl CreateImageRequestBuilder {
    /// Sets the prompt.
    pub fn prompt(self, v: &str) -> (r: Self)
        ensures
            r.prompt matches Some(p) && p@ == v@,
            r.model == self.model,
            r.n == self.n,
            r.quality == self.quality,
            r.response_format == self.response_format,
            r.size == self.size,
            r.style == self.style,
            r.user == self.user,
    {
        CreateImageRequestBuilder { prompt: Some(v.to_owned()), ..self }
    }

    /// Sets the model.
    pub fn model(self, v: ImageModel) -> (r: Self)
        ensures
            r == (CreateImageRequestBuilder { model: Option::Some(v), ..self }),
    {
        CreateImageRequestBuilder { model: Some(v), ..self }
    }

    /// Sets how many images to generate.
    pub fn n(self, v: usize) -> (r: Self)
        ensures
            r == (CreateImageRequestBuilder { n: Option::Some(v), ..self }),
    {
        CreateImageRequestBuilder { n: Some(v), ..self }
    }

    /// Sets the quality.
    pub fn quality(self, v: ImageQuality) -> (r: Self)
        ensures
            r == (CreateImageRequestBuilder { quality: Option::Some(v), ..self }),
    {
        CreateImageRequestBuilder { quality: Some(v), ..self }
    }

    /// Sets the delivery format.
    pub fn response_format(self, v: ImageResponseFormat) -> (r: Self)
        ensures
            r == (CreateImageRequestBuilder { response_format: Option::Some(v), ..self }),
    {
        CreateImageRequestBuilder { response_format: Some(v), ..self }
    }

    /// Sets the size.
    pub fn size(self, v: ImageSize) -> (r: Self)
        ensures
            r == (CreateImageRequestBuilder { size: Option::Some(v), ..self }),
    {
        CreateImageRequestBuilder { size: Some(v), ..self }
    }

    /// Sets the style.
    pub fn style(self, v: ImageStyle) -> (r: Self)
        ensures
            r == (CreateImageRequestBuilder { style: Option::Some(v), ..self }),
    {
        CreateImageRequestBuilder { style: Some(v), ..self }
    }

    /// Sets the end-user identifier.
    pub fn user(self, v: String) -> (r: Self)
        ensures
            r == (CreateImageRequestBuilder { user: Option::Some(v), ..self }),
    {
        CreateImageRequestBuilder { user: Some(v), ..self }
    }

    /// Finishes the builder; this fails exactly when the required prompt was
    /// never set.
    pub fn build(self) -> (r: Result<CreateImageRequest, BuildError>)
        ensures
            match r {
                Result::Ok(req) => {
                    &&& self.prompt is Some
                    &&& req.prompt == self.prompt.unwrap()
                    &&& req.model == self.model.unwrap_or(ImageModel::DallE3)
                    &&& req.n == self.n
                    &&& req.quality == self.quality
                    &&& req.response_format == self.response_format
                    &&& req.size == self.size
                    &&& req.style == self.style
                    &&& req.user == self.user
                },
                Result::Err(e) => self.prompt is None && e == BuildError::MissingField,
            },
    {
        match self.prompt {
            Some(prompt) => Ok(
                CreateImageRequest {
                    prompt,
                    model: match self.model {
                        Some(m) => m,
                        None => ImageModel::DallE3,
                    },
                    n: self.n,
                    quality: self.quality,
                    response_format: self.response_format,
                    size: self.size,
                    style: self.style,
                    user: self.user,
                },
            ),
            None => Err(BuildError::MissingField),
        }
    }
}

} // verus!
