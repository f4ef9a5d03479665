//! Chat-completion requests and responses.
use crate::error::BuildError;
use crate::error::SdkError;
use crate::json::Json;
use crate::json::JsonModel;
use crate::json::arr_push;
use crate::json::elems_model;
use crate::json::entries_get;
use crate::json::entries_model;
use crate::json::json_str;
use crate::json::json_usize;
use crate::json::lookup;
use crate::json::lemma_obj_model;
use crate::json::obj_push;
use crate::json::obj_push_opt;
use crate::json::opt_entry;
use crate::json::opt_str_model;
use vstd::prelude::*;

verus! {

broadcast use vstd::string::group_string_axioms;

/// The view of an optional string field.
pub open spec fn opt_view(v: Option<String>) -> Option<Seq<char>> {
    match v {
        Option::Some(s) => Option::Some(s@),
        Option::None => Option::None,
    }
}

/// A request against the chat-completion endpoint.
///
/// Every field that is `None` (or, for the vectors, empty where so marked) is
/// left out of the serialized body entirely.
#[derive(Debug)]
pub struct ChatCompletionRequest {
    /// The messages comprising the conversation so far.
    pub messages: Vec<ChatCompletionMessage>,
    /// The model to answer with.
    pub model: ChatCompleteModel,
    /// Penalty on tokens by their frequency so far, between -2.0 and 2.0.
    pub frequency_penalty: Option<i32>,
    /// The maximum number of tokens to generate.
    pub max_tokens: Option<usize>,
    /// How many choices to generate for each input.
    pub n: Option<usize>,
    /// Penalty on tokens that already appeared, between -2.0 and 2.0.
    pub presence_penalty: Option<usize>,
    /// The format the model must answer in.
    pub response_format: Option<ChatResponseFormatObject>,
    /// Best-effort seed for deterministic sampling.
    pub seed: Option<usize>,
    /// A sequence at which generation stops.
    pub stop: Option<String>,
    /// Whether partial deltas are streamed back.
    pub stream: Option<bool>,
    /// Sampling temperature, between 0 and 2.
    pub temperature: Option<i32>,
    /// Nucleus-sampling probability mass.
    pub top_p: Option<i32>,
    /// Tools the model may call; left out of the body when empty.
    pub tools: Vec<Tool>,
    /// Which tool, if any, the model must call.
    pub tool_choice: Option<ToolChoice>,
    /// An end-user identifier.
    pub user: Option<String>,
}

/// Controls whether and which tool the model must invoke.
#[derive(Debug)]
pub enum ToolChoice {
    NoTool,
    Auto,
    Function { kind: ToolType, name: String },
}

/// A callable function exposed to the model.
#[derive(Debug)]
pub struct Tool {
    /// The kind of the tool; only functions exist today.
    pub kind: ToolType,
    /// The function this tool stands for.
    pub function: FunctionInfo,
}

/// Describes one function the model may call.
#[derive(Debug)]
pub struct FunctionInfo {
    /// What the function does, used by the model to pick it.
    pub description: String,
    /// The function's name.
    pub name: String,
    /// The JSON-Schema document of the function's arguments, embedded
    /// verbatim in the serialized tool.
    pub parameters: Json,
}

/// Wraps the answer format so it serializes as `{"type": ...}`.
#[derive(Debug, Clone, Copy)]
pub struct ChatResponseFormatObject {
    pub kind: ChatResponseFormat,
}

/// The format the model must answer in.
#[derive(Debug, Clone, Copy, PartialEq, Eq, Structural)]
pub enum ChatResponseFormat {
    Text,
    Json,
}

/// One message of a conversation, tagged by the role of its author.
#[derive(Debug)]
pub enum ChatCompletionMessage {
    System(SystemMessage),
    User(UserMessage),
    Assistant(AssistantMessage),
    Tool(ToolMessage),
}

/// The chat models with their fixed wire names.
#[derive(Debug, Clone, Copy, PartialEq, Eq, Structural)]
pub enum ChatCompleteModel {
    GPT3Turbo,
    GPT3TurboInstruct,
    GPT4Turbo,
    GPT4TurboVersion,
    Test,
}

/// A message from the system.
#[derive(Debug)]
pub struct SystemMessage {
    /// The contents of the message.
    pub content: String,
    /// An optional participant name; never serialized when absent.
    pub name: Option<String>,
}

/// A message from a user.
#[derive(Debug)]
pub struct UserMessage {
    /// The contents of the message.
    pub content: String,
    /// An optional participant name; never serialized when absent.
    pub name: Option<String>,
}

/// A message from the assistant, possibly carrying tool calls.
#[derive(Debug)]
pub struct AssistantMessage {
    /// The contents of the message, absent when the model only called tools.
    pub content: Option<String>,
    /// An optional participant name; never serialized when absent.
    pub name: Option<String>,
    /// The tool calls the model made; left out of the body when empty.
    pub tool_calls: Vec<ToolCalls>,
}

/// A message reporting a tool's result.
#[derive(Debug)]
pub struct ToolMessage {
    /// The contents of the message.
    pub content: String,
    /// The tool call this message answers.
    pub tool_call_id: String,
}

/// The model's concrete invocation of a tool.
#[derive(Debug)]
pub struct ToolCalls {
    /// The identifier of the call.
    pub id: String,
    /// The kind of the tool; only functions exist today.
    pub kind: ToolType,
    /// The function the model called.
    pub function: FunctionCall,
}

/// The function and arguments of one tool call.
#[derive(Debug)]
pub struct FunctionCall {
    /// The name of the function to call.
    pub name: String,
    /// The arguments, as JSON text generated by the model.
    pub arguments: String,
}

/// The kinds of tool; only functions exist today.
#[derive(Debug, Clone, Copy, PartialEq, Eq, Structural)]
pub enum ToolType {
    Function,
}

/// Why a generation ended.
#[derive(Debug, Clone, Copy, PartialEq, Eq, Structural)]
pub enum FinishReason {
    Stop,
    Length,
    ContentFilter,
    ToolCalls,
}

impl Default for ChatCompleteModel {
    /// The default chat model is the lowest-cost turbo variant.
    fn default() -> (r: Self)
        ensures
            r == ChatCompleteModel::GPT3Turbo,
    {
        ChatCompleteModel::GPT3Turbo
    }
}

impl Default for ChatResponseFormat {
    /// The default answer format is JSON.
    fn default() -> (r: Self)
        ensures
            r == ChatResponseFormat::Json,
    {
        ChatResponseFormat::Json
    }
}

impl Default for ToolChoice {
    fn default() -> (r: Self)
        ensures
            r matches ToolChoice::NoTool,
    {
        ToolChoice::NoTool
    }
}

impl Default for ToolType {
    fn default() -> (r: Self)
        ensures
            r == ToolType::Function,
    {
        ToolType::Function
    }
}

impl Default for FinishReason {
    fn default() -> (r: Self)
        ensures
            r == FinishReason::Stop,
    {
        FinishReason::Stop
    }
}

impl ChatCompleteModel {
    /// The fixed wire name of this model.
    pub open spec fn spec_wire(self) -> Seq<char> {
        match self {
            ChatCompleteModel::GPT3Turbo => "gpt-3.5-turbo-1106"@,
            ChatCompleteModel::GPT3TurboInstruct => "gpt-3.5-turbo-instruct"@,
            ChatCompleteModel::GPT4Turbo => "gpt-4-1106-preview"@,
            ChatCompleteModel::GPT4TurboVersion => "gpt-4-1106-vision-preview"@,
            ChatCompleteModel::Test => "babbage-002"@,
        }
    }

    /// Writes the fixed wire name of this model.
    pub fn wire(&self) -> (r: String)
        ensures
            r@ == self.spec_wire(),
    {
        match self {
            ChatCompleteModel::GPT3Turbo => "gpt-3.5-turbo-1106".to_owned(),
            ChatCompleteModel::GPT3TurboInstruct => "gpt-3.5-turbo-instruct".to_owned(),
            ChatCompleteModel::GPT4Turbo => "gpt-4-1106-preview".to_owned(),
            ChatCompleteModel::GPT4TurboVersion => "gpt-4-1106-vision-preview".to_owned(),
            ChatCompleteModel::Test => "babbage-002".to_owned(),
        }
    }
}

impl ChatResponseFormat {
    /// The fixed wire name of this format.
    pub open spec fn spec_wire(self) -> Seq<char> {
        match self {
            ChatResponseFormat::Text => "text"@,
            ChatResponseFormat::Json => "json"@,
        }
    }

    /// Writes the fixed wire name of this format.
    pub fn wire(&self) -> (r: String)
        ensures
            r@ == self.spec_wire(),
    {
        match self {
            ChatResponseFormat::Text => "text".to_owned(),
            ChatResponseFormat::Json => "json".to_owned(),
        }
    }
}

/// The serialized shapes of a sequence of messages.
pub open spec fn spec_msgs_json(s: Seq<ChatCompletionMessage>) -> Seq<JsonModel> {
    s.map_values(|m: ChatCompletionMessage| m.spec_json())
}

/// Taking one more message appends one more serialized message.
pub proof fn lemma_msgs_json_step(s: Seq<ChatCompletionMessage>, i: int)
    requires
        0 <= i < s.len(),
    ensures
        spec_msgs_json(s.take(i + 1)) == spec_msgs_json(s.take(i)) + seq![s[i].spec_json()],
{
    assert(s.take(i + 1) =~~= s.take(i).push(s[i]));
    assert(spec_msgs_json(s.take(i).push(s[i]))
        =~~= spec_msgs_json(s.take(i)) + seq![s[i].spec_json()]);
}

/// The serialized shapes of a sequence of tools.
pub open spec fn spec_tools_json(s: Seq<Tool>) -> Seq<JsonModel> {
    s.map_values(|t: Tool| t.spec_json())
}

/// Taking one more tool appends one more serialized tool.
pub proof fn lemma_tools_json_step(s: Seq<Tool>, i: int)
    requires
        0 <= i < s.len(),
    ensures
        spec_tools_json(s.take(i + 1)) == spec_tools_json(s.take(i)) + seq![s[i].spec_json()],
{
    assert(s.take(i + 1) =~~= s.take(i).push(s[i]));
    assert(spec_tools_json(s.take(i).push(s[i]))
        =~~= spec_tools_json(s.take(i)) + seq![s[i].spec_json()]);
}

/// The serialized shapes of a sequence of tool calls.
pub open spec fn spec_tool_calls_json(s: Seq<ToolCalls>) -> Seq<JsonModel> {
    s.map_values(|t: ToolCalls| t.spec_json())
}

/// Taking one more tool call appends one more serialized tool call.
pub proof fn lemma_tool_calls_json_step(s: Seq<ToolCalls>, i: int)
    requires
        0 <= i < s.len(),
    ensures
        spec_tool_calls_json(s.take(i + 1)) == spec_tool_calls_json(s.take(i))
            + seq![s[i].spec_json()],
{
    assert(s.take(i + 1) =~~= s.take(i).push(s[i]));
    assert(spec_tool_calls_json(s.take(i).push(s[i]))
        =~~= spec_tool_calls_json(s.take(i)) + seq![s[i].spec_json()]);
}

impl ToolType {
    /// The fixed wire name of this tool kind.
    pub open spec fn spec_wire(self) -> Seq<char> {
        "function"@
    }

    /// Writes the fixed wire name of this tool kind.
    pub fn wire(&self) -> (r: String)
        ensures
            r@ == self.spec_wire(),
    {
        "function".to_owned()
    }
}

impl FunctionCall {
    /// The serialized shape of this call: `{"name": ..., "arguments": ...}`.
    pub open spec fn spec_json(self) -> JsonModel {
        JsonModel::Obj(
            seq![
                ("name"@, JsonModel::Str(self.name@)),
                ("arguments"@, JsonModel::Str(self.arguments@)),
            ],
        )
    }

    /// Serializes this call.
    pub fn to_json(&self) -> (r: Json)
        ensures
            r@ == self.spec_json(),
    {
        broadcast use lemma_obj_model;

        let mut o: Vec<(String, Json)> = Vec::new();
        obj_push(&mut o, "name", Json::Str(self.name.clone()));
        obj_push(&mut o, "arguments", Json::Str(self.arguments.clone()));
        proof {
            assert(entries_model(o@) =~~= self.spec_json()->Obj_0);
        }
        Json::Obj(o)
    }
}

impl ToolCalls {
    /// The serialized shape of one tool call, tagged with the tool kind.
    pub open spec fn spec_json(self) -> JsonModel {
        JsonModel::Obj(
            seq![
                ("id"@, JsonModel::Str(self.id@)),
                ("type"@, JsonModel::Str(self.kind.spec_wire())),
                ("function"@, self.function.spec_json()),
            ],
        )
    }

    /// Serializes this tool call.
    pub fn to_json(&self) -> (r: Json)
        ensures
            r@ == self.spec_json(),
    {
        broadcast use lemma_obj_model;

        let mut o: Vec<(String, Json)> = Vec::new();
        obj_push(&mut o, "id", Json::Str(self.id.clone()));
        obj_push(&mut o, "type", Json::Str(self.kind.wire()));
        obj_push(&mut o, "function", self.function.to_json());
        proof {
            assert(entries_model(o@) =~~= self.spec_json()->Obj_0);
        }
        Json::Obj(o)
    }
}

impl SystemMessage {
    /// The serialized shape of a system message; an absent participant name
    /// is left out entirely.
    pub open spec fn spec_json(self) -> JsonModel {
        JsonModel::Obj(
            seq![
                ("role"@, JsonModel::Str("system"@)),
                ("content"@, JsonModel::Str(self.content@)),
            ] + opt_entry("name"@, opt_str_model(self.name)),
        )
    }

    /// Serializes this message.
    pub fn to_json(&self) -> (r: Json)
        ensures
            r@ == self.spec_json(),
    {
        broadcast use lemma_obj_model;

        let mut o: Vec<(String, Json)> = Vec::new();
        obj_push(&mut o, "role", Json::Str("system".to_owned()));
        obj_push(&mut o, "content", Json::Str(self.content.clone()));
        obj_push_opt(
            &mut o,
            "name",
            match &self.name {
                Some(n) => Some(Json::Str(n.clone())),
                None => None,
            },
        );
        proof {
            assert(entries_model(o@) =~~= self.spec_json()->Obj_0);
        }
        Json::Obj(o)
    }
}

impl UserMessage {
    /// The serialized shape of a user message; an absent participant name is
    /// left out entirely.
    pub open spec fn spec_json(self) -> JsonModel {
        JsonModel::Obj(
            seq![
                ("role"@, JsonModel::Str("user"@)),
                ("content"@, JsonModel::Str(self.content@)),
            ] + opt_entry("name"@, opt_str_model(self.name)),
        )
    }

    /// Serializes this message.
    pub fn to_json(&self) -> (r: Json)
        ensures
            r@ == self.spec_json(),
    {
        broadcast use lemma_obj_model;

        let mut o: Vec<(String, Json)> = Vec::new();
        obj_push(&mut o, "role", Json::Str("user".to_owned()));
        obj_push(&mut o, "content", Json::Str(self.content.clone()));
        obj_push_opt(
            &mut o,
            "name",
            match &self.name {
                Some(n) => Some(Json::Str(n.clone())),
                None => None,
            },
        );
        proof {
            assert(entries_model(o@) =~~= self.spec_json()->Obj_0);
        }
        Json::Obj(o)
    }
}

impl AssistantMessage {
    /// The serialized shape of an assistant message: absent contents and name
    /// are left out, and so is an empty list of tool calls.
    pub open spec fn spec_json(self) -> JsonModel {
        JsonModel::Obj(
            seq![("role"@, JsonModel::Str("assistant"@))]
                + opt_entry("content"@, opt_str_model(self.content)) + opt_entry(
                "name"@,
                opt_str_model(self.name),
            ) + if self.tool_calls@.len() == 0 {
                Seq::<(Seq<char>, JsonModel)>::empty()
            } else {
                seq![
                    (
                        "tool_calls"@,
                        JsonModel::Arr(spec_tool_calls_json(self.tool_calls@)),
                    ),
                ]
            },
        )
    }

    /// Serializes this message.
    pub fn to_json(&self) -> (r: Json)
        ensures
            r@ == self.spec_json(),
    {
        broadcast use lemma_obj_model;
        broadcast use crate::json::lemma_arr_model;

        let mut o: Vec<(String, Json)> = Vec::new();
        obj_push(&mut o, "role", Json::Str("assistant".to_owned()));
        obj_push_opt(
            &mut o,
            "content",
            match &self.content {
                Some(c) => Some(Json::Str(c.clone())),
                None => None,
            },
        );
        obj_push_opt(
            &mut o,
            "name",
            match &self.name {
                Some(n) => Some(Json::Str(n.clone())),
                None => None,
            },
        );
        if self.tool_calls.len() > 0 {
            let mut arr: Vec<Json> = Vec::new();
            let mut idx: usize = 0;
            while idx < self.tool_calls.len()
                invariant
                    idx <= self.tool_calls.len(),
                    elems_model(arr@) == spec_tool_calls_json(self.tool_calls@.take(idx as int)),
                decreases self.tool_calls.len() - idx,
            {
                arr_push(&mut arr, self.tool_calls[idx].to_json());
                proof {
                    lemma_tool_calls_json_step(self.tool_calls@, idx as int);
                }
                idx = idx + 1;
            }
            proof {
                assert(self.tool_calls@.take(self.tool_calls@.len() as int)
                    =~~= self.tool_calls@);
            }
            obj_push(&mut o, "tool_calls", Json::Arr(arr));
        }
        proof {
            assert(entries_model(o@) =~~= self.spec_json()->Obj_0);
        }
        Json::Obj(o)
    }
}

impl ToolMessage {
    /// The serialized shape of a tool-result message.
    pub open spec fn spec_json(self) -> JsonModel {
        JsonModel::Obj(
            seq![
                ("role"@, JsonModel::Str("tool"@)),
                ("content"@, JsonModel::Str(self.content@)),
                ("tool_call_id"@, JsonModel::Str(self.tool_call_id@)),
            ],
        )
    }

    /// Serializes this message.
    pub fn to_json(&self) -> (r: Json)
        ensures
            r@ == self.spec_json(),
    {
        broadcast use lemma_obj_model;

        let mut o: Vec<(String, Json)> = Vec::new();
        obj_push(&mut o, "role", Json::Str("tool".to_owned()));
        obj_push(&mut o, "content", Json::Str(self.content.clone()));
        obj_push(&mut o, "tool_call_id", Json::Str(self.tool_call_id.clone()));
        proof {
            assert(entries_model(o@) =~~= self.spec_json()->Obj_0);
        }
        Json::Obj(o)
    }
}

impl ChatCompletionMessage {
    /// The serialized shape of a message, tagged by its role.
    pub open spec fn spec_json(self) -> JsonModel {
        match self {
            ChatCompletionMessage::System(m) => m.spec_json(),
            ChatCompletionMessage::User(m) => m.spec_json(),
            ChatCompletionMessage::Assistant(m) => m.spec_json(),
            ChatCompletionMessage::Tool(m) => m.spec_json(),
        }
    }

    /// Serializes this message.
    pub fn to_json(&self) -> (r: Json)
        ensures
            r@ == self.spec_json(),
    {
        match self {
            ChatCompletionMessage::System(m) => m.to_json(),
            ChatCompletionMessage::User(m) => m.to_json(),
            ChatCompletionMessage::Assistant(m) => m.to_json(),
            ChatCompletionMessage::Tool(m) => m.to_json(),
        }
    }
}

impl ToolChoice {
    /// The serialized shape of a tool choice: the bare strings `"none"` and
    /// `"auto"`, or `{"function": {"type": ..., "name": ...}}`.
    pub open spec fn spec_json(self) -> JsonModel {
        match self {
            ToolChoice::NoTool => JsonModel::Str("none"@),
            ToolChoice::Auto => JsonModel::Str("auto"@),
            ToolChoice::Function { kind, name } => JsonModel::Obj(
                seq![
                    (
                        "function"@,
                        JsonModel::Obj(
                            seq![
                                ("type"@, JsonModel::Str(kind.spec_wire())),
                                ("name"@, JsonModel::Str(name@)),
                            ],
                        ),
                    ),
                ],
            ),
        }
    }

    /// Serializes this tool choice.
    pub fn to_json(&self) -> (r: Json)
        ensures
            r@ == self.spec_json(),
    {
        broadcast use lemma_obj_model;

        match self {
            ToolChoice::NoTool => Json::Str("none".to_owned()),
            ToolChoice::Auto => Json::Str("auto".to_owned()),
            ToolChoice::Function { kind, name } => {
                let mut inner: Vec<(String, Json)> = Vec::new();
                obj_push(&mut inner, "type", Json::Str(kind.wire()));
                obj_push(&mut inner, "name", Json::Str(name.clone()));
                let inner_json = Json::Obj(inner);
                proof {
                    assert(inner_json@->Obj_0 =~~= seq![
                        ("type"@, JsonModel::Str(kind.spec_wire())),
                        ("name"@, JsonModel::Str(name@)),
                    ]);
                }
                let mut o: Vec<(String, Json)> = Vec::new();
                obj_push(&mut o, "function", inner_json);
                proof {
                    assert(entries_model(o@) =~~= self.spec_json()->Obj_0);
                }
                Json::Obj(o)
            },
        }
    }
}

impl FunctionInfo {
    /// The serialized shape of a function description; the argument schema is
    /// embedded verbatim under `parameters`.
    pub open spec fn spec_json(self) -> JsonModel {
        JsonModel::Obj(
            seq![
                ("description"@, JsonModel::Str(self.description@)),
                ("name"@, JsonModel::Str(self.name@)),
                ("parameters"@, self.parameters@),
            ],
        )
    }

    /// Serializes this function description.
    pub fn to_json(self) -> (r: Json)
        ensures
            r@ == self.spec_json(),
    {
        broadcast use lemma_obj_model;

        let mut o: Vec<(String, Json)> = Vec::new();
        obj_push(&mut o, "description", Json::Str(self.description.clone()));
        obj_push(&mut o, "name", Json::Str(self.name.clone()));
        obj_push(&mut o, "parameters", self.parameters);
        proof {
            assert(entries_model(o@) =~~= self.spec_json()->Obj_0);
        }
        Json::Obj(o)
    }
}

impl Tool {
    /// The serialized shape of a tool, tagged with its kind.
    pub open spec fn spec_json(self) -> JsonModel {
        JsonModel::Obj(
            seq![
                ("type"@, JsonModel::Str(self.kind.spec_wire())),
                ("function"@, self.function.spec_json()),
            ],
        )
    }

    /// Serializes this tool.
    pub fn to_json(self) -> (r: Json)
        ensures
            r@ == self.spec_json(),
    {
        broadcast use lemma_obj_model;

        let mut o: Vec<(String, Json)> = Vec::new();
        obj_push(&mut o, "type", Json::Str(self.kind.wire()));
        obj_push(&mut o, "function", self.function.to_json());
        proof {
            assert(entries_model(o@) =~~= self.spec_json()->Obj_0);
        }
        Json::Obj(o)
    }
}

impl ChatResponseFormatObject {
    /// The serialized shape of the answer format: `{"type": ...}`.
    pub open spec fn spec_json(self) -> JsonModel {
        JsonModel::Obj(seq![("type"@, JsonModel::Str(self.kind.spec_wire()))])
    }

    /// Serializes this answer format.
    pub fn to_json(&self) -> (r: Json)
        ensures
            r@ == self.spec_json(),
    {
        broadcast use lemma_obj_model;

        let mut o: Vec<(String, Json)> = Vec::new();
        obj_push(&mut o, "type", Json::Str(self.kind.wire()));
        proof {
            assert(entries_model(o@) =~~= self.spec_json()->Obj_0);
        }
        Json::Obj(o)
    }
}

/// Serializes a list of messages.
fn msgs_to_json(v: &Vec<ChatCompletionMessage>) -> (r: Json)
    ensures
        r@ == JsonModel::Arr(spec_msgs_json(v@)),
{
    broadcast use crate::json::lemma_arr_model;

    let mut msgs: Vec<Json> = Vec::new();
    let mut idx: usize = 0;
    while idx < v.len()
        invariant
            idx <= v.len(),
            elems_model(msgs@) == spec_msgs_json(v@.take(idx as int)),
        decreases v.len() - idx,
    {
        arr_push(&mut msgs, v[idx].to_json());
        proof {
            lemma_msgs_json_step(v@, idx as int);
        }
        idx = idx + 1;
    }
    proof {
        assert(v@.take(v@.len() as int) =~~= v@);
    }
    Json::Arr(msgs)
}

/// Serializes a list of tools.
fn tools_to_json(v: Vec<Tool>) -> (r: Json)
    ensures
        r@ == JsonModel::Arr(spec_tools_json(v@)),
{
    broadcast use crate::json::lemma_arr_model;

    let ghost all = v@;
    let mut v = v;
    let mut arr: Vec<Json> = Vec::new();
    while v.len() > 0
        invariant
            arr@.len() + v@.len() == all.len(),
            elems_model(arr@) == spec_tools_json(all.take(arr@.len() as int)),
            v@ == all.skip(arr@.len() as int),
        decreases v.len(),
    {
        let ghost done = arr@.len() as int;
        proof {
            assert(v@[0] == all[done]);
        }
        let t = v.remove(0);
        arr_push(&mut arr, t.to_json());
        proof {
            lemma_tools_json_step(all, done);
            assert(v@ =~~= all.skip(done + 1));
        }
    }
    proof {
        assert(all.take(all.len() as int) =~~= all);
    }
    Json::Arr(arr)
}

/// The serialized entries of the first optional sampling fields, in writing order.
pub open spec fn spec_option_entries_a(
    frequency_penalty: Option<i32>,
    max_tokens: Option<usize>,
    n: Option<usize>,
    presence_penalty: Option<usize>,
    response_format: Option<ChatResponseFormatObject>,
) -> Seq<(Seq<char>, JsonModel)> {
    opt_entry("frequency_penalty"@, crate::json::opt_i32_model(frequency_penalty)) + opt_entry(
        "max_tokens"@,
        crate::json::opt_usize_model(max_tokens),
    ) + opt_entry("n"@, crate::json::opt_usize_model(n)) + opt_entry(
        "presence_penalty"@,
        crate::json::opt_usize_model(presence_penalty),
    ) + opt_entry(
        "response_format"@,
        match response_format {
            Option::Some(f) => Option::Some(f.spec_json()),
            Option::None => Option::None,
        },
    )
}

/// The serialized entries of the remaining optional sampling fields, in
/// writing order.
pub open spec fn spec_option_entries_b(
    seed: Option<usize>,
    stop: Option<String>,
    stream: Option<bool>,
    temperature: Option<i32>,
    top_p: Option<i32>,
) -> Seq<(Seq<char>, JsonModel)> {
    opt_entry("seed"@, crate::json::opt_usize_model(seed)) + opt_entry(
        "stop"@,
        opt_str_model(stop),
    ) + opt_entry("stream"@, crate::json::opt_bool_model(stream)) + opt_entry(
        "temperature"@,
        crate::json::opt_i32_model(temperature),
    ) + opt_entry("top_p"@, crate::json::opt_i32_model(top_p))
}

/// Appends the first optional sampling fields of a request, each only when
/// set.
#[verifier::rlimit(100)]
fn push_option_entries_a(
    o: &mut Vec<(String, Json)>,
    frequency_penalty: Option<i32>,
    max_tokens: Option<usize>,
    n: Option<usize>,
    presence_penalty: Option<usize>,
    response_format: Option<ChatResponseFormatObject>,
)
    ensures
        entries_model(final(o)@) == entries_model(old(o)@) + spec_option_entries_a(
            frequency_penalty,
            max_tokens,
            n,
            presence_penalty,
            response_format,
        ),
{
    broadcast use Seq::add_empty_left;
    broadcast use Seq::add_empty_right;

    let ghost base = entries_model(o@);
    let ghost mut added: Seq<(Seq<char>, JsonModel)> = Seq::empty();
    obj_push_opt(
        o,
        "frequency_penalty",
        match frequency_penalty {
            Some(v) => Some(Json::Int(v as i64)),
            None => None,
        },
    );
    proof {
        vstd::seq_lib::lemma_concat_associative(base, added, opt_entry("frequency_penalty"@, crate::json::opt_i32_model(frequency_penalty)));
        added = added + opt_entry("frequency_penalty"@, crate::json::opt_i32_model(frequency_penalty));
        assert(entries_model(o@) == base + added);
    }
    obj_push_opt(
        o,
        "max_tokens",
        match max_tokens {
            Some(v) => Some(Json::UInt(v as u64)),
            None => None,
        },
    );
    proof {
        vstd::seq_lib::lemma_concat_associative(base, added, opt_entry("max_tokens"@, crate::json::opt_usize_model(max_tokens)));
        added = added + opt_entry("max_tokens"@, crate::json::opt_usize_model(max_tokens));
        assert(entries_model(o@) == base + added);
    }
    obj_push_opt(
        o,
        "n",
        match n {
            Some(v) => Some(Json::UInt(v as u64)),
            None => None,
        },
    );
    proof {
        vstd::seq_lib::lemma_concat_associative(base, added, opt_entry("n"@, crate::json::opt_usize_model(n)));
        added = added + opt_entry("n"@, crate::json::opt_usize_model(n));
        assert(entries_model(o@) == base + added);
    }
    obj_push_opt(
        o,
        "presence_penalty",
        match presence_penalty {
            Some(v) => Some(Json::UInt(v as u64)),
            None => None,
        },
    );
    proof {
        vstd::seq_lib::lemma_concat_associative(base, added, opt_entry("presence_penalty"@, crate::json::opt_usize_model(presence_penalty)));
        added = added + opt_entry("presence_penalty"@, crate::json::opt_usize_model(presence_penalty));
        assert(entries_model(o@) == base + added);
    }
    obj_push_opt(
        o,
        "response_format",
        match &response_format {
            Some(f) => Some(f.to_json()),
            None => None,
        },
    );
    proof {
        vstd::seq_lib::lemma_concat_associative(base, added, opt_entry(
            "response_format"@,
            match response_format {
                Option::Some(f) => Option::Some(f.spec_json()),
                Option::None => Option::None,
            },
        ));
        added = added + opt_entry(
            "response_format"@,
            match response_format {
                Option::Some(f) => Option::Some(f.spec_json()),
                Option::None => Option::None,
            },
        );
        assert(entries_model(o@) == base + added);
    }
}

/// Appends the remaining optional sampling fields of a request, each only
/// when set.
#[verifier::rlimit(100)]
fn push_option_entries_b(
    o: &mut Vec<(String, Json)>,
    seed: Option<usize>,
    stop: Option<String>,
    stream: Option<bool>,
    temperature: Option<i32>,
    top_p: Option<i32>,
)
    ensures
        entries_model(final(o)@) == entries_model(old(o)@) + spec_option_entries_b(
            seed,
            stop,
            stream,
            temperature,
            top_p,
        ),
{
    broadcast use Seq::add_empty_left;
    broadcast use Seq::add_empty_right;

    let ghost base = entries_model(o@);
    let ghost mut added: Seq<(Seq<char>, JsonModel)> = Seq::empty();
    obj_push_opt(
        o,
        "seed",
        match seed {
            Some(v) => Some(Json::UInt(v as u64)),
            None => None,
        },
    );
    proof {
        vstd::seq_lib::lemma_concat_associative(base, added, opt_entry("seed"@, crate::json::opt_usize_model(seed)));
        added = added + opt_entry("seed"@, crate::json::opt_usize_model(seed));
        assert(entries_model(o@) == base + added);
    }
    obj_push_opt(
        o,
        "stop",
        match &stop {
            Some(s) => Some(Json::Str(s.clone())),
            None => None,
        },
    );
    proof {
        vstd::seq_lib::lemma_concat_associative(base, added, opt_entry("stop"@, opt_str_model(stop)));
        added = added + opt_entry("stop"@, opt_str_model(stop));
        assert(entries_model(o@) == base + added);
    }
    obj_push_opt(
        o,
        "stream",
        match stream {
            Some(b) => Some(Json::Bool(b)),
            None => None,
        },
    );
    proof {
        vstd::seq_lib::lemma_concat_associative(base, added, opt_entry("stream"@, crate::json::opt_bool_model(stream)));
        added = added + opt_entry("stream"@, crate::json::opt_bool_model(stream));
        assert(entries_model(o@) == base + added);
    }
    obj_push_opt(
        o,
        "temperature",
        match temperature {
            Some(v) => Some(Json::Int(v as i64)),
            None => None,
        },
    );
    proof {
        vstd::seq_lib::lemma_concat_associative(base, added, opt_entry("temperature"@, crate::json::opt_i32_model(temperature)));
        added = added + opt_entry("temperature"@, crate::json::opt_i32_model(temperature));
        assert(entries_model(o@) == base + added);
    }
    obj_push_opt(
        o,
        "top_p",
        match top_p {
            Some(v) => Some(Json::Int(v as i64)),
            None => None,
        },
    );
    proof {
        vstd::seq_lib::lemma_concat_associative(base, added, opt_entry("top_p"@, crate::json::opt_i32_model(top_p)));
        added = added + opt_entry("top_p"@, crate::json::opt_i32_model(top_p));
        assert(entries_model(o@) == base + added);
    }
}

impl ChatCompletionRequest {
    /// The serialized entries of this request: messages and model always,
    /// every optional field only when set, and the tools only when there are
    /// any.
    #[verifier::opaque]
    pub open spec fn spec_entries(self) -> Seq<(Seq<char>, JsonModel)> {
        seq![
            ("messages"@, JsonModel::Arr(spec_msgs_json(self.messages@))),
            ("model"@, JsonModel::Str(self.model.spec_wire())),
        ] + spec_option_entries_a(
            self.frequency_penalty,
            self.max_tokens,
            self.n,
            self.presence_penalty,
            self.response_format,
        ) + spec_option_entries_b(
            self.seed,
            self.stop,
            self.stream,
            self.temperature,
            self.top_p,
        ) + (if self.tools@.len() == 0 {
            Seq::<(Seq<char>, JsonModel)>::empty()
        } else {
            seq![("tools"@, JsonModel::Arr(spec_tools_json(self.tools@)))]
        }) + opt_entry(
            "tool_choice"@,
            match self.tool_choice {
                Option::Some(c) => Option::Some(c.spec_json()),
                Option::None => Option::None,
            },
        ) + opt_entry("user"@, opt_str_model(self.user))
    }

    /// The serialized shape of this request.
    pub open spec fn spec_json(self) -> JsonModel {
        JsonModel::Obj(self.spec_entries())
    }

    /// Serializes this request as the body of a chat-completion call.
    #[verifier::rlimit(100)]
    pub fn to_json(self) -> (r: Json)
        ensures
            r@ == self.spec_json(),
    {
        broadcast use lemma_obj_model;
        broadcast use crate::json::lemma_arr_model;
        broadcast use Seq::add_empty_left;
        broadcast use Seq::add_empty_right;

        let ghost g = self;
        let ChatCompletionRequest {
            messages,
            model,
            frequency_penalty,
            max_tokens,
            n,
            presence_penalty,
            response_format,
            seed,
            stop,
            stream,
            temperature,
            top_p,
            tools,
            tool_choice,
            user,
        } = self;
        let mut o: Vec<(String, Json)> = Vec::new();

        obj_push(&mut o, "messages", msgs_to_json(&messages));
        obj_push(&mut o, "model", Json::Str(model.wire()));
        let ghost mut acc: Seq<(Seq<char>, JsonModel)> = seq![
            ("messages"@, JsonModel::Arr(spec_msgs_json(g.messages@))),
            ("model"@, JsonModel::Str(g.model.spec_wire())),
        ];
        proof {
            assert(entries_model(o@) =~= acc);
        }
        push_option_entries_a(
            &mut o,
            frequency_penalty,
            max_tokens,
            n,
            presence_penalty,
            response_format,
        );
        proof {
            acc = acc + spec_option_entries_a(
                g.frequency_penalty,
                g.max_tokens,
                g.n,
                g.presence_penalty,
                g.response_format,
            );
            assert(entries_model(o@) == acc);
        }
        push_option_entries_b(&mut o, seed, stop, stream, temperature, top_p);
        proof {
            acc = acc + spec_option_entries_b(g.seed, g.stop, g.stream, g.temperature, g.top_p);
            assert(entries_model(o@) == acc);
        }
        if tools.len() > 0 {
            obj_push(&mut o, "tools", tools_to_json(tools));
        }
        proof {
            acc = acc + (if g.tools@.len() == 0 {
                Seq::<(Seq<char>, JsonModel)>::empty()
            } else {
                seq![("tools"@, JsonModel::Arr(spec_tools_json(g.tools@)))]
            });
            assert(entries_model(o@) == acc);
        }
        obj_push_opt(
            &mut o,
            "tool_choice",
            match &tool_choice {
                Some(c) => Some(c.to_json()),
                None => None,
            },
        );
        proof {
            acc = acc + opt_entry(
                "tool_choice"@,
                match g.tool_choice {
                    Option::Some(c) => Option::Some(c.spec_json()),
                    Option::None => Option::None,
                },
            );
            assert(entries_model(o@) == acc);
        }
        obj_push_opt(
            &mut o,
            "user",
            match &user {
                Some(u) => Some(Json::Str(u.clone())),
                None => None,
            },
        );
        proof {
            acc = acc + opt_entry("user"@, opt_str_model(g.user));
            assert(entries_model(o@) == acc);
        }
        proof {
            assert(acc == g.spec_entries()) by {
                reveal(ChatCompletionRequest::spec_entries);
            }
        }
        Json::Obj(o)
    }
}

/// An empty participant name stands for "no name": the `name` key is then
/// omitted from the serialized message.
pub open spec fn spec_name_of(name: Seq<char>) -> Option<Seq<char>> {
    if name.len() == 0 {
        Option::None
    } else {
        Option::Some(name)
    }
}

impl ChatCompletionMessage {
    /// Builds a system message; an empty participant name is normalized to
    /// "no name".
    pub fn new_system(content: &str, name: &str) -> (m: ChatCompletionMessage)
        ensures
            match m {
                ChatCompletionMessage::System(s) => s.content@ == content@ && opt_view(s.name)
                    == spec_name_of(name@),
                _ => false,
            },
    {
        ChatCompletionMessage::System(
            SystemMessage { content: content.to_owned(), name: Self::get_name(name) },
        )
    }

    /// Builds a user message; an empty participant name is normalized to
    /// "no name".
    pub fn new_user(content: &str, name: &str) -> (m: ChatCompletionMessage)
        ensures
            match m {
                ChatCompletionMessage::User(u) => u.content@ == content@ && opt_view(u.name)
                    == spec_name_of(name@),
                _ => false,
            },
    {
        ChatCompletionMessage::User(
            UserMessage { content: content.to_owned(), name: Self::get_name(name) },
        )
    }

    /// Normalizes a participant name: empty means "no name".
    pub fn get_name(name: &str) -> (r: Option<String>)
        ensures
            opt_view(r) == spec_name_of(name@),
    {
        if name.is_empty() {
            None
        } else {
            Some(name.to_owned())
        }
    }
}

impl Tool {
    /// Builds a function tool around an argument schema; the schema document
    /// is embedded in the tool verbatim.
    pub fn new_function(name: &str, description: &str, parameters: Json) -> (t: Tool)
        ensures
            t.kind == ToolType::Function,
            t.function.name@ == name@,
            t.function.description@ == description@,
            t.function.parameters == parameters,
    {
        Tool {
            kind: ToolType::Function,
            function: FunctionInfo {
                description: description.to_owned(),
                name: name.to_owned(),
                parameters,
            },
        }
    }
}

/// Builds a [`ChatCompletionRequest`], filling every optional field that was
/// never set with its documented default.
#[derive(Debug)]
pub struct ChatCompletionRequestBuilder {
    pub messages: Option<Vec<ChatCompletionMessage>>,
    pub model: Option<ChatCompleteModel>,
    pub frequency_penalty: Option<i32>,
    pub max_tokens: Option<usize>,
    pub n: Option<usize>,
    pub presence_penalty: Option<usize>,
    pub response_format: Option<ChatResponseFormatObject>,
    pub seed: Option<usize>,
    pub stop: Option<String>,
    pub stream: Option<bool>,
    pub temperature: Option<i32>,
    pub top_p: Option<i32>,
    pub tools: Option<Vec<Tool>>,
    pub tool_choice: Option<ToolChoice>,
    pub user: Option<String>,
}

impl Default for ChatCompletionRequestBuilder {
    /// A builder with nothing set yet.
    fn default() -> (r: Self)
        ensures
            r == (ChatCompletionRequestBuilder {
                messages: Option::None,
                model: Option::None,
                frequency_penalty: Option::None,
                max_tokens: Option::None,
                n: Option::None,
                presence_penalty: Option::None,
                response_format: Option::None,
                seed: Option::None,
                stop: Option::None,
                stream: Option::None,
                temperature: Option::None,
                top_p: Option::None,
                tools: Option::None,
                tool_choice: Option::None,
                user: Option::None,
            }),
    {
        ChatCompletionRequestBuilder {
            messages: None,
            model: None,
            frequency_penalty: None,
            max_tokens: None,
            n: None,
            presence_penalty: None,
            response_format: None,
            seed: None,
            stop: None,
            stream: None,
            temperature: None,
            top_p: None,
            tools: None,
            tool_choice: None,
            user: None,
        }
    }
}

impl ChatCompletionRequestBuilder {
    /// Sets the conversation messages.
    pub fn messages(self, v: Vec<ChatCompletionMessage>) -> (r: Self)
        ensures
            r == (ChatCompletionRequestBuilder { messages: Option::Some(v), ..self }),
    {
        ChatCompletionRequestBuilder { messages: Some(v), ..self }
    }

    /// Sets the model.
    pub fn model(self, v: ChatCompleteModel) -> (r: Self)
        ensures
            r == (ChatCompletionRequestBuilder { model: Option::Some(v), ..self }),
    {
        ChatCompletionRequestBuilder { model: Some(v), ..self }
    }

    /// Sets the maximum number of generated tokens.
    pub fn max_tokens(self, v: usize) -> (r: Self)
        ensures
            r == (ChatCompletionRequestBuilder { max_tokens: Option::Some(v), ..self }),
    {
        ChatCompletionRequestBuilder { max_tokens: Some(v), ..self }
    }

    /// Sets the answer format.
    pub fn response_format(self, v: ChatResponseFormatObject) -> (r: Self)
        ensures
            r == (ChatCompletionRequestBuilder { response_format: Option::Some(v), ..self }),
    {
        ChatCompletionRequestBuilder { response_format: Some(v), ..self }
    }

    /// Sets the sampling temperature.
    pub fn temperature(self, v: i32) -> (r: Self)
        ensures
            r == (ChatCompletionRequestBuilder { temperature: Option::Some(v), ..self }),
    {
        ChatCompletionRequestBuilder { temperature: Some(v), ..self }
    }

    /// Sets the frequency penalty.
    pub fn frequency_penalty(self, v: i32) -> (r: Self)
        ensures
            r == (ChatCompletionRequestBuilder { frequency_penalty: Option::Some(v), ..self }),
    {
        ChatCompletionRequestBuilder { frequency_penalty: Some(v), ..self }
    }

    /// Sets how many choices to generate.
    pub fn n(self, v: usize) -> (r: Self)
        ensures
            r == (ChatCompletionRequestBuilder { n: Option::Some(v), ..self }),
    {
        ChatCompletionRequestBuilder { n: Some(v), ..self }
    }

    /// Sets the presence penalty.
    pub fn presence_penalty(self, v: usize) -> (r: Self)
        ensures
            r == (ChatCompletionRequestBuilder { presence_penalty: Option::Some(v), ..self }),
    {
        ChatCompletionRequestBuilder { presence_penalty: Some(v), ..self }
    }

    /// Sets the sampling seed.
    pub fn seed(self, v: usize) -> (r: Self)
        ensures
            r == (ChatCompletionRequestBuilder { seed: Option::Some(v), ..self }),
    {
        ChatCompletionRequestBuilder { seed: Some(v), ..self }
    }

    /// Sets the stop sequence.
    pub fn stop(self, v: String) -> (r: Self)
        ensures
            r == (ChatCompletionRequestBuilder { stop: Option::Some(v), ..self }),
    {
        ChatCompletionRequestBuilder { stop: Some(v), ..self }
    }

    /// Sets whether deltas are streamed.
    pub fn stream(self, v: bool) -> (r: Self)
        ensures
            r == (ChatCompletionRequestBuilder { stream: Option::Some(v), ..self }),
    {
        ChatCompletionRequestBuilder { stream: Some(v), ..self }
    }

    /// Sets the nucleus-sampling mass.
    pub fn top_p(self, v: i32) -> (r: Self)
        ensures
            r == (ChatCompletionRequestBuilder { top_p: Option::Some(v), ..self }),
    {
        ChatCompletionRequestBuilder { top_p: Some(v), ..self }
    }

    /// Sets the tools the model may call.
    pub fn tools(self, v: Vec<Tool>) -> (r: Self)
        ensures
            r == (ChatCompletionRequestBuilder { tools: Option::Some(v), ..self }),
    {
        ChatCompletionRequestBuilder { tools: Some(v), ..self }
    }

    /// Sets which tool the model must call.
    pub fn tool_choice(self, v: ToolChoice) -> (r: Self)
        ensures
            r == (ChatCompletionRequestBuilder { tool_choice: Option::Some(v), ..self }),
    {
        ChatCompletionRequestBuilder { tool_choice: Some(v), ..self }
    }

    /// Sets the end-user identifier.
    pub fn user(self, v: String) -> (r: Self)
        ensures
            r == (ChatCompletionRequestBuilder { user: Option::Some(v), ..self }),
    {
        ChatCompletionRequestBuilder { user: Some(v), ..self }
    }

    /// Finishes the builder.
    ///
    /// This fails exactly when the required `messages` field was never set;
    /// nothing else is validated. Every unset optional field stays absent,
    /// and an unset model becomes the default model.
    pub fn build(self) -> (r: Result<ChatCompletionRequest, BuildError>)
        ensures
            match r {
                Result::Ok(req) => {
                    &&& self.messages is Some
                    &&& req.messages == self.messages.unwrap()
                    &&& req.model == self.model.unwrap_or(ChatCompleteModel::GPT3Turbo)
                    &&& req.frequency_penalty == self.frequency_penalty
                    &&& req.max_tokens == self.max_tokens
                    &&& req.n == self.n
                    &&& req.presence_penalty == self.presence_penalty
                    &&& req.response_format == self.response_format
                    &&& req.seed == self.seed
                    &&& req.stop == self.stop
                    &&& req.stream == self.stream
                    &&& req.temperature == self.temperature
                    &&& req.top_p == self.top_p
                    &&& match self.tools {
                        Option::Some(t) => req.tools == t,
                        Option::None => req.tools@ == Seq::<Tool>::empty(),
                    }
                    &&& req.tool_choice == self.tool_choice
                    &&& req.user == self.user
                },
                Result::Err(e) => self.messages is None && e == BuildError::MissingField,
            },
    {
        match self.messages {
            Some(messages) => Ok(
                ChatCompletionRequest {
                    messages,
                    model: match self.model {
                        Some(m) => m,
                        None => ChatCompleteModel::GPT3Turbo,
                    },
                    frequency_penalty: self.frequency_penalty,
                    max_tokens: self.max_tokens,
                    n: self.n,
                    presence_penalty: self.presence_penalty,
                    response_format: self.response_format,
                    seed: self.seed,
                    stop: self.stop,
                    stream: self.stream,
                    temperature: self.temperature,
                    top_p: self.top_p,
                    tools: match self.tools {
                        Some(t) => t,
                        None => Vec::new(),
                    },
                    tool_choice: self.tool_choice,
                    user: self.user,
                },
            ),
            None => Err(BuildError::MissingField),
        }
    }
}

/// The answer to a chat-completion request.
#[derive(Debug)]
pub struct ChatCompletionResponse {
    /// A unique identifier for the completion.
    pub id: String,
    /// The generated choices; more than one when more than one was asked for.
    pub choices: Vec<ChatCompletionChoice>,
    /// When the completion was created, in seconds since the epoch.
    pub created: usize,
    /// The model that answered.
    pub model: ChatCompleteModel,
    /// Identifies the backend configuration that answered.
    pub system_fingerprint: String,
    /// The object type of the answer.
    pub object: String,
    /// Token counts for the call.
    pub usage: ChatCompletionUsage,
}

/// One generated choice of a chat completion.
#[derive(Debug)]
pub struct ChatCompletionChoice {
    /// Why the generation ended.
    pub finish_reason: FinishReason,
    /// The position of this choice among the generated ones.
    pub index: usize,
    /// The generated message.
    pub message: AssistantMessage,
}

/// Token counts of one chat completion.
#[derive(Debug, Clone, Copy, PartialEq, Eq, Structural)]
pub struct ChatCompletionUsage {
    /// Tokens in the generated completion.
    pub completion_tokens: usize,
    /// Tokens in the prompt.
    pub prompt_tokens: usize,
    /// Tokens in prompt and completion together.
    pub total_tokens: usize,
}

impl FinishReason {
    /// The fixed wire name of this reason.
    pub open spec fn spec_wire(self) -> Seq<char> {
        match self {
            FinishReason::Stop => "stop"@,
            FinishReason::Length => "length"@,
            FinishReason::ContentFilter => "content_filter"@,
            FinishReason::ToolCalls => "tool_calls"@,
        }
    }

    /// Writes the fixed wire name of this reason.
    pub fn wire(&self) -> (r: String)
        ensures
            r@ == self.spec_wire(),
    {
        match self {
            FinishReason::Stop => "stop".to_owned(),
            FinishReason::Length => "length".to_owned(),
            FinishReason::ContentFilter => "content_filter".to_owned(),
            FinishReason::ToolCalls => "tool_calls".to_owned(),
        }
    }

    /// Reads a reason back from its wire name.
    pub fn from_wire(s: &String) -> (r: Option<FinishReason>)
        ensures
            match r {
                Option::Some(fr) => fr.spec_wire() == s@,
                Option::None => forall|fr: FinishReason| fr.spec_wire() != s@,
            },
    {
        if s.eq(&"stop".to_owned()) {
            Some(FinishReason::Stop)
        } else if s.eq(&"length".to_owned()) {
            Some(FinishReason::Length)
        } else if s.eq(&"content_filter".to_owned()) {
            Some(FinishReason::ContentFilter)
        } else if s.eq(&"tool_calls".to_owned()) {
            Some(FinishReason::ToolCalls)
        } else {
            None
        }
    }
}

impl ChatCompleteModel {
    /// Reads a model back from its wire name.
    pub fn from_wire(s: &String) -> (r: Option<ChatCompleteModel>)
        ensures
            match r {
                Option::Some(m) => m.spec_wire() == s@,
                Option::None => forall|m: ChatCompleteModel| m.spec_wire() != s@,
            },
    {
        if s.eq(&"gpt-3.5-turbo-1106".to_owned()) {
            Some(ChatCompleteModel::GPT3Turbo)
        } else if s.eq(&"gpt-3.5-turbo-instruct".to_owned()) {
            Some(ChatCompleteModel::GPT3TurboInstruct)
        } else if s.eq(&"gpt-4-1106-preview".to_owned()) {
            Some(ChatCompleteModel::GPT4Turbo)
        } else if s.eq(&"gpt-4-1106-vision-preview".to_owned()) {
            Some(ChatCompleteModel::GPT4TurboVersion)
        } else if s.eq(&"babbage-002".to_owned()) {
            Some(ChatCompleteModel::Test)
        } else {
            None
        }
    }
}

impl FunctionCall {
    /// This call is what the JSON document describes: the document is an
    /// object whose `name` and `arguments` are these strings.
    pub open spec fn matches_json(self, j: JsonModel) -> bool {
        &&& j is Obj
        &&& lookup(j->Obj_0, "name"@) == Option::Some(JsonModel::Str(self.name@))
        &&& lookup(j->Obj_0, "arguments"@) == Option::Some(JsonModel::Str(self.arguments@))
    }

    /// Reads a function call from a JSON document; other keys are ignored.
    pub fn from_json(j: &Json) -> (r: Result<FunctionCall, SdkError>)
        ensures
            match r {
                Result::Ok(v) => v.matches_json(j@),
                Result::Err(e) => e is Decode && forall|v: FunctionCall| !v.matches_json(j@),
            },
    {
        let name = match j.get(&"name".to_owned()) {
            Some(v) => match json_str(v) {
                Some(s) => s,
                None => {
                    return Err(SdkError::Decode);
                },
            },
            None => {
                return Err(SdkError::Decode);
            },
        };
        let arguments = match j.get(&"arguments".to_owned()) {
            Some(v) => match json_str(v) {
                Some(s) => s,
                None => {
                    return Err(SdkError::Decode);
                },
            },
            None => {
                return Err(SdkError::Decode);
            },
        };
        Ok(FunctionCall { name, arguments })
    }
}

impl ToolCalls {
    /// This tool call is what the JSON document describes.
    pub open spec fn matches_json(self, j: JsonModel) -> bool {
        &&& j is Obj
        &&& lookup(j->Obj_0, "id"@) == Option::Some(JsonModel::Str(self.id@))
        &&& lookup(j->Obj_0, "type"@) == Option::Some(JsonModel::Str(self.kind.spec_wire()))
        &&& match lookup(j->Obj_0, "function"@) {
            Option::Some(fj) => self.function.matches_json(fj),
            Option::None => false,
        }
    }

    /// Reads a tool call from a JSON document; other keys are ignored.
    pub fn from_json(j: &Json) -> (r: Result<ToolCalls, SdkError>)
        ensures
            match r {
                Result::Ok(v) => v.matches_json(j@),
                Result::Err(e) => e is Decode && forall|v: ToolCalls| !v.matches_json(j@),
            },
    {
        let id = match j.get(&"id".to_owned()) {
            Some(v) => match json_str(v) {
                Some(s) => s,
                None => {
                    return Err(SdkError::Decode);
                },
            },
            None => {
                return Err(SdkError::Decode);
            },
        };
        let kind_ok = match j.get(&"type".to_owned()) {
            Some(v) => match json_str(v) {
                Some(s) => s.eq(&"function".to_owned()),
                None => false,
            },
            None => false,
        };
        if !kind_ok {
            return Err(SdkError::Decode);
        }
        let function = match j.get(&"function".to_owned()) {
            Some(v) => match FunctionCall::from_json(v) {
                Ok(f) => f,
                Err(e) => {
                    return Err(e);
                },
            },
            None => {
                return Err(SdkError::Decode);
            },
        };
        Ok(ToolCalls { id, kind: ToolType::Function, function })
    }
}

impl AssistantMessage {
    /// This message is what the JSON document describes: contents and name
    /// may be absent or null, and absent tool calls mean none.
    pub open spec fn matches_json(self, j: JsonModel) -> bool {
        &&& j is Obj
        &&& match self.content {
            Option::Some(c) => lookup(j->Obj_0, "content"@) == Option::Some(JsonModel::Str(c@)),
            Option::None => lookup(j->Obj_0, "content"@) is None || lookup(j->Obj_0, "content"@)
                == Option::Some(JsonModel::Null),
        }
        &&& match self.name {
            Option::Some(n) => lookup(j->Obj_0, "name"@) == Option::Some(JsonModel::Str(n@)),
            Option::None => lookup(j->Obj_0, "name"@) is None || lookup(j->Obj_0, "name"@)
                == Option::Some(JsonModel::Null),
        }
        &&& match lookup(j->Obj_0, "tool_calls"@) {
            Option::Some(JsonModel::Arr(a)) => self.tool_calls@.len() == a.len() && (forall|
                i: int,
            |
                0 <= i < a.len() ==> #[trigger] self.tool_calls@[i].matches_json(a[i])),
            Option::Some(_) => false,
            Option::None => self.tool_calls@.len() == 0,
        }
    }

    /// Reads an assistant message from a JSON document; other keys, among
    /// them the role tag, are ignored.
    pub fn from_json(j: &Json) -> (r: Result<AssistantMessage, SdkError>)
        ensures
            match r {
                Result::Ok(v) => v.matches_json(j@),
                Result::Err(e) => e is Decode && forall|v: AssistantMessage| !v.matches_json(j@),
            },
    {
        broadcast use crate::json::lemma_arr_model;

        if let Json::Obj(_) = j {
        } else {
            return Err(SdkError::Decode);
        }
        let content = match j.get(&"content".to_owned()) {
            None => None,
            Some(v) => match v {
                Json::Null => None,
                Json::Str(s) => Some(s.clone()),
                _ => {
                    return Err(SdkError::Decode);
                },
            },
        };
        let name = match j.get(&"name".to_owned()) {
            None => None,
            Some(v) => match v {
                Json::Null => None,
                Json::Str(s) => Some(s.clone()),
                _ => {
                    return Err(SdkError::Decode);
                },
            },
        };
        let tool_calls = match j.get(&"tool_calls".to_owned()) {
            None => Vec::new(),
            Some(v) => match v {
                Json::Arr(a) => {
                    proof {
                        assert(v@ == JsonModel::Arr(elems_model(a@)));
                    }
                    let mut out: Vec<ToolCalls> = Vec::new();
                    let mut i: usize = 0;
                    while i < a.len()
                        invariant
                            i <= a.len(),
                            out@.len() == i,
                            v@ == JsonModel::Arr(elems_model(a@)),
                            j@ is Obj,
                            lookup(j@->Obj_0, "tool_calls"@) == Option::Some(v@),
                            forall|k: int|
                                0 <= k < i ==> #[trigger] out@[k].matches_json(
                                    elems_model(a@)[k],
                                ),
                        decreases a.len() - i,
                    {
                        match ToolCalls::from_json(&a[i]) {
                            Ok(tc) => {
                                out.push(tc);
                            },
                            Err(e) => {
                                proof {
                                    assert forall|m: AssistantMessage| !m.matches_json(j@) by {
                                        if m.matches_json(j@) {
                                            let arr = lookup(
                                                j@->Obj_0,
                                                "tool_calls"@,
                                            )->Some_0->Arr_0;
                                            assert(m.tool_calls@[i as int].matches_json(
                                                arr[i as int],
                                            ));
                                            assert(arr[i as int] == a@[i as int]@);
                                        }
                                    }
                                }
                                return Err(e);
                            },
                        }
                        i = i + 1;
                    }
                    out
                },
                _ => {
                    return Err(SdkError::Decode);
                },
            },
        };
        Ok(AssistantMessage { content, name, tool_calls })
    }
}

impl ChatCompletionUsage {
    /// These token counts are what the JSON document describes.
    pub open spec fn matches_json(self, j: JsonModel) -> bool {
        &&& j is Obj
        &&& lookup(j->Obj_0, "completion_tokens"@) == Option::Some(
            JsonModel::Int(self.completion_tokens as int),
        )
        &&& lookup(j->Obj_0, "prompt_tokens"@) == Option::Some(
            JsonModel::Int(self.prompt_tokens as int),
        )
        &&& lookup(j->Obj_0, "total_tokens"@) == Option::Some(
            JsonModel::Int(self.total_tokens as int),
        )
    }

    /// Reads token counts from a JSON document; other keys are ignored.
    pub fn from_json(j: &Json) -> (r: Result<ChatCompletionUsage, SdkError>)
        ensures
            match r {
                Result::Ok(v) => v.matches_json(j@),
                Result::Err(e) => e is Decode && forall|v: ChatCompletionUsage| !v.matches_json(j@),
            },
    {
        let completion_tokens = match j.get(&"completion_tokens".to_owned()) {
            Some(v) => match json_usize(v) {
                Some(u) => u,
                None => {
                    return Err(SdkError::Decode);
                },
            },
            None => {
                return Err(SdkError::Decode);
            },
        };
        let prompt_tokens = match j.get(&"prompt_tokens".to_owned()) {
            Some(v) => match json_usize(v) {
                Some(u) => u,
                None => {
                    return Err(SdkError::Decode);
                },
            },
            None => {
                return Err(SdkError::Decode);
            },
        };
        let total_tokens = match j.get(&"total_tokens".to_owned()) {
            Some(v) => match json_usize(v) {
                Some(u) => u,
                None => {
                    return Err(SdkError::Decode);
                },
            },
            None => {
                return Err(SdkError::Decode);
            },
        };
        Ok(ChatCompletionUsage { completion_tokens, prompt_tokens, total_tokens })
    }
}

impl ChatCompletionChoice {
    /// This choice is what the JSON document describes.
    pub open spec fn matches_json(self, j: JsonModel) -> bool {
        &&& j is Obj
        &&& lookup(j->Obj_0, "finish_reason"@) == Option::Some(
            JsonModel::Str(self.finish_reason.spec_wire()),
        )
        &&& lookup(j->Obj_0, "index"@) == Option::Some(JsonModel::Int(self.index as int))
        &&& match lookup(j->Obj_0, "message"@) {
            Option::Some(mj) => self.message.matches_json(mj),
            Option::None => false,
        }
    }

    /// Reads one choice from a JSON document; other keys are ignored.
    pub fn from_json(j: &Json) -> (r: Result<ChatCompletionChoice, SdkError>)
        ensures
            match r {
                Result::Ok(v) => v.matches_json(j@),
                Result::Err(e) => e is Decode && forall|v: ChatCompletionChoice| !v.matches_json(j@),
            },
    {
        let finish_reason = match j.get(&"finish_reason".to_owned()) {
            Some(v) => match json_str(v) {
                Some(s) => match FinishReason::from_wire(&s) {
                    Some(fr) => fr,
                    None => {
                        return Err(SdkError::Decode);
                    },
                },
                None => {
                    return Err(SdkError::Decode);
                },
            },
            None => {
                return Err(SdkError::Decode);
            },
        };
        let index = match j.get(&"index".to_owned()) {
            Some(v) => match json_usize(v) {
                Some(u) => u,
                None => {
                    return Err(SdkError::Decode);
                },
            },
            None => {
                return Err(SdkError::Decode);
            },
        };
        let message = match j.get(&"message".to_owned()) {
            Some(v) => match AssistantMessage::from_json(v) {
                Ok(m) => m,
                Err(e) => {
                    return Err(e);
                },
            },
            None => {
                return Err(SdkError::Decode);
            },
        };
        Ok(ChatCompletionChoice { finish_reason, index, message })
    }
}

impl ChatCompletionResponse {
    /// This answer is what the JSON document describes.
    pub open spec fn matches_json(self, j: JsonModel) -> bool {
        &&& j is Obj
        &&& lookup(j->Obj_0, "id"@) == Option::Some(JsonModel::Str(self.id@))
        &&& match lookup(j->Obj_0, "choices"@) {
            Option::Some(JsonModel::Arr(a)) => self.choices@.len() == a.len() && (forall|i: int|
                0 <= i < a.len() ==> #[trigger] self.choices@[i].matches_json(a[i])),
            _ => false,
        }
        &&& lookup(j->Obj_0, "created"@) == Option::Some(JsonModel::Int(self.created as int))
        &&& lookup(j->Obj_0, "model"@) == Option::Some(JsonModel::Str(self.model.spec_wire()))
        &&& lookup(j->Obj_0, "system_fingerprint"@) == Option::Some(
            JsonModel::Str(self.system_fingerprint@),
        )
        &&& lookup(j->Obj_0, "object"@) == Option::Some(JsonModel::Str(self.object@))
        &&& match lookup(j->Obj_0, "usage"@) {
            Option::Some(uj) => self.usage.matches_json(uj),
            Option::None => false,
        }
    }

    /// Reads a chat-completion answer from a JSON document; unknown keys are
    /// ignored.
    pub fn from_json(j: &Json) -> (r: Result<ChatCompletionResponse, SdkError>)
        ensures
            match r {
                Result::Ok(v) => v.matches_json(j@),
                Result::Err(e) => e is Decode && forall|v: ChatCompletionResponse| !v.matches_json(j@),
            },
    {
        broadcast use crate::json::lemma_arr_model;

        let id = match j.get(&"id".to_owned()) {
            Some(v) => match json_str(v) {
                Some(s) => s,
                None => {
                    return Err(SdkError::Decode);
                },
            },
            None => {
                return Err(SdkError::Decode);
            },
        };
        let choices = match j.get(&"choices".to_owned()) {
            Some(v) => match v {
                Json::Arr(a) => {
                    proof {
                        assert(v@ == JsonModel::Arr(elems_model(a@)));
                    }
                    let mut out: Vec<ChatCompletionChoice> = Vec::new();
                    let mut i: usize = 0;
                    while i < a.len()
                        invariant
                            i <= a.len(),
                            out@.len() == i,
                            v@ == JsonModel::Arr(elems_model(a@)),
                            j@ is Obj,
                            lookup(j@->Obj_0, "choices"@) == Option::Some(v@),
                            forall|k: int|
                                0 <= k < i ==> #[trigger] out@[k].matches_json(
                                    elems_model(a@)[k],
                                ),
                        decreases a.len() - i,
                    {
                        match ChatCompletionChoice::from_json(&a[i]) {
                            Ok(c) => {
                                out.push(c);
                            },
                            Err(e) => {
                                proof {
                                    assert forall|m: ChatCompletionResponse| !m.matches_json(
                                        j@,
                                    ) by {
                                        if m.matches_json(j@) {
                                            let arr = lookup(
                                                j@->Obj_0,
                                                "choices"@,
                                            )->Some_0->Arr_0;
                                            assert(m.choices@[i as int].matches_json(
                                                arr[i as int],
                                            ));
                                            assert(arr[i as int] == a@[i as int]@);
                                        }
                                    }
                                }
                                return Err(e);
                            },
                        }
                        i = i + 1;
                    }
                    out
                },
                _ => {
                    return Err(SdkError::Decode);
                },
            },
            None => {
                return Err(SdkError::Decode);
            },
        };
        let created = match j.get(&"created".to_owned()) {
            Some(v) => match json_usize(v) {
                Some(u) => u,
                None => {
                    return Err(SdkError::Decode);
                },
            },
            None => {
                return Err(SdkError::Decode);
            },
        };
        let model = match j.get(&"model".to_owned()) {
            Some(v) => match json_str(v) {
                Some(s) => match ChatCompleteModel::from_wire(&s) {
                    Some(m) => m,
                    None => {
                        return Err(SdkError::Decode);
                    },
                },
                None => {
                    return Err(SdkError::Decode);
                },
            },
            None => {
                return Err(SdkError::Decode);
            },
        };
        let system_fingerprint = match j.get(&"system_fingerprint".to_owned()) {
            Some(v) => match json_str(v) {
                Some(s) => s,
                None => {
                    return Err(SdkError::Decode);
                },
            },
            None => {
                return Err(SdkError::Decode);
            },
        };
        let object = match j.get(&"object".to_owned()) {
            Some(v) => match json_str(v) {
                Some(s) => s,
                None => {
                    return Err(SdkError::Decode);
                },
            },
            None => {
                return Err(SdkError::Decode);
            },
        };
        let usage = match j.get(&"usage".to_owned()) {
            Some(v) => match ChatCompletionUsage::from_json(v) {
                Ok(u) => u,
                Err(e) => {
                    return Err(e);
                },
            },
            None => {
                return Err(SdkError::Decode);
            },
        };
        Ok(
            ChatCompletionResponse {
                id,
                choices,
                created,
                model,
                system_fingerprint,
                object,
                usage,
            },
        )
    }
}

impl FunctionCall {
    /// Field-for-field equality, by contents.
    pub open spec fn like(self, o: FunctionCall) -> bool {
        self.name@ == o.name@ && self.arguments@ == o.arguments@
    }
}

impl ToolCalls {
    /// Field-for-field equality, by contents.
    pub open spec fn like(self, o: ToolCalls) -> bool {
        self.id@ == o.id@ && self.kind == o.kind && self.function.like(o.function)
    }
}

impl AssistantMessage {
    /// Field-for-field equality, by contents.
    pub open spec fn like(self, o: AssistantMessage) -> bool {
        &&& opt_view(self.content) == opt_view(o.content)
        &&& opt_view(self.name) == opt_view(o.name)
        &&& self.tool_calls@.len() == o.tool_calls@.len()
        &&& forall|i: int|
            0 <= i < self.tool_calls@.len() ==> #[trigger] self.tool_calls@[i].like(
                o.tool_calls@[i],
            )
    }
}

/// A function call is described by its own serialization: reading the
/// serialized form back cannot fail.
pub proof fn lemma_function_call_encode_matches(f: FunctionCall)
    ensures
        f.matches_json(f.spec_json()),
{
    reveal_with_fuel(lookup, 5);
    reveal_strlit("name");
    reveal_strlit("arguments");
    assert("name"@.len() == 4);
    assert("arguments"@.len() == 9);
    let e = f.spec_json()->Obj_0;
    assert(e.drop_first() =~~= seq![("arguments"@, JsonModel::Str(f.arguments@))]);
}

/// Any two function calls that one JSON document describes are equal in
/// contents: decoding is unambiguous.
pub proof fn lemma_function_call_matches_unique(m1: FunctionCall, m2: FunctionCall, j: JsonModel)
    requires
        m1.matches_json(j),
        m2.matches_json(j),
    ensures
        m1.like(m2),
{
}

/// A tool call is described by its own serialization.
pub proof fn lemma_tool_calls_encode_matches(t: ToolCalls)
    ensures
        t.matches_json(t.spec_json()),
{
    reveal_with_fuel(lookup, 5);
    reveal_strlit("id");
    reveal_strlit("type");
    reveal_strlit("function");
    assert("id"@.len() == 2);
    assert("type"@.len() == 4);
    assert("function"@.len() == 8);
    let e = t.spec_json()->Obj_0;
    assert(e.drop_first() =~~= seq![
        ("type"@, JsonModel::Str(t.kind.spec_wire())),
        ("function"@, t.function.spec_json()),
    ]);
    assert(e.drop_first().drop_first() =~~= seq![("function"@, t.function.spec_json())]);
    lemma_function_call_encode_matches(t.function);
}

/// Any two tool calls that one JSON document describes are equal in
/// contents.
pub proof fn lemma_tool_calls_matches_unique(m1: ToolCalls, m2: ToolCalls, j: JsonModel)
    requires
        m1.matches_json(j),
        m2.matches_json(j),
    ensures
        m1.like(m2),
{
    lemma_function_call_matches_unique(
        m1.function,
        m2.function,
        lookup(j->Obj_0, "function"@)->Some_0,
    );
}

/// An assistant message is described by its own serialization: encoding and
/// then decoding cannot fail, whatever the message holds.
pub proof fn lemma_assistant_message_encode_matches(m: AssistantMessage)
    ensures
        m.matches_json(m.spec_json()),
{
    reveal_with_fuel(lookup, 5);
    reveal_strlit("role");
    reveal_strlit("content");
    reveal_strlit("name");
    reveal_strlit("tool_calls");
    assert("role"@.len() == 4);
    assert("content"@.len() == 7);
    assert("name"@.len() == 4);
    assert("tool_calls"@.len() == 10);
    assert("role"@[0] == 'r');
    assert("name"@[0] == 'n');
    let head = seq![("role"@, JsonModel::Str("assistant"@))];
    let c = opt_entry("content"@, opt_str_model(m.content));
    let n = opt_entry("name"@, opt_str_model(m.name));
    let tc = if m.tool_calls@.len() == 0 {
        Seq::<(Seq<char>, JsonModel)>::empty()
    } else {
        seq![("tool_calls"@, JsonModel::Arr(spec_tool_calls_json(m.tool_calls@)))]
    };
    let e = m.spec_json()->Obj_0;
    assert(e == head + c + n + tc);
    crate::json::lemma_lookup_append(head + c + n, tc, "content"@);
    crate::json::lemma_lookup_append(head + c, n, "content"@);
    crate::json::lemma_lookup_append(head, c, "content"@);
    crate::json::lemma_lookup_append(head + c + n, tc, "name"@);
    crate::json::lemma_lookup_append(head + c, n, "name"@);
    crate::json::lemma_lookup_append(head, c, "name"@);
    crate::json::lemma_lookup_append(head + c + n, tc, "tool_calls"@);
    crate::json::lemma_lookup_append(head + c, n, "tool_calls"@);
    crate::json::lemma_lookup_append(head, c, "tool_calls"@);
    if m.tool_calls@.len() > 0 {
        assert(lookup(e, "tool_calls"@) == Option::Some(
            JsonModel::Arr(spec_tool_calls_json(m.tool_calls@)),
        ));
        assert forall|i: int| 0 <= i < m.tool_calls@.len() implies #[trigger] m.tool_calls@[i].matches_json(
            spec_tool_calls_json(m.tool_calls@)[i],
        ) by {
            lemma_tool_calls_encode_matches(m.tool_calls@[i]);
        }
    }
}

/// Any two assistant messages that one JSON document describes are equal in
/// contents.
pub proof fn lemma_assistant_message_matches_unique(
    m1: AssistantMessage,
    m2: AssistantMessage,
    j: JsonModel,
)
    requires
        m1.matches_json(j),
        m2.matches_json(j),
    ensures
        m1.like(m2),
{
    let a = lookup(j->Obj_0, "tool_calls"@)->Some_0->Arr_0;
    assert forall|i: int| 0 <= i < m1.tool_calls@.len() implies #[trigger] m1.tool_calls@[i].like(
        m2.tool_calls@[i],
    ) by {
        assert(m1.tool_calls@[i].matches_json(a[i]));
        assert(m2.tool_calls@[i].matches_json(a[i]));
        lemma_tool_calls_matches_unique(m1.tool_calls@[i], m2.tool_calls@[i], a[i]);
    }
}

/// The wire names of the chat models are pairwise distinct, so a wire name
/// decodes to at most one model.
pub proof fn lemma_chat_model_wire_injective(m1: ChatCompleteModel, m2: ChatCompleteModel)
    requires
        m1.spec_wire() == m2.spec_wire(),
    ensures
        m1 == m2,
{
    reveal_strlit("gpt-3.5-turbo-1106");
    reveal_strlit("gpt-3.5-turbo-instruct");
    reveal_strlit("gpt-4-1106-preview");
    reveal_strlit("gpt-4-1106-vision-preview");
    reveal_strlit("babbage-002");
    assert("gpt-3.5-turbo-1106"@.len() == 18);
    assert("gpt-3.5-turbo-instruct"@.len() == 22);
    assert("gpt-4-1106-preview"@.len() == 18);
    assert("gpt-4-1106-vision-preview"@.len() == 25);
    assert("babbage-002"@.len() == 11);
    assert("gpt-3.5-turbo-1106"@[4] == '3');
    assert("gpt-4-1106-preview"@[4] == '4');
}

/// A request with only the required fields set serializes to an object with
/// exactly the `messages` and `model` keys, in that order.
pub proof fn lemma_minimal_request_entries(req: ChatCompletionRequest)
    requires
        req.frequency_penalty is None,
        req.max_tokens is None,
        req.n is None,
        req.presence_penalty is None,
        req.response_format is None,
        req.seed is None,
        req.stop is None,
        req.stream is None,
        req.temperature is None,
        req.top_p is None,
        req.tools@.len() == 0,
        req.tool_choice is None,
        req.user is None,
    ensures
        req.spec_entries() == seq![
            ("messages"@, JsonModel::Arr(spec_msgs_json(req.messages@))),
            ("model"@, JsonModel::Str(req.model.spec_wire())),
        ],
{
    reveal(ChatCompletionRequest::spec_entries);
    assert(req.spec_entries() =~~= seq![
        ("messages"@, JsonModel::Arr(spec_msgs_json(req.messages@))),
        ("model"@, JsonModel::Str(req.model.spec_wire())),
    ]);
}

/// `Auto` serializes to the bare string `"auto"`, and `Function` to an
/// object nesting the function's name under the `function` key.
pub proof fn lemma_tool_choice_json(c: ToolChoice)
    ensures
        c matches ToolChoice::Auto ==> c.spec_json() == JsonModel::Str("auto"@),
        c matches ToolChoice::Function { kind, name } ==> c.spec_json() == JsonModel::Obj(
            seq![
                (
                    "function"@,
                    JsonModel::Obj(
                        seq![
                            ("type"@, JsonModel::Str("function"@)),
                            ("name"@, JsonModel::Str(name@)),
                        ],
                    ),
                ),
            ],
        ),
{
}

/// A message whose participant name is absent has no `name` key in its
/// serialized form, and one whose name is present keeps it under `name`.
pub proof fn lemma_system_message_name_key(m: SystemMessage)
    ensures
        m.name is None ==> lookup(m.spec_json()->Obj_0, "name"@) is None,
        m.name matches Some(n) ==> lookup(m.spec_json()->Obj_0, "name"@) == Option::Some(
            JsonModel::Str(n@),
        ),
{
    reveal_with_fuel(lookup, 5);
    reveal_strlit("role");
    reveal_strlit("content");
    reveal_strlit("name");
    assert("role"@.len() == 4);
    assert("content"@.len() == 7);
    assert("name"@.len() == 4);
    assert("role"@[0] == 'r');
    assert("name"@[0] == 'n');
    let head = seq![
        ("role"@, JsonModel::Str("system"@)),
        ("content"@, JsonModel::Str(m.content@)),
    ];
    let n = opt_entry("name"@, opt_str_model(m.name));
    assert(m.spec_json()->Obj_0 == head + n);
    crate::json::lemma_lookup_append(head, n, "name"@);
}

/// The same, for a user message.
pub proof fn lemma_user_message_name_key(m: UserMessage)
    ensures
        m.name is None ==> lookup(m.spec_json()->Obj_0, "name"@) is None,
        m.name matches Some(n) ==> lookup(m.spec_json()->Obj_0, "name"@) == Option::Some(
            JsonModel::Str(n@),
        ),
{
    reveal_with_fuel(lookup, 5);
    reveal_strlit("role");
    reveal_strlit("content");
    reveal_strlit("name");
    assert("role"@.len() == 4);
    assert("content"@.len() == 7);
    assert("name"@.len() == 4);
    assert("role"@[0] == 'r');
    assert("name"@[0] == 'n');
    let head = seq![
        ("role"@, JsonModel::Str("user"@)),
        ("content"@, JsonModel::Str(m.content@)),
    ];
    let n = opt_entry("name"@, opt_str_model(m.name));
    assert(m.spec_json()->Obj_0 == head + n);
    crate::json::lemma_lookup_append(head, n, "name"@);
}

/// A serialized tool embeds its argument schema verbatim under
/// `function.parameters`.
pub proof fn lemma_tool_parameters_verbatim(t: Tool)
    ensures
        match lookup(t.spec_json()->Obj_0, "function"@) {
            Option::Some(fj) => fj is Obj && lookup(fj->Obj_0, "parameters"@) == Option::Some(
                t.function.parameters@,
            ),
            Option::None => false,
        },
{
    reveal_with_fuel(lookup, 5);
    reveal_strlit("type");
    reveal_strlit("function");
    reveal_strlit("description");
    reveal_strlit("name");
    reveal_strlit("parameters");
    assert("type"@.len() == 4);
    assert("function"@.len() == 8);
    assert("description"@.len() == 11);
    assert("name"@.len() == 4);
    assert("parameters"@.len() == 10);
    assert("type"@[0] == 't');
    assert("name"@[0] == 'n');
    let e = t.spec_json()->Obj_0;
    assert(e.drop_first() =~~= seq![("function"@, t.function.spec_json())]);
    let f = t.function.spec_json()->Obj_0;
    assert(f.drop_first() =~~= seq![
        ("name"@, JsonModel::Str(t.function.name@)),
        ("parameters"@, t.function.parameters@),
    ]);
    assert(f.drop_first().drop_first() =~~= seq![("parameters"@, t.function.parameters@)]);
}

} // verus!
