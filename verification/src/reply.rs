//! What a test server answers, as plain values: the `result` of a JSON-RPC
//! response before it is written out as JSON.
use vstd::prelude::*;

verus! {

/// The JSON type of a tool argument in an input schema.
#[derive(Clone, Copy, PartialEq, Eq, Debug)]
pub enum JsonType {
    Number,
    String,
    Boolean,
}

/// One entry of an input schema's `properties`.
pub struct SchemaProperty {
    pub name: String,
    pub kind: JsonType,
}

/// The JSON schema (`"type": "object"`) of a tool's arguments.
pub struct InputSchema {
    pub properties: Vec<SchemaProperty>,
    /// The `required` list, where the schema has one.
    pub required: Option<Vec<String>>,
    /// The `additionalProperties` flag, where the schema has one.
    pub additional_properties: Option<bool>,
}

/// An entry of `tools/list`.
pub struct ToolInfo {
    pub name: String,
    pub description: String,
    pub input_schema: InputSchema,
}

/// An entry of `resources/list`.
pub struct ResourceInfo {
    pub uri: String,
    pub name: String,
    pub description: String,
    pub mime_type: String,
}

/// An entry of `prompts/list`.
pub struct PromptInfo {
    pub name: String,
    pub description: String,
}

/// The single item of `contents` that `resources/read` returns.
pub struct ResourceContent {
    pub uri: String,
    pub mime_type: String,
    pub text: String,
}

/// The answer to `prompts/get`: a description and one text message.
pub struct PromptReply {
    pub description: String,
    pub role: String,
    pub text: String,
}

/// The capabilities that `initialize` announces.
#[derive(Clone, Copy, PartialEq, Eq, Debug)]
pub struct Capabilities {
    pub tools_list_changed: bool,
    pub resources_subscribe: bool,
    pub resources_list_changed: bool,
    pub prompts_list_changed: bool,
}

/// The answer to `initialize`.
pub struct InitializeReply {
    pub protocol_version: String,
    pub capabilities: Capabilities,
    pub server_name: String,
    pub server_version: String,
}

/// The text content of a tool call's result and its `isError` flag.
pub struct ToolResult {
    pub text: String,
    pub is_error: bool,
}

/// A floating-point computation on the call's numeric arguments: `Sum` adds
/// `a` and `b`, `Cosine` and `Sine` take `angle` in radians (a missing
/// argument counts as 0). Its result, rendered as text, is a successful result.
#[derive(Clone, Copy, PartialEq, Eq, Debug)]
pub enum NumericOp {
    Sum,
    Cosine,
    Sine,
}

/// What a tool call yields.
pub enum ToolOutcome {
    /// The result is known.
    Done(ToolResult),
    /// The result is the text of a floating-point computation.
    Compute(NumericOp),
    /// The result is `result`, given after waiting `seconds` seconds.
    DelayThen { seconds: u64, result: ToolResult },
}

/// The `result` of a successful request.
pub enum ServerReply {
    Initialized(InitializeReply),
    Tools(Vec<ToolInfo>),
    Resources(Vec<ResourceInfo>),
    Contents(ResourceContent),
    Prompts(Vec<PromptInfo>),
    Prompt(PromptReply),
    ToolCall(ToolOutcome),
}

// ---------------------------------------------------------------------------
// Views: the same values with strings as character sequences.
pub struct InputSchemaView {
    pub properties: Seq<(Seq<char>, JsonType)>,
    pub required: Option<Seq<Seq<char>>>,
    pub additional_properties: Option<bool>,
}

pub struct ToolInfoView {
    pub name: Seq<char>,
    pub description: Seq<char>,
    pub input_schema: InputSchemaView,
}

pub struct ResourceInfoView {
    pub uri: Seq<char>,
    pub name: Seq<char>,
    pub description: Seq<char>,
    pub mime_type: Seq<char>,
}

pub struct PromptInfoView {
    pub name: Seq<char>,
    pub description: Seq<char>,
}

pub struct ResourceContentView {
    pub uri: Seq<char>,
    pub mime_type: Seq<char>,
    pub text: Seq<char>,
}

pub struct PromptReplyView {
    pub description: Seq<char>,
    pub role: Seq<char>,
    pub text: Seq<char>,
}

pub struct InitializeReplyView {
    pub protocol_version: Seq<char>,
    pub capabilities: Capabilities,
    pub server_name: Seq<char>,
    pub server_version: Seq<char>,
}

pub struct ToolResultView {
    pub text: Seq<char>,
    pub is_error: bool,
}

pub enum ToolOutcomeView {
    Done(ToolResultView),
    Compute(NumericOp),
    DelayThen { seconds: u64, result: ToolResultView },
}

pub enum ServerReplyView {
    Initialized(InitializeReplyView),
    Tools(Seq<ToolInfoView>),
    Resources(Seq<ResourceInfoView>),
    Contents(ResourceContentView),
    Prompts(Seq<PromptInfoView>),
    Prompt(PromptReplyView),
    ToolCall(ToolOutcomeView),
}

pub open spec fn strings_view(v: Vec<String>) -> Seq<Seq<char>> {
    v@.map_values(|s: String| s@)
}

impl View for SchemaProperty {
    type V = (Seq<char>, JsonType);

    open spec fn view(&self) -> (Seq<char>, JsonType) {
        (self.name@, self.kind)
    }
}

impl View for InputSchema {
    type V = InputSchemaView;

    open spec fn view(&self) -> InputSchemaView {
        InputSchemaView {
            properties: self.properties@.map_values(|p: SchemaProperty| p@),
            required: match self.required {
                Some(r) => Some(strings_view(r)),
                None => None,
            },
            additional_properties: self.additional_properties,
        }
    }
}

impl View for ToolInfo {
    type V = ToolInfoView;

    open spec fn view(&self) -> ToolInfoView {
        ToolInfoView {
            name: self.name@,
            description: self.description@,
            input_schema: self.input_schema@,
        }
    }
}

impl View for ResourceInfo {
    type V = ResourceInfoView;

    open spec fn view(&self) -> ResourceInfoView {
        ResourceInfoView {
            uri: self.uri@,
            name: self.name@,
            description: self.description@,
            mime_type: self.mime_type@,
        }
    }
}

impl View for PromptInfo {
    type V = PromptInfoView;

    open spec fn view(&self) -> PromptInfoView {
        PromptInfoView { name: self.name@, description: self.description@ }
    }
}

impl View for ResourceContent {
    type V = ResourceContentView;

    open spec fn view(&self) -> ResourceContentView {
        ResourceContentView { uri: self.uri@, mime_type: self.mime_type@, text: self.text@ }
    }
}

impl View for PromptReply {
    type V = PromptReplyView;

    open spec fn view(&self) -> PromptReplyView {
        PromptReplyView { description: self.description@, role: self.role@, text: self.text@ }
    }
}

impl View for InitializeReply {
    type V = InitializeReplyView;

    open spec fn view(&self) -> InitializeReplyView {
        InitializeReplyView {
            protocol_version: self.protocol_version@,
            capabilities: self.capabilities,
            server_name: self.server_name@,
            server_version: self.server_version@,
        }
    }
}

impl View for ToolResult {
    type V = ToolResultView;

    open spec fn view(&self) -> ToolResultView {
        ToolResultView { text: self.text@, is_error: self.is_error }
    }
}

impl View for ToolOutcome {
    type V = ToolOutcomeView;

    open spec fn view(&self) -> ToolOutcomeView {
        match self {
            ToolOutcome::Done(r) => ToolOutcomeView::Done(r@),
            ToolOutcome::Compute(op) => ToolOutcomeView::Compute(*op),
            ToolOutcome::DelayThen { seconds, result } => ToolOutcomeView::DelayThen {
                seconds: *seconds,
                result: result@,
            },
        }
    }
}

impl View for ServerReply {
    type V = ServerReplyView;

    open spec fn view(&self) -> ServerReplyView {
        match self {
            ServerReply::Initialized(r) => ServerReplyView::Initialized(r@),
            ServerReply::Tools(v) => ServerReplyView::Tools(v@.map_values(|t: ToolInfo| t@)),
            ServerReply::Resources(v) => ServerReplyView::Resources(
                v@.map_values(|r: ResourceInfo| r@),
            ),
            ServerReply::Contents(c) => ServerReplyView::Contents(c@),
            ServerReply::Prompts(v) => ServerReplyView::Prompts(
                v@.map_values(|p: PromptInfo| p@),
            ),
            ServerReply::Prompt(p) => ServerReplyView::Prompt(p@),
            ServerReply::ToolCall(o) => ServerReplyView::ToolCall(o@),
        }
    }
}

/// The view of a request's answer: the reply, or the message of the error.
pub open spec fn answer_view(r: Result<ServerReply, String>) -> Result<ServerReplyView, Seq<char>> {
    match r {
        Ok(reply) => Ok(reply@),
        Err(m) => Err(m@),
    }
}

} // verus!
