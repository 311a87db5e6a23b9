//! What each test server offers: its tools, resources and prompts.
use vstd::prelude::*;
use crate::reply::{
    Capabilities, InitializeReply, InitializeReplyView, InputSchema, InputSchemaView, JsonType,
    PromptInfo, PromptInfoView, PromptReply, PromptReplyView, ResourceInfo, ResourceInfoView,
    SchemaProperty, ToolInfo, ToolInfoView, strings_view,
};
use crate::text::str_equal;

verus! {

pub open spec fn calc_server() -> Seq<char> {
    "CalcServer"@
}

pub open spec fn file_server() -> Seq<char> {
    "FileServer"@
}

pub open spec fn error_server() -> Seq<char> {
    "ErrorServer"@
}

/// The URI of the CalcServer's mutable number resource.
pub open spec fn special_number_uri() -> Seq<char> {
    "resource://special-number"@
}

/// The URI of the FileServer's static file resource.
pub open spec fn static_file_uri() -> Seq<char> {
    "file:///test/static.txt"@
}

pub open spec fn schema_view(
    properties: Seq<(Seq<char>, JsonType)>,
    required: Option<Seq<Seq<char>>>,
    additional_properties: Option<bool>,
) -> InputSchemaView {
    InputSchemaView { properties, required, additional_properties }
}

pub open spec fn tool_view(name: Seq<char>, description: Seq<char>, schema: InputSchemaView) -> ToolInfoView {
    ToolInfoView { name, description, input_schema: schema }
}

/// A schema with one property, which is required.
pub open spec fn one_required(name: Seq<char>, kind: JsonType) -> InputSchemaView {
    schema_view(seq![(name, kind)], Some(seq![name]), None)
}

/// A schema with two properties, both required.
pub open spec fn two_required(a: Seq<char>, ka: JsonType, b: Seq<char>, kb: JsonType) -> InputSchemaView {
    schema_view(seq![(a, ka), (b, kb)], Some(seq![a, b]), None)
}

/// A schema that admits no arguments at all.
pub open spec fn no_arguments() -> InputSchemaView {
    schema_view(seq![], None, Some(false))
}

pub open spec fn calc_tools() -> Seq<ToolInfoView> {
    seq![
        tool_view(
            "add"@,
            "Adds two numbers a and b together and returns the sum"@,
            two_required("a"@, JsonType::Number, "b"@, JsonType::Number),
        ),
        tool_view(
            "ambiguous_add"@,
            "Adds two numbers together but only accepts 'a' input and uses elicitation to request 'b' input from the user"@,
            one_required("a"@, JsonType::Number),
        ),
        tool_view(
            "cos"@,
            "Calculates the cosine of an angle in radians (disabled by default)"@,
            one_required("angle"@, JsonType::Number),
        ),
        tool_view(
            "sin"@,
            "Calculates the sine of an angle in radians (disabled by default)"@,
            one_required("angle"@, JsonType::Number),
        ),
        tool_view(
            "set_trig_allowed"@,
            "Enables or disables trigonometric functions (cos and sin) per-client"@,
            one_required("allowed"@, JsonType::Boolean),
        ),
        tool_view(
            "write_special_number"@,
            "Updates the special number resource with a new value"@,
            one_required("value"@, JsonType::Number),
        ),
        tool_view(
            "eval_with_sampling"@,
            "Evaluates a string arithmetic expression using LLM sampling to parse and compute the result"@,
            one_required("expression"@, JsonType::String),
        ),
    ]
}

pub open spec fn file_tools() -> Seq<ToolInfoView> {
    seq![
        tool_view(
            "write_file"@,
            "Writes content to a file at the specified path"@,
            two_required("path"@, JsonType::String, "content"@, JsonType::String),
        ),
        tool_view(
            "delete_file"@,
            "Deletes a file at the specified path"@,
            one_required("path"@, JsonType::String),
        ),
    ]
}

pub open spec fn error_tools() -> Seq<ToolInfoView> {
    seq![
        tool_view("always_error"@, "Always returns a tool execution error"@, no_arguments()),
        tool_view(
            "timeout"@,
            "Takes a long time to execute, useful for testing timeouts"@,
            schema_view(seq![("duration_secs"@, JsonType::Number)], None, None),
        ),
        tool_view(
            "invalid_response"@,
            "Returns a response that doesn't match its declared schema"@,
            no_arguments(),
        ),
    ]
}

/// The tools that `tools/list` reports for a server; none for an unknown server.
pub open spec fn tool_catalog(server: Seq<char>) -> Seq<ToolInfoView> {
    if server == calc_server() {
        calc_tools()
    } else if server == file_server() {
        file_tools()
    } else if server == error_server() {
        error_tools()
    } else {
        seq![]
    }
}

pub open spec fn special_number_resource() -> ResourceInfoView {
    ResourceInfoView {
        uri: special_number_uri(),
        name: "Special Number"@,
        description: "A mutable number resource that can be read and updated via tools"@,
        mime_type: "text/plain"@,
    }
}

pub open spec fn static_file_resource() -> ResourceInfoView {
    ResourceInfoView {
        uri: static_file_uri(),
        name: "Static Test File"@,
        description: "A static test file resource"@,
        mime_type: "text/plain"@,
    }
}

/// The resources that `resources/list` reports for a server.
pub open spec fn resource_catalog(server: Seq<char>) -> Seq<ResourceInfoView> {
    if server == calc_server() {
        seq![special_number_resource()]
    } else if server == file_server() {
        seq![static_file_resource()]
    } else {
        seq![]
    }
}

pub open spec fn maths_prompt() -> PromptInfoView {
    PromptInfoView {
        name: "example-maths"@,
        description: "A prompt template that helps with mathematical problem solving"@,
    }
}

pub open spec fn review_prompt() -> PromptInfoView {
    PromptInfoView {
        name: "code_review"@,
        description: "Analyzes code quality and suggests improvements"@,
    }
}

/// The prompts that `prompts/list` reports for a server.
pub open spec fn prompt_catalog(server: Seq<char>) -> Seq<PromptInfoView> {
    if server == calc_server() {
        seq![maths_prompt()]
    } else if server == file_server() {
        seq![review_prompt()]
    } else {
        seq![]
    }
}

/// The message of a prompt, where the server has a prompt of that name.
pub open spec fn prompt_text(server: Seq<char>, name: Seq<char>) -> Option<PromptReplyView> {
    if server == calc_server() && name == maths_prompt().name {
        Some(
            PromptReplyView {
                description: maths_prompt().description,
                role: "user"@,
                text: "Help me solve mathematical problems step by step."@,
            },
        )
    } else if server == file_server() && name == review_prompt().name {
        Some(
            PromptReplyView {
                description: review_prompt().description,
                role: "user"@,
                text: "Please review this code for quality and suggest improvements."@,
            },
        )
    } else {
        None
    }
}

/// The protocol version that servers and clients of this suite speak.
pub open spec fn protocol_version() -> Seq<char> {
    "2025-06-18"@
}

/// The answer to `initialize`.
pub open spec fn initialize_reply(server: Seq<char>) -> InitializeReplyView {
    InitializeReplyView {
        protocol_version: protocol_version(),
        capabilities: Capabilities {
            tools_list_changed: true,
            resources_subscribe: true,
            resources_list_changed: true,
            prompts_list_changed: true,
        },
        server_name: server,
        server_version: "1.0.0"@,
    }
}

// ---------------------------------------------------------------------------
fn property(name: &str, kind: JsonType) -> (p: SchemaProperty)
    ensures
        p@ == (name@, kind),
{
    SchemaProperty { name: String::from_str(name), kind }
}

fn one_required_schema(name: &str, kind: JsonType) -> (s: InputSchema)
    ensures
        s@ == one_required(name@, kind),
{
    let mut properties = Vec::new();
    properties.push(property(name, kind));
    let mut required = Vec::new();
    required.push(String::from_str(name));
    let s = InputSchema { properties, required: Some(required), additional_properties: None };
    assert(s@.properties =~= seq![(name@, kind)]);
    assert(strings_view(required) =~= seq![name@]);
    s
}

fn two_required_schema(a: &str, ka: JsonType, b: &str, kb: JsonType) -> (s: InputSchema)
    ensures
        s@ == two_required(a@, ka, b@, kb),
{
    let mut properties = Vec::new();
    properties.push(property(a, ka));
    properties.push(property(b, kb));
    let mut required = Vec::new();
    required.push(String::from_str(a));
    required.push(String::from_str(b));
    let s = InputSchema { properties, required: Some(required), additional_properties: None };
    assert(s@.properties =~= seq![(a@, ka), (b@, kb)]);
    assert(strings_view(required) =~= seq![a@, b@]);
    s
}

fn no_arguments_schema() -> (s: InputSchema)
    ensures
        s@ == no_arguments(),
{
    let s = InputSchema { properties: Vec::new(), required: None, additional_properties: Some(false) };
    assert(s@.properties =~= seq![]);
    s
}

fn tool(name: &str, description: &str, input_schema: InputSchema) -> (t: ToolInfo)
    ensures
        t@ == tool_view(name@, description@, input_schema@),
{
    ToolInfo { name: String::from_str(name), description: String::from_str(description), input_schema }
}

fn calc_tool_list() -> (v: Vec<ToolInfo>)
    ensures
        v@.map_values(|t: ToolInfo| t@) == calc_tools(),
{
    let mut v = Vec::new();
    v.push(
        tool(
            "add",
            "Adds two numbers a and b together and returns the sum",
            two_required_schema("a", JsonType::Number, "b", JsonType::Number),
        ),
    );
    v.push(
        tool(
            "ambiguous_add",
            "Adds two numbers together but only accepts 'a' input and uses elicitation to request 'b' input from the user",
            one_required_schema("a", JsonType::Number),
        ),
    );
    v.push(
        tool(
            "cos",
            "Calculates the cosine of an angle in radians (disabled by default)",
            one_required_schema("angle", JsonType::Number),
        ),
    );
    v.push(
        tool(
            "sin",
            "Calculates the sine of an angle in radians (disabled by default)",
            one_required_schema("angle", JsonType::Number),
        ),
    );
    v.push(
        tool(
            "set_trig_allowed",
            "Enables or disables trigonometric functions (cos and sin) per-client",
            one_required_schema("allowed", JsonType::Boolean),
        ),
    );
    v.push(
        tool(
            "write_special_number",
            "Updates the special number resource with a new value",
            one_required_schema("value", JsonType::Number),
        ),
    );
    v.push(
        tool(
            "eval_with_sampling",
            "Evaluates a string arithmetic expression using LLM sampling to parse and compute the result",
            one_required_schema("expression", JsonType::String),
        ),
    );
    assert(v@.map_values(|t: ToolInfo| t@) =~= calc_tools());
    v
}

fn file_tool_list() -> (v: Vec<ToolInfo>)
    ensures
        v@.map_values(|t: ToolInfo| t@) == file_tools(),
{
    let mut v = Vec::new();
    v.push(
        tool(
            "write_file",
            "Writes content to a file at the specified path",
            two_required_schema("path", JsonType::String, "content", JsonType::String),
        ),
    );
    v.push(
        tool(
            "delete_file",
            "Deletes a file at the specified path",
            one_required_schema("path", JsonType::String),
        ),
    );
    assert(v@.map_values(|t: ToolInfo| t@) =~= file_tools());
    v
}

fn error_tool_list() -> (v: Vec<ToolInfo>)
    ensures
        v@.map_values(|t: ToolInfo| t@) == error_tools(),
{
    let mut v = Vec::new();
    v.push(tool("always_error", "Always returns a tool execution error", no_arguments_schema()));
    let mut timeout_properties = Vec::new();
    timeout_properties.push(property("duration_secs", JsonType::Number));
    let timeout_schema = InputSchema {
        properties: timeout_properties,
        required: None,
        additional_properties: None,
    };
    assert(timeout_schema@.properties =~= seq![("duration_secs"@, JsonType::Number)]);
    v.push(
        tool("timeout", "Takes a long time to execute, useful for testing timeouts", timeout_schema),
    );
    v.push(
        tool(
            "invalid_response",
            "Returns a response that doesn't match its declared schema",
            no_arguments_schema(),
        ),
    );
    assert(v@.map_values(|t: ToolInfo| t@) =~= error_tools());
    v
}

/// The tools of a server, as `tools/list` reports them.
pub fn list_tools(server_name: &str) -> (v: Vec<ToolInfo>)
    ensures
        v@.map_values(|t: ToolInfo| t@) == tool_catalog(server_name@),
{
    if str_equal(server_name, "CalcServer") {
        calc_tool_list()
    } else if str_equal(server_name, "FileServer") {
        file_tool_list()
    } else if str_equal(server_name, "ErrorServer") {
        error_tool_list()
    } else {
        let v = Vec::new();
        assert(v@.map_values(|t: ToolInfo| t@) =~= seq![]);
        v
    }
}

fn resource(uri: &str, name: &str, description: &str, mime_type: &str) -> (r: ResourceInfo)
    ensures
        r@ == (ResourceInfoView { uri: uri@, name: name@, description: description@, mime_type: mime_type@ }),
{
    ResourceInfo {
        uri: String::from_str(uri),
        name: String::from_str(name),
        description: String::from_str(description),
        mime_type: String::from_str(mime_type),
    }
}

/// The resources of a server, as `resources/list` reports them.
pub fn list_resources(server_name: &str) -> (v: Vec<ResourceInfo>)
    ensures
        v@.map_values(|r: ResourceInfo| r@) == resource_catalog(server_name@),
{
    let mut v = Vec::new();
    if str_equal(server_name, "CalcServer") {
        v.push(
            resource(
                "resource://special-number",
                "Special Number",
                "A mutable number resource that can be read and updated via tools",
                "text/plain",
            ),
        );
    } else if str_equal(server_name, "FileServer") {
        v.push(
            resource(
                "file:///test/static.txt",
                "Static Test File",
                "A static test file resource",
                "text/plain",
            ),
        );
    }
    assert(v@.map_values(|r: ResourceInfo| r@) =~= resource_catalog(server_name@));
    v
}

fn prompt(name: &str, description: &str) -> (p: PromptInfo)
    ensures
        p@ == (PromptInfoView { name: name@, description: description@ }),
{
    PromptInfo { name: String::from_str(name), description: String::from_str(description) }
}

/// The prompts of a server, as `prompts/list` reports them.
pub fn list_prompts(server_name: &str) -> (v: Vec<PromptInfo>)
    ensures
        v@.map_values(|p: PromptInfo| p@) == prompt_catalog(server_name@),
{
    let mut v = Vec::new();
    if str_equal(server_name, "CalcServer") {
        v.push(
            prompt(
                "example-maths",
                "A prompt template that helps with mathematical problem solving",
            ),
        );
    } else if str_equal(server_name, "FileServer") {
        v.push(prompt("code_review", "Analyzes code quality and suggests improvements"));
    }
    assert(v@.map_values(|p: PromptInfo| p@) =~= prompt_catalog(server_name@));
    v
}

/// The prompt `name` of a server, where it has one.
pub fn find_prompt(server_name: &str, name: &str) -> (r: Option<PromptReply>)
    ensures
        match r {
            Some(p) => prompt_text(server_name@, name@) == Some(p@),
            None => prompt_text(server_name@, name@) is None,
        },
{
    if str_equal(server_name, "CalcServer") && str_equal(name, "example-maths") {
        Some(
            PromptReply {
                description: String::from_str(
                    "A prompt template that helps with mathematical problem solving",
                ),
                role: String::from_str("user"),
                text: String::from_str("Help me solve mathematical problems step by step."),
            },
        )
    } else if str_equal(server_name, "FileServer") && str_equal(name, "code_review") {
        Some(
            PromptReply {
                description: String::from_str("Analyzes code quality and suggests improvements"),
                role: String::from_str("user"),
                text: String::from_str(
                    "Please review this code for quality and suggest improvements.",
                ),
            },
        )
    } else {
        None
    }
}

/// The answer to `initialize` for a server.
pub fn initialize(server_name: &str) -> (r: InitializeReply)
    ensures
        r@ == initialize_reply(server_name@),
{
    InitializeReply {
        protocol_version: String::from_str("2025-06-18"),
        capabilities: Capabilities {
            tools_list_changed: true,
            resources_subscribe: true,
            resources_list_changed: true,
            prompts_list_changed: true,
        },
        server_name: String::from_str(server_name),
        server_version: String::from_str("1.0.0"),
    }
}

} // verus!
