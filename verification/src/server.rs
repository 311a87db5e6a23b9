//! The request handler of the test servers and the state it keeps.
use vstd::prelude::*;
use vstd::hash_map::StringHashMap;
use crate::catalog::{
    calc_server, error_server, file_server, find_prompt, initialize, initialize_reply,
    list_prompts, list_resources, list_tools, prompt_catalog, prompt_text, resource_catalog,
    special_number_uri, static_file_uri, tool_catalog,
};
use crate::eval::{eval_spec, simple_eval};
use crate::reply::{
    ResourceContent, ResourceContentView, ServerReply, ServerReplyView, ToolOutcome,
    ToolOutcomeView, ToolResult, ToolResultView, NumericOp,
};
use crate::request::{
    Request, RequestView, ToolArguments, ToolArgumentsView, ToolCallParams, ToolCallParamsView,
    str_or, text_or,
};
use crate::text::{decimal, decimal_string, joined, joined3, str_equal};

verus! {

/// What a server remembers between requests.
pub struct ServerState {
    /// Whether trigonometric tools are allowed, per client.
    pub trig_allowed: StringHashMap<bool>,
    /// The special number resource, as the text that reading it gives.
    pub special_number: String,
}

pub struct ServerStateView {
    pub trig_allowed: Map<Seq<char>, bool>,
    pub special_number: Seq<char>,
}

impl View for ServerState {
    type V = ServerStateView;

    open spec fn view(&self) -> ServerStateView {
        ServerStateView { trig_allowed: self.trig_allowed@, special_number: self.special_number@ }
    }
}

/// The state of a freshly started server: no client has set the trigonometric
/// flag, and the special number is 42.
pub open spec fn initial_state() -> ServerStateView {
    ServerStateView { trig_allowed: Map::empty(), special_number: "42"@ }
}

/// The key under which `set_trig_allowed` records its flag.
pub open spec fn trig_client() -> Seq<char> {
    "default"@
}

pub open spec fn done(text: Seq<char>, is_error: bool) -> ToolOutcomeView {
    ToolOutcomeView::Done(ToolResultView { text, is_error })
}

/// The result of calling a tool that the server does not have.
pub open spec fn unknown_tool(name: Seq<char>) -> ToolOutcomeView {
    done("Unknown tool: "@ + name, true)
}

pub open spec fn elicitation_message() -> Seq<char> {
    "This tool requires elicitation for parameter 'b' which is not yet implemented"@
}

/// The text that `set_trig_allowed` answers with.
pub open spec fn trig_message(allowed: bool) -> Seq<char> {
    "Trigonometric functions "@ + (if allowed {
        "enabled"@
    } else {
        "disabled"@
    }) + " for this client"@
}

/// Whether `cos` and `sin` are enabled: only once `set_trig_allowed` has
/// recorded `true` for the client (they are disabled by default).
pub open spec fn trig_enabled(st: ServerStateView) -> bool {
    st.trig_allowed.contains_key(trig_client()) && st.trig_allowed[trig_client()]
}

/// The error text of `cos` or `sin` while they are disabled.
pub open spec fn trig_disabled_message() -> Seq<char> {
    "Trigonometric functions are disabled for this client"@
}

/// The outcome of a call of the tool `name` on `server`, and the state after it.
pub open spec fn call_tool_spec(
    server: Seq<char>,
    name: Seq<char>,
    args: ToolArgumentsView,
    st: ServerStateView,
) -> (ToolOutcomeView, ServerStateView) {
    if server == calc_server() {
        if name == "add"@ {
            (ToolOutcomeView::Compute(NumericOp::Sum), st)
        } else if name == "ambiguous_add"@ {
            (done(elicitation_message(), true), st)
        } else if name == "cos"@ {
            if trig_enabled(st) {
                (ToolOutcomeView::Compute(NumericOp::Cosine), st)
            } else {
                (done(trig_disabled_message(), true), st)
            }
        } else if name == "sin"@ {
            if trig_enabled(st) {
                (ToolOutcomeView::Compute(NumericOp::Sine), st)
            } else {
                (done(trig_disabled_message(), true), st)
            }
        } else if name == "set_trig_allowed"@ {
            let allowed = match args.allowed {
                Some(b) => b,
                None => false,
            };
            (
                done(trig_message(allowed), false),
                ServerStateView { trig_allowed: st.trig_allowed.insert(trig_client(), allowed), ..st },
            )
        } else if name == "write_special_number"@ {
            (
                done("Special number updated to "@ + args.value, false),
                ServerStateView { special_number: args.value, ..st },
            )
        } else if name == "eval_with_sampling"@ {
            match eval_spec(text_or(args.expression, ""@), args.expression_value) {
                Ok(t) => (done(t, false), st),
                Err(e) => (done("Error evaluating expression: "@ + e, true), st),
            }
        } else {
            (unknown_tool(name), st)
        }
    } else if server == file_server() {
        if name == "write_file"@ {
            (done("File written to "@ + text_or(args.path, ""@), false), st)
        } else if name == "delete_file"@ {
            (done("File deleted: "@ + text_or(args.path, ""@), false), st)
        } else {
            (unknown_tool(name), st)
        }
    } else if server == error_server() {
        if name == "always_error"@ {
            (done("This tool always fails as designed"@, true), st)
        } else if name == "timeout"@ {
            let seconds = match args.duration_secs {
                Some(d) => d,
                None => 30,
            };
            (
                ToolOutcomeView::DelayThen {
                    seconds,
                    result: ToolResultView {
                        text: "Completed after "@ + decimal(seconds as nat) + " seconds"@,
                        is_error: false,
                    },
                },
                st,
            )
        } else if name == "invalid_response"@ {
            (done("This response structure might not match expectations"@, false), st)
        } else {
            (unknown_tool(name), st)
        }
    } else {
        (unknown_tool(name), st)
    }
}

/// What `resources/read` of `uri` gives on `server`.
pub open spec fn read_resource_spec(server: Seq<char>, uri: Seq<char>, st: ServerStateView) -> Result<
    ServerReplyView,
    Seq<char>,
> {
    if server == calc_server() && uri == special_number_uri() {
        Ok(
            ServerReplyView::Contents(
                ResourceContentView { uri, mime_type: "text/plain"@, text: st.special_number },
            ),
        )
    } else if server == file_server() && uri == static_file_uri() {
        Ok(
            ServerReplyView::Contents(
                ResourceContentView {
                    uri,
                    mime_type: "text/plain"@,
                    text: "This is a static test file content"@,
                },
            ),
        )
    } else {
        Err("Resource not found: "@ + uri)
    }
}

/// What `prompts/get` of `name` gives on `server`.
pub open spec fn get_prompt_spec(server: Seq<char>, name: Seq<char>) -> Result<ServerReplyView, Seq<char>> {
    match prompt_text(server, name) {
        Some(p) => Ok(ServerReplyView::Prompt(p)),
        None => Err("Prompt not found: "@ + name),
    }
}

/// The answer of `server` in state `st` to `req` (the reply, or the message
/// of the error), and the state after it.
pub open spec fn handle_spec(server: Seq<char>, req: RequestView, st: ServerStateView) -> (
    Result<ServerReplyView, Seq<char>>,
    ServerStateView,
) {
    let m = req.method;
    if m == "initialize"@ {
        (Ok(ServerReplyView::Initialized(initialize_reply(server))), st)
    } else if m == "tools/list"@ {
        (Ok(ServerReplyView::Tools(tool_catalog(server))), st)
    } else if m == "resources/list"@ {
        (Ok(ServerReplyView::Resources(resource_catalog(server))), st)
    } else if m == "resources/read"@ {
        (read_resource_spec(server, text_or(req.uri, ""@), st), st)
    } else if m == "prompts/list"@ {
        (Ok(ServerReplyView::Prompts(prompt_catalog(server))), st)
    } else if m == "prompts/get"@ {
        (get_prompt_spec(server, text_or(req.name, ""@)), st)
    } else if m == "tools/call"@ {
        match req.tool_call {
            ToolCallParamsView::Missing => (Err("Missing tool call parameters"@), st),
            ToolCallParamsView::Malformed(e) => (Err(e), st),
            ToolCallParamsView::Call { name, arguments } => {
                let (o, next) = call_tool_spec(server, name, arguments, st);
                (Ok(ServerReplyView::ToolCall(o)), next)
            },
        }
    } else {
        (Err("Unknown method: "@ + m), st)
    }
}

fn done_result(text: String, is_error: bool) -> (o: ToolOutcome)
    ensures
        o@ == done(text@, is_error),
{
    ToolOutcome::Done(ToolResult { text, is_error })
}

impl Default for ServerState {
    /// A state with no trigonometric flag and a special number of 0.
    fn default() -> (s: ServerState)
        ensures
            s@ == (ServerStateView { trig_allowed: Map::empty(), special_number: "0"@ }),
    {
        ServerState { trig_allowed: StringHashMap::new(), special_number: String::from_str("0") }
    }
}

impl ServerState {
    /// A freshly started server's state.
    pub fn new() -> (s: ServerState)
        ensures
            s@ == initial_state(),
    {
        ServerState { trig_allowed: StringHashMap::new(), special_number: String::from_str("42") }
    }

    /// Whether `cos` and `sin` are enabled for the client.
    pub fn trig_enabled(&self) -> (r: bool)
        ensures
            r == trig_enabled(self@),
    {
        match self.trig_allowed.get("default") {
            Some(b) => *b,
            None => false,
        }
    }

    /// Calls the tool `name` of `server_name` with `args`.
    pub fn call_tool(&mut self, server_name: &str, name: &str, args: &ToolArguments) -> (o:
        ToolOutcome)
        ensures
            (o@, final(self)@) == call_tool_spec(server_name@, name@, args@, old(self)@),
    {
        if str_equal(server_name, "CalcServer") {
            if str_equal(name, "add") {
                ToolOutcome::Compute(NumericOp::Sum)
            } else if str_equal(name, "ambiguous_add") {
                done_result(
                    String::from_str(
                        "This tool requires elicitation for parameter 'b' which is not yet implemented",
                    ),
                    true,
                )
            } else if str_equal(name, "cos") {
                if self.trig_enabled() {
                    ToolOutcome::Compute(NumericOp::Cosine)
                } else {
                    done_result(
                        String::from_str("Trigonometric functions are disabled for this client"),
                        true,
                    )
                }
            } else if str_equal(name, "sin") {
                if self.trig_enabled() {
                    ToolOutcome::Compute(NumericOp::Sine)
                } else {
                    done_result(
                        String::from_str("Trigonometric functions are disabled for this client"),
                        true,
                    )
                }
            } else if str_equal(name, "set_trig_allowed") {
                let allowed = match args.allowed {
                    Some(b) => b,
                    None => false,
                };
                self.trig_allowed.insert(String::from_str("default"), allowed);
                let word = if allowed {
                    "enabled"
                } else {
                    "disabled"
                };
                done_result(joined3("Trigonometric functions ", word, " for this client"), false)
            } else if str_equal(name, "write_special_number") {
                self.special_number = args.value.clone();
                done_result(joined("Special number updated to ", args.value.as_str()), false)
            } else if str_equal(name, "eval_with_sampling") {
                let expression = str_or(&args.expression, "");
                match simple_eval(expression, &args.expression_value) {
                    Ok(t) => done_result(t, false),
                    Err(e) => done_result(
                        joined("Error evaluating expression: ", e.as_str()),
                        true,
                    ),
                }
            } else {
                done_result(joined("Unknown tool: ", name), true)
            }
        } else if str_equal(server_name, "FileServer") {
            if str_equal(name, "write_file") {
                done_result(joined("File written to ", str_or(&args.path, "")), false)
            } else if str_equal(name, "delete_file") {
                done_result(joined("File deleted: ", str_or(&args.path, "")), false)
            } else {
                done_result(joined("Unknown tool: ", name), true)
            }
        } else if str_equal(server_name, "ErrorServer") {
            if str_equal(name, "always_error") {
                done_result(String::from_str("This tool always fails as designed"), true)
            } else if str_equal(name, "timeout") {
                let seconds: u64 = match args.duration_secs {
                    Some(d) => d,
                    None => 30,
                };
                let count = decimal_string(seconds);
                ToolOutcome::DelayThen {
                    seconds,
                    result: ToolResult {
                        text: joined3("Completed after ", count.as_str(), " seconds"),
                        is_error: false,
                    },
                }
            } else if str_equal(name, "invalid_response") {
                done_result(
                    String::from_str("This response structure might not match expectations"),
                    false,
                )
            } else {
                done_result(joined("Unknown tool: ", name), true)
            }
        } else {
            done_result(joined("Unknown tool: ", name), true)
        }
    }

    /// Reads the resource `uri` of `server_name`.
    pub fn read_resource(&self, server_name: &str, uri: &str) -> (r: Result<ServerReply, String>)
        ensures
            crate::reply::answer_view(r) == read_resource_spec(server_name@, uri@, self@),
    {
        if str_equal(server_name, "CalcServer") && str_equal(uri, "resource://special-number") {
            Ok(
                ServerReply::Contents(
                    ResourceContent {
                        uri: String::from_str(uri),
                        mime_type: String::from_str("text/plain"),
                        text: self.special_number.clone(),
                    },
                ),
            )
        } else if str_equal(server_name, "FileServer") && str_equal(
            uri,
            "file:///test/static.txt",
        ) {
            Ok(
                ServerReply::Contents(
                    ResourceContent {
                        uri: String::from_str(uri),
                        mime_type: String::from_str("text/plain"),
                        text: String::from_str("This is a static test file content"),
                    },
                ),
            )
        } else {
            Err(joined("Resource not found: ", uri))
        }
    }

    /// Answers one request: the `result` of the response, or the message of
    /// its error. Only `tools/call` of a tool that keeps state changes `self`.
    pub fn handle_request(&mut self, server_name: &str, request: &Request) -> (r: Result<
        ServerReply,
        String,
    >)
        ensures
            (crate::reply::answer_view(r), final(self)@) == handle_spec(
                server_name@,
                request@,
                old(self)@,
            ),
    {
        let method = request.method.as_str();
        if str_equal(method, "initialize") {
            Ok(ServerReply::Initialized(initialize(server_name)))
        } else if str_equal(method, "tools/list") {
            Ok(ServerReply::Tools(list_tools(server_name)))
        } else if str_equal(method, "resources/list") {
            Ok(ServerReply::Resources(list_resources(server_name)))
        } else if str_equal(method, "resources/read") {
            self.read_resource(server_name, str_or(&request.uri, ""))
        } else if str_equal(method, "prompts/list") {
            Ok(ServerReply::Prompts(list_prompts(server_name)))
        } else if str_equal(method, "prompts/get") {
            let name = str_or(&request.name, "");
            match find_prompt(server_name, name) {
                Some(p) => Ok(ServerReply::Prompt(p)),
                None => Err(joined("Prompt not found: ", name)),
            }
        } else if str_equal(method, "tools/call") {
            match &request.tool_call {
                ToolCallParams::Missing => Err(String::from_str("Missing tool call parameters")),
                ToolCallParams::Malformed(e) => Err(e.clone()),
                ToolCallParams::Call { name, arguments } => {
                    let o = self.call_tool(server_name, name.as_str(), arguments);
                    Ok(ServerReply::ToolCall(o))
                },
            }
        } else {
            Err(joined("Unknown method: ", method))
        }
    }
}

} // verus!
