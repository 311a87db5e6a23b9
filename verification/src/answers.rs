//! What each test server answers, stated request by request with the texts,
//! names and schemas of the suite written out in full.
use vstd::prelude::*;
use crate::reply::{
    Capabilities, InitializeReplyView, InputSchemaView, JsonType, NumericOp, PromptInfoView,
    PromptReplyView, ResourceContentView, ResourceInfoView, ServerReplyView, ToolInfoView,
    ToolOutcomeView, ToolResultView,
};
use crate::request::{RequestView, ToolArgumentsView, ToolCallParamsView};
use crate::server::{ServerStateView, handle_spec};
use crate::text::decimal;

verus! {

/// A request of `method` whose parameters are `uri`, `name` and `tool_call`.
pub open spec fn request(
    method: Seq<char>,
    uri: Option<Seq<char>>,
    name: Option<Seq<char>>,
    tool_call: ToolCallParamsView,
) -> RequestView {
    RequestView { method, uri, name, tool_call }
}

/// The answer to a `tools/call` of `name` with `args`, and the state after it.
pub open spec fn call(server: Seq<char>, name: Seq<char>, args: ToolArgumentsView, st: ServerStateView) -> (
    Result<ServerReplyView, Seq<char>>,
    ServerStateView,
) {
    handle_spec(
        server,
        request("tools/call"@, None, None, ToolCallParamsView::Call { name, arguments: args }),
        st,
    )
}

/// A finished tool result.
pub open spec fn result(text: Seq<char>, is_error: bool) -> Result<ServerReplyView, Seq<char>> {
    Ok(ServerReplyView::ToolCall(ToolOutcomeView::Done(ToolResultView { text, is_error })))
}

/// The text of an optional argument, or the empty text.
pub open spec fn or_empty(o: Option<Seq<char>>) -> Seq<char> {
    match o {
        Some(t) => t,
        None => seq![],
    }
}

/// All the literal names that the handler tells apart are distinct.
proof fn lemma_literals_distinct()
    ensures
        "initialize"@ != "tools/list"@,
        "initialize"@ != "tools/call"@,
        "tools/list"@ != "tools/call"@,
        "resources/list"@ != "resources/read"@,
        "initialize"@ != "resources/list"@,
        "initialize"@ != "resources/read"@,
        "initialize"@ != "prompts/list"@,
        "initialize"@ != "prompts/get"@,
        "tools/list"@ != "resources/list"@,
        "tools/list"@ != "resources/read"@,
        "tools/list"@ != "prompts/list"@,
        "tools/list"@ != "prompts/get"@,
        "resources/list"@ != "prompts/list"@,
        "resources/list"@ != "prompts/get"@,
        "resources/list"@ != "tools/call"@,
        "resources/read"@ != "prompts/list"@,
        "resources/read"@ != "prompts/get"@,
        "resources/read"@ != "tools/call"@,
        "prompts/list"@ != "prompts/get"@,
        "prompts/list"@ != "tools/call"@,
        "prompts/get"@ != "tools/call"@,
        "CalcServer"@ != "FileServer"@,
        "CalcServer"@ != "ErrorServer"@,
        "FileServer"@ != "ErrorServer"@,
        "add"@ != "ambiguous_add"@,
        "add"@ != "cos"@,
        "add"@ != "sin"@,
        "add"@ != "set_trig_allowed"@,
        "add"@ != "write_special_number"@,
        "add"@ != "eval_with_sampling"@,
        "ambiguous_add"@ != "cos"@,
        "ambiguous_add"@ != "sin"@,
        "ambiguous_add"@ != "set_trig_allowed"@,
        "ambiguous_add"@ != "write_special_number"@,
        "ambiguous_add"@ != "eval_with_sampling"@,
        "cos"@ != "sin"@,
        "cos"@ != "set_trig_allowed"@,
        "cos"@ != "write_special_number"@,
        "cos"@ != "eval_with_sampling"@,
        "sin"@ != "set_trig_allowed"@,
        "sin"@ != "write_special_number"@,
        "sin"@ != "eval_with_sampling"@,
        "set_trig_allowed"@ != "write_special_number"@,
        "set_trig_allowed"@ != "eval_with_sampling"@,
        "write_special_number"@ != "eval_with_sampling"@,
        "write_file"@ != "delete_file"@,
        "always_error"@ != "timeout"@,
        "always_error"@ != "invalid_response"@,
        "timeout"@ != "invalid_response"@,
        "example-maths"@ != "code_review"@,
        "resource://special-number"@ != "file:///test/static.txt"@,
        "2 + 2 * 3"@ != "(2 + 3) * (4 + 5)"@,
{
    reveal_strlit("initialize");
    reveal_strlit("tools/list");
    reveal_strlit("tools/call");
    reveal_strlit("resources/list");
    reveal_strlit("resources/read");
    reveal_strlit("prompts/list");
    reveal_strlit("prompts/get");
    reveal_strlit("CalcServer");
    reveal_strlit("FileServer");
    reveal_strlit("ErrorServer");
    reveal_strlit("add");
    reveal_strlit("ambiguous_add");
    reveal_strlit("cos");
    reveal_strlit("sin");
    reveal_strlit("set_trig_allowed");
    reveal_strlit("write_special_number");
    reveal_strlit("eval_with_sampling");
    reveal_strlit("write_file");
    reveal_strlit("delete_file");
    reveal_strlit("always_error");
    reveal_strlit("timeout");
    reveal_strlit("invalid_response");
    reveal_strlit("example-maths");
    reveal_strlit("code_review");
    reveal_strlit("resource://special-number");
    reveal_strlit("file:///test/static.txt");
    reveal_strlit("2 + 2 * 3");
    reveal_strlit("(2 + 3) * (4 + 5)");
    assert("initialize"@.len() == 10);
    assert("tools/list"@.len() == 10);
    assert("tools/call"@.len() == 10);
    assert("resources/list"@.len() == 14);
    assert("resources/read"@.len() == 14);
    assert("prompts/list"@.len() == 12);
    assert("prompts/get"@.len() == 11);
    assert("CalcServer"@.len() == 10);
    assert("FileServer"@.len() == 10);
    assert("ErrorServer"@.len() == 11);
    assert("add"@.len() == 3);
    assert("ambiguous_add"@.len() == 13);
    assert("cos"@.len() == 3);
    assert("sin"@.len() == 3);
    assert("set_trig_allowed"@.len() == 16);
    assert("write_special_number"@.len() == 20);
    assert("eval_with_sampling"@.len() == 18);
    assert("write_file"@.len() == 10);
    assert("delete_file"@.len() == 11);
    assert("always_error"@.len() == 12);
    assert("timeout"@.len() == 7);
    assert("invalid_response"@.len() == 16);
    assert("example-maths"@.len() == 13);
    assert("code_review"@.len() == 11);
    assert("resource://special-number"@.len() == 25);
    assert("file:///test/static.txt"@.len() == 23);
    assert("2 + 2 * 3"@.len() == 9);
    assert("(2 + 3) * (4 + 5)"@.len() == 17);
    assert("initialize"@[0] != "tools/list"@[0]);
    assert("initialize"@[0] != "tools/call"@[0]);
    assert("tools/list"@[6] != "tools/call"@[6]);
    assert("resources/list"@[10] != "resources/read"@[10]);
    assert("prompts/list"@.len() != "prompts/get"@.len());
    assert("CalcServer"@[0] != "FileServer"@[0]);
    assert("add"@[0] != "cos"@[0]);
    assert("add"@[0] != "sin"@[0]);
    assert("cos"@[0] != "sin"@[0]);
    assert("always_error"@.len() != "timeout"@.len());
}

proof fn lemma_decimal_literals()
    ensures
        decimal(8) == "8"@,
        decimal(45) == "45"@,
{
    reveal_strlit("8");
    reveal_strlit("45");
    assert(decimal(4) =~= seq!['4']);
    assert(decimal(8) =~= "8"@);
    assert(decimal(45) =~= "45"@);
}

/// `initialize` answers with protocol version 2025-06-18, every capability
/// flag set, and the name of the server it was asked of, in any state; the
/// state stays as it was.
pub proof fn initialize_names_the_server(server: Seq<char>, req: RequestView, st: ServerStateView)
    requires
        req.method == "initialize"@,
    ensures
        handle_spec(server, req, st) == (
            Ok::<ServerReplyView, Seq<char>>(
                ServerReplyView::Initialized(
                    InitializeReplyView {
                        protocol_version: "2025-06-18"@,
                        capabilities: Capabilities {
                            tools_list_changed: true,
                            resources_subscribe: true,
                            resources_list_changed: true,
                            prompts_list_changed: true,
                        },
                        server_name: server,
                        server_version: "1.0.0"@,
                    },
                ),
            ),
            st,
        ),
{
}

/// A schema whose properties are all required, in order.
pub open spec fn all_required(properties: Seq<(Seq<char>, JsonType)>) -> InputSchemaView {
    InputSchemaView {
        properties,
        required: Some(properties.map_values(|p: (Seq<char>, JsonType)| p.0)),
        additional_properties: None,
    }
}

/// The tools of each server, as `tools/list` reports them.
pub proof fn tool_lists_are_the_suites(req: RequestView, st: ServerStateView, other: Seq<char>)
    requires
        req.method == "tools/list"@,
        other != "CalcServer"@ && other != "FileServer"@ && other != "ErrorServer"@,
    ensures
        handle_spec("CalcServer"@, req, st) == (
            Ok::<ServerReplyView, Seq<char>>(
                ServerReplyView::Tools(
                    seq![
                        ToolInfoView {
                            name: "add"@,
                            description: "Adds two numbers a and b together and returns the sum"@,
                            input_schema: all_required(
                                seq![("a"@, JsonType::Number), ("b"@, JsonType::Number)],
                            ),
                        },
                        ToolInfoView {
                            name: "ambiguous_add"@,
                            description: "Adds two numbers together but only accepts 'a' input and uses elicitation to request 'b' input from the user"@,
                            input_schema: all_required(seq![("a"@, JsonType::Number)]),
                        },
                        ToolInfoView {
                            name: "cos"@,
                            description: "Calculates the cosine of an angle in radians (disabled by default)"@,
                            input_schema: all_required(seq![("angle"@, JsonType::Number)]),
                        },
                        ToolInfoView {
                            name: "sin"@,
                            description: "Calculates the sine of an angle in radians (disabled by default)"@,
                            input_schema: all_required(seq![("angle"@, JsonType::Number)]),
                        },
                        ToolInfoView {
                            name: "set_trig_allowed"@,
                            description: "Enables or disables trigonometric functions (cos and sin) per-client"@,
                            input_schema: all_required(seq![("allowed"@, JsonType::Boolean)]),
                        },
                        ToolInfoView {
                            name: "write_special_number"@,
                            description: "Updates the special number resource with a new value"@,
                            input_schema: all_required(seq![("value"@, JsonType::Number)]),
                        },
                        ToolInfoView {
                            name: "eval_with_sampling"@,
                            description: "Evaluates a string arithmetic expression using LLM sampling to parse and compute the result"@,
                            input_schema: all_required(seq![("expression"@, JsonType::String)]),
                        },
                    ],
                ),
            ),
            st,
        ),
        handle_spec("FileServer"@, req, st) == (
            Ok::<ServerReplyView, Seq<char>>(
                ServerReplyView::Tools(
                    seq![
                        ToolInfoView {
                            name: "write_file"@,
                            description: "Writes content to a file at the specified path"@,
                            input_schema: all_required(
                                seq![("path"@, JsonType::String), ("content"@, JsonType::String)],
                            ),
                        },
                        ToolInfoView {
                            name: "delete_file"@,
                            description: "Deletes a file at the specified path"@,
                            input_schema: all_required(seq![("path"@, JsonType::String)]),
                        },
                    ],
                ),
            ),
            st,
        ),
        handle_spec("ErrorServer"@, req, st) == (
            Ok::<ServerReplyView, Seq<char>>(
                ServerReplyView::Tools(
                    seq![
                        ToolInfoView {
                            name: "always_error"@,
                            description: "Always returns a tool execution error"@,
                            input_schema: InputSchemaView {
                                properties: seq![],
                                required: None,
                                additional_properties: Some(false),
                            },
                        },
                        ToolInfoView {
                            name: "timeout"@,
                            description: "Takes a long time to execute, useful for testing timeouts"@,
                            input_schema: InputSchemaView {
                                properties: seq![("duration_secs"@, JsonType::Number)],
                                required: None,
                                additional_properties: None,
                            },
                        },
                        ToolInfoView {
                            name: "invalid_response"@,
                            description: "Returns a response that doesn't match its declared schema"@,
                            input_schema: InputSchemaView {
                                properties: seq![],
                                required: None,
                                additional_properties: Some(false),
                            },
                        },
                    ],
                ),
            ),
            st,
        ),
        handle_spec(other, req, st) == (
            Ok::<ServerReplyView, Seq<char>>(ServerReplyView::Tools(seq![])),
            st,
        ),
{
    lemma_literals_distinct();
    let one = |n: Seq<char>, k: JsonType| seq![(n, k)];
    assert(all_required(seq![("a"@, JsonType::Number), ("b"@, JsonType::Number)]).required
        =~= Some(seq!["a"@, "b"@]));
    assert(all_required(seq![("path"@, JsonType::String), ("content"@, JsonType::String)]).required
        =~= Some(seq!["path"@, "content"@]));
    assert(all_required(one("a"@, JsonType::Number)).required =~= Some(seq!["a"@]));
    assert(all_required(one("angle"@, JsonType::Number)).required =~= Some(seq!["angle"@]));
    assert(all_required(one("allowed"@, JsonType::Boolean)).required =~= Some(seq!["allowed"@]));
    assert(all_required(one("value"@, JsonType::Number)).required =~= Some(seq!["value"@]));
    assert(all_required(one("expression"@, JsonType::String)).required =~= Some(
        seq!["expression"@],
    ));
    assert(all_required(one("path"@, JsonType::String)).required =~= Some(seq!["path"@]));
}

/// The resources and prompts of each server, as `resources/list` and
/// `prompts/list` report them.
pub proof fn resource_and_prompt_lists_are_the_suites(
    resources: RequestView,
    prompts: RequestView,
    st: ServerStateView,
    other: Seq<char>,
)
    requires
        resources.method == "resources/list"@,
        prompts.method == "prompts/list"@,
        other != "CalcServer"@ && other != "FileServer"@,
    ensures
        handle_spec("CalcServer"@, resources, st) == (
            Ok::<ServerReplyView, Seq<char>>(
                ServerReplyView::Resources(
                    seq![
                        ResourceInfoView {
                            uri: "resource://special-number"@,
                            name: "Special Number"@,
                            description: "A mutable number resource that can be read and updated via tools"@,
                            mime_type: "text/plain"@,
                        },
                    ],
                ),
            ),
            st,
        ),
        handle_spec("FileServer"@, resources, st) == (
            Ok::<ServerReplyView, Seq<char>>(
                ServerReplyView::Resources(
                    seq![
                        ResourceInfoView {
                            uri: "file:///test/static.txt"@,
                            name: "Static Test File"@,
                            description: "A static test file resource"@,
                            mime_type: "text/plain"@,
                        },
                    ],
                ),
            ),
            st,
        ),
        handle_spec(other, resources, st) == (
            Ok::<ServerReplyView, Seq<char>>(ServerReplyView::Resources(seq![])),
            st,
        ),
        handle_spec("CalcServer"@, prompts, st) == (
            Ok::<ServerReplyView, Seq<char>>(
                ServerReplyView::Prompts(
                    seq![
                        PromptInfoView {
                            name: "example-maths"@,
                            description: "A prompt template that helps with mathematical problem solving"@,
                        },
                    ],
                ),
            ),
            st,
        ),
        handle_spec("FileServer"@, prompts, st) == (
            Ok::<ServerReplyView, Seq<char>>(
                ServerReplyView::Prompts(
                    seq![
                        PromptInfoView {
                            name: "code_review"@,
                            description: "Analyzes code quality and suggests improvements"@,
                        },
                    ],
                ),
            ),
            st,
        ),
        handle_spec(other, prompts, st) == (
            Ok::<ServerReplyView, Seq<char>>(ServerReplyView::Prompts(seq![])),
            st,
        ),
{
    lemma_literals_distinct();
}

/// `prompts/get` gives each server's prompt with its description and a
/// single user message; any other name is an error naming it.
pub proof fn prompts_are_the_suites(req: RequestView, st: ServerStateView, server: Seq<char>)
    requires
        req.method == "prompts/get"@,
    ensures
        handle_spec(server, req, st).1 == st,
        handle_spec(server, req, st).0 == if server == "CalcServer"@ && req.name == Some(
            "example-maths"@,
        ) {
            Ok::<ServerReplyView, Seq<char>>(
                ServerReplyView::Prompt(
                    PromptReplyView {
                        description: "A prompt template that helps with mathematical problem solving"@,
                        role: "user"@,
                        text: "Help me solve mathematical problems step by step."@,
                    },
                ),
            )
        } else if server == "FileServer"@ && req.name == Some("code_review"@) {
            Ok::<ServerReplyView, Seq<char>>(
                ServerReplyView::Prompt(
                    PromptReplyView {
                        description: "Analyzes code quality and suggests improvements"@,
                        role: "user"@,
                        text: "Please review this code for quality and suggest improvements."@,
                    },
                ),
            )
        } else {
            Err::<ServerReplyView, Seq<char>>("Prompt not found: "@ + or_empty(req.name))
        },
{
    lemma_literals_distinct();
    reveal_strlit("");
    reveal_strlit("example-maths");
    reveal_strlit("code_review");
    let n = crate::request::text_or(req.name, ""@);
    assert(n =~= or_empty(req.name));
    assert(""@.len() == 0);
    assert((n == "example-maths"@) <==> (req.name == Some("example-maths"@)));
    assert((n == "code_review"@) <==> (req.name == Some("code_review"@)));
    assert(handle_spec(server, req, st).0 == crate::server::get_prompt_spec(server, n));
}

/// `resources/read` gives the special number on the CalcServer and the
/// static file's text on the FileServer; any other URI is an error naming it.
pub proof fn resources_read_as_the_suites(req: RequestView, st: ServerStateView, server: Seq<char>)
    requires
        req.method == "resources/read"@,
    ensures
        handle_spec(server, req, st).1 == st,
        handle_spec(server, req, st).0 == if server == "CalcServer"@ && req.uri == Some(
            "resource://special-number"@,
        ) {
            Ok::<ServerReplyView, Seq<char>>(
                ServerReplyView::Contents(
                    ResourceContentView {
                        uri: "resource://special-number"@,
                        mime_type: "text/plain"@,
                        text: st.special_number,
                    },
                ),
            )
        } else if server == "FileServer"@ && req.uri == Some("file:///test/static.txt"@) {
            Ok::<ServerReplyView, Seq<char>>(
                ServerReplyView::Contents(
                    ResourceContentView {
                        uri: "file:///test/static.txt"@,
                        mime_type: "text/plain"@,
                        text: "This is a static test file content"@,
                    },
                ),
            )
        } else {
            Err::<ServerReplyView, Seq<char>>("Resource not found: "@ + or_empty(req.uri))
        },
{
    lemma_literals_distinct();
    reveal_strlit("");
    reveal_strlit("resource://special-number");
    reveal_strlit("file:///test/static.txt");
    let u = crate::request::text_or(req.uri, ""@);
    assert(u =~= or_empty(req.uri));
    assert(""@.len() == 0);
    assert((u == "resource://special-number"@) <==> (req.uri == Some(
        "resource://special-number"@,
    )));
    assert((u == "file:///test/static.txt"@) <==> (req.uri == Some("file:///test/static.txt"@)));
    assert(handle_spec(server, req, st).0 == crate::server::read_resource_spec(server, u, st));
}

/// What each CalcServer tool answers, in terms of its arguments and the state.
pub proof fn calc_tools_answer(args: ToolArgumentsView, st: ServerStateView, other: Seq<char>)
    requires
        other != "add"@ && other != "ambiguous_add"@ && other != "cos"@ && other != "sin"@
            && other != "set_trig_allowed"@ && other != "write_special_number"@ && other
            != "eval_with_sampling"@,
    ensures
        call("CalcServer"@, "add"@, args, st) == (
            Ok::<ServerReplyView, Seq<char>>(
                ServerReplyView::ToolCall(ToolOutcomeView::Compute(NumericOp::Sum)),
            ),
            st,
        ),
        call("CalcServer"@, "ambiguous_add"@, args, st) == (
            result(
                "This tool requires elicitation for parameter 'b' which is not yet implemented"@,
                true,
            ),
            st,
        ),
        ({
            let enabled = st.trig_allowed.contains_key("default"@)
                && st.trig_allowed["default"@];
            &&& call("CalcServer"@, "cos"@, args, st) == (
                if enabled {
                    Ok::<ServerReplyView, Seq<char>>(
                        ServerReplyView::ToolCall(ToolOutcomeView::Compute(NumericOp::Cosine)),
                    )
                } else {
                    result("Trigonometric functions are disabled for this client"@, true)
                },
                st,
            )
            &&& call("CalcServer"@, "sin"@, args, st) == (
                if enabled {
                    Ok::<ServerReplyView, Seq<char>>(
                        ServerReplyView::ToolCall(ToolOutcomeView::Compute(NumericOp::Sine)),
                    )
                } else {
                    result("Trigonometric functions are disabled for this client"@, true)
                },
                st,
            )
        }),
        call("CalcServer"@, "set_trig_allowed"@, args, st) == (
            result(
                if args.allowed == Some(true) {
                    "Trigonometric functions enabled for this client"@
                } else {
                    "Trigonometric functions disabled for this client"@
                },
                false,
            ),
            ServerStateView {
                trig_allowed: st.trig_allowed.insert("default"@, args.allowed == Some(true)),
                special_number: st.special_number,
            },
        ),
        call("CalcServer"@, "write_special_number"@, args, st) == (
            result("Special number updated to "@ + args.value, false),
            ServerStateView { trig_allowed: st.trig_allowed, special_number: args.value },
        ),
        call("CalcServer"@, "eval_with_sampling"@, args, st) == (
            if args.expression == Some("2 + 2 * 3"@) {
                result("8"@, false)
            } else if args.expression == Some("(2 + 3) * (4 + 5)"@) {
                result("45"@, false)
            } else {
                match args.expression_value {
                    Some(t) => result(t, false),
                    None => result(
                        "Error evaluating expression: Cannot evaluate expression: "@ + or_empty(
                            args.expression,
                        ),
                        true,
                    ),
                }
            },
            st,
        ),
        call("CalcServer"@, other, args, st) == (result("Unknown tool: "@ + other, true), st),
{
    lemma_literals_distinct();
    lemma_decimal_literals();
    reveal_strlit("enabled");
    reveal_strlit("disabled");
    reveal_strlit("Trigonometric functions ");
    reveal_strlit(" for this client");
    reveal_strlit("Trigonometric functions enabled for this client");
    reveal_strlit("Trigonometric functions disabled for this client");
    reveal_strlit("Error evaluating expression: ");
    reveal_strlit("Cannot evaluate expression: ");
    reveal_strlit("Error evaluating expression: Cannot evaluate expression: ");
    reveal_strlit("");
    assert("Trigonometric functions "@ + "enabled"@ + " for this client"@
        =~= "Trigonometric functions enabled for this client"@);
    assert("Trigonometric functions "@ + "disabled"@ + " for this client"@
        =~= "Trigonometric functions disabled for this client"@);
    reveal_strlit("2 + 2 * 3");
    reveal_strlit("(2 + 3) * (4 + 5)");
    let e = or_empty(args.expression);
    assert(crate::request::text_or(args.expression, ""@) =~= e);
    assert(""@.len() == 0);
    assert(e != "2 + 2 * 3"@ ==> args.expression != Some("2 + 2 * 3"@));
    assert(e != "(2 + 3) * (4 + 5)"@ ==> args.expression != Some("(2 + 3) * (4 + 5)"@));
    if args.expression is None {
        assert(e.len() == 0);
    }
    assert("Error evaluating expression: "@ + ("Cannot evaluate expression: "@ + e)
        =~= "Error evaluating expression: Cannot evaluate expression: "@ + e);
    assert(crate::eval::eval_spec(e, args.expression_value) == if e == "2 + 2 * 3"@ {
        Ok::<Seq<char>, Seq<char>>("8"@)
    } else if e == "(2 + 3) * (4 + 5)"@ {
        Ok::<Seq<char>, Seq<char>>("45"@)
    } else {
        match args.expression_value {
            Some(t) => Ok::<Seq<char>, Seq<char>>(t),
            None => Err::<Seq<char>, Seq<char>>("Cannot evaluate expression: "@ + e),
        }
    });
}

/// What the FileServer's and the ErrorServer's tools answer; none of them
/// changes the state. A `timeout` waits the `duration_secs` it is given (30
/// where it is given none) and then reports that wait.
pub proof fn file_and_error_tools_answer(args: ToolArgumentsView, st: ServerStateView, other: Seq<char>)
    requires
        other != "write_file"@ && other != "delete_file"@ && other != "always_error"@ && other
            != "timeout"@ && other != "invalid_response"@,
    ensures
        call("FileServer"@, "write_file"@, args, st) == (
            result("File written to "@ + or_empty(args.path), false),
            st,
        ),
        call("FileServer"@, "delete_file"@, args, st) == (
            result("File deleted: "@ + or_empty(args.path), false),
            st,
        ),
        call("FileServer"@, other, args, st) == (result("Unknown tool: "@ + other, true), st),
        call("ErrorServer"@, "always_error"@, args, st) == (
            result("This tool always fails as designed"@, true),
            st,
        ),
        call("ErrorServer"@, "invalid_response"@, args, st) == (
            result("This response structure might not match expectations"@, false),
            st,
        ),
        call("ErrorServer"@, other, args, st) == (result("Unknown tool: "@ + other, true), st),
        call("ErrorServer"@, "timeout"@, args, st).1 == st,
        call("ErrorServer"@, "timeout"@, args, st).0 matches Ok(
            ServerReplyView::ToolCall(ToolOutcomeView::DelayThen { seconds, result }),
        ) && (match args.duration_secs {
            Some(d) => seconds == d,
            None => seconds == 30,
        }) && result == (ToolResultView {
            text: "Completed after "@ + decimal(seconds as nat) + " seconds"@,
            is_error: false,
        }),
{
    lemma_literals_distinct();
    reveal_strlit("");
    assert(crate::request::text_or(args.path, ""@) =~= or_empty(args.path));
}

} // verus!
