use mcp_compliance_rust::reply::{JsonType, NumericOp, ServerReply, ToolOutcome};
use mcp_compliance_rust::request::{Request, ToolArguments, ToolCallParams};
use mcp_compliance_rust::rpc::{
    answer, check_transport, is_blank_line, parse_error, INTERNAL_ERROR, PARSE_ERROR,
};
use mcp_compliance_rust::server::ServerState;

fn no_arguments() -> ToolArguments {
    ToolArguments {
        allowed: None,
        expression: None,
        expression_value: None,
        path: None,
        duration_secs: None,
        value: "0".to_string(),
    }
}

fn plain(method: &str) -> Request {
    Request { method: method.to_string(), uri: None, name: None, tool_call: ToolCallParams::Missing }
}

fn call(name: &str, arguments: ToolArguments) -> Request {
    Request {
        method: "tools/call".to_string(),
        uri: None,
        name: None,
        tool_call: ToolCallParams::Call { name: name.to_string(), arguments },
    }
}

fn read(uri: &str) -> Request {
    Request { method: "resources/read".to_string(), uri: Some(uri.to_string()), name: None, tool_call: ToolCallParams::Missing }
}

fn tool_text(reply: Result<ServerReply, String>) -> (String, bool) {
    match reply {
        Ok(ServerReply::ToolCall(ToolOutcome::Done(r))) => (r.text, r.is_error),
        _ => panic!("expected a finished tool result"),
    }
}

fn contents_text(reply: Result<ServerReply, String>) -> String {
    match reply {
        Ok(ServerReply::Contents(c)) => {
            assert_eq!(c.mime_type, "text/plain");
            c.text
        }
        _ => panic!("expected resource contents"),
    }
}

#[test]
fn initialize_reports_protocol_and_server() {
    let mut state = ServerState::new();
    match state.handle_request("CalcServer", &plain("initialize")) {
        Ok(ServerReply::Initialized(r)) => {
            assert_eq!(r.protocol_version, "2025-06-18");
            assert_eq!(r.server_name, "CalcServer");
            assert_eq!(r.server_version, "1.0.0");
            assert!(r.capabilities.tools_list_changed);
            assert!(r.capabilities.resources_subscribe);
            assert!(r.capabilities.resources_list_changed);
            assert!(r.capabilities.prompts_list_changed);
        }
        _ => panic!("expected an initialize reply"),
    }
}

#[test]
fn tool_lists_per_server() {
    let mut state = ServerState::new();
    let names = |server: &str, state: &mut ServerState| -> Vec<String> {
        match state.handle_request(server, &plain("tools/list")) {
            Ok(ServerReply::Tools(v)) => v.into_iter().map(|t| t.name).collect(),
            _ => panic!("expected a tool list"),
        }
    };
    assert_eq!(
        names("CalcServer", &mut state),
        vec!["add", "ambiguous_add", "cos", "sin", "set_trig_allowed", "write_special_number", "eval_with_sampling"]
    );
    assert_eq!(names("FileServer", &mut state), vec!["write_file", "delete_file"]);
    assert_eq!(names("ErrorServer", &mut state), vec!["always_error", "timeout", "invalid_response"]);
    assert!(names("NoSuchServer", &mut state).is_empty());
}

#[test]
fn tool_schemas_match_the_catalogue() {
    let mut state = ServerState::new();
    match state.handle_request("CalcServer", &plain("tools/list")) {
        Ok(ServerReply::Tools(v)) => {
            let add = &v[0];
            assert_eq!(add.description, "Adds two numbers a and b together and returns the sum");
            assert_eq!(add.input_schema.properties.len(), 2);
            assert_eq!(add.input_schema.properties[0].name, "a");
            assert_eq!(add.input_schema.properties[0].kind, JsonType::Number);
            assert_eq!(add.input_schema.required, Some(vec!["a".to_string(), "b".to_string()]));
            assert_eq!(add.input_schema.additional_properties, None);
            let trig = &v[4];
            assert_eq!(trig.input_schema.properties[0].kind, JsonType::Boolean);
            let eval = &v[6];
            assert_eq!(eval.input_schema.properties[0].kind, JsonType::String);
        }
        _ => panic!("expected a tool list"),
    }
    match state.handle_request("ErrorServer", &plain("tools/list")) {
        Ok(ServerReply::Tools(v)) => {
            assert!(v[0].input_schema.properties.is_empty());
            assert_eq!(v[0].input_schema.required, None);
            assert_eq!(v[0].input_schema.additional_properties, Some(false));
            assert_eq!(v[1].input_schema.properties[0].name, "duration_secs");
            assert_eq!(v[1].input_schema.required, None);
            assert_eq!(v[1].input_schema.additional_properties, None);
        }
        _ => panic!("expected a tool list"),
    }
}

#[test]
fn resource_and_prompt_lists() {
    let mut state = ServerState::new();
    match state.handle_request("CalcServer", &plain("resources/list")) {
        Ok(ServerReply::Resources(v)) => {
            assert_eq!(v.len(), 1);
            assert_eq!(v[0].uri, "resource://special-number");
            assert_eq!(v[0].name, "Special Number");
            assert_eq!(v[0].mime_type, "text/plain");
        }
        _ => panic!("expected a resource list"),
    }
    match state.handle_request("ErrorServer", &plain("resources/list")) {
        Ok(ServerReply::Resources(v)) => assert!(v.is_empty()),
        _ => panic!("expected a resource list"),
    }
    match state.handle_request("FileServer", &plain("prompts/list")) {
        Ok(ServerReply::Prompts(v)) => {
            assert_eq!(v.len(), 1);
            assert_eq!(v[0].name, "code_review");
            assert_eq!(v[0].description, "Analyzes code quality and suggests improvements");
        }
        _ => panic!("expected a prompt list"),
    }
}

#[test]
fn special_number_starts_at_42_and_reads_back_writes() {
    let mut state = ServerState::new();
    assert_eq!(contents_text(state.handle_request("CalcServer", &read("resource://special-number"))), "42");
    let mut args = no_arguments();
    args.value = "100".to_string();
    let (text, is_error) = tool_text(state.handle_request("CalcServer", &call("write_special_number", args)));
    assert_eq!(text, "Special number updated to 100");
    assert!(!is_error);
    assert_eq!(contents_text(state.handle_request("CalcServer", &read("resource://special-number"))), "100");
}

#[test]
fn static_file_and_missing_resources() {
    let mut state = ServerState::new();
    assert_eq!(
        contents_text(state.handle_request("FileServer", &read("file:///test/static.txt"))),
        "This is a static test file content"
    );
    match state.handle_request("CalcServer", &read("file:///test/static.txt")) {
        Err(m) => assert_eq!(m, "Resource not found: file:///test/static.txt"),
        _ => panic!("expected an error"),
    }
    match state.handle_request("CalcServer", &plain("resources/read")) {
        Err(m) => assert_eq!(m, "Resource not found: "),
        _ => panic!("expected an error"),
    }
}

#[test]
fn prompts_get() {
    let mut state = ServerState::new();
    let request = Request {
        method: "prompts/get".to_string(),
        uri: None,
        name: Some("example-maths".to_string()),
        tool_call: ToolCallParams::Missing,
    };
    match state.handle_request("CalcServer", &request) {
        Ok(ServerReply::Prompt(p)) => {
            assert_eq!(p.description, "A prompt template that helps with mathematical problem solving");
            assert_eq!(p.role, "user");
            assert_eq!(p.text, "Help me solve mathematical problems step by step.");
        }
        _ => panic!("expected a prompt"),
    }
    match state.handle_request("FileServer", &request) {
        Err(m) => assert_eq!(m, "Prompt not found: example-maths"),
        _ => panic!("expected an error"),
    }
}

#[test]
fn trig_flag_is_recorded_for_the_default_client() {
    let mut state = ServerState::new();
    assert!(state.trig_allowed.get("default").is_none());
    let mut args = no_arguments();
    args.allowed = Some(true);
    let (text, _) = tool_text(state.handle_request("CalcServer", &call("set_trig_allowed", args)));
    assert_eq!(text, "Trigonometric functions enabled for this client");
    assert_eq!(state.trig_allowed.get("default"), Some(&true));
    let (text, _) = tool_text(state.handle_request("CalcServer", &call("set_trig_allowed", no_arguments())));
    assert_eq!(text, "Trigonometric functions disabled for this client");
    assert_eq!(state.trig_allowed.get("default"), Some(&false));
}

#[test]
fn numeric_tools_are_computed_by_the_caller() {
    let mut state = ServerState::new();
    match state.handle_request("CalcServer", &call("add", no_arguments())) {
        Ok(ServerReply::ToolCall(ToolOutcome::Compute(o))) => assert_eq!(o, NumericOp::Sum),
        _ => panic!("expected a computation"),
    }
    match state.handle_request("FileServer", &call("add", no_arguments())) {
        Ok(ServerReply::ToolCall(ToolOutcome::Done(r))) => {
            assert_eq!(r.text, "Unknown tool: add");
            assert!(r.is_error);
        }
        _ => panic!("expected an unknown tool"),
    }
}

#[test]
fn trigonometry_is_disabled_until_allowed() {
    let mut state = ServerState::new();
    assert!(!state.trig_enabled());
    for name in ["cos", "sin"] {
        assert_eq!(
            tool_text(state.handle_request("CalcServer", &call(name, no_arguments()))),
            ("Trigonometric functions are disabled for this client".to_string(), true)
        );
    }
    let mut args = no_arguments();
    args.allowed = Some(true);
    let _ = state.handle_request("CalcServer", &call("set_trig_allowed", args));
    assert!(state.trig_enabled());
    for (name, op) in [("cos", NumericOp::Cosine), ("sin", NumericOp::Sine)] {
        match state.handle_request("CalcServer", &call(name, no_arguments())) {
            Ok(ServerReply::ToolCall(ToolOutcome::Compute(o))) => assert_eq!(o, op),
            _ => panic!("expected a computation"),
        }
    }
    let mut args = no_arguments();
    args.allowed = Some(false);
    let _ = state.handle_request("CalcServer", &call("set_trig_allowed", args));
    assert_eq!(
        tool_text(state.handle_request("CalcServer", &call("cos", no_arguments()))),
        ("Trigonometric functions are disabled for this client".to_string(), true)
    );
}

#[test]
fn eval_with_sampling_known_and_parsed_expressions() {
    let mut state = ServerState::new();
    let mut args = no_arguments();
    args.expression = Some("2 + 2 * 3".to_string());
    assert_eq!(tool_text(state.handle_request("CalcServer", &call("eval_with_sampling", args))), ("8".to_string(), false));
    let mut args = no_arguments();
    args.expression = Some("(2 + 3) * (4 + 5)".to_string());
    assert_eq!(tool_text(state.handle_request("CalcServer", &call("eval_with_sampling", args))), ("45".to_string(), false));
    let mut args = no_arguments();
    args.expression = Some(" 2.5 ".to_string());
    args.expression_value = Some("2.5".to_string());
    assert_eq!(tool_text(state.handle_request("CalcServer", &call("eval_with_sampling", args))), ("2.5".to_string(), false));
    let mut args = no_arguments();
    args.expression = Some("1 +".to_string());
    assert_eq!(
        tool_text(state.handle_request("CalcServer", &call("eval_with_sampling", args))),
        ("Error evaluating expression: Cannot evaluate expression: 1 +".to_string(), true)
    );
    assert_eq!(
        tool_text(state.handle_request("CalcServer", &call("eval_with_sampling", no_arguments()))),
        ("Error evaluating expression: Cannot evaluate expression: ".to_string(), true)
    );
}

#[test]
fn file_and_error_server_tools() {
    let mut state = ServerState::new();
    let mut args = no_arguments();
    args.path = Some("/tmp/x".to_string());
    assert_eq!(tool_text(state.handle_request("FileServer", &call("write_file", args))), ("File written to /tmp/x".to_string(), false));
    assert_eq!(tool_text(state.handle_request("FileServer", &call("delete_file", no_arguments()))), ("File deleted: ".to_string(), false));
    assert_eq!(
        tool_text(state.handle_request("ErrorServer", &call("always_error", no_arguments()))),
        ("This tool always fails as designed".to_string(), true)
    );
    assert_eq!(
        tool_text(state.handle_request("ErrorServer", &call("invalid_response", no_arguments()))),
        ("This response structure might not match expectations".to_string(), false)
    );
    assert_eq!(
        tool_text(state.handle_request("CalcServer", &call("ambiguous_add", no_arguments()))),
        ("This tool requires elicitation for parameter 'b' which is not yet implemented".to_string(), true)
    );
}

#[test]
fn timeout_waits_then_reports() {
    let mut state = ServerState::new();
    match state.handle_request("ErrorServer", &call("timeout", no_arguments())) {
        Ok(ServerReply::ToolCall(ToolOutcome::DelayThen { seconds, result })) => {
            assert_eq!(seconds, 30);
            assert_eq!(result.text, "Completed after 30 seconds");
            assert!(!result.is_error);
        }
        _ => panic!("expected a delay"),
    }
    let mut args = no_arguments();
    args.duration_secs = Some(7);
    match state.handle_request("ErrorServer", &call("timeout", args)) {
        Ok(ServerReply::ToolCall(ToolOutcome::DelayThen { seconds, result })) => {
            assert_eq!(seconds, 7);
            assert_eq!(result.text, "Completed after 7 seconds");
        }
        _ => panic!("expected a delay"),
    }
}

#[test]
fn failing_requests() {
    let mut state = ServerState::new();
    match state.handle_request("CalcServer", &plain("tools/call")) {
        Err(m) => assert_eq!(m, "Missing tool call parameters"),
        _ => panic!("expected an error"),
    }
    let malformed = Request {
        method: "tools/call".to_string(),
        uri: None,
        name: None,
        tool_call: ToolCallParams::Malformed("missing field `name`".to_string()),
    };
    match state.handle_request("CalcServer", &malformed) {
        Err(m) => assert_eq!(m, "missing field `name`"),
        _ => panic!("expected an error"),
    }
    match answer(&mut state, "CalcServer", &plain("ping")) {
        Err(e) => {
            assert_eq!(e.code, INTERNAL_ERROR);
            assert_eq!(e.message, "Unknown method: ping");
        }
        _ => panic!("expected an error"),
    }
    let e = parse_error("expected value at line 1 column 1");
    assert_eq!(e.code, PARSE_ERROR);
    assert_eq!(e.code, -32700);
    assert_eq!(INTERNAL_ERROR, -32603);
    assert_eq!(e.message, "Parse error: expected value at line 1 column 1");
}

#[test]
fn blank_lines_and_transports() {
    assert!(is_blank_line(""));
    assert!(is_blank_line(" \t\r\n\u{3000}"));
    assert!(!is_blank_line("  {}"));
    assert!(check_transport("stdio").is_ok());
    assert_eq!(check_transport("sse"), Err("Only stdio transport supported currently".to_string()));
}
