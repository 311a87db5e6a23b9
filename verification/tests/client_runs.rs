use mcp_compliance_rust::client::{
    initialize_request, is_response_line, stdio_command, ArgValue, ClientAction, ClientCall,
    ClientRequest, FirstText, Next, ResponseSummary, ScenarioRun, SeenText,
};

fn text(s: &str) -> ResponseSummary {
    let seen = || FirstText::Text(SeenText { as_str: Some(s.to_string()), shown: format!("\"{}\"", s) });
    ResponseSummary { content: seen(), contents: seen(), debug: "response".to_string() }
}

fn missing(content: FirstText) -> ResponseSummary {
    ResponseSummary { content, contents: FirstText::NoResult, debug: "JsonRpcResponse { id: 2 }".to_string() }
}

fn ids(action: &ClientAction) -> Vec<u64> {
    action.send.iter().map(|r| r.id).collect()
}

fn finished(action: &ClientAction) -> Option<Result<(), String>> {
    match &action.next {
        Next::Await => None,
        Next::Finish(r) => Some(r.clone()),
    }
}

fn tool_call(r: &ClientRequest) -> (&str, Vec<(String, String)>) {
    match &r.call {
        ClientCall::CallTool { name, arguments } => (
            name.as_str(),
            arguments
                .iter()
                .map(|a| {
                    let v = match &a.value {
                        ArgValue::Integer(i) => i.to_string(),
                        ArgValue::Text(t) => t.clone(),
                    };
                    (a.name.clone(), v)
                })
                .collect(),
        ),
        _ => panic!("expected a tool call"),
    }
}

#[test]
fn initialize_request_opens_with_id_one() {
    let r = initialize_request();
    assert_eq!(r.id, 1);
    assert_eq!(r.call.method(), "initialize");
    match r.call {
        ClientCall::Initialize { protocol_version, client_name, client_version } => {
            assert_eq!(protocol_version, "2025-06-18");
            assert_eq!(client_name, "RustTestClient");
            assert_eq!(client_version, "1.0.0");
        }
        _ => panic!("expected initialize"),
    }
}

#[test]
fn add_scenario_passes_on_30() {
    let (run, action) = ScenarioRun::start(1);
    assert_eq!(ids(&action), vec![2]);
    assert_eq!(action.send[0].call.method(), "tools/call");
    assert_eq!(
        tool_call(&action.send[0]),
        ("add", vec![("a".to_string(), "10".to_string()), ("b".to_string(), "20".to_string())])
    );
    assert!(finished(&action).is_none());
    let (run, action) = run.step(&text("30"));
    assert!(!run.is_awaiting());
    assert_eq!(finished(&action), Some(Ok(())));
}

#[test]
fn add_scenario_reports_each_missing_part() {
    let cases = [
        (FirstText::NoResult, "No result in response: JsonRpcResponse { id: 2 }"),
        (FirstText::NoArray, "No content field in result"),
        (FirstText::NoFirstItem, "No content in response"),
        (FirstText::NoText, "No text field in content"),
    ];
    for (content, message) in cases {
        let (run, _) = ScenarioRun::start(1);
        let (_, action) = run.step(&missing(content));
        assert_eq!(finished(&action), Some(Err(message.to_string())));
    }
    let (run, _) = ScenarioRun::start(1);
    let (_, action) = run.step(&text("31"));
    assert_eq!(finished(&action), Some(Err("Scenario 1 failed: expected 30, got \"31\"".to_string())));
}

#[test]
fn promised_values_must_arrive() {
    for id in [13u32, 21, 6, 15] {
        let (run, _) = ScenarioRun::start(id);
        let (_, action) = run.step(&missing(FirstText::NoText));
        assert_eq!(finished(&action), Some(Err("No text field in content".to_string())));
        let (run, _) = ScenarioRun::start(id);
        let (_, action) = run.step(&missing(FirstText::NoResult));
        assert_eq!(
            finished(&action),
            Some(Err("No result in response: JsonRpcResponse { id: 2 }".to_string()))
        );
    }
    for id in [13u32, 21] {
        let (run, _) = ScenarioRun::start(id);
        let (_, action) = run.step(&text("3"));
        assert_eq!(finished(&action), Some(Err(format!("Scenario {} failed: expected 30, got \"3\"", id))));
    }
    let (run, _) = ScenarioRun::start(4);
    let (run, _) = run.step(&text("42"));
    let (run, _) = run.step(&text("ok"));
    let last = ResponseSummary {
        content: FirstText::NoResult,
        contents: FirstText::NoFirstItem,
        debug: String::new(),
    };
    let (_, action) = run.step(&last);
    assert_eq!(finished(&action), Some(Err("No contents in response".to_string())));
    let (run, _) = ScenarioRun::start(4);
    let (run, _) = run.step(&text("42"));
    let (run, _) = run.step(&text("ok"));
    let last = ResponseSummary { content: FirstText::NoResult, contents: FirstText::NoArray, debug: String::new() };
    let (_, action) = run.step(&last);
    assert_eq!(finished(&action), Some(Err("No contents field in result".to_string())));
}

#[test]
fn eval_scenarios_expect_8_and_45() {
    let (run, action) = ScenarioRun::start(6);
    assert_eq!(tool_call(&action.send[0]), ("eval_with_sampling", vec![("expression".to_string(), "2 + 2 * 3".to_string())]));
    let (_, action) = run.step(&text("8"));
    assert_eq!(finished(&action), Some(Ok(())));
    let (run, action) = ScenarioRun::start(15);
    assert_eq!(tool_call(&action.send[0]).1[0].1, "(2 + 3) * (4 + 5)");
    let (_, action) = run.step(&text("44"));
    assert_eq!(finished(&action), Some(Err("Scenario 15 failed: expected 45, got \"44\"".to_string())));
}

#[test]
fn special_number_scenario_reads_writes_reads() {
    let (run, action) = ScenarioRun::start(4);
    assert_eq!(ids(&action), vec![2]);
    assert_eq!(action.send[0].call.method(), "resources/read");
    let (run, action) = run.step(&text("41"));
    assert_eq!(action.warning, Some("Expected initial value 42, got \"41\"".to_string()));
    assert_eq!(ids(&action), vec![3]);
    assert_eq!(tool_call(&action.send[0]), ("write_special_number", vec![("value".to_string(), "100".to_string())]));
    let (run, action) = run.step(&text("Special number updated to 100"));
    assert_eq!(action.warning, None);
    assert_eq!(ids(&action), vec![4]);
    let (run, action) = run.step(&text("100"));
    assert!(!run.is_awaiting());
    assert_eq!(finished(&action), Some(Ok(())));

    let (run, _) = ScenarioRun::start(4);
    let (run, action) = run.step(&text("42"));
    assert_eq!(action.warning, None);
    let (run, _) = run.step(&text("ok"));
    let (_, action) = run.step(&text("99"));
    assert_eq!(finished(&action), Some(Err("Scenario 4 failed: expected 100, got \"99\"".to_string())));
}

#[test]
fn concurrent_scenario_checks_all_sums() {
    let (run, action) = ScenarioRun::start(25);
    assert_eq!(ids(&action), vec![2, 3, 4]);
    let (run, action) = run.step(&text("7"));
    assert!(action.send.is_empty());
    assert!(finished(&action).is_none());
    let (run, _) = run.step(&text("11"));
    let (run, action) = run.step(&text("3"));
    assert!(!run.is_awaiting());
    assert_eq!(finished(&action), Some(Ok(())));

    let (run, _) = ScenarioRun::start(25);
    let (run, _) = run.step(&text("3"));
    let (run, _) = run.step(&text("12"));
    let (_, action) = run.step(&text("13"));
    assert_eq!(finished(&action), Some(Err("Unexpected result in concurrent calls: 12".to_string())));

    let (run, _) = ScenarioRun::start(25);
    let (run, _) = run.step(&text("3"));
    let (run, _) = run.step(&text("3"));
    let (_, action) = run.step(&text("3"));
    assert_eq!(finished(&action), Some(Err("Duplicate result in concurrent calls: 3".to_string())));

    let (run, _) = ScenarioRun::start(25);
    let (run, _) = run.step(&text("11"));
    let (run, _) = run.step(&missing(FirstText::NoText));
    let (_, action) = run.step(&text("7"));
    assert_eq!(finished(&action), Some(Err("Missing result in concurrent calls".to_string())));
}

#[test]
fn other_scenarios() {
    let (run, action) = ScenarioRun::start(2);
    assert_eq!(tool_call(&action.send[0]), ("ambiguous_add", vec![("a".to_string(), "10".to_string())]));
    let (_, action) = run.step(&missing(FirstText::NoResult));
    assert_eq!(finished(&action), Some(Ok(())));
    let (run, action) = ScenarioRun::start(5);
    assert_eq!(action.send[0].call.method(), "prompts/get");
    let (_, action) = run.step(&text("whatever"));
    assert_eq!(finished(&action), Some(Ok(())));
    let (run, action) = ScenarioRun::start(3);
    assert!(!run.is_awaiting());
    assert!(action.send.is_empty());
    assert_eq!(finished(&action), Some(Ok(())));
}

#[test]
fn response_lines_open_an_object() {
    assert!(is_response_line("{\"jsonrpc\":\"2.0\"}"));
    assert!(is_response_line("  \t{"));
    assert!(!is_response_line("log: {"));
    assert!(!is_response_line(""));
    assert!(!is_response_line("   "));
}

#[test]
fn transports() {
    let cmd = vec!["server".to_string(), "--x".to_string()];
    assert_eq!(stdio_command(Some("stdio"), cmd.clone()), Ok(cmd));
    assert_eq!(stdio_command(Some("stdio"), vec![]), Err("No server command provided".to_string()));
    assert_eq!(stdio_command(Some("sse"), vec![]), Err("SSE transport not implemented yet".to_string()));
    assert_eq!(
        stdio_command(Some("streamable-http"), vec![]),
        Err("Streamable HTTP transport not implemented yet".to_string())
    );
    assert_eq!(stdio_command(None, vec![]), Err("No transport specified".to_string()));
}
