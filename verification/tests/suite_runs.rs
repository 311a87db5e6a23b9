//! The client's scenario runs against the server's request handler, with
//! the JSON transport between them simulated by hand.
use mcp_compliance_rust::client::{
    initialize_request, ArgValue, ClientCall, ClientRequest, FirstText, Next, ResponseSummary,
    ScenarioRun, SeenText,
};
use mcp_compliance_rust::reply::{ServerReply, ToolOutcome};
use mcp_compliance_rust::request::{Request, ToolArguments, ToolCallParams};
use mcp_compliance_rust::server::ServerState;

/// The request as a server decodes it; integer arguments render as the
/// floating-point numbers they become there.
fn arrive(r: &ClientRequest) -> Request {
    match &r.call {
        ClientCall::Initialize { .. } => plain("initialize"),
        ClientCall::ReadResource { uri } => Request {
            method: "resources/read".to_string(),
            uri: Some(uri.clone()),
            name: None,
            tool_call: ToolCallParams::Missing,
        },
        ClientCall::GetPrompt { name } => Request {
            method: "prompts/get".to_string(),
            uri: None,
            name: Some(name.clone()),
            tool_call: ToolCallParams::Missing,
        },
        ClientCall::CallTool { name, arguments } => {
            let mut args = ToolArguments {
                allowed: None,
                expression: None,
                expression_value: None,
                path: None,
                duration_secs: None,
                value: "0".to_string(),
            };
            for a in arguments {
                match (&a.value, a.name.as_str()) {
                    (ArgValue::Text(t), "expression") => {
                        args.expression = Some(t.clone());
                        args.expression_value = t.trim().parse::<f64>().ok().map(|v| v.to_string());
                    }
                    (ArgValue::Integer(i), "value") => args.value = (*i as f64).to_string(),
                    _ => {}
                }
            }
            Request {
                method: "tools/call".to_string(),
                uri: None,
                name: None,
                tool_call: ToolCallParams::Call { name: name.clone(), arguments: args },
            }
        }
    }
}

fn plain(method: &str) -> Request {
    Request { method: method.to_string(), uri: None, name: None, tool_call: ToolCallParams::Missing }
}

fn seen(text: &str) -> FirstText {
    FirstText::Text(SeenText { as_str: Some(text.to_string()), shown: format!("{:?}", text) })
}

/// What the client reads of the server's answer.
fn observe(answer: Result<ServerReply, String>) -> ResponseSummary {
    match answer {
        Ok(ServerReply::ToolCall(ToolOutcome::Done(r))) => ResponseSummary {
            content: seen(&r.text),
            contents: FirstText::NoArray,
            debug: String::new(),
        },
        Ok(ServerReply::Contents(c)) => ResponseSummary {
            content: FirstText::NoArray,
            contents: seen(&c.text),
            debug: String::new(),
        },
        Ok(_) => ResponseSummary { content: FirstText::NoArray, contents: FirstText::NoArray, debug: String::new() },
        Err(_) => ResponseSummary { content: FirstText::NoResult, contents: FirstText::NoResult, debug: String::new() },
    }
}

/// Runs a scenario against a fresh server; the outcome and the warnings logged.
fn run_against(server: &str, scenario: u32) -> (Result<(), String>, Vec<String>) {
    let mut state = ServerState::new();
    assert!(state.handle_request(server, &arrive(&initialize_request())).is_ok());
    let (mut run, mut action) = ScenarioRun::start(scenario);
    let mut answers = Vec::new();
    let mut warnings = Vec::new();
    loop {
        if let Some(w) = action.warning.take() {
            warnings.push(w);
        }
        for r in &action.send {
            answers.push(state.handle_request(server, &arrive(r)));
        }
        match action.next {
            Next::Await => {
                let summary = observe(answers.remove(0));
                let (r, a) = run.step(&summary);
                run = r;
                action = a;
            }
            Next::Finish(outcome) => return (outcome, warnings),
        }
    }
}

#[test]
fn eval_scenarios_pass_against_calc_server() {
    assert_eq!(run_against("CalcServer", 6), (Ok(()), vec![]));
    assert_eq!(run_against("CalcServer", 15), (Ok(()), vec![]));
}

#[test]
fn special_number_scenario_passes_against_calc_server() {
    assert_eq!(run_against("CalcServer", 4), (Ok(()), vec![]));
}

#[test]
fn prompt_and_elicitation_scenarios_pass() {
    assert_eq!(run_against("CalcServer", 5), (Ok(()), vec![]));
    assert_eq!(run_against("CalcServer", 2), (Ok(()), vec![]));
}

#[test]
fn eval_scenario_fails_against_file_server() {
    let (outcome, _) = run_against("FileServer", 6);
    assert_eq!(outcome, Err("Scenario 6 failed: expected 8, got \"Unknown tool: eval_with_sampling\"".to_string()));
}

#[test]
fn every_listed_tool_resource_and_prompt_is_served() {
    for server in ["CalcServer", "FileServer", "ErrorServer"] {
        let mut state = ServerState::new();
        let tools = match state.handle_request(server, &plain("tools/list")) {
            Ok(ServerReply::Tools(v)) => v,
            _ => panic!("expected tools"),
        };
        for t in tools {
            if t.name == "timeout" {
                continue;
            }
            let request = Request {
                method: "tools/call".to_string(),
                uri: None,
                name: None,
                tool_call: ToolCallParams::Call {
                    name: t.name.clone(),
                    arguments: ToolArguments {
                        allowed: None,
                        expression: None,
                        expression_value: None,
                        path: None,
                        duration_secs: Some(0),
                        value: "1".to_string(),
                    },
                },
            };
            match state.handle_request(server, &request) {
                Ok(ServerReply::ToolCall(ToolOutcome::Done(r))) => {
                    assert_ne!(r.text, format!("Unknown tool: {}", t.name))
                }
                Ok(ServerReply::ToolCall(_)) => {}
                _ => panic!("expected a tool result"),
            }
        }
        let resources = match state.handle_request(server, &plain("resources/list")) {
            Ok(ServerReply::Resources(v)) => v,
            _ => panic!("expected resources"),
        };
        for r in resources {
            let request = Request {
                method: "resources/read".to_string(),
                uri: Some(r.uri.clone()),
                name: None,
                tool_call: ToolCallParams::Missing,
            };
            match state.handle_request(server, &request) {
                Ok(ServerReply::Contents(c)) => assert_eq!(c.uri, r.uri),
                _ => panic!("expected contents"),
            }
        }
        let prompts = match state.handle_request(server, &plain("prompts/list")) {
            Ok(ServerReply::Prompts(v)) => v,
            _ => panic!("expected prompts"),
        };
        for p in prompts {
            let request = Request {
                method: "prompts/get".to_string(),
                uri: None,
                name: Some(p.name.clone()),
                tool_call: ToolCallParams::Missing,
            };
            match state.handle_request(server, &request) {
                Ok(ServerReply::Prompt(g)) => assert_eq!(g.description, p.description),
                _ => panic!("expected a prompt"),
            }
        }
    }
}

#[test]
fn server_answers_the_client_protocol_version() {
    let mut state = ServerState::new();
    let asked = match initialize_request().call {
        ClientCall::Initialize { protocol_version, .. } => protocol_version,
        _ => panic!("expected initialize"),
    };
    match state.handle_request("FileServer", &plain("initialize")) {
        Ok(ServerReply::Initialized(r)) => assert_eq!(r.protocol_version, asked),
        _ => panic!("expected an initialize reply"),
    }
}

#[test]
fn only_state_tools_change_state() {
    let mut state = ServerState::default();
    assert_eq!(state.special_number, "0");
    for method in ["initialize", "tools/list", "resources/list", "prompts/list", "ping"] {
        let _ = state.handle_request("CalcServer", &plain(method));
    }
    assert_eq!(state.special_number, "0");
    assert!(state.trig_allowed.is_empty());
}
