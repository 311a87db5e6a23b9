//! Properties of the servers and the client that hold across requests.
use vstd::prelude::*;
use crate::catalog::{
    calc_server, initialize_reply, prompt_catalog, prompt_text, protocol_version,
    resource_catalog, special_number_uri, tool_catalog,
};
use crate::client::{
    ArgValueView, ClientActionView, ClientCallView, ClientRequestView, FirstTextView, NextView,
    ResponseSummaryView, client_protocol_version, initialize_request_spec,
    start_spec, step_spec,
};
use crate::reply::{
    NumericOp, ResourceContentView, ServerReplyView, ToolOutcomeView, ToolResultView,
};
use crate::request::{RequestView, ToolArgumentsView, ToolCallParamsView};
use crate::server::{
    ServerStateView, call_tool_spec, done, handle_spec, initial_state, trig_client,
    unknown_tool,
};

verus! {

/// A `tools/call` request of the tool `name`.
pub open spec fn tool_call_request(name: Seq<char>, args: ToolArgumentsView) -> RequestView {
    RequestView {
        method: "tools/call"@,
        uri: None,
        name: None,
        tool_call: ToolCallParamsView::Call { name, arguments: args },
    }
}

/// A `resources/read` request of `uri`.
pub open spec fn read_request(uri: Seq<char>) -> RequestView {
    RequestView {
        method: "resources/read"@,
        uri: Some(uri),
        name: None,
        tool_call: ToolCallParamsView::Missing,
    }
}

/// The method names and server names that the handler tells apart are distinct.
proof fn lemma_names_distinct()
    ensures
        "initialize"@ != "tools/list"@,
        "initialize"@ != "tools/call"@,
        "tools/list"@ != "tools/call"@,
        "resources/list"@ != "resources/read"@,
        "initialize"@ != "resources/list"@,
        "initialize"@ != "resources/read"@,
        "initialize"@ != "prompts/list"@,
        "initialize"@ != "prompts/get"@,
        "tools/list"@ != "resources/list"@,
        "tools/list"@ != "resources/read"@,
        "tools/list"@ != "prompts/list"@,
        "tools/list"@ != "prompts/get"@,
        "resources/list"@ != "prompts/list"@,
        "resources/list"@ != "prompts/get"@,
        "resources/list"@ != "tools/call"@,
        "resources/read"@ != "prompts/list"@,
        "resources/read"@ != "prompts/get"@,
        "resources/read"@ != "tools/call"@,
        "prompts/list"@ != "prompts/get"@,
        "prompts/list"@ != "tools/call"@,
        "prompts/get"@ != "tools/call"@,
        calc_server() != crate::catalog::file_server(),
        calc_server() != crate::catalog::error_server(),
        crate::catalog::file_server() != crate::catalog::error_server(),
{
    reveal_strlit("initialize");
    reveal_strlit("tools/list");
    reveal_strlit("tools/call");
    reveal_strlit("resources/list");
    reveal_strlit("resources/read");
    reveal_strlit("prompts/list");
    reveal_strlit("prompts/get");
    reveal_strlit("CalcServer");
    reveal_strlit("FileServer");
    reveal_strlit("ErrorServer");
    assert("initialize"@[0] != "tools/list"@[0]);
    assert("initialize"@[0] != "tools/call"@[0]);
    assert("tools/list"@[6] != "tools/call"@[6]);
    assert("resources/list"@[10] != "resources/read"@[10]);
    assert("CalcServer"@[0] != "FileServer"@[0]);
    assert("prompts/list"@.len() != "prompts/get"@.len());
}

/// The CalcServer's tools that keep state have names unlike its other tools.
proof fn lemma_state_tool_names_distinct()
    ensures
        "set_trig_allowed"@ != "add"@,
        "set_trig_allowed"@ != "ambiguous_add"@,
        "set_trig_allowed"@ != "cos"@,
        "set_trig_allowed"@ != "sin"@,
        "write_special_number"@ != "add"@,
        "write_special_number"@ != "ambiguous_add"@,
        "write_special_number"@ != "cos"@,
        "write_special_number"@ != "sin"@,
        "write_special_number"@ != "set_trig_allowed"@,
{
    reveal_strlit("add");
    reveal_strlit("ambiguous_add");
    reveal_strlit("cos");
    reveal_strlit("sin");
    reveal_strlit("set_trig_allowed");
    reveal_strlit("write_special_number");
    assert("set_trig_allowed"@.len() == 16);
    assert("write_special_number"@.len() == 20);
}

/// Reading the special number gives back what `write_special_number` last
/// wrote, whatever the state was before the write.
pub proof fn special_number_reads_back_write(st: ServerStateView, args: ToolArgumentsView)
    ensures
        ({
            let (written, after) = handle_spec(
                calc_server(),
                tool_call_request("write_special_number"@, args),
                st,
            );
            &&& written == Ok::<ServerReplyView, Seq<char>>(
                ServerReplyView::ToolCall(done("Special number updated to "@ + args.value, false)),
            )
            &&& handle_spec(calc_server(), read_request(special_number_uri()), after).0 == Ok::<
                ServerReplyView,
                Seq<char>,
            >(
                ServerReplyView::Contents(
                    ResourceContentView {
                        uri: special_number_uri(),
                        mime_type: "text/plain"@,
                        text: args.value,
                    },
                ),
            )
        }),
{
    lemma_state_tool_names_distinct();
    lemma_names_distinct();
}

/// A fresh server's special number reads as 42.
pub proof fn special_number_starts_at_42()
    ensures
        handle_spec(calc_server(), read_request(special_number_uri()), initial_state()).0 == Ok::<
            ServerReplyView,
            Seq<char>,
        >(
            ServerReplyView::Contents(
                ResourceContentView {
                    uri: special_number_uri(),
                    mime_type: "text/plain"@,
                    text: "42"@,
                },
            ),
        ),
{
    lemma_names_distinct();
}

/// `set_trig_allowed` records its flag (false where it is missing) for the
/// client, and touches nothing else.
pub proof fn trig_flag_is_recorded(st: ServerStateView, args: ToolArgumentsView)
    ensures
        ({
            let after = handle_spec(calc_server(), tool_call_request("set_trig_allowed"@, args), st).1;
            &&& after.trig_allowed.contains_key(trig_client())
            &&& after.trig_allowed[trig_client()] == (args.allowed == Some(true))
            &&& after.special_number == st.special_number
            &&& forall|k: Seq<char>|
                k != trig_client() ==> (#[trigger] after.trig_allowed.contains_key(k)
                    == st.trig_allowed.contains_key(k) && (st.trig_allowed.contains_key(k)
                    ==> after.trig_allowed[k] == st.trig_allowed[k]))
        }),
{
    lemma_state_tool_names_distinct();
    lemma_names_distinct();
}

/// `cos` and `sin` answer an error on a fresh server; after
/// `set_trig_allowed` they compute exactly when it was given `true`.
pub proof fn trig_tools_follow_the_flag(
    st: ServerStateView,
    set_args: ToolArgumentsView,
    args: ToolArgumentsView,
)
    ensures
        handle_spec(calc_server(), tool_call_request("cos"@, args), initial_state()).0 == Ok::<
            ServerReplyView,
            Seq<char>,
        >(ServerReplyView::ToolCall(done(crate::server::trig_disabled_message(), true))),
        handle_spec(calc_server(), tool_call_request("sin"@, args), initial_state()).0 == Ok::<
            ServerReplyView,
            Seq<char>,
        >(ServerReplyView::ToolCall(done(crate::server::trig_disabled_message(), true))),
        ({
            let after = handle_spec(
                calc_server(),
                tool_call_request("set_trig_allowed"@, set_args),
                st,
            ).1;
            &&& (set_args.allowed == Some(true)) ==> handle_spec(
                calc_server(),
                tool_call_request("cos"@, args),
                after,
            ).0 == Ok::<ServerReplyView, Seq<char>>(
                ServerReplyView::ToolCall(ToolOutcomeView::Compute(NumericOp::Cosine)),
            )
            &&& (set_args.allowed == Some(true)) ==> handle_spec(
                calc_server(),
                tool_call_request("sin"@, args),
                after,
            ).0 == Ok::<ServerReplyView, Seq<char>>(
                ServerReplyView::ToolCall(ToolOutcomeView::Compute(NumericOp::Sine)),
            )
            &&& (set_args.allowed != Some(true)) ==> handle_spec(
                calc_server(),
                tool_call_request("cos"@, args),
                after,
            ).0 == Ok::<ServerReplyView, Seq<char>>(
                ServerReplyView::ToolCall(done(crate::server::trig_disabled_message(), true)),
            )
        }),
{
    lemma_state_tool_names_distinct();
    lemma_names_distinct();
    reveal_strlit("cos");
    reveal_strlit("sin");
    reveal_strlit("add");
    reveal_strlit("ambiguous_add");
    assert("cos"@ != "add"@) by {
        assert("cos"@[0] != "add"@[0]);
    }
    assert("sin"@ != "add"@) by {
        assert("sin"@[0] != "add"@[0]);
    }
    assert("sin"@ != "cos"@) by {
        assert("sin"@[0] != "cos"@[0]);
    }
}

/// The request calls a CalcServer tool that keeps state.
pub open spec fn calls_state_tool(server: Seq<char>, req: RequestView) -> bool {
    &&& server == calc_server()
    &&& req.method == "tools/call"@
    &&& match req.tool_call {
        ToolCallParamsView::Call { name, .. } => name == "set_trig_allowed"@ || name
            == "write_special_number"@,
        _ => false,
    }
}

/// Every request other than a call of `set_trig_allowed` or
/// `write_special_number` on the CalcServer leaves the state as it was.
pub proof fn only_state_tools_change_state(server: Seq<char>, req: RequestView, st: ServerStateView)
    requires
        !calls_state_tool(server, req),
    ensures
        handle_spec(server, req, st).1 == st,
{
}

/// Every tool that `tools/list` names is one that `tools/call` knows.
pub proof fn listed_tools_are_callable(
    server: Seq<char>,
    i: int,
    args: ToolArgumentsView,
    st: ServerStateView,
)
    requires
        0 <= i < tool_catalog(server).len(),
    ensures
        call_tool_spec(server, tool_catalog(server)[i].name, args, st).0 != unknown_tool(
            tool_catalog(server)[i].name,
        ),
{
    let name = tool_catalog(server)[i].name;
    reveal_strlit("add");
    reveal_strlit("ambiguous_add");
    reveal_strlit("cos");
    reveal_strlit("sin");
    reveal_strlit("set_trig_allowed");
    reveal_strlit("write_special_number");
    reveal_strlit("eval_with_sampling");
    reveal_strlit("write_file");
    reveal_strlit("delete_file");
    reveal_strlit("always_error");
    reveal_strlit("timeout");
    reveal_strlit("invalid_response");
    reveal_strlit("Unknown tool: ");
    reveal_strlit("Special number updated to ");
    reveal_strlit("File written to ");
    reveal_strlit("File deleted: ");
    reveal_strlit("Completed after ");
    reveal_strlit("Error evaluating expression: ");
    reveal_strlit("Trigonometric functions ");
    reveal_strlit("Trigonometric functions are disabled for this client");
    reveal_strlit("This tool requires elicitation for parameter 'b' which is not yet implemented");
    reveal_strlit("This tool always fails as designed");
    reveal_strlit("This response structure might not match expectations");
    let (o, _) = call_tool_spec(server, name, args, st);
    match o {
        ToolOutcomeView::Done(r) => {
            if r == (ToolResultView { text: "Unknown tool: "@ + name, is_error: true }) {
                assert(r.text[0] == "Unknown tool: "@[0]);
                assert(r.text[8] == "Unknown tool: "@[8]);
            }
        },
        _ => {},
    }
}

/// Every resource that `resources/list` names can be read under its URI.
pub proof fn listed_resources_are_readable(server: Seq<char>, i: int, st: ServerStateView)
    requires
        0 <= i < resource_catalog(server).len(),
    ensures
        (handle_spec(server, read_request(resource_catalog(server)[i].uri), st).0 matches Ok(
            ServerReplyView::Contents(c),
        ) && c.uri == resource_catalog(server)[i].uri && c.mime_type
            == resource_catalog(server)[i].mime_type),
{
    lemma_names_distinct();
}

/// Every prompt that `prompts/list` names can be fetched, with the same
/// description.
pub proof fn listed_prompts_can_be_fetched(server: Seq<char>, i: int)
    requires
        0 <= i < prompt_catalog(server).len(),
    ensures
        (prompt_text(server, prompt_catalog(server)[i].name) matches Some(p) && p.description
            == prompt_catalog(server)[i].description),
{
}

/// A server answers the client's `initialize` with the protocol version
/// that the client asks for.
pub proof fn server_speaks_client_protocol(server: Seq<char>)
    ensures
        (initialize_request_spec().call matches ClientCallView::Initialize {
            protocol_version,
            ..
        } && protocol_version == initialize_reply(server).protocol_version),
        client_protocol_version() == protocol_version(),
{
}


/// The requests that a run sends and its last action, given the responses
/// that it reads (a run reads at most three).
pub open spec fn run_trace(
    scenario: u32,
    r1: ResponseSummaryView,
    r2: ResponseSummaryView,
    r3: ResponseSummaryView,
) -> (Seq<ClientRequestView>, ClientActionView) {
    let (s0, a0) = start_spec(scenario);
    if !(a0.next is Await) {
        (a0.send, a0)
    } else {
        let (s1, a1) = step_spec(s0, r1);
        if !(a1.next is Await) {
            (a0.send + a1.send, a1)
        } else {
            let (s2, a2) = step_spec(s1, r2);
            if !(a2.next is Await) {
                (a0.send + a1.send + a2.send, a2)
            } else {
                let (s3, a3) = step_spec(s2, r3);
                (a0.send + a1.send + a2.send + a3.send, a3)
            }
        }
    }
}

/// Every run finishes after at most three responses, and the requests it
/// sends carry the ids 2, 3, 4, ... in order: distinct from each other and
/// from the id 1 of the `initialize` request.
pub proof fn runs_finish_with_fresh_ids(
    scenario: u32,
    r1: ResponseSummaryView,
    r2: ResponseSummaryView,
    r3: ResponseSummaryView,
)
    ensures
        run_trace(scenario, r1, r2, r3).1.next is Finish,
        forall|k: int|
            0 <= k < run_trace(scenario, r1, r2, r3).0.len() ==> #[trigger] run_trace(
                scenario,
                r1,
                r2,
                r3,
            ).0[k].id == k + 2,
        initialize_request_spec().id == 1,
{
    let sent = run_trace(scenario, r1, r2, r3).0;
    if scenario == 4 {
        let (s0, a0) = start_spec(scenario);
        let (s1, a1) = step_spec(s0, r1);
        let (s2, a2) = step_spec(s1, r2);
        assert(sent =~= a0.send + a1.send + a2.send + step_spec(s2, r3).1.send);
        assert(sent.len() == 3);
        assert(sent[0] == a0.send[0]);
        assert(sent[1] == a1.send[0]);
        assert(sent[2] == a2.send[0]);
    } else if scenario == 25 {
        let (s0, a0) = start_spec(scenario);
        let (s1, a1) = step_spec(s0, r1);
        let (s2, a2) = step_spec(s1, r2);
        assert(a1.send =~= seq![]);
        assert(a2.send =~= seq![]);
        assert(step_spec(s2, r3).1.send =~= seq![]);
        assert(sent =~= a0.send);
    } else if scenario == 1 || scenario == 13 || scenario == 21 || scenario == 2 || scenario == 5
        || scenario == 6 || scenario == 15 {
        let (s0, a0) = start_spec(scenario);
        assert(step_spec(s0, r1).1.send =~= seq![]);
        assert(sent =~= a0.send);
    } else {
        assert(sent =~= seq![]);
    }
}

/// The value of a text argument of a tool call (the first one of that name).
pub open spec fn text_argument(arguments: Seq<(Seq<char>, ArgValueView)>, key: Seq<char>) -> Option<
    Seq<char>,
>
    decreases arguments.len(),
{
    if arguments.len() == 0 {
        None
    } else if arguments[0].0 == key {
        match arguments[0].1 {
            ArgValueView::Text(t) => Some(t),
            _ => None,
        }
    } else {
        text_argument(arguments.drop_first(), key)
    }
}

/// A client request, written as JSON and decoded by a server, is `sreq`: the
/// method, the tool name and text arguments, the URI and the prompt name
/// arrive unchanged.
pub open spec fn arrives_as(req: ClientRequestView, sreq: RequestView) -> bool {
    &&& sreq.method == crate::client::method_name(req.call)
    &&& match req.call {
        ClientCallView::CallTool { name, arguments } => match sreq.tool_call {
            ToolCallParamsView::Call { name: n, arguments: a } => {
                &&& n == name
                &&& a.expression == text_argument(arguments, "expression"@)
                &&& a.path == text_argument(arguments, "path"@)
            },
            _ => false,
        },
        ClientCallView::ReadResource { uri } => sreq.uri == Some(uri),
        ClientCallView::GetPrompt { name } => sreq.name == Some(name),
        ClientCallView::Initialize { .. } => true,
    }
}

/// A server's answer, written as JSON and read by the client, is `resp`:
/// the text of a tool result or of read contents arrives as a JSON string.
pub open spec fn seen_as(answer: Result<ServerReplyView, Seq<char>>, resp: ResponseSummaryView) -> bool {
    match answer {
        Ok(ServerReplyView::ToolCall(ToolOutcomeView::Done(r))) => match resp.content {
            FirstTextView::Text(t) => t.as_str == Some(r.text),
            _ => false,
        },
        Ok(ServerReplyView::Contents(c)) => match resp.contents {
            FirstTextView::Text(t) => t.as_str == Some(c.text),
            _ => false,
        },
        _ => true,
    }
}

proof fn lemma_known_values()
    ensures
        crate::text::decimal(8) == "8"@,
        crate::text::decimal(45) == "45"@,
{
    reveal_strlit("8");
    reveal_strlit("45");
    assert(crate::text::decimal(4) =~= seq!['4']);
    assert(crate::text::decimal(8) =~= "8"@);
    assert(crate::text::decimal(45) =~= "45"@);
}

/// The CalcServer answers the evaluation scenarios as their client expects:
/// whatever its state, a run of scenario 6 or 15 against it succeeds.
pub proof fn calc_server_passes_eval_scenarios(
    scenario: u32,
    sreq: RequestView,
    st: ServerStateView,
    resp: ResponseSummaryView,
)
    requires
        scenario == 6 || scenario == 15,
        arrives_as(start_spec(scenario).1.send[0], sreq),
        seen_as(handle_spec(calc_server(), sreq, st).0, resp),
    ensures
        step_spec(start_spec(scenario).0, resp).1.next == NextView::Finish(Ok(())),
{
    lemma_names_distinct();
    lemma_known_values();
    reveal_strlit("expression");
    reveal_strlit("add");
    reveal_strlit("ambiguous_add");
    reveal_strlit("cos");
    reveal_strlit("sin");
    reveal_strlit("set_trig_allowed");
    reveal_strlit("write_special_number");
    reveal_strlit("eval_with_sampling");
    reveal_strlit("2 + 2 * 3");
    reveal_strlit("(2 + 3) * (4 + 5)");
    assert("2 + 2 * 3"@.len() != "(2 + 3) * (4 + 5)"@.len());
}

/// Scenario 4 against a fresh CalcServer: the first read shows 42 (no
/// warning), and where the server renders the written number 100 as `100`,
/// the second read shows it and the run succeeds.
pub proof fn calc_server_passes_special_number_scenario(
    sreq1: RequestView,
    resp1: ResponseSummaryView,
    sreq2: RequestView,
    resp2: ResponseSummaryView,
    sreq3: RequestView,
    resp3: ResponseSummaryView,
)
    requires
        ({
            let (run0, a0) = start_spec(4);
            let st0 = initial_state();
            let (ans1, st1) = handle_spec(calc_server(), sreq1, st0);
            let (run1, a1) = step_spec(run0, resp1);
            let (ans2, st2) = handle_spec(calc_server(), sreq2, st1);
            let (run2, a2) = step_spec(run1, resp2);
            let (ans3, st3) = handle_spec(calc_server(), sreq3, st2);
            &&& arrives_as(a0.send[0], sreq1)
            &&& seen_as(ans1, resp1)
            &&& arrives_as(a1.send[0], sreq2)
            &&& sreq2.tool_call matches ToolCallParamsView::Call { arguments, .. }
            &&& arguments.value == "100"@
            &&& arrives_as(a2.send[0], sreq3)
            &&& seen_as(ans3, resp3)
        }),
    ensures
        ({
            let (run0, a0) = start_spec(4);
            let (run1, a1) = step_spec(run0, resp1);
            let (run2, a2) = step_spec(run1, resp2);
            &&& a1.warning is None
            &&& step_spec(run2, resp3).1.next == NextView::Finish(Ok(()))
        }),
{
    lemma_names_distinct();
    lemma_state_tool_names_distinct();
    reveal_strlit("resource://special-number");
}

/// The CalcServer has the prompt that scenario 5 asks for.
pub proof fn calc_server_has_scenario_prompt(sreq: RequestView, st: ServerStateView)
    requires
        arrives_as(start_spec(5).1.send[0], sreq),
    ensures
        handle_spec(calc_server(), sreq, st).0 is Ok,
{
    lemma_names_distinct();
}

/// `(a, b, c)` is 3, 7 and 11 in some order.
pub open spec fn sums_in_some_order(a: Seq<char>, b: Seq<char>, c: Seq<char>) -> bool {
    let (x, y, z) = ("3"@, "7"@, "11"@);
    ||| (a, b, c) == (x, y, z)
    ||| (a, b, c) == (x, z, y)
    ||| (a, b, c) == (y, x, z)
    ||| (a, b, c) == (y, z, x)
    ||| (a, b, c) == (z, x, y)
    ||| (a, b, c) == (z, y, x)
}

/// The concurrent-calls scenario succeeds exactly when the three responses
/// carry the texts 3, 7 and 11, in any order.
pub proof fn concurrent_scenario_passes_exactly_on_the_three_sums(
    r1: ResponseSummaryView,
    r2: ResponseSummaryView,
    r3: ResponseSummaryView,
)
    ensures
        ({
            let t1 = crate::client::string_text(r1.content);
            let t2 = crate::client::string_text(r2.content);
            let t3 = crate::client::string_text(r3.content);
            run_trace(25, r1, r2, r3).1.next == NextView::Finish(Ok(())) <==> (t1 is Some
                && t2 is Some && t3 is Some && sums_in_some_order(t1->0, t2->0, t3->0))
        }),
{
    reveal_strlit("3");
    reveal_strlit("7");
    reveal_strlit("11");
    assert("3"@ != "7"@ && "3"@ != "11"@ && "7"@ != "11"@) by {
        assert("3"@[0] != "7"@[0]);
    }
    let t1 = crate::client::string_text(r1.content);
    let t2 = crate::client::string_text(r2.content);
    let t3 = crate::client::string_text(r3.content);
    let texts = seq![t1, t2, t3];
    let (s0, a0) = start_spec(25);
    let (s1, a1) = step_spec(s0, r1);
    let (s2, a2) = step_spec(s1, r2);
    let (s3, a3) = step_spec(s2, r3);
    assert(s3.texts =~= texts);
    assert(texts.drop_first() =~= seq![t2, t3]);
    assert(seq![t2, t3].drop_first() =~= seq![t3]);
    assert(seq![t3].drop_first() =~= Seq::<Option<Seq<char>>>::empty());
    let empty = Seq::<Seq<char>>::empty();
    reveal_with_fuel(crate::client::check_concurrent, 4);
    if t1 is Some && t2 is Some && t3 is Some {
        let (a, b, c) = (t1->0, t2->0, t3->0);
        let one = empty.push(a);
        let two = one.push(b);
        assert(one[0] == a);
        assert(two[0] == a && two[1] == b);
        assert(!empty.contains(a));
        assert(one.contains(b) <==> b == a) by {
            if one.contains(b) {
                let k = choose|k: int| 0 <= k < one.len() && one[k] == b;
                assert(k == 0);
            }
        }
        assert(two.contains(c) <==> (c == a || c == b)) by {
            if two.contains(c) {
                let k = choose|k: int| 0 <= k < two.len() && two[k] == c;
                assert(k == 0 || k == 1);
            }
            if c == a {
                assert(two[0] == c);
            }
            if c == b {
                assert(two[1] == c);
            }
        }
    }
}

/// A scenario that promises a value fails when the response that should
/// carry it lacks the result, the array, its first item or its text.
pub proof fn promised_values_must_arrive(
    scenario: u32,
    r1: ResponseSummaryView,
    r2: ResponseSummaryView,
    r3: ResponseSummaryView,
)
    requires
        scenario == 1 || scenario == 6 || scenario == 13 || scenario == 15 || scenario == 21
            ==> !(r1.content is Text),
        scenario == 4 ==> !(r3.contents is Text),
        scenario == 1 || scenario == 4 || scenario == 6 || scenario == 13 || scenario == 15
            || scenario == 21,
    ensures
        run_trace(scenario, r1, r2, r3).1.next matches NextView::Finish(Err(_)),
{
}

} // verus!
