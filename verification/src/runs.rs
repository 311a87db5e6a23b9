//! What each client scenario sends and when it passes, with the requests,
//! expected values and messages of the suite written out in full.
use vstd::prelude::*;
use crate::client::{
    ArgValueView, ClientActionView, ClientCallView, ClientRequestView, FirstTextView, NextView,
    ResponseSummaryView, ScenarioRunView, start_spec, step_spec,
};
use crate::text::{decimal, digit_char};

verus! {

/// A `tools/call` of `name` with integer arguments, as the client sends it.
pub open spec fn int_call(id: u64, name: Seq<char>, arguments: Seq<(Seq<char>, i64)>) -> ClientRequestView {
    ClientRequestView {
        id,
        call: ClientCallView::CallTool {
            name,
            arguments: arguments.map_values(
                |a: (Seq<char>, i64)| (a.0, ArgValueView::Integer(a.1)),
            ),
        },
    }
}

/// The action after the first response of a run.
pub open spec fn first_step(scenario: u32, r1: ResponseSummaryView) -> (ScenarioRunView, ClientActionView) {
    step_spec(start_spec(scenario).0, r1)
}

/// The last action of a run of three responses.
pub open spec fn third_step(
    scenario: u32,
    r1: ResponseSummaryView,
    r2: ResponseSummaryView,
    r3: ResponseSummaryView,
) -> ClientActionView {
    step_spec(step_spec(first_step(scenario, r1).0, r2).0, r3).1
}

/// The requests that open each scenario, the ones that scenario 4 sends
/// after each of its first two responses, and that scenario 25 sends nothing
/// after its first two responses.
pub proof fn scenario_requests_are_the_suites(r1: ResponseSummaryView, r2: ResponseSummaryView)
    ensures
        start_spec(1).1.send =~= seq![int_call(2, "add"@, seq![("a"@, 10), ("b"@, 20)])],
        start_spec(13).1.send =~= seq![int_call(2, "add"@, seq![("a"@, 10), ("b"@, 20)])],
        start_spec(21).1.send =~= seq![int_call(2, "add"@, seq![("a"@, 10), ("b"@, 20)])],
        start_spec(2).1.send =~= seq![int_call(2, "ambiguous_add"@, seq![("a"@, 10)])],
        start_spec(4).1.send =~= seq![
            ClientRequestView {
                id: 2,
                call: ClientCallView::ReadResource { uri: "resource://special-number"@ },
            },
        ],
        first_step(4, r1).1.send =~= seq![
            int_call(3, "write_special_number"@, seq![("value"@, 100)]),
        ],
        step_spec(first_step(4, r1).0, r2).1.send =~= seq![
            ClientRequestView {
                id: 4,
                call: ClientCallView::ReadResource { uri: "resource://special-number"@ },
            },
        ],
        start_spec(5).1.send =~= seq![
            ClientRequestView { id: 2, call: ClientCallView::GetPrompt { name: "example-maths"@ } },
        ],
        start_spec(6).1.send =~= seq![
            ClientRequestView {
                id: 2,
                call: ClientCallView::CallTool {
                    name: "eval_with_sampling"@,
                    arguments: seq![("expression"@, ArgValueView::Text("2 + 2 * 3"@))],
                },
            },
        ],
        start_spec(15).1.send =~= seq![
            ClientRequestView {
                id: 2,
                call: ClientCallView::CallTool {
                    name: "eval_with_sampling"@,
                    arguments: seq![("expression"@, ArgValueView::Text("(2 + 3) * (4 + 5)"@))],
                },
            },
        ],
        start_spec(25).1.send =~= seq![
            int_call(2, "add"@, seq![("a"@, 1), ("b"@, 2)]),
            int_call(3, "add"@, seq![("a"@, 3), ("b"@, 4)]),
            int_call(4, "add"@, seq![("a"@, 5), ("b"@, 6)]),
        ],
        first_step(25, r1).1.send.len() == 0,
        step_spec(first_step(25, r1).0, r2).1.send.len() == 0,
{
    let a12 = seq![("a"@, 1i64), ("b"@, 2i64)];
    let a34 = seq![("a"@, 3i64), ("b"@, 4i64)];
    let a56 = seq![("a"@, 5i64), ("b"@, 6i64)];
    let a1020 = seq![("a"@, 10i64), ("b"@, 20i64)];
    let f = |a: (Seq<char>, i64)| (a.0, ArgValueView::Integer(a.1));
    assert(a12.map_values(f) =~= seq![("a"@, ArgValueView::Integer(1)), ("b"@, ArgValueView::Integer(2))]);
    assert(a34.map_values(f) =~= seq![("a"@, ArgValueView::Integer(3)), ("b"@, ArgValueView::Integer(4))]);
    assert(a56.map_values(f) =~= seq![("a"@, ArgValueView::Integer(5)), ("b"@, ArgValueView::Integer(6))]);
    assert(a1020.map_values(f) =~= seq![
        ("a"@, ArgValueView::Integer(10)),
        ("b"@, ArgValueView::Integer(20)),
    ]);
    assert(seq![("a"@, 10i64)].map_values(f) =~= seq![("a"@, ArgValueView::Integer(10))]);
    assert(seq![("value"@, 100i64)].map_values(f) =~= seq![("value"@, ArgValueView::Integer(100))]);
}

/// The decimal text of the sum that a server owes for an `add(a, b)` call
/// (none for any other request).
pub open spec fn owed_sum(req: ClientRequestView) -> Option<Seq<char>> {
    match req.call {
        ClientCallView::CallTool { name, arguments } => if name == "add"@ && arguments.len() == 2
            && arguments[0].0 == "a"@ && arguments[1].0 == "b"@ {
            match (arguments[0].1, arguments[1].1) {
                (ArgValueView::Integer(a), ArgValueView::Integer(b)) => if a + b >= 0 {
                    Some(decimal((a + b) as nat))
                } else {
                    None
                },
                _ => None,
            }
        } else {
            None
        },
        _ => None,
    }
}

/// The response carries `text` as the string of `result.content[0].text`.
pub open spec fn carries(resp: ResponseSummaryView, text: Option<Seq<char>>) -> bool {
    text is Some && match resp.content {
        FirstTextView::Text(t) => t.as_str == text,
        _ => false,
    }
}

/// Against a server that answers each `add(a, b)` with the decimal text of
/// `a + b`, the concurrent-calls scenario passes.
pub proof fn concurrent_adds_answered_with_their_sums_pass(
    r1: ResponseSummaryView,
    r2: ResponseSummaryView,
    r3: ResponseSummaryView,
)
    requires
        start_spec(25).1.send.len() == 3 ==> {
            let sent = start_spec(25).1.send;
            &&& carries(r1, owed_sum(sent[0]))
            &&& carries(r2, owed_sum(sent[1]))
            &&& carries(r3, owed_sum(sent[2]))
        },
    ensures
        start_spec(25).1.send.len() == 3,
        third_step(25, r1, r2, r3).next == NextView::Finish(Ok(())),
{
    scenario_requests_are_the_suites(r1, r2);
    reveal_strlit("add");
    reveal_strlit("a");
    reveal_strlit("b");
    reveal_strlit("3");
    reveal_strlit("7");
    reveal_strlit("11");
    assert(decimal(3) =~= "3"@);
    assert(decimal(7) =~= "7"@);
    assert(decimal(1) =~= seq!['1']);
    assert(decimal(11) =~= "11"@);
    let sent = start_spec(25).1.send;
    assert(owed_sum(sent[0]) == Some("3"@));
    assert(owed_sum(sent[1]) == Some("7"@));
    assert(owed_sum(sent[2]) == Some("11"@));
    crate::laws::concurrent_scenario_passes_exactly_on_the_three_sums(r1, r2, r3);
    let (s0, a0) = start_spec(25);
    let (s1, a1) = step_spec(s0, r1);
    let (s2, a2) = step_spec(s1, r2);
    assert(crate::laws::run_trace(25, r1, r2, r3).1 == third_step(25, r1, r2, r3));
}

/// The scenarios that check one value pass exactly when it arrives as the
/// expected text (30 for the adds, 8 and 45 for the evaluations, 100 for
/// the special number's last read), and otherwise fail naming what came.
pub proof fn expected_values_are_the_suites(
    r1: ResponseSummaryView,
    r2: ResponseSummaryView,
    r3: ResponseSummaryView,
)
    ensures
        r1.content matches FirstTextView::Text(t) ==> first_step(1, r1).1.next == NextView::Finish(
            if t.as_str == Some("30"@) {
                Ok::<(), Seq<char>>(())
            } else {
                Err("Scenario 1 failed: expected 30, got "@ + t.shown)
            },
        ),
        r1.content matches FirstTextView::Text(t) ==> first_step(13, r1).1.next
            == NextView::Finish(
            if t.as_str == Some("30"@) {
                Ok::<(), Seq<char>>(())
            } else {
                Err("Scenario 13 failed: expected 30, got "@ + t.shown)
            },
        ),
        r1.content matches FirstTextView::Text(t) ==> first_step(21, r1).1.next
            == NextView::Finish(
            if t.as_str == Some("30"@) {
                Ok::<(), Seq<char>>(())
            } else {
                Err("Scenario 21 failed: expected 30, got "@ + t.shown)
            },
        ),
        r1.content matches FirstTextView::Text(t) ==> first_step(6, r1).1.next == NextView::Finish(
            if t.as_str == Some("8"@) {
                Ok::<(), Seq<char>>(())
            } else {
                Err("Scenario 6 failed: expected 8, got "@ + t.shown)
            },
        ),
        r1.content matches FirstTextView::Text(t) ==> first_step(15, r1).1.next
            == NextView::Finish(
            if t.as_str == Some("45"@) {
                Ok::<(), Seq<char>>(())
            } else {
                Err("Scenario 15 failed: expected 45, got "@ + t.shown)
            },
        ),
        r3.contents matches FirstTextView::Text(t) ==> third_step(4, r1, r2, r3).next
            == NextView::Finish(
            if t.as_str == Some("100"@) {
                Ok::<(), Seq<char>>(())
            } else {
                Err("Scenario 4 failed: expected 100, got "@ + t.shown)
            },
        ),
        r1.content is NoResult ==> first_step(1, r1).1.next == NextView::Finish(
            Err("No result in response: "@ + r1.debug),
        ),
        r1.content is NoArray ==> first_step(1, r1).1.next == NextView::Finish(
            Err("No content field in result"@),
        ),
        r1.content is NoFirstItem ==> first_step(1, r1).1.next == NextView::Finish(
            Err("No content in response"@),
        ),
        r1.content is NoText ==> first_step(1, r1).1.next == NextView::Finish(
            Err("No text field in content"@),
        ),
        first_step(2, r1).1.next == NextView::Finish(Ok(())),
        first_step(5, r1).1.next == NextView::Finish(Ok(())),
{
    reveal_strlit("Scenario ");
    reveal_strlit(" failed: expected ");
    reveal_strlit(", got ");
    reveal_strlit("Scenario 1 failed: expected 30, got ");
    reveal_strlit("Scenario 13 failed: expected 30, got ");
    reveal_strlit("Scenario 21 failed: expected 30, got ");
    reveal_strlit("Scenario 6 failed: expected 8, got ");
    reveal_strlit("Scenario 15 failed: expected 45, got ");
    reveal_strlit("Scenario 4 failed: expected 100, got ");
    reveal_strlit("30");
    reveal_strlit("8");
    reveal_strlit("45");
    reveal_strlit("100");
    reveal_strlit("No ");
    reveal_strlit(" field in result");
    reveal_strlit(" in response");
    reveal_strlit("No text field in ");
    reveal_strlit("content");
    reveal_strlit("No content field in result");
    reveal_strlit("No content in response");
    reveal_strlit("No text field in content");
    assert(decimal(1) =~= seq!['1']);
    assert(decimal(3) =~= seq!['3']);
    assert(decimal(13) =~= seq!['1', '3']);
    assert(decimal(2) =~= seq!['2']);
    assert(decimal(21) =~= seq!['2', '1']);
    assert(decimal(6) =~= seq!['6']);
    assert(decimal(15) =~= seq!['1', '5']);
    assert(decimal(4) =~= seq!['4']);
    match r1.content {
        FirstTextView::Text(t) => {
            let tail = " failed: expected "@ + "30"@ + ", got "@ + t.shown;
            assert("Scenario "@ + decimal(1) + " failed: expected "@ + "30"@ + ", got "@ + t.shown
                =~= "Scenario 1 failed: expected 30, got "@ + t.shown);
            assert("Scenario "@ + decimal(13) + " failed: expected "@ + "30"@ + ", got "@
                + t.shown =~= "Scenario 13 failed: expected 30, got "@ + t.shown);
            assert("Scenario "@ + decimal(21) + " failed: expected "@ + "30"@ + ", got "@
                + t.shown =~= "Scenario 21 failed: expected 30, got "@ + t.shown);
            assert("Scenario "@ + decimal(6) + " failed: expected "@ + "8"@ + ", got "@ + t.shown
                =~= "Scenario 6 failed: expected 8, got "@ + t.shown);
            assert("Scenario "@ + decimal(15) + " failed: expected "@ + "45"@ + ", got "@
                + t.shown =~= "Scenario 15 failed: expected 45, got "@ + t.shown);
        },
        _ => {
            assert("No "@ + "content"@ + " field in result"@ =~= "No content field in result"@);
            assert("No "@ + "content"@ + " in response"@ =~= "No content in response"@);
            assert("No text field in "@ + "content"@ =~= "No text field in content"@);
        },
    }
    match r3.contents {
        FirstTextView::Text(t) => {
            assert("Scenario "@ + decimal(4) + " failed: expected "@ + "100"@ + ", got "@
                + t.shown =~= "Scenario 4 failed: expected 100, got "@ + t.shown);
        },
        _ => {},
    }
}

/// Scenario 4 warns after its first read exactly when the special number
/// did not read as 42, and says what it read.
pub proof fn special_number_warning(r1: ResponseSummaryView)
    ensures
        first_step(4, r1).1.warning == match r1.contents {
            FirstTextView::Text(t) => if t.as_str == Some("42"@) {
                None
            } else {
                Some("Expected initial value 42, got "@ + t.shown)
            },
            _ => None,
        },
{
}

/// Scenario 4's last read fails naming the part of `result.contents[0].text`
/// that is missing.
pub proof fn special_number_value_must_arrive(
    r1: ResponseSummaryView,
    r2: ResponseSummaryView,
    r3: ResponseSummaryView,
)
    ensures
        r3.contents is NoResult ==> third_step(4, r1, r2, r3).next == NextView::Finish(
            Err("No result in response: "@ + r3.debug),
        ),
        r3.contents is NoArray ==> third_step(4, r1, r2, r3).next == NextView::Finish(
            Err("No contents field in result"@),
        ),
        r3.contents is NoFirstItem ==> third_step(4, r1, r2, r3).next == NextView::Finish(
            Err("No contents in response"@),
        ),
        r3.contents is NoText ==> third_step(4, r1, r2, r3).next == NextView::Finish(
            Err("No text field in contents"@),
        ),
{
    reveal_strlit("No ");
    reveal_strlit(" field in result");
    reveal_strlit(" in response");
    reveal_strlit("No text field in ");
    reveal_strlit("contents");
    reveal_strlit("No contents field in result");
    reveal_strlit("No contents in response");
    reveal_strlit("No text field in contents");
    assert("No "@ + "contents"@ + " field in result"@ =~= "No contents field in result"@);
    assert("No "@ + "contents"@ + " in response"@ =~= "No contents in response"@);
    assert("No text field in "@ + "contents"@ =~= "No text field in contents"@);
}

/// The concurrent-calls scenario judges its first text first: a missing
/// text, or one that is not 3, 7 or 11, fails the run with a message that
/// says so; any failure is one of the three kinds, naming a text it read.
pub proof fn concurrent_failures_name_the_text(
    r1: ResponseSummaryView,
    r2: ResponseSummaryView,
    r3: ResponseSummaryView,
)
    ensures
        ({
            let t1 = crate::client::string_text(r1.content);
            let t2 = crate::client::string_text(r2.content);
            let t3 = crate::client::string_text(r3.content);
            let outcome = third_step(25, r1, r2, r3).next;
            &&& t1 is None ==> outcome == NextView::Finish(
                Err("Missing result in concurrent calls"@),
            )
            &&& (t1 matches Some(s) && s != "3"@ && s != "7"@ && s != "11"@) ==> outcome
                == NextView::Finish(Err("Unexpected result in concurrent calls: "@ + t1->0))
            &&& outcome matches NextView::Finish(Err(m)) ==> {
                ||| m == "Missing result in concurrent calls"@
                ||| exists|t: Seq<char>|
                    (t1 == Some(t) || t2 == Some(t) || t3 == Some(t)) && (m
                        == "Unexpected result in concurrent calls: "@ + t || m
                        == "Duplicate result in concurrent calls: "@ + t)
            }
        }),
{
    reveal_with_fuel(crate::client::check_concurrent, 4);
    let t1 = crate::client::string_text(r1.content);
    let t2 = crate::client::string_text(r2.content);
    let t3 = crate::client::string_text(r3.content);
    let (s0, a0) = start_spec(25);
    let (s1, a1) = step_spec(s0, r1);
    let (s2, a2) = step_spec(s1, r2);
    let (s3, a3) = step_spec(s2, r3);
    let texts = seq![t1, t2, t3];
    assert(s3.texts =~= texts);
    assert(texts.drop_first() =~= seq![t2, t3]);
    assert(seq![t2, t3].drop_first() =~= seq![t3]);
    assert(seq![t3].drop_first() =~= Seq::<Option<Seq<char>>>::empty());
}

/// The numeral of a sequence of decimal digits.
pub open spec fn numeral(s: Seq<char>) -> int
    decreases s.len(),
{
    if s.len() == 0 {
        0
    } else {
        numeral(s.drop_last()) * 10 + (s.last() as int - '0' as int)
    }
}

/// The decimal rendering of `n` is made of digits, has no leading zero, and
/// reads back as `n`.
pub proof fn decimal_reads_back(n: nat)
    ensures
        decimal(n).len() > 0,
        forall|i: int| 0 <= i < decimal(n).len() ==> '0' <= #[trigger] decimal(n)[i] <= '9',
        n > 0 ==> decimal(n)[0] != '0',
        numeral(decimal(n)) == n,
    decreases n,
{
    let d0 = (n % 10) as nat;
    assert(digit_char(d0) as int - '0' as int == d0) by {
        assert(d0 < 10);
    }
    if n < 10 {
        assert(decimal(n) =~= seq![digit_char(n)]);
        assert(seq![digit_char(n)].drop_last() =~= Seq::<char>::empty());
        assert(n % 10 == n);
        assert(numeral(Seq::<char>::empty()) == 0);
        assert(numeral(decimal(n)) == numeral(decimal(n).drop_last()) * 10 + (decimal(n).last() as int
            - '0' as int));
    } else {
        decimal_reads_back(n / 10);
        let d = decimal(n);
        assert(d.drop_last() =~= decimal(n / 10));
        assert(d.last() == digit_char(d0));
        assert(n == (n / 10) * 10 + d0);
        assert(numeral(d) == numeral(d.drop_last()) * 10 + (d.last() as int - '0' as int));
        assert(d[0] == decimal(n / 10)[0]);
        assert forall|i: int| 0 <= i < d.len() implies '0' <= #[trigger] d[i] <= '9' by {
            if i < d.len() - 1 {
                assert(d[i] == decimal(n / 10)[i]);
            }
        }
    }
}

/// The fixed texts of the client: its `initialize` request, the methods of
/// its calls, the messages of its scenario selection and transport choice,
/// and that a scenario without checks finishes at once with nothing sent.
pub proof fn client_texts_are_the_suites(id: u32, client: Seq<char>, command: Seq<Seq<char>>, other: u32)
    requires
        other != 1 && other != 2 && other != 4 && other != 5 && other != 6 && other != 13 && other
            != 15 && other != 21 && other != 25,
    ensures
        crate::client::initialize_request_spec() == (ClientRequestView {
            id: 1,
            call: ClientCallView::Initialize {
                protocol_version: "2025-06-18"@,
                client_name: "RustTestClient"@,
                client_version: "1.0.0"@,
            },
        }),
        crate::scenarios::scenario_not_found(id) == "Scenario "@ + decimal(id as nat)
            + " not found"@,
        crate::scenarios::client_not_in_scenario(client, id) == "Client '"@ + client
            + "' not found in scenario "@ + decimal(id as nat),
        crate::scenarios::server_not_found(client) == "Server '"@ + client
            + "' not found in scenarios data"@,
        crate::rpc::unsupported_transport() == "Only stdio transport supported currently"@,
        crate::client::transport_error(Some("stdio"@), command) == if command.len() == 0 {
            Some("No server command provided"@)
        } else {
            None
        },
        crate::client::transport_error(Some("sse"@), command) == Some(
            "SSE transport not implemented yet"@,
        ),
        crate::client::transport_error(Some("streamable-http"@), command) == Some(
            "Streamable HTTP transport not implemented yet"@,
        ),
        crate::client::transport_error(None, command) == Some("No transport specified"@),
        start_spec(other).1 == (ClientActionView {
            warning: None,
            send: seq![],
            next: NextView::Finish(Ok(())),
        }),
        crate::server::initial_state() == (crate::server::ServerStateView {
            trig_allowed: Map::empty(),
            special_number: "42"@,
        }),
{
    reveal_strlit("stdio");
    reveal_strlit("sse");
    reveal_strlit("streamable-http");
    assert("stdio"@.len() != "sse"@.len());
    assert("stdio"@.len() != "streamable-http"@.len());
    assert("sse"@.len() != "streamable-http"@.len());
}

/// Each call of the client goes out under its JSON-RPC method.
pub proof fn client_methods_are_the_protocols(c: ClientCallView)
    ensures
        crate::client::method_name(c) == match c {
            ClientCallView::Initialize { .. } => "initialize"@,
            ClientCallView::CallTool { .. } => "tools/call"@,
            ClientCallView::ReadResource { .. } => "resources/read"@,
            ClientCallView::GetPrompt { .. } => "prompts/get"@,
        },
{
}

} // verus!
