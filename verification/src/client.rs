//! The test client: which requests each scenario sends, and how it judges
//! the responses it reads back.
//!
//! A run is a state machine. `ScenarioRun::start` gives the first action;
//! each response that the caller reads is handed to `ScenarioRun::step`,
//! which gives the next action, until an action finishes the run.
use vstd::prelude::*;
use crate::rpc::{char_is_whitespace, is_white_space};
use crate::text::{contains_str, decimal, decimal_string, joined, joined3, str_equal};

verus! {

/// A tool argument that the client sends.
pub enum ArgValue {
    Integer(i64),
    Text(String),
}

pub struct Argument {
    pub name: String,
    pub value: ArgValue,
}

/// The method and parameters of a request that the client sends.
pub enum ClientCall {
    /// `initialize`, with empty capabilities.
    Initialize { protocol_version: String, client_name: String, client_version: String },
    /// `tools/call`.
    CallTool { name: String, arguments: Vec<Argument> },
    /// `resources/read`.
    ReadResource { uri: String },
    /// `prompts/get`.
    GetPrompt { name: String },
}

pub struct ClientRequest {
    pub id: u64,
    pub call: ClientCall,
}

/// What the client sees of `text` in the first item of a result array.
pub struct SeenText {
    /// The text, where it is a JSON string.
    pub as_str: Option<String>,
    /// The JSON value as it prints.
    pub shown: String,
}

/// How far the client gets in reading `result.<array>[0].text`.
pub enum FirstText {
    /// The response has no `result`.
    NoResult,
    /// The result has no such array member.
    NoArray,
    /// The array has no first item.
    NoFirstItem,
    /// The first item has no `text`.
    NoText,
    Text(SeenText),
}

/// The parts of a response that the client reads.
pub struct ResponseSummary {
    /// Through `result.content`, as tool results carry it.
    pub content: FirstText,
    /// Through `result.contents`, as resource reads carry it.
    pub contents: FirstText,
    /// The whole response as its debug rendering prints it.
    pub debug: String,
}

pub enum Next {
    /// Read one response and hand it to `ScenarioRun::step`.
    Await,
    /// The run is over, with this outcome.
    Finish(Result<(), String>),
}

/// What the client does next: log `warning` where there is one, send the
/// requests in `send` in order, then `next`.
pub struct ClientAction {
    pub warning: Option<String>,
    pub send: Vec<ClientRequest>,
    pub next: Next,
}

/// The progress of one scenario run.
pub struct ScenarioRun {
    pub scenario: u32,
    /// How many responses the run has asked for so far (counting from 1);
    /// 0 once the run is over.
    pub stage: u32,
    /// The texts of the responses read so far, where the scenario keeps them.
    pub texts: Vec<Option<String>>,
}

// ---------------------------------------------------------------------------
// Views.
pub enum ArgValueView {
    Integer(i64),
    Text(Seq<char>),
}

pub enum ClientCallView {
    Initialize { protocol_version: Seq<char>, client_name: Seq<char>, client_version: Seq<char> },
    CallTool { name: Seq<char>, arguments: Seq<(Seq<char>, ArgValueView)> },
    ReadResource { uri: Seq<char> },
    GetPrompt { name: Seq<char> },
}

pub struct ClientRequestView {
    pub id: u64,
    pub call: ClientCallView,
}

pub struct SeenTextView {
    pub as_str: Option<Seq<char>>,
    pub shown: Seq<char>,
}

pub enum FirstTextView {
    NoResult,
    NoArray,
    NoFirstItem,
    NoText,
    Text(SeenTextView),
}

pub struct ResponseSummaryView {
    pub content: FirstTextView,
    pub contents: FirstTextView,
    pub debug: Seq<char>,
}

pub enum NextView {
    Await,
    Finish(Result<(), Seq<char>>),
}

pub struct ClientActionView {
    pub warning: Option<Seq<char>>,
    pub send: Seq<ClientRequestView>,
    pub next: NextView,
}

pub struct ScenarioRunView {
    pub scenario: u32,
    pub stage: u32,
    pub texts: Seq<Option<Seq<char>>>,
}

pub open spec fn opt_text(o: Option<String>) -> Option<Seq<char>> {
    match o {
        Some(s) => Some(s@),
        None => None,
    }
}

impl View for ArgValue {
    type V = ArgValueView;

    open spec fn view(&self) -> ArgValueView {
        match self {
            ArgValue::Integer(i) => ArgValueView::Integer(*i),
            ArgValue::Text(s) => ArgValueView::Text(s@),
        }
    }
}

impl View for Argument {
    type V = (Seq<char>, ArgValueView);

    open spec fn view(&self) -> (Seq<char>, ArgValueView) {
        (self.name@, self.value@)
    }
}

impl View for ClientCall {
    type V = ClientCallView;

    open spec fn view(&self) -> ClientCallView {
        match self {
            ClientCall::Initialize { protocol_version, client_name, client_version } =>
                ClientCallView::Initialize {
                protocol_version: protocol_version@,
                client_name: client_name@,
                client_version: client_version@,
            },
            ClientCall::CallTool { name, arguments } => ClientCallView::CallTool {
                name: name@,
                arguments: arguments@.map_values(|a: Argument| a@),
            },
            ClientCall::ReadResource { uri } => ClientCallView::ReadResource { uri: uri@ },
            ClientCall::GetPrompt { name } => ClientCallView::GetPrompt { name: name@ },
        }
    }
}

impl View for ClientRequest {
    type V = ClientRequestView;

    open spec fn view(&self) -> ClientRequestView {
        ClientRequestView { id: self.id, call: self.call@ }
    }
}

impl View for SeenText {
    type V = SeenTextView;

    open spec fn view(&self) -> SeenTextView {
        SeenTextView { as_str: opt_text(self.as_str), shown: self.shown@ }
    }
}

impl View for FirstText {
    type V = FirstTextView;

    open spec fn view(&self) -> FirstTextView {
        match self {
            FirstText::NoResult => FirstTextView::NoResult,
            FirstText::NoArray => FirstTextView::NoArray,
            FirstText::NoFirstItem => FirstTextView::NoFirstItem,
            FirstText::NoText => FirstTextView::NoText,
            FirstText::Text(t) => FirstTextView::Text(t@),
        }
    }
}

impl View for ResponseSummary {
    type V = ResponseSummaryView;

    open spec fn view(&self) -> ResponseSummaryView {
        ResponseSummaryView { content: self.content@, contents: self.contents@, debug: self.debug@ }
    }
}

impl View for Next {
    type V = NextView;

    open spec fn view(&self) -> NextView {
        match self {
            Next::Await => NextView::Await,
            Next::Finish(Ok(())) => NextView::Finish(Ok(())),
            Next::Finish(Err(m)) => NextView::Finish(Err(m@)),
        }
    }
}

impl View for ClientAction {
    type V = ClientActionView;

    open spec fn view(&self) -> ClientActionView {
        ClientActionView {
            warning: opt_text(self.warning),
            send: self.send@.map_values(|r: ClientRequest| r@),
            next: self.next@,
        }
    }
}

impl View for ScenarioRun {
    type V = ScenarioRunView;

    open spec fn view(&self) -> ScenarioRunView {
        ScenarioRunView {
            scenario: self.scenario,
            stage: self.stage,
            texts: self.texts@.map_values(|t: Option<String>| opt_text(t)),
        }
    }
}

// ---------------------------------------------------------------------------
// The scenarios, as specifications.
/// The protocol version the client asks for.
pub open spec fn client_protocol_version() -> Seq<char> {
    "2025-06-18"@
}

/// The `initialize` request that opens every connection.
pub open spec fn initialize_request_spec() -> ClientRequestView {
    ClientRequestView {
        id: 1,
        call: ClientCallView::Initialize {
            protocol_version: client_protocol_version(),
            client_name: "RustTestClient"@,
            client_version: "1.0.0"@,
        },
    }
}

pub open spec fn tool_request(id: u64, name: Seq<char>, arguments: Seq<(Seq<char>, ArgValueView)>) -> ClientRequestView {
    ClientRequestView { id, call: ClientCallView::CallTool { name, arguments } }
}

pub open spec fn add_request(id: u64, a: i64, b: i64) -> ClientRequestView {
    tool_request(
        id,
        "add"@,
        seq![("a"@, ArgValueView::Integer(a)), ("b"@, ArgValueView::Integer(b))],
    )
}

pub open spec fn eval_request(id: u64, expression: Seq<char>) -> ClientRequestView {
    tool_request(id, "eval_with_sampling"@, seq![("expression"@, ArgValueView::Text(expression))])
}

pub open spec fn read_special_number(id: u64) -> ClientRequestView {
    ClientRequestView {
        id,
        call: ClientCallView::ReadResource { uri: "resource://special-number"@ },
    }
}

pub open spec fn write_special_number(id: u64) -> ClientRequestView {
    tool_request(id, "write_special_number"@, seq![("value"@, ArgValueView::Integer(100))])
}

pub open spec fn send_then_await(send: Seq<ClientRequestView>) -> ClientActionView {
    ClientActionView { warning: None, send, next: NextView::Await }
}

pub open spec fn finish(outcome: Result<(), Seq<char>>) -> ClientActionView {
    ClientActionView { warning: None, send: seq![], next: NextView::Finish(outcome) }
}

/// The first action of a run of `scenario`, and the run after it.
pub open spec fn start_spec(scenario: u32) -> (ScenarioRunView, ClientActionView) {
    let run = ScenarioRunView { scenario, stage: 1, texts: seq![] };
    if scenario == 1 || scenario == 13 || scenario == 21 {
        (run, send_then_await(seq![add_request(2, 10, 20)]))
    } else if scenario == 2 {
        (
            run,
            send_then_await(
                seq![tool_request(2, "ambiguous_add"@, seq![("a"@, ArgValueView::Integer(10))])],
            ),
        )
    } else if scenario == 4 {
        (run, send_then_await(seq![read_special_number(2)]))
    } else if scenario == 5 {
        (
            run,
            send_then_await(
                seq![
                    ClientRequestView {
                        id: 2,
                        call: ClientCallView::GetPrompt { name: "example-maths"@ },
                    },
                ],
            ),
        )
    } else if scenario == 6 {
        (run, send_then_await(seq![eval_request(2, "2 + 2 * 3"@)]))
    } else if scenario == 15 {
        (run, send_then_await(seq![eval_request(2, "(2 + 3) * (4 + 5)"@)]))
    } else if scenario == 25 {
        (
            run,
            send_then_await(seq![add_request(2, 1, 2), add_request(3, 3, 4), add_request(4, 5, 6)]),
        )
    } else {
        (ScenarioRunView { stage: 0, ..run }, finish(Ok(())))
    }
}

/// The message of a scenario whose result text is not the expected one.
pub open spec fn mismatch(scenario: u32, expected: Seq<char>, shown: Seq<char>) -> Seq<char> {
    "Scenario "@ + decimal(scenario as nat) + " failed: expected "@ + expected + ", got "@ + shown
}

/// Judges the value that a scenario promises, read through
/// `result.<array>[0].text`: every missing part fails the run with a message
/// of its own, and a text other than `expected` fails it too.
pub open spec fn value_check(
    scenario: u32,
    expected: Seq<char>,
    seen: FirstTextView,
    array: Seq<char>,
    debug: Seq<char>,
) -> Result<(), Seq<char>> {
    match seen {
        FirstTextView::NoResult => Err("No result in response: "@ + debug),
        FirstTextView::NoArray => Err("No "@ + array + " field in result"@),
        FirstTextView::NoFirstItem => Err("No "@ + array + " in response"@),
        FirstTextView::NoText => Err("No text field in "@ + array),
        FirstTextView::Text(t) => if t.as_str == Some(expected) {
            Ok(())
        } else {
            Err(mismatch(scenario, expected, t.shown))
        },
    }
}

/// The warning for a first read of the special number that is not 42.
pub open spec fn initial_warning(seen: FirstTextView) -> Option<Seq<char>> {
    match seen {
        FirstTextView::Text(t) => if t.as_str == Some("42"@) {
            None
        } else {
            Some("Expected initial value 42, got "@ + t.shown)
        },
        _ => None,
    }
}

/// The string text of a tool result, where there is one.
pub open spec fn string_text(seen: FirstTextView) -> Option<Seq<char>> {
    match seen {
        FirstTextView::Text(t) => t.as_str,
        _ => None,
    }
}

/// One of the sums that the concurrent calls expect.
pub open spec fn expected_sum(s: Seq<char>) -> bool {
    s == "3"@ || s == "7"@ || s == "11"@
}

/// Judges the texts of the concurrent calls in order, given the sums already
/// seen: a missing text, a text that is not an expected sum, or a sum seen
/// before fails the run.
pub open spec fn check_concurrent(texts: Seq<Option<Seq<char>>>, seen: Seq<Seq<char>>) -> Result<
    (),
    Seq<char>,
>
    decreases texts.len(),
{
    if texts.len() == 0 {
        Ok(())
    } else {
        match texts[0] {
            None => Err("Missing result in concurrent calls"@),
            Some(s) => if !expected_sum(s) {
                Err("Unexpected result in concurrent calls: "@ + s)
            } else if seen.contains(s) {
                Err("Duplicate result in concurrent calls: "@ + s)
            } else {
                check_concurrent(texts.drop_first(), seen.push(s))
            },
        }
    }
}

/// The next action of a run that reads `resp`, and the run after it.
pub open spec fn step_spec(run: ScenarioRunView, resp: ResponseSummaryView) -> (
    ScenarioRunView,
    ClientActionView,
) {
    let id = run.scenario;
    let over = ScenarioRunView { stage: 0, ..run };
    if id == 1 || id == 13 || id == 21 {
        (over, finish(value_check(id, "30"@, resp.content, "content"@, resp.debug)))
    } else if id == 6 {
        (over, finish(value_check(id, "8"@, resp.content, "content"@, resp.debug)))
    } else if id == 15 {
        (over, finish(value_check(id, "45"@, resp.content, "content"@, resp.debug)))
    } else if id == 4 {
        if run.stage == 1 {
            (
                ScenarioRunView { stage: 2, ..run },
                ClientActionView {
                    warning: initial_warning(resp.contents),
                    send: seq![write_special_number(3)],
                    next: NextView::Await,
                },
            )
        } else if run.stage == 2 {
            (ScenarioRunView { stage: 3, ..run }, send_then_await(seq![read_special_number(4)]))
        } else {
            (over, finish(value_check(id, "100"@, resp.contents, "contents"@, resp.debug)))
        }
    } else if id == 25 {
        let texts = run.texts.push(string_text(resp.content));
        if run.stage < 3 {
            (ScenarioRunView { stage: (run.stage + 1) as u32, texts, ..run }, send_then_await(seq![]))
        } else {
            (ScenarioRunView { stage: 0, texts, ..run }, finish(check_concurrent(texts, seq![])))
        }
    } else {
        (over, finish(Ok(())))
    }
}

// ---------------------------------------------------------------------------
fn int_arg(name: &str, value: i64) -> (a: Argument)
    ensures
        a@ == (name@, ArgValueView::Integer(value)),
{
    Argument { name: String::from_str(name), value: ArgValue::Integer(value) }
}

fn add_call(id: u64, a: i64, b: i64) -> (r: ClientRequest)
    ensures
        r@ == add_request(id, a, b),
{
    let mut arguments = Vec::new();
    arguments.push(int_arg("a", a));
    arguments.push(int_arg("b", b));
    let r = ClientRequest { id, call: ClientCall::CallTool { name: String::from_str("add"), arguments } };
    assert(arguments@.map_values(|x: Argument| x@) =~= seq![
        ("a"@, ArgValueView::Integer(a)),
        ("b"@, ArgValueView::Integer(b)),
    ]);
    r
}

fn eval_call(id: u64, expression: &str) -> (r: ClientRequest)
    ensures
        r@ == eval_request(id, expression@),
{
    let mut arguments = Vec::new();
    arguments.push(
        Argument { name: String::from_str("expression"), value: ArgValue::Text(String::from_str(expression)) },
    );
    let r = ClientRequest {
        id,
        call: ClientCall::CallTool { name: String::from_str("eval_with_sampling"), arguments },
    };
    assert(arguments@.map_values(|x: Argument| x@) =~= seq![
        ("expression"@, ArgValueView::Text(expression@)),
    ]);
    r
}

fn read_call(id: u64) -> (r: ClientRequest)
    ensures
        r@ == read_special_number(id),
{
    ClientRequest { id, call: ClientCall::ReadResource { uri: String::from_str("resource://special-number") } }
}

fn write_call() -> (r: ClientRequest)
    ensures
        r@ == write_special_number(3),
{
    let mut arguments = Vec::new();
    arguments.push(int_arg("value", 100));
    assert(arguments@.map_values(|x: Argument| x@) =~= seq![
        ("value"@, ArgValueView::Integer(100)),
    ]);
    ClientRequest {
        id: 3,
        call: ClientCall::CallTool { name: String::from_str("write_special_number"), arguments },
    }
}

fn one(r: ClientRequest) -> (v: Vec<ClientRequest>)
    ensures
        v@.map_values(|x: ClientRequest| x@) == seq![r@],
{
    let mut v = Vec::new();
    v.push(r);
    assert(v@.map_values(|x: ClientRequest| x@) =~= seq![r@]);
    v
}

fn await_after(send: Vec<ClientRequest>) -> (a: ClientAction)
    ensures
        a@ == send_then_await(send@.map_values(|x: ClientRequest| x@)),
{
    ClientAction { warning: None, send, next: Next::Await }
}

fn finish_with(outcome: Result<(), String>) -> (a: ClientAction)
    ensures
        a@ == finish(
            match outcome {
                Ok(()) => Ok::<(), Seq<char>>(()),
                Err(m) => Err(m@),
            },
        ),
{
    let send = Vec::new();
    let a = ClientAction { warning: None, send, next: Next::Finish(outcome) };
    assert(a@.send =~= seq![]);
    a
}

pub open spec fn outcome_view(o: Result<(), String>) -> Result<(), Seq<char>> {
    match o {
        Ok(()) => Ok(()),
        Err(m) => Err(m@),
    }
}

/// The `initialize` request that opens every connection.
pub fn initialize_request() -> (r: ClientRequest)
    ensures
        r@ == initialize_request_spec(),
{
    ClientRequest {
        id: 1,
        call: ClientCall::Initialize {
            protocol_version: String::from_str("2025-06-18"),
            client_name: String::from_str("RustTestClient"),
            client_version: String::from_str("1.0.0"),
        },
    }
}

impl ClientCall {
    /// The JSON-RPC method of the call.
    pub fn method(&self) -> (m: &'static str)
        ensures
            m@ == method_name(self@),
    {
        match self {
            ClientCall::Initialize { .. } => "initialize",
            ClientCall::CallTool { .. } => "tools/call",
            ClientCall::ReadResource { .. } => "resources/read",
            ClientCall::GetPrompt { .. } => "prompts/get",
        }
    }
}

/// The JSON-RPC method of a call.
pub open spec fn method_name(c: ClientCallView) -> Seq<char> {
    match c {
        ClientCallView::Initialize { .. } => "initialize"@,
        ClientCallView::CallTool { .. } => "tools/call"@,
        ClientCallView::ReadResource { .. } => "resources/read"@,
        ClientCallView::GetPrompt { .. } => "prompts/get"@,
    }
}

fn value(scenario: u32, expected: &str, seen: &FirstText, array: &str, debug: &str) -> (r: Result<
    (),
    String,
>)
    ensures
        outcome_view(r) == value_check(scenario, expected@, seen@, array@, debug@),
{
    match seen {
        FirstText::NoResult => Err(joined("No result in response: ", debug)),
        FirstText::NoArray => Err(joined3("No ", array, " field in result")),
        FirstText::NoFirstItem => Err(joined3("No ", array, " in response")),
        FirstText::NoText => Err(joined("No text field in ", array)),
        FirstText::Text(t) => {
            let matches = match &t.as_str {
                Some(s) => str_equal(s.as_str(), expected),
                None => false,
            };
            if matches {
                Ok(())
            } else {
                let id = decimal_string(scenario as u64);
                let m = joined("Scenario ", id.as_str()).concat(" failed: expected ").concat(
                    expected,
                ).concat(", got ").concat(t.shown.as_str());
                Err(m)
            }
        },
    }
}

fn warning_for(seen: &FirstText) -> (w: Option<String>)
    ensures
        opt_text(w) == initial_warning(seen@),
{
    match seen {
        FirstText::Text(t) => {
            let matches = match &t.as_str {
                Some(s) => str_equal(s.as_str(), "42"),
                None => false,
            };
            if matches {
                None
            } else {
                Some(joined("Expected initial value 42, got ", t.shown.as_str()))
            }
        },
        _ => None,
    }
}

fn text_of(seen: &FirstText) -> (t: Option<String>)
    ensures
        opt_text(t) == string_text(seen@),
{
    match seen {
        FirstText::Text(t) => match &t.as_str {
            Some(s) => Some(s.clone()),
            None => None,
        },
        _ => None,
    }
}

fn concurrent(texts: &Vec<Option<String>>) -> (r: Result<(), String>)
    ensures
        outcome_view(r) == check_concurrent(
            texts@.map_values(|t: Option<String>| opt_text(t)),
            seq![],
        ),
{
    let ghost views = texts@.map_values(|t: Option<String>| opt_text(t));
    let mut seen: Vec<String> = Vec::new();
    let mut i: usize = 0;
    assert(views.skip(0) =~= views);
    assert(seen@.map_values(|s: String| s@) =~= seq![]);
    while i < texts.len()
        invariant
            i <= texts.len(),
            views == texts@.map_values(|t: Option<String>| opt_text(t)),
            views.len() == texts.len(),
            check_concurrent(views, seq![]) == check_concurrent(
                views.skip(i as int),
                seen@.map_values(|s: String| s@),
            ),
        decreases texts.len() - i,
    {
        let ghost rest = views.skip(i as int);
        let ghost seen_views = seen@.map_values(|s: String| s@);
        assert(rest[0] == views[i as int]);
        assert(rest.drop_first() =~= views.skip(i + 1));
        match &texts[i] {
            None => {
                return Err(String::from_str("Missing result in concurrent calls"));
            },
            Some(s) => {
                let expected = str_equal(s.as_str(), "3") || str_equal(s.as_str(), "7")
                    || str_equal(s.as_str(), "11");
                if !expected {
                    return Err(joined("Unexpected result in concurrent calls: ", s.as_str()));
                }
                if contains_str(&seen, s.as_str()) {
                    return Err(joined("Duplicate result in concurrent calls: ", s.as_str()));
                }
                seen.push(s.clone());
                assert(seen@.map_values(|x: String| x@) =~= seen_views.push(s@));
            },
        }
        i = i + 1;
    }
    Ok(())
}

impl ScenarioRun {
    /// Whether the run waits for a response.
    pub fn is_awaiting(&self) -> (r: bool)
        ensures
            r == (self.stage != 0),
    {
        self.stage != 0
    }

    /// Starts a run of `scenario`: the run and its first action.
    pub fn start(scenario: u32) -> (r: (ScenarioRun, ClientAction))
        ensures
            (r.0@, r.1@) == start_spec(scenario),
    {
        let run = ScenarioRun { scenario, stage: 1, texts: Vec::new() };
        assert(run@.texts =~= seq![]);
        if scenario == 1 || scenario == 13 || scenario == 21 {
            (run, await_after(one(add_call(2, 10, 20))))
        } else if scenario == 2 {
            let mut arguments = Vec::new();
            arguments.push(int_arg("a", 10));
            assert(arguments@.map_values(|x: Argument| x@) =~= seq![
                ("a"@, ArgValueView::Integer(10)),
            ]);
            let call = ClientRequest {
                id: 2,
                call: ClientCall::CallTool { name: String::from_str("ambiguous_add"), arguments },
            };
            (run, await_after(one(call)))
        } else if scenario == 4 {
            (run, await_after(one(read_call(2))))
        } else if scenario == 5 {
            let call = ClientRequest {
                id: 2,
                call: ClientCall::GetPrompt { name: String::from_str("example-maths") },
            };
            (run, await_after(one(call)))
        } else if scenario == 6 {
            (run, await_after(one(eval_call(2, "2 + 2 * 3"))))
        } else if scenario == 15 {
            (run, await_after(one(eval_call(2, "(2 + 3) * (4 + 5)"))))
        } else if scenario == 25 {
            let mut send = Vec::new();
            send.push(add_call(2, 1, 2));
            send.push(add_call(3, 3, 4));
            send.push(add_call(4, 5, 6));
            assert(send@.map_values(|x: ClientRequest| x@) =~= seq![
                add_request(2, 1, 2),
                add_request(3, 3, 4),
                add_request(4, 5, 6),
            ]);
            (run, await_after(send))
        } else {
            let over = ScenarioRun { stage: 0, ..run };
            (over, finish_with(Ok(())))
        }
    }

    /// Hands a response that the run waited for to it: the run after it and
    /// the next action.
    pub fn step(self, response: &ResponseSummary) -> (r: (ScenarioRun, ClientAction))
        ensures
            (r.0@, r.1@) == step_spec(self@, response@),
    {
        let id = self.scenario;
        if id == 1 || id == 13 || id == 21 {
            let outcome = value(id, "30", &response.content, "content", response.debug.as_str());
            (ScenarioRun { stage: 0, ..self }, finish_with(outcome))
        } else if id == 6 {
            let outcome = value(id, "8", &response.content, "content", response.debug.as_str());
            (ScenarioRun { stage: 0, ..self }, finish_with(outcome))
        } else if id == 15 {
            let outcome = value(id, "45", &response.content, "content", response.debug.as_str());
            (ScenarioRun { stage: 0, ..self }, finish_with(outcome))
        } else if id == 4 {
            if self.stage == 1 {
                let warning = warning_for(&response.contents);
                let send = one(write_call());
                (ScenarioRun { stage: 2, ..self }, ClientAction { warning, send, next: Next::Await })
            } else if self.stage == 2 {
                (ScenarioRun { stage: 3, ..self }, await_after(one(read_call(4))))
            } else {
                let outcome = value(
                    id,
                    "100",
                    &response.contents,
                    "contents",
                    response.debug.as_str(),
                );
                (ScenarioRun { stage: 0, ..self }, finish_with(outcome))
            }
        } else if id == 25 {
            let mut texts = self.texts;
            let ghost before = texts@;
            texts.push(text_of(&response.content));
            assert(texts@.map_values(|t: Option<String>| opt_text(t)) =~= before.map_values(
                |t: Option<String>| opt_text(t),
            ).push(string_text(response.content@)));
            if self.stage < 3 {
                let send = Vec::new();
                let a = await_after(send);
                assert(a@.send =~= seq![]);
                (ScenarioRun { scenario: id, stage: self.stage + 1, texts }, a)
            } else {
                let outcome = concurrent(&texts);
                (ScenarioRun { scenario: id, stage: 0, texts }, finish_with(outcome))
            }
        } else {
            (ScenarioRun { stage: 0, ..self }, finish_with(Ok(())))
        }
    }
}

/// The line opens a JSON object: its first character that is not white
/// space is `{`. The client skips other lines while it waits for a response.
pub open spec fn opens_object(line: Seq<char>) -> bool {
    exists|i: int|
        0 <= i < line.len() && line[i] == '{' && forall|j: int|
            0 <= j < i ==> is_white_space(#[trigger] line[j])
}

/// Whether a line that the server printed holds a response.
pub fn is_response_line(line: &str) -> (r: bool)
    ensures
        r == opens_object(line@),
{
    let ghost chars = line@;
    for c in it: line.chars()
        invariant
            it.seq() == chars,
            chars == line@,
            forall|j: int| 0 <= j < it.index() ==> is_white_space(#[trigger] chars[j]),
    {
        if !char_is_whitespace(c) {
            assert(chars[it.index() as int] == c);
            if c == '{' {
                return true;
            } else {
                assert forall|i: int|
                    0 <= i < chars.len() && chars[i] == '{' implies !(forall|j: int|
                        0 <= j < i ==> is_white_space(#[trigger] chars[j])) by {
                    if i < it.index() {
                        assert(is_white_space(chars[i]));
                    } else if i > it.index() {
                        assert(!is_white_space(chars[it.index() as int]));
                    }
                }
                return false;
            }
        }
    }
    assert forall|i: int| 0 <= i < chars.len() && chars[i] == '{' implies !(forall|j: int|
        0 <= j < i ==> is_white_space(#[trigger] chars[j])) by {
        assert(is_white_space(chars[i]));
    }
    false
}

/// What is wrong with the transport that a client run was given, if anything.
pub open spec fn transport_error(subcommand: Option<Seq<char>>, command: Seq<Seq<char>>) -> Option<
    Seq<char>,
> {
    match subcommand {
        Some(s) => if s == "stdio"@ {
            if command.len() == 0 {
                Some("No server command provided"@)
            } else {
                None
            }
        } else if s == "sse"@ {
            Some("SSE transport not implemented yet"@)
        } else if s == "streamable-http"@ {
            Some("Streamable HTTP transport not implemented yet"@)
        } else {
            Some("No transport specified"@)
        },
        None => Some("No transport specified"@),
    }
}

/// Picks the transport of a client run from the subcommand it was given and
/// the server command that follows `stdio`: only stdio with a command is
/// served, and the result is the command to start the server with.
pub fn stdio_command(subcommand: Option<&str>, command: Vec<String>) -> (r: Result<
    Vec<String>,
    String,
>)
    ensures
        match r {
            Ok(c) => transport_error(
                match subcommand {
                    Some(s) => Some(s@),
                    None => None,
                },
                command@.map_values(|s: String| s@),
            ) is None && c@ == command@,
            Err(m) => transport_error(
                match subcommand {
                    Some(s) => Some(s@),
                    None => None,
                },
                command@.map_values(|s: String| s@),
            ) == Some(m@),
        },
{
    match subcommand {
        Some(s) => if str_equal(s, "stdio") {
            if command.len() == 0 {
                Err(String::from_str("No server command provided"))
            } else {
                Ok(command)
            }
        } else if str_equal(s, "sse") {
            Err(String::from_str("SSE transport not implemented yet"))
        } else if str_equal(s, "streamable-http") {
            Err(String::from_str("Streamable HTTP transport not implemented yet"))
        } else {
            Err(String::from_str("No transport specified"))
        },
        None => Err(String::from_str("No transport specified")),
    }
}

} // verus!
