//! What a test server reads from a JSON-RPC request, as plain values.
use vstd::prelude::*;

verus! {

/// The `arguments` of a `tools/call` request, as the tools read them.
///
/// Each field holds what the named argument gives: `None` where the
/// argument is absent or of another JSON type.
pub struct ToolArguments {
    /// `allowed`, where it is a boolean.
    pub allowed: Option<bool>,
    /// `expression`, where it is a string.
    pub expression: Option<String>,
    /// The number that `expression` (or the empty string where there is none),
    /// trimmed of surrounding whitespace, parses to as a floating-point
    /// number, rendered as text; `None` where it does not parse.
    pub expression_value: Option<String>,
    /// `path`, where it is a string.
    pub path: Option<String>,
    /// `duration_secs`, where it is a non-negative integer.
    pub duration_secs: Option<u64>,
    /// `value` as a floating-point number (0 where it is absent or not a
    /// number), rendered as text.
    pub value: String,
}

/// The parameters of a `tools/call` request.
pub enum ToolCallParams {
    /// The request has no `params`.
    Missing,
    /// `params` is not a valid tool call; the text is the decoder's message.
    Malformed(String),
    /// A call of the tool `name`.
    Call { name: String, arguments: ToolArguments },
}

/// A request as the server reads it.
pub struct Request {
    pub method: String,
    /// `params.uri`, where it is a string.
    pub uri: Option<String>,
    /// `params.name`, where it is a string.
    pub name: Option<String>,
    /// `params` read as the parameters of a tool call.
    pub tool_call: ToolCallParams,
}

pub struct ToolArgumentsView {
    pub allowed: Option<bool>,
    pub expression: Option<Seq<char>>,
    pub expression_value: Option<Seq<char>>,
    pub path: Option<Seq<char>>,
    pub duration_secs: Option<u64>,
    pub value: Seq<char>,
}

pub enum ToolCallParamsView {
    Missing,
    Malformed(Seq<char>),
    Call { name: Seq<char>, arguments: ToolArgumentsView },
}

pub struct RequestView {
    pub method: Seq<char>,
    pub uri: Option<Seq<char>>,
    pub name: Option<Seq<char>>,
    pub tool_call: ToolCallParamsView,
}

pub open spec fn opt_view(o: Option<String>) -> Option<Seq<char>> {
    match o {
        Some(s) => Some(s@),
        None => None,
    }
}

/// The text of an optional string, or `default` where there is none.
pub open spec fn text_or(o: Option<Seq<char>>, default: Seq<char>) -> Seq<char> {
    match o {
        Some(s) => s,
        None => default,
    }
}

impl View for ToolArguments {
    type V = ToolArgumentsView;

    open spec fn view(&self) -> ToolArgumentsView {
        ToolArgumentsView {
            allowed: self.allowed,
            expression: opt_view(self.expression),
            expression_value: opt_view(self.expression_value),
            path: opt_view(self.path),
            duration_secs: self.duration_secs,
            value: self.value@,
        }
    }
}

impl View for ToolCallParams {
    type V = ToolCallParamsView;

    open spec fn view(&self) -> ToolCallParamsView {
        match self {
            ToolCallParams::Missing => ToolCallParamsView::Missing,
            ToolCallParams::Malformed(m) => ToolCallParamsView::Malformed(m@),
            ToolCallParams::Call { name, arguments } => ToolCallParamsView::Call {
                name: name@,
                arguments: arguments@,
            },
        }
    }
}

impl View for Request {
    type V = RequestView;

    open spec fn view(&self) -> RequestView {
        RequestView {
            method: self.method@,
            uri: opt_view(self.uri),
            name: opt_view(self.name),
            tool_call: self.tool_call@,
        }
    }
}

/// The text of an optional string, or `default` where there is none.
pub fn str_or<'a>(o: &'a Option<String>, default: &'a str) -> (r: &'a str)
    ensures
        r@ == text_or(opt_view(*o), default@),
{
    match o {
        Some(s) => s.as_str(),
        None => default,
    }
}

} // verus!
