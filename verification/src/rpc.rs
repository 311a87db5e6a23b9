//! The JSON-RPC side of a test server: which input lines are requests, and
//! how a failed request is answered.
use vstd::prelude::*;
use crate::reply::ServerReply;
use crate::request::Request;
use crate::server::ServerState;
use crate::text::{joined, str_equal};

verus! {

/// The JSON-RPC error code for a line that is not a valid request.
pub const PARSE_ERROR: i64 = -32700;

/// The JSON-RPC error code for a request that the handler failed.
pub const INTERNAL_ERROR: i64 = -32603;

/// The `error` member of a JSON-RPC response.
pub struct RpcError {
    pub code: i64,
    pub message: String,
}

/// Whether `c` has the Unicode `White_Space` property, as `char::is_whitespace` tests it.
pub open spec fn is_white_space(c: char) -> bool {
    ||| '\u{9}' <= c <= '\u{d}'
    ||| c == ' '
    ||| c == '\u{85}'
    ||| c == '\u{a0}'
    ||| c == '\u{1680}'
    ||| '\u{2000}' <= c <= '\u{200a}'
    ||| c == '\u{2028}'
    ||| c == '\u{2029}'
    ||| c == '\u{202f}'
    ||| c == '\u{205f}'
    ||| c == '\u{3000}'
}

/// Whether `c` has the Unicode `White_Space` property (as `char::is_whitespace`).
pub fn char_is_whitespace(c: char) -> (r: bool)
    ensures
        r == is_white_space(c),
{
    ('\u{9}' <= c && c <= '\u{d}') || c == ' ' || c == '\u{85}' || c == '\u{a0}' || c
        == '\u{1680}' || ('\u{2000}' <= c && c <= '\u{200a}') || c == '\u{2028}' || c
        == '\u{2029}' || c == '\u{202f}' || c == '\u{205f}' || c == '\u{3000}'
}

/// A line that holds nothing but white space (and so nothing once trimmed);
/// the server skips such lines.
pub open spec fn blank(line: Seq<char>) -> bool {
    forall|i: int| 0 <= i < line.len() ==> is_white_space(#[trigger] line[i])
}

/// Whether an input line is blank.
pub fn is_blank_line(line: &str) -> (r: bool)
    ensures
        r == blank(line@),
{
    for c in it: line.chars()
        invariant
            it.seq() == line@,
            forall|j: int| 0 <= j < it.index() ==> is_white_space(#[trigger] line@[j]),
    {
        if !char_is_whitespace(c) {
            return false;
        }
    }
    true
}

/// The error that answers a line that does not decode as a request;
/// `detail` is the decoder's message.
pub fn parse_error(detail: &str) -> (e: RpcError)
    ensures
        e.code == PARSE_ERROR,
        e.code == -32700,
        e.message@ == "Parse error: "@ + detail@,
{
    RpcError { code: PARSE_ERROR, message: joined("Parse error: ", detail) }
}

/// Answers a decoded request: its reply, or an internal error that carries
/// the handler's message.
pub fn answer(state: &mut ServerState, server_name: &str, request: &Request) -> (r: Result<
    ServerReply,
    RpcError,
>)
    ensures
        ({
            let (expected, next) = crate::server::handle_spec(server_name@, request@, old(state)@);
            &&& final(state)@ == next
            &&& match r {
                Ok(reply) => expected == Ok::<crate::reply::ServerReplyView, Seq<char>>(reply@),
                Err(e) => e.code == INTERNAL_ERROR && e.code == -32603 && expected == Err::<
                    crate::reply::ServerReplyView,
                    Seq<char>,
                >(e.message@),
            }
        }),
{
    match state.handle_request(server_name, request) {
        Ok(reply) => Ok(reply),
        Err(message) => Err(RpcError { code: INTERNAL_ERROR, message }),
    }
}

/// The message for a transport other than stdio.
pub open spec fn unsupported_transport() -> Seq<char> {
    "Only stdio transport supported currently"@
}

/// Checks the transport a server is started with: only `stdio` is served.
pub fn check_transport(transport: &str) -> (r: Result<(), String>)
    ensures
        r is Ok <==> transport@ == "stdio"@,
        r matches Err(m) ==> m@ == unsupported_transport(),
{
    if str_equal(transport, "stdio") {
        Ok(())
    } else {
        Err(String::from_str("Only stdio transport supported currently"))
    }
}

} // verus!
