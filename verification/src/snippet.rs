//! Turning a fragment (a type name, an expression) into a whole program that
//! the compiler accepts exactly when it accepts the fragment.
//!
//! This is text put around text. The fragment is never looked at: a
//! malformed one gives a program that the compiler turns down, which is the
//! answer the caller is after. A whole program needs no wrapping and is
//! handed on as it is.

use vstd::prelude::*;
use vstd::string::StringExecFns;

verus! {

/// The program that asks whether `name` is a type: a function with one
/// parameter of the boxed type, and an empty entry point. Behind the box an
/// unsized type is as welcome as a sized one.
pub open spec fn type_program(name: Seq<char>) -> Seq<char> {
    "fn probe_fun(_: Box<"@ + name + ">) {} fn main() {} "@
}

/// The program that asks whether `expression` compiles when its type is left
/// to inference: an entry point that binds it to a discarded local.
pub open spec fn expression_program(expression: Seq<char>) -> Seq<char> {
    "fn main() { let _ = "@ + expression + "; }"@
}

/// The program that asks whether `expression` compiles at the type `name`: an
/// entry point that binds it to a discarded local of that type.
pub open spec fn typed_expression_program(expression: Seq<char>, name: Seq<char>) -> Seq<char> {
    "fn main() { let _: "@ + name + " = "@ + expression + "; }"@
}

/// Wraps a type name into a program.
pub fn wrap_type(name: &str) -> (program: String)
    ensures
        program@ == type_program(name@),
{
    let mut program = String::from_str("fn probe_fun(_: Box<");
    program.append(name);
    program.append(">) {} fn main() {} ");
    program
}

/// Wraps an expression into a program that leaves its type to inference.
pub fn wrap_expression(expression: &str) -> (program: String)
    ensures
        program@ == expression_program(expression@),
{
    let mut program = String::from_str("fn main() { let _ = ");
    program.append(expression);
    program.append("; }");
    program
}

/// Wraps an expression and the type it is to have into a program.
pub fn wrap_typed_expression(expression: &str, name: &str) -> (program: String)
    ensures
        program@ == typed_expression_program(expression@, name@),
{
    let mut program = String::from_str("fn main() { let _: ");
    program.append(name);
    program.append(" = ");
    program.append(expression);
    program.append("; }");
    program
}

} // verus!
