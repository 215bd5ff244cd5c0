//! Statement injection: a route registration is placed just before the
//! tail of a function body, so that the value the body ends in has seen it.

use vstd::prelude::*;
use vstd::string::*;
use crate::item::{Function, FunctionView, texts};

verus! {

/// Where a statement is injected into a body of `len` statements: before
/// the last one. A body of fewer than two statements takes it at the front.
pub open spec fn injection_index(len: nat) -> nat {
    if len >= 2 {
        (len - 1) as nat
    } else {
        0
    }
}

/// The statement that registers the routes of `module` on `parameter`.
pub open spec fn registration_of(parameter: Seq<char>, module: Seq<char>) -> Seq<char> {
    parameter + " = "@ + parameter + ".configure("@ + module + "::routes);"@
}

/// The first `n` statements of a body, one to a line and indented.
pub open spec fn body_text(body: Seq<Seq<char>>, n: nat) -> Seq<char>
    decreases n,
{
    if n == 0 {
        Seq::empty()
    } else {
        body_text(body, (n - 1) as nat) + "    "@ + body[n - 1] + "\n"@
    }
}

/// A function item as text: the header, then the body between braces.
pub open spec fn function_text(header: Seq<char>, body: Seq<Seq<char>>) -> Seq<char> {
    header + " {\n"@ + body_text(body, body.len()) + "}"@
}

/// The function with `statement` injected: the body grows by one, the text
/// is written anew, and name, header and signature stay as they are.
pub open spec fn injected(f: FunctionView, statement: Seq<char>) -> FunctionView {
    let body = f.body.insert(injection_index(f.body.len()) as int, statement);
    FunctionView { body, text: function_text(f.header, body), ..f }
}

/// Inserts `statement` into `body` just before its last statement; into a
/// body of fewer than two statements, at the front.
pub fn inject_statement(body: Vec<String>, statement: String) -> (r: Vec<String>)
    ensures
        texts(r@) == texts(body@).insert(injection_index(body@.len()) as int, statement@),
        r@.len() == body@.len() + 1,
{
    let mut out = body;
    let at: usize = if out.len() >= 2 {
        out.len() - 1
    } else {
        0
    };
    out.insert(at, statement);
    assert(texts(out@) =~= texts(body@).insert(at as int, statement@));
    out
}

/// Builds the statement that registers the routes of `module` on `parameter`.
pub fn registration_statement(parameter: &str, module: &str) -> (r: String)
    ensures
        r@ == registration_of(parameter@, module@),
{
    let mut out = String::from_str(parameter);
    out.append(" = ");
    out.append(parameter);
    out.append(".configure(");
    out.append(module);
    out.append("::routes);");
    out
}

/// Writes a function item out as text.
pub fn render_function(header: &str, body: &Vec<String>) -> (r: String)
    ensures
        r@ == function_text(header@, texts(body@)),
{
    let mut out = String::from_str(header);
    out.append(" {\n");
    let ghost head = out@;
    let mut i: usize = 0;
    while i < body.len()
        invariant
            i <= body.len(),
            out@ == head + body_text(texts(body@), i as nat),
        decreases body.len() - i,
    {
        let ghost before = out@;
        out.append("    ");
        out.append(body[i].as_str());
        out.append("\n");
        assert(out@ =~= head + (body_text(texts(body@), i as nat) + "    "@ + texts(body@)[i as int]
            + "\n"@));
        i += 1;
    }
    out.append("}");
    out
}

/// Injects `statement` into a function and writes the function's text anew.
pub fn inject_into(function: Function, statement: String) -> (r: Function)
    ensures
        r@ == injected(function@, statement@),
{
    let Function { name, header, signature, body, text: _ } = function;
    let body = inject_statement(body, statement);
    let text = render_function(header.as_str(), &body);
    Function { name, header, signature, body, text }
}

} // verus!
