//! Signature extraction: the parameters that a declaration's token trees
//! spell out, found by a linear scan over punctuation.
//!
//! The scan does not track nesting of angle brackets. A comma inside a
//! generic argument list therefore ends the parameter it stands in, and the
//! rest of that type is dropped. Delimited groups and literals inside a
//! parameter list are passed over. Only a single identifier is recognised as
//! a parameter's name.

use vstd::prelude::*;
use vstd::string::*;
use crate::token::Token;

verus! {

/// A parameter: its name and a textual description of its type.
#[derive(Debug, PartialEq, Eq)]
pub struct Parameter {
    pub name: String,
    pub type_desc: String,
}

/// What a `Parameter` stands for.
pub struct ParameterView {
    pub name: Seq<char>,
    pub type_desc: Seq<char>,
}

impl View for Parameter {
    type V = ParameterView;

    open spec fn view(&self) -> ParameterView {
        ParameterView { name: self.name@, type_desc: self.type_desc@ }
    }
}

/// The views of a sequence of parameters, in order.
pub open spec fn parameter_views(params: Seq<Parameter>) -> Seq<ParameterView> {
    Seq::new(params.len(), |i: int| params[i]@)
}

/// The scan's memory between two tokens of one parameter list.
pub struct ScanState {
    /// Parameters committed so far.
    pub done: Seq<ParameterView>,
    /// The latest identifier seen before the first `:` of the current segment.
    pub name: Seq<char>,
    /// The type text gathered after the first `:` of the current segment.
    pub type_desc: Seq<char>,
    /// Whether the current segment has shown a `:` yet.
    pub colon_seen: bool,
    /// Whether the token just read was an identifier added to the type.
    pub after_ident: bool,
}

/// The state in which the scan of a parameter list starts, with `done`
/// already committed.
pub open spec fn scan_start(done: Seq<ParameterView>) -> ScanState {
    ScanState {
        done,
        name: Seq::empty(),
        type_desc: Seq::empty(),
        colon_seen: false,
        after_ident: false,
    }
}

/// The state after reading one more token.
///
/// Before the first `:` an identifier becomes the name. After it, identifiers
/// and punctuation are appended to the type, two adjacent identifiers parted
/// by one space. A `,` commits the pair if a `:` was seen, and starts afresh
/// either way.
pub open spec fn scan_step(st: ScanState, t: Token) -> ScanState {
    match t {
        Token::Ident(s) => if !st.colon_seen {
            ScanState { name: s@, after_ident: false, ..st }
        } else if st.after_ident {
            ScanState { type_desc: st.type_desc.push(' ') + s@, after_ident: true, ..st }
        } else {
            ScanState { type_desc: st.type_desc + s@, after_ident: true, ..st }
        },
        Token::Punct(c) => if c == ',' {
            if st.colon_seen {
                scan_start(
                    st.done.push(ParameterView { name: st.name, type_desc: st.type_desc }),
                )
            } else {
                scan_start(st.done)
            }
        } else if !st.colon_seen {
            ScanState { colon_seen: c == ':', after_ident: false, ..st }
        } else {
            ScanState { type_desc: st.type_desc.push(c), after_ident: false, ..st }
        },
        _ => ScanState { after_ident: false, ..st },
    }
}

/// The state after reading the first `n` tokens of a parameter list.
pub open spec fn scan_prefix(tokens: Seq<Token>, n: nat, done: Seq<ParameterView>) -> ScanState
    decreases n,
{
    if n == 0 {
        scan_start(done)
    } else {
        scan_step(scan_prefix(tokens, (n - 1) as nat, done), tokens[n - 1])
    }
}

/// What is committed when a parameter list ends in state `st`: the last pair
/// counts if it has a `:`, a name and a type.
pub open spec fn scan_finish(st: ScanState) -> Seq<ParameterView> {
    if st.colon_seen && st.name.len() > 0 && st.type_desc.len() > 0 {
        st.done.push(ParameterView { name: st.name, type_desc: st.type_desc })
    } else {
        st.done
    }
}

/// The parameters after one whole parameter list, `done` being those
/// committed before it.
pub open spec fn group_parameters(tokens: Seq<Token>, done: Seq<ParameterView>) -> Seq<
    ParameterView,
> {
    scan_finish(scan_prefix(tokens, tokens.len(), done))
}

/// The parameters that the first `n` token trees spell out: every group
/// among them is read as a parameter list, in order.
pub open spec fn parameters_prefix(tokens: Seq<Token>, n: nat) -> Seq<ParameterView>
    decreases n,
{
    if n == 0 {
        Seq::empty()
    } else {
        let before = parameters_prefix(tokens, (n - 1) as nat);
        match tokens[n - 1] {
            Token::Group(inner) => group_parameters(inner@, before),
            _ => before,
        }
    }
}

/// The parameters that a declaration's token trees spell out.
pub open spec fn parameters_of(tokens: Seq<Token>) -> Seq<ParameterView> {
    parameters_prefix(tokens, tokens.len())
}

/// Reading further never takes back a parameter: what was committed before
/// a parameter list was read is still there after it, in the same places.
pub proof fn lemma_scan_keeps_committed(tokens: Seq<Token>, n: nat, done: Seq<ParameterView>)
    ensures
        done.is_prefix_of(scan_prefix(tokens, n, done).done),
        done.is_prefix_of(scan_finish(scan_prefix(tokens, n, done))),
    decreases n,
{
    if n > 0 {
        lemma_scan_keeps_committed(tokens, (n - 1) as nat, done);
        let before = scan_prefix(tokens, (n - 1) as nat, done);
        assert(before.done.is_prefix_of(scan_step(before, tokens[n - 1]).done));
    }
    let st = scan_prefix(tokens, n, done);
    assert(st.done.is_prefix_of(scan_finish(st)));
}

/// The parameters of a longer run of token trees begin with those of a
/// shorter one: parameters come out in the order of their declaration.
pub proof fn lemma_parameters_grow(tokens: Seq<Token>, n: nat, m: nat)
    requires
        n <= m,
    ensures
        parameters_prefix(tokens, n).is_prefix_of(parameters_prefix(tokens, m)),
    decreases m,
{
    if n < m {
        lemma_parameters_grow(tokens, n, (m - 1) as nat);
        let before = parameters_prefix(tokens, (m - 1) as nat);
        match tokens[m - 1] {
            Token::Group(inner) => {
                lemma_scan_keeps_committed(inner@, inner@.len(), before);
            },
            _ => {},
        }
        assert(before.is_prefix_of(parameters_prefix(tokens, m)));
    }
}

/// `String::push`: appends one character to the end of the string.
#[verifier::external_body]
fn push_char(s: &mut String, c: char)
    ensures
        final(s)@ == old(s)@.push(c),
{
    s.push(c);
}

/// Reads one parameter list and appends what it declares to `out`.
fn scan_group(inner: &Vec<Token>, out: &mut Vec<Parameter>)
    ensures
        parameter_views(final(out)@) == group_parameters(inner@, parameter_views(old(out)@)),
{
    let mut name = String::new();
    let mut type_desc = String::new();
    let mut colon_seen = false;
    let mut after_ident = false;
    let ghost start = parameter_views(out@);
    let mut i: usize = 0;
    while i < inner.len()
        invariant
            i <= inner.len(),
            scan_prefix(inner@, i as nat, start) == (ScanState {
                done: parameter_views(out@),
                name: name@,
                type_desc: type_desc@,
                colon_seen,
                after_ident,
            }),
        decreases inner.len() - i,
    {
        let ghost before = parameter_views(out@);
        match &inner[i] {
            Token::Ident(s) => {
                if !colon_seen {
                    name = s.clone();
                    after_ident = false;
                } else {
                    if after_ident {
                        push_char(&mut type_desc, ' ');
                    }
                    type_desc.append(s.as_str());
                    after_ident = true;
                }
            },
            Token::Punct(c) => {
                if *c == ',' {
                    if colon_seen {
                        out.push(Parameter { name, type_desc });
                        assert(parameter_views(out@) =~= before.push(
                            ParameterView { name: name@, type_desc: type_desc@ },
                        ));
                    }
                    name = String::new();
                    type_desc = String::new();
                    colon_seen = false;
                    after_ident = false;
                } else if !colon_seen {
                    colon_seen = *c == ':';
                    after_ident = false;
                } else {
                    push_char(&mut type_desc, *c);
                    after_ident = false;
                }
            },
            _ => {
                after_ident = false;
            },
        }
        i += 1;
    }
    if colon_seen && !name.as_str().is_empty() && !type_desc.as_str().is_empty() {
        let ghost before = parameter_views(out@);
        out.push(Parameter { name, type_desc });
        assert(parameter_views(out@) =~= before.push(
            ParameterView { name: name@, type_desc: type_desc@ },
        ));
    }
}

/// Extracts the parameters of a declaration from its token trees, in the
/// order in which they are declared.
///
/// Every delimited group at the top level is read as a parameter list. In
/// it, the identifier just before the first `:` of a segment is the name, and
/// the identifiers and punctuation after that `:` up to the next `,` make the
/// type. A segment without `:`, such as a receiver, declares nothing.
pub fn parse_extract_args(tokens: &Vec<Token>) -> (r: Vec<Parameter>)
    ensures
        parameter_views(r@) == parameters_of(tokens@),
{
    let mut out: Vec<Parameter> = Vec::new();
    let mut i: usize = 0;
    assert(parameter_views(out@) =~= Seq::empty());
    while i < tokens.len()
        invariant
            i <= tokens.len(),
            parameter_views(out@) == parameters_prefix(tokens@, i as nat),
        decreases tokens.len() - i,
    {
        match &tokens[i] {
            Token::Group(inner) => {
                scan_group(inner, &mut out);
            },
            _ => {},
        }
        i += 1;
    }
    out
}

} // verus!
