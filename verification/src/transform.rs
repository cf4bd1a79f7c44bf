//! The three generators that work on parsed input: a reversed tuple from a list of
//! expressions, an `impl MyDebug` from a struct, and a logging wrapper round a function.

use vstd::prelude::*;

use crate::syntax::{
    parse_declaration, parse_expressions, parse_function, parsed_declaration,
    parsed_expressions, parsed_function, Declaration, DeclarationView, ExpandError, FieldShape,
    FieldShapeView, FunctionDecl, FunctionDeclView, Shape, ShapeView,
};
use crate::text::{
    append_all, concat_all, decimal, decimal_text, join, joined, joined_after_first, texts,
};

verus! {

/// A tuple expression of the given expressions, last one first.
///
/// One expression gives that expression in parentheses, which is the expression
/// itself; none gives `()`.
pub open spec fn reversed_tuple(exprs: Seq<Seq<char>>) -> Seq<char> {
    "("@ + joined(exprs.reverse(), ", "@) + ")"@
}

/// Emits the tuple of `exprs` in reverse order.
pub fn reverse_parsed(exprs: &Vec<String>) -> (r: String)
    ensures
        r@ == reversed_tuple(texts(exprs@)),
{
    let mut backwards: Vec<String> = Vec::new();
    let mut left: usize = exprs.len();
    while left > 0
        invariant
            left <= exprs.len(),
            backwards@.len() == exprs.len() - left,
            forall|k: int|
                0 <= k < backwards@.len() ==> backwards@[k] == exprs@[exprs.len() - 1 - k],
        decreases left,
    {
        left = left - 1;
        backwards.push(exprs[left].clone());
    }
    let mut out = String::new();
    out.push_str("(");
    let inner = join(&backwards, ", ");
    out.push_str(inner.as_str());
    out.push_str(")");
    proof {
        assert(texts(backwards@) =~= texts(exprs@).reverse());
        assert(out@ =~= reversed_tuple(texts(exprs@)));
    }
    out
}

/// Reads `input` as expressions separated by commas (a trailing comma is allowed,
/// and so is an empty list) and emits the tuple of them in reverse order.
/// Any other input is `Malformed`.
pub fn reverse_exprs(input: &str) -> (r: Result<String, ExpandError>)
    ensures
        match parsed_expressions(input@) {
            Some(exprs) => r is Ok && r->Ok_0@ == reversed_tuple(exprs),
            None => r == Err::<String, ExpandError>(ExpandError::Malformed),
        },
{
    match parse_expressions(input) {
        Some(exprs) => Ok(reverse_parsed(&exprs)),
        None => Err(ExpandError::Malformed),
    }
}

/// The statement that prints a named field: its name, then its value.
pub open spec fn named_statement(field: Seq<char>) -> Seq<char> {
    "print!(\"{}: {:?}, \", stringify!("@ + field + "), self."@ + field + "); "@
}

/// The statement that prints the field at position `index`: the index, then the value.
pub open spec fn positional_statement(index: nat) -> Seq<char> {
    "print!(\"{}: {:?}, \", "@ + decimal(index) + "usize, self."@ + decimal(index) + "); "@
}

/// The one statement printed for a struct without fields.
pub open spec fn unit_statement() -> Seq<char> {
    "print!(\"(unit struct)\"); "@
}

/// One statement for each field, in the order of the declaration; for a struct
/// without fields the single statement that says so.
pub open spec fn field_statements(fields: FieldShapeView) -> Seq<Seq<char>> {
    match fields {
        FieldShapeView::Named(names) => Seq::new(names.len(), |i: int| named_statement(names[i])),
        FieldShapeView::Positional(count) => Seq::new(
            count,
            |i: int| positional_statement(i as nat),
        ),
        FieldShapeView::Unit => seq![unit_statement()],
    }
}

/// The `impl MyDebug` block for the type `name`: the method prints the opening
/// marker, runs the statements in order, and prints the closing marker.
pub open spec fn impl_block(name: Seq<char>, statements: Seq<Seq<char>>) -> Seq<char> {
    "impl MyDebug for "@ + name + " { fn my_fmt(&self) { print!(\"{}: {{ \", stringify!("@ + name
        + ")); "@ + concat_all(statements) + "println!(\"}}\"); } }"@
}

/// What deriving `MyDebug` gives for a declaration: the `impl` block for a
/// struct, and `NotAStruct` for anything else.
pub open spec fn derived(decl: DeclarationView) -> Result<Seq<char>, ExpandError> {
    match decl.shape {
        ShapeView::Struct(fields) => Ok(impl_block(decl.name, field_statements(fields))),
        _ => Err(ExpandError::NotAStruct),
    }
}

fn emit_named_statement(field: &String) -> (r: String)
    ensures
        r@ == named_statement(field@),
{
    let mut out = String::new();
    out.push_str("print!(\"{}: {:?}, \", stringify!(");
    out.push_str(field.as_str());
    out.push_str("), self.");
    out.push_str(field.as_str());
    out.push_str("); ");
    proof {
        assert(out@ =~= named_statement(field@));
    }
    out
}

fn emit_positional_statement(index: usize) -> (r: String)
    ensures
        r@ == positional_statement(index as nat),
{
    let numeral = decimal_text(index);
    let mut out = String::new();
    out.push_str("print!(\"{}: {:?}, \", ");
    out.push_str(numeral.as_str());
    out.push_str("usize, self.");
    out.push_str(numeral.as_str());
    out.push_str("); ");
    proof {
        assert(out@ =~= positional_statement(index as nat));
    }
    out
}

/// The statements that print the fields of a struct, one for each field.
pub fn emit_field_statements(fields: &FieldShape) -> (r: Vec<String>)
    ensures
        texts(r@) == field_statements(fields@),
{
    let mut statements: Vec<String> = Vec::new();
    match fields {
        FieldShape::Named(names) => {
            let mut i: usize = 0;
            while i < names.len()
                invariant
                    i <= names.len(),
                    statements@.len() == i,
                    forall|k: int| 0 <= k < i ==> statements@[k]@ == named_statement(names@[k]@),
                decreases names.len() - i,
            {
                statements.push(emit_named_statement(&names[i]));
                i = i + 1;
            }
        },
        FieldShape::Positional(count) => {
            let mut i: usize = 0;
            while i < *count
                invariant
                    i <= *count,
                    statements@.len() == i,
                    forall|k: int|
                        0 <= k < i ==> statements@[k]@ == positional_statement(k as nat),
                decreases *count - i,
            {
                statements.push(emit_positional_statement(i));
                i = i + 1;
            }
        },
        FieldShape::Unit => {
            let mut only = String::new();
            only.push_str("print!(\"(unit struct)\"); ");
            proof {
                assert(only@ =~= unit_statement());
            }
            statements.push(only);
        },
    }
    proof {
        assert(texts(statements@) =~= field_statements(fields@));
    }
    statements
}

/// Derives `MyDebug` for a declaration that is already parsed.
///
/// A struct gets exactly one `impl` block, whatever its fields; an enum or a
/// union gets `NotAStruct` and no text at all.
pub fn derive_my_debug(decl: &Declaration) -> (r: Result<String, ExpandError>)
    ensures
        r is Ok <==> decl@.shape is Struct,
        match derived(decl@) {
            Ok(text) => r is Ok && r->Ok_0@ == text,
            Err(e) => r == Err::<String, ExpandError>(e),
        },
{
    match &decl.shape {
        Shape::Struct(fields) => {
            let statements = emit_field_statements(fields);
            let body = append_all(&statements);
            let mut out = String::new();
            out.push_str("impl MyDebug for ");
            out.push_str(decl.name.as_str());
            out.push_str(" { fn my_fmt(&self) { print!(\"{}: {{ \", stringify!(");
            out.push_str(decl.name.as_str());
            out.push_str(")); ");
            out.push_str(body.as_str());
            out.push_str("println!(\"}}\"); } }");
            proof {
                assert(out@ =~= impl_block(decl@.name, field_statements(fields@)));
            }
            Ok(out)
        },
        _ => Err(ExpandError::NotAStruct),
    }
}

/// Reads `input` as a type declaration and derives `MyDebug` for it: `Malformed`
/// where it is no declaration, else what `derive_my_debug` gives.
pub fn my_debug_derive(input: &str) -> (r: Result<String, ExpandError>)
    ensures
        match parsed_declaration(input@) {
            Some(decl) => match derived(decl) {
                Ok(text) => r is Ok && r->Ok_0@ == text,
                Err(e) => r == Err::<String, ExpandError>(e),
            },
            None => r == Err::<String, ExpandError>(ExpandError::Malformed),
        },
{
    match parse_declaration(input) {
        Some(decl) => derive_my_debug(&decl),
        None => Err(ExpandError::Malformed),
    }
}

/// Only a struct can derive: the result is an `impl` block exactly when the
/// declaration is a struct, and `NotAStruct` for every other declaration.
pub proof fn derive_needs_a_struct(decl: DeclarationView)
    ensures
        derived(decl) is Ok <==> decl.shape is Struct,
        !(decl.shape is Struct) ==> derived(decl) == Err::<Seq<char>, ExpandError>(
            ExpandError::NotAStruct,
        ),
{
}

/// The statements follow the fields: named fields give one statement each, by
/// name and in the order of the declaration; positional fields give one each, by
/// index from 0 up; a struct without fields gives the one statement that says so.
pub proof fn statements_follow_the_fields(fields: FieldShapeView)
    ensures
        match fields {
            FieldShapeView::Named(names) => {
                &&& field_statements(fields).len() == names.len()
                &&& forall|i: int|
                    0 <= i < names.len() ==> field_statements(fields)[i] == named_statement(
                        names[i],
                    )
            },
            FieldShapeView::Positional(count) => {
                &&& field_statements(fields).len() == count
                &&& forall|i: int|
                    0 <= i < count ==> field_statements(fields)[i] == positional_statement(
                        i as nat,
                    )
            },
            FieldShapeView::Unit => field_statements(fields) == seq![unit_statement()],
        },
{
}

/// Reversing a single expression leaves it as it is, in parentheses.
pub proof fn reversed_tuple_of_one(expr: Seq<char>)
    ensures
        reversed_tuple(seq![expr]) == "("@ + expr + ")"@,
{
    assert(seq![expr].reverse() =~= seq![expr]);
}

/// The reversed tuple lists the expressions from the last to the first: each
/// one is followed by a comma, a blank and the one that stood before it.
pub proof fn reversed_tuple_grows_at_the_front(exprs: Seq<Seq<char>>, next: Seq<char>)
    requires
        exprs.len() >= 1,
    ensures
        joined(exprs.push(next).reverse(), ", "@) == next + ", "@ + joined(exprs.reverse(), ", "@),
{
    joined_after_first(exprs.push(next).reverse(), ", "@);
    assert(exprs.push(next).reverse().drop_first() =~= exprs.reverse());
}

/// The line that the wrapper prints before it runs the body.
pub open spec fn entry_statement(name: Seq<char>) -> Seq<char> {
    "println!(\"Calling function `{}`\", stringify!("@ + name + ")); "@
}

/// The line that the wrapper prints once the body has given its value.
pub open spec fn exit_statement(name: Seq<char>) -> Seq<char> {
    "println!(\"Function `{}` returned\", stringify!("@ + name + ")); "@
}

/// Each attribute followed by a blank.
pub open spec fn attribute_lines(attrs: Seq<Seq<char>>) -> Seq<Seq<char>> {
    Seq::new(attrs.len(), |i: int| attrs[i] + " "@)
}

/// The function with its attributes, visibility and signature as they were, and
/// a body that prints the entry line, binds the value of the old body, prints the
/// exit line and gives that value.
pub open spec fn wrapped(f: FunctionDeclView) -> Seq<char> {
    concat_all(attribute_lines(f.attrs)) + f.vis + " "@ + f.sig + " { "@ + entry_statement(f.name)
        + "let result = "@ + f.body + "; "@ + exit_statement(f.name) + "result }"@
}

/// Wraps a function that is already parsed in the two logging lines.
pub fn wrap_with_log(f: &FunctionDecl) -> (r: String)
    ensures
        r@ == wrapped(f@),
{
    let mut lines: Vec<String> = Vec::new();
    let mut i: usize = 0;
    while i < f.attrs.len()
        invariant
            i <= f.attrs.len(),
            lines@.len() == i,
            forall|k: int| 0 <= k < i ==> lines@[k]@ == f.attrs@[k]@ + " "@,
        decreases f.attrs.len() - i,
    {
        let mut line = f.attrs[i].clone();
        line.push_str(" ");
        lines.push(line);
        i = i + 1;
    }
    proof {
        assert(texts(lines@) =~= attribute_lines(f@.attrs));
    }
    let mut out = append_all(&lines);
    out.push_str(f.vis.as_str());
    out.push_str(" ");
    out.push_str(f.sig.as_str());
    out.push_str(" { ");
    out.push_str("println!(\"Calling function `{}`\", stringify!(");
    out.push_str(f.name.as_str());
    out.push_str(")); ");
    out.push_str("let result = ");
    out.push_str(f.body.as_str());
    out.push_str("; ");
    out.push_str("println!(\"Function `{}` returned\", stringify!(");
    out.push_str(f.name.as_str());
    out.push_str(")); ");
    out.push_str("result }");
    proof {
        assert(out@ =~= wrapped(f@));
    }
    out
}

/// Reads `item` as a function and wraps it in the two logging lines; the
/// attribute's own arguments are not read. `Malformed` where `item` is no function.
pub fn log_call(_attr: &str, item: &str) -> (r: Result<String, ExpandError>)
    ensures
        match parsed_function(item@) {
            Some(f) => r is Ok && r->Ok_0@ == wrapped(f),
            None => r == Err::<String, ExpandError>(ExpandError::Malformed),
        },
{
    match parse_function(item) {
        Some(f) => Ok(wrap_with_log(&f)),
        None => Err(ExpandError::Malformed),
    }
}

} // verus!
