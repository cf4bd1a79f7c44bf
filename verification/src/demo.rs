//! What the generated code does when it runs: the trait that the derive
//! implements with the lines its method writes, and a function to wrap with
//! the lines that the wrapper writes round it.
//!
//! Nothing here prints. Each function gives the text, and the caller writes it.

use vstd::prelude::*;

use crate::text::{append_all, concat_all, decimal, decimal_text, texts};

verus! {

/// Prints a value field by field. The derive writes the impl.
pub trait MyDebug {
    fn my_fmt(&self);
}

/// A field's name beside its value, both as they are to be shown.
#[derive(Debug, Clone)]
pub struct Shown {
    pub label: String,
    pub value: String,
}

/// What one field contributes to the line: its label, its value, a comma.
pub open spec fn field_rendering(label: Seq<char>, value: Seq<char>) -> Seq<char> {
    label + ": "@ + value + ", "@
}

/// The only content of the line of a struct without fields.
pub open spec fn unit_rendering() -> Seq<char> {
    "(unit struct)"@
}

/// The whole line: the opening marker with the type's name, the parts in order,
/// the closing marker and the end of the line.
pub open spec fn struct_rendering(name: Seq<char>, parts: Seq<Seq<char>>) -> Seq<char> {
    name + ": { "@ + concat_all(parts) + "}\n"@
}

/// The parts of a struct with named fields, in the order given.
pub open spec fn named_parts(fields: Seq<Shown>) -> Seq<Seq<char>> {
    Seq::new(fields.len(), |i: int| field_rendering(fields[i].label@, fields[i].value@))
}

/// The parts of a struct with positional fields: each value under its index.
pub open spec fn positional_parts(values: Seq<Seq<char>>) -> Seq<Seq<char>> {
    Seq::new(values.len(), |i: int| field_rendering(decimal(i as nat), values[i]))
}

fn enclose(name: &str, parts: &Vec<String>) -> (r: String)
    ensures
        r@ == struct_rendering(name@, texts(parts@)),
{
    let inner = append_all(parts);
    let mut out = String::new();
    out.push_str(name);
    out.push_str(": { ");
    out.push_str(inner.as_str());
    out.push_str("}\n");
    proof {
        assert(out@ =~= struct_rendering(name@, texts(parts@)));
    }
    out
}

/// The line that `my_fmt` writes for a struct with named fields.
pub fn render_named(name: &str, fields: &Vec<Shown>) -> (r: String)
    ensures
        r@ == struct_rendering(name@, named_parts(fields@)),
{
    let mut parts: Vec<String> = Vec::new();
    let mut i: usize = 0;
    while i < fields.len()
        invariant
            i <= fields.len(),
            parts@.len() == i,
            forall|k: int|
                0 <= k < i ==> parts@[k]@ == field_rendering(fields@[k].label@, fields@[k].value@),
        decreases fields.len() - i,
    {
        let mut part = String::new();
        part.push_str(fields[i].label.as_str());
        part.push_str(": ");
        part.push_str(fields[i].value.as_str());
        part.push_str(", ");
        proof {
            assert(part@ =~= field_rendering(fields@[i as int].label@, fields@[i as int].value@));
        }
        parts.push(part);
        i = i + 1;
    }
    proof {
        assert(texts(parts@) =~= named_parts(fields@));
    }
    enclose(name, &parts)
}

/// The line that `my_fmt` writes for a struct with positional fields.
pub fn render_positional(name: &str, values: &Vec<String>) -> (r: String)
    ensures
        r@ == struct_rendering(name@, positional_parts(texts(values@))),
{
    let mut parts: Vec<String> = Vec::new();
    let mut i: usize = 0;
    while i < values.len()
        invariant
            i <= values.len(),
            parts@.len() == i,
            forall|k: int|
                0 <= k < i ==> parts@[k]@ == field_rendering(decimal(k as nat), values@[k]@),
        decreases values.len() - i,
    {
        let mut part = decimal_text(i);
        part.push_str(": ");
        part.push_str(values[i].as_str());
        part.push_str(", ");
        proof {
            assert(part@ =~= field_rendering(decimal(i as nat), values@[i as int]@));
        }
        parts.push(part);
        i = i + 1;
    }
    proof {
        assert(texts(parts@) =~= positional_parts(texts(values@)));
    }
    enclose(name, &parts)
}

/// The line that `my_fmt` writes for a struct without fields.
pub fn render_unit(name: &str) -> (r: String)
    ensures
        r@ == struct_rendering(name@, seq![unit_rendering()]),
{
    let mut only = String::new();
    only.push_str("(unit struct)");
    let mut parts: Vec<String> = Vec::new();
    parts.push(only);
    proof {
        assert(texts(parts@) =~= seq![unit_rendering()]);
    }
    enclose(name, &parts)
}

/// The line written before a wrapped function runs.
pub open spec fn call_started(name: Seq<char>) -> Seq<char> {
    "Calling function `"@ + name + "`"@
}

/// The line written after a wrapped function has given its value.
pub open spec fn call_finished(name: Seq<char>) -> Seq<char> {
    "Function `"@ + name + "` returned"@
}

/// Writes the line that comes before the call.
pub fn call_started_line(name: &str) -> (r: String)
    ensures
        r@ == call_started(name@),
{
    let mut out = String::new();
    out.push_str("Calling function `");
    out.push_str(name);
    out.push_str("`");
    proof {
        assert(out@ =~= call_started(name@));
    }
    out
}

/// Writes the line that comes after the call.
pub fn call_finished_line(name: &str) -> (r: String)
    ensures
        r@ == call_finished(name@),
{
    let mut out = String::new();
    out.push_str("Function `");
    out.push_str(name);
    out.push_str("` returned");
    proof {
        assert(out@ =~= call_finished(name@));
    }
    out
}

/// The sum of two numbers.
pub fn calculate_sum(a: i32, b: i32) -> (r: i32)
    requires
        i32::MIN <= a + b <= i32::MAX,
    ensures
        r == a + b,
{
    a + b
}

} // verus!
