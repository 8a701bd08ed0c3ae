//! The lines that the logging aspects of the examples print about a call.

use vstd::prelude::*;
use vstd::string::StringExecFns;

use crate::joinpoint::Location;
use crate::text::{decimal, signed_decimal, signed_decimal_string, decimal_string};

verus! {

/// How an argument is shown: an `i32` in decimal, anything else as the quoted
/// text `"<non-debug-arg>"`.
pub open spec fn shown_arg(arg: Option<i32>) -> Seq<char> {
    match arg {
        Some(v) => signed_decimal(v as int),
        None => "\"<non-debug-arg>\""@,
    }
}

/// Shows an argument; `arg` is the argument when it is an `i32`.
pub fn render_arg(arg: Option<i32>) -> (s: String)
    ensures
        s@ == shown_arg(arg),
{
    match arg {
        Some(v) => signed_decimal_string(v),
        None => String::from_str("\"<non-debug-arg>\""),
    }
}

/// The parts joined by `sep`.
pub open spec fn joined(parts: Seq<Seq<char>>, sep: Seq<char>) -> Seq<char>
    decreases parts.len(),
{
    if parts.len() == 0 {
        seq![]
    } else if parts.len() == 1 {
        parts[0]
    } else {
        joined(parts.drop_last(), sep) + sep + parts.last()
    }
}

/// Joins the shown arguments with `, `.
pub fn join_args(parts: &Vec<String>) -> (s: String)
    ensures
        s@ == joined(parts.deep_view(), ", "@),
{
    let mut s = String::new();
    let ghost parts_view = parts.deep_view();
    let mut i: usize = 0;
    while i < parts.len()
        invariant
            i <= parts.len(),
            parts_view == parts.deep_view(),
            s@ == joined(parts_view.take(i as int), ", "@),
        decreases parts.len() - i,
    {
        proof {
            assert(parts_view.take(i + 1).drop_last() =~= parts_view.take(i as int));
        }
        if i != 0 {
            s.append(", ");
        } else {
            assert(s@ + parts_view[0] =~= parts_view[0]);
        }
        s.append(parts[i].as_str());
        i = i + 1;
    }
    assert(parts_view.take(parts.len() as int) =~= parts_view);
    s
}

/// `label function: module,file,line,[args]`, the line printed about a call.
pub open spec fn call_line_text(
    label: Seq<char>,
    function: Seq<char>,
    module: Seq<char>,
    location_file: Seq<char>,
    location_line: u32,
    args: Seq<char>,
) -> Seq<char> {
    label + " "@ + function + ": "@ + module + ","@ + location_file + ","@ + decimal(
        location_line as nat,
    ) + ",["@ + args + "]"@
}

/// Builds the line printed about a call.
pub fn call_line(label: &str, function: &str, module: &str, location: &Location, args: &str) -> (s: String)
    ensures
        s@ == call_line_text(label@, function@, module@, location.file@, location.line, args@),
{
    let mut s = String::from_str(label);
    s.append(" ");
    s.append(function);
    s.append(": ");
    s.append(module);
    s.append(",");
    s.append(location.file);
    s.append(",");
    let line = decimal_string(location.line as u64);
    s.append(line.as_str());
    s.append(",[");
    s.append(args);
    s.append("]");
    s
}

/// How `{:?}` shows an optional `i32`.
pub open spec fn debug_option(v: Option<i32>) -> Seq<char> {
    match v {
        Some(x) => "Some("@ + signed_decimal(x as int) + ")"@,
        None => "None"@,
    }
}

/// Shows an optional `i32` as `{:?}` does.
pub fn render_option(v: Option<i32>) -> (s: String)
    ensures
        s@ == debug_option(v),
{
    match v {
        Some(x) => {
            let mut s = String::from_str("Some(");
            let digits = signed_decimal_string(x);
            s.append(digits.as_str());
            s.append(")");
            s
        },
        None => String::from_str("None"),
    }
}

/// The line printed before `add` runs, showing its two arguments when they are `i32`.
pub fn add_before_line(num1: Option<i32>, num2: Option<i32>) -> (s: String)
    ensures
        s@ == "sync before add args: num1="@ + debug_option(num1) + ", num2="@ + debug_option(num2),
{
    let mut s = String::from_str("sync before add args: num1=");
    let a = render_option(num1);
    s.append(a.as_str());
    s.append(", num2=");
    let b = render_option(num2);
    s.append(b.as_str());
    s
}

/// The line printed after `add` ran, showing its arguments and result when they are `i32`.
pub fn add_after_line(num1: Option<i32>, num2: Option<i32>, result: Option<i32>) -> (s: String)
    ensures
        s@ == "sync after add args: num1="@ + debug_option(num1) + ", num2="@ + debug_option(num2)
            + ", result="@ + debug_option(result),
{
    let mut s = String::from_str("sync after add args: num1=");
    let a = render_option(num1);
    s.append(a.as_str());
    s.append(", num2=");
    let b = render_option(num2);
    s.append(b.as_str());
    s.append(", result=");
    let c = render_option(result);
    s.append(c.as_str());
    s
}

} // verus!
