use vstd::prelude::*;
use crate::error::{Error};
use crate::text::join;
use crate::token::Span;
use crate::value::{Val, Value, Outcome, fits, shown, result_view, at};

verus! {

/// The text of one `print` call: the arguments shown and separated by spaces.
pub open spec fn print_line(vals: Seq<Val>) -> Seq<char>
    decreases vals.len(),
{
    if vals.len() == 0 {
        Seq::empty()
    } else if vals.len() == 1 {
        shown(vals[0])
    } else {
        print_line(vals.drop_last()) + " "@ + shown(vals.last())
    }
}

/// `len` of its arguments: the number of characters of its one string.
pub open spec fn len_result(args: Seq<Val>) -> Outcome {
    if args.len() != 1 {
        Err("len() takes exactly one argument"@)
    } else {
        match args[0] {
            Val::String(s) => if fits(s.len() as int) {
                Ok(Val::Integer(s.len() as i64))
            } else {
                Err("Integer overflow"@)
            },
            _ => Err("len() does not support this value"@),
        }
    }
}

/// The code that `exit` ends the program with: its integer argument, or 0
/// without one.
pub open spec fn exit_code(args: Seq<Val>) -> Result<i64, Seq<char>> {
    if args.len() == 0 {
        Ok(0)
    } else {
        match args[0] {
            Val::Integer(c) => Ok(c),
            _ => Err("exit() may only take an integer as argument"@),
        }
    }
}

pub open spec fn values_view(args: Seq<Value>) -> Seq<Val> {
    args.map_values(|v: Value| v@)
}

/// The line that `print` writes for its arguments; the caller writes it out.
pub fn print(_span: &Span, args: &Vec<Value>) -> (r: String)
    ensures
        r@ == print_line(values_view(args@)),
{
    let ghost vs = values_view(args@);
    let mut line = String::new();
    let mut k: usize = 0;
    while k < args.len()
        invariant
            k <= args@.len(),
            vs == values_view(args@),
            line@ == print_line(vs.take(k as int)),
        decreases args@.len() - k,
    {
        let t = Value::show(&args[k]);
        proof { assert(vs.take(k as int + 1).drop_last() =~= vs.take(k as int)); }
        if k == 0 {
            line = t;
        } else {
            line = join(join(line, " "), t.as_str());
        }
        k = k + 1;
    }
    proof { assert(vs.take(args@.len() as int) =~= vs); }
    line
}

/// The number of characters of a string.
pub fn len(span: &Span, args: &Vec<Value>) -> (r: Result<Value, Error>)
    ensures
        result_view(r) == at(*span, len_result(values_view(args@))),
{
    if args.len() != 1 {
        return Err(Error::runtime_str(span, "len() takes exactly one argument"));
    }
    match &args[0] {
        Value::String(t) => {
            if t.len() as u64 > 9223372036854775807u64 {
                Err(Error::runtime_str(span, "Integer overflow"))
            } else {
                Ok(Value::Integer(t.len() as i64))
            }
        },
        _ => Err(Error::runtime_str(span, "len() does not support this value")),
    }
}

/// The code to end the program with; ending it is left to the caller.
pub fn exit(span: &Span, args: &Vec<Value>) -> (r: Result<i64, Error>)
    ensures
        match (r, exit_code(values_view(args@))) {
            (Ok(c), Ok(d)) => c == d,
            (Err(e), Err(m)) => e@ == crate::error::runtime_failure(*span, m),
            _ => false,
        },
{
    if args.len() == 0 {
        return Ok(0);
    }
    match &args[0] {
        Value::Integer(c) => Ok(*c),
        _ => Err(Error::runtime_str(span, "exit() may only take an integer as argument")),
    }
}

} // verus!
