use vstd::prelude::*;
use std::rc::Rc;
use crate::ast::Ast;
use crate::error::{Error, Failure, runtime_failure};
use crate::text::{decimal, int_text, text_of, join, chars_equal, chars_less, lex_less};
use crate::token::Span;

verus! {

/// The functions that the interpreter provides by name.
#[derive(Clone, Copy, Debug, PartialEq, Eq, Structural)]
pub enum Builtin {
    Print,
    Len,
    Exit,
}

/// A runtime value.
///
/// A function value holds the syntax node that defined it and the index of the
/// scope that it captured.
#[derive(Debug)]
pub enum Value {
    Integer(i64),
    String(Vec<char>),
    Boolean(bool),
    Range(i64, i64),
    Function { node: Rc<Ast>, scope: usize },
    BuiltInFunction(Builtin),
    Nothing,
}

/// The mathematical model of a runtime value.
pub enum Val {
    Integer(i64),
    String(Seq<char>),
    Boolean(bool),
    Range(i64, i64),
    Function { node: Rc<Ast>, scope: nat },
    BuiltInFunction(Builtin),
    Nothing,
}

impl View for Value {
    type V = Val;

    open spec fn view(&self) -> Val {
        match self {
            Value::Integer(i) => Val::Integer(*i),
            Value::String(s) => Val::String(s@),
            Value::Boolean(b) => Val::Boolean(*b),
            Value::Range(a, b) => Val::Range(*a, *b),
            Value::Function { node, scope } => Val::Function { node: *node, scope: *scope as nat },
            Value::BuiltInFunction(b) => Val::BuiltInFunction(*b),
            Value::Nothing => Val::Nothing,
        }
    }
}

/// What an operation on values gives: a value, or the message of its failure.
pub type Outcome = Result<Val, Seq<char>>;

/// An operation's outcome, with a failure placed at `span`.
pub open spec fn at(span: Span, o: Outcome) -> Result<Val, Failure> {
    match o {
        Ok(v) => Ok(v),
        Err(m) => Err(runtime_failure(span, m)),
    }
}

/// The model of an executable result.
pub open spec fn result_view(r: Result<Value, Error>) -> Result<Val, Failure> {
    match r {
        Ok(v) => Ok(v@),
        Err(e) => Err(e@),
    }
}

pub open spec fn fits(n: int) -> bool {
    i64::MIN <= n <= i64::MAX
}

/// An integer result, or an overflow failure when it does not fit in 64 bits.
pub open spec fn checked(n: int) -> Outcome {
    if fits(n) {
        Ok(Val::Integer(n as i64))
    } else {
        Err("Integer overflow"@)
    }
}

/// Integer division rounding toward zero, as the machine's division does.
pub open spec fn trunc_div(a: int, b: int) -> int {
    let q = (if a < 0 { -a } else { a }) / (if b < 0 { -b } else { b });
    if (a < 0) == (b < 0) { q } else { -q }
}

/// `s` repeated `n` times.
pub open spec fn repeat(s: Seq<char>, n: nat) -> Seq<char>
    decreases n,
{
    if n == 0 { Seq::empty() } else { repeat(s, (n - 1) as nat) + s }
}

pub open spec fn plus_spec(a: Val, b: Val) -> Outcome {
    match (a, b) {
        (Val::Integer(x), Val::Integer(y)) => checked(x + y),
        (Val::String(x), Val::String(y)) => Ok(Val::String(x + y)),
        _ => Err("Invalid types for addition"@),
    }
}

pub open spec fn minus_spec(a: Val, b: Val) -> Outcome {
    match (a, b) {
        (Val::Integer(x), Val::Integer(y)) => checked(x - y),
        _ => Err("Invalid types for subtraction"@),
    }
}

pub open spec fn multiply_spec(a: Val, b: Val) -> Outcome {
    match (a, b) {
        (Val::Integer(x), Val::Integer(y)) => checked(x * y),
        (Val::String(x), Val::Integer(y)) => if y < 0 {
            Err(decimal(y as int) + " is not a positive integer."@)
        } else {
            Ok(Val::String(repeat(x, y as nat)))
        },
        _ => Err("Invalid types for multiplication"@),
    }
}

pub open spec fn divide_spec(a: Val, b: Val) -> Outcome {
    match (a, b) {
        (Val::Integer(x), Val::Integer(y)) => if y == 0 {
            Err("Division by zero"@)
        } else {
            checked(trunc_div(x as int, y as int))
        },
        _ => Err("Invalid types for division"@),
    }
}

pub open spec fn not_spec(a: Val) -> Outcome {
    match a {
        Val::Boolean(b) => Ok(Val::Boolean(!b)),
        _ => Err("Invalid type for not"@),
    }
}

pub open spec fn and_spec(a: Val, b: Val) -> Outcome {
    match (a, b) {
        (Val::Boolean(x), Val::Boolean(y)) => Ok(Val::Boolean(x && y)),
        _ => Err("Invalid types for and"@),
    }
}

pub open spec fn or_spec(a: Val, b: Val) -> Outcome {
    match (a, b) {
        (Val::Boolean(x), Val::Boolean(y)) => Ok(Val::Boolean(x || y)),
        _ => Err("Invalid types for or"@),
    }
}

/// Equality of values: integers, strings and booleans compare by content; any
/// other pair is unequal.
pub open spec fn equal_values(a: Val, b: Val) -> bool {
    match (a, b) {
        (Val::Integer(x), Val::Integer(y)) => x == y,
        (Val::String(x), Val::String(y)) => x == y,
        (Val::Boolean(x), Val::Boolean(y)) => x == y,
        _ => false,
    }
}

pub open spec fn less_than_spec(a: Val, b: Val) -> Outcome {
    match (a, b) {
        (Val::Integer(x), Val::Integer(y)) => Ok(Val::Boolean(x < y)),
        (Val::String(x), Val::String(y)) => Ok(Val::Boolean(lex_less(x, y))),
        _ => Err("Invalid types for less than"@),
    }
}

pub open spec fn less_equals_spec(a: Val, b: Val) -> Outcome {
    match (a, b) {
        (Val::Integer(x), Val::Integer(y)) => Ok(Val::Boolean(x <= y)),
        (Val::String(x), Val::String(y)) => Ok(Val::Boolean(lex_less(x, y) || x == y)),
        _ => Err("Invalid types for less than"@),
    }
}

pub open spec fn range_spec(a: Val, b: Val) -> Outcome {
    match (a, b) {
        (Val::Integer(x), Val::Integer(y)) => Ok(Val::Range(x, y)),
        _ => Err("Must be integers for range"@),
    }
}

pub open spec fn index_spec(a: Val, b: Val) -> Outcome {
    match (a, b) {
        (Val::String(s), Val::Integer(i)) => if 0 <= i < s.len() {
            Ok(Val::String(seq![s[i as int]]))
        } else {
            Err("Index out of bounds"@)
        },
        _ => Err("Can only index a string with an integer"@),
    }
}

/// The characters at `i`, `i + step`, ... while below `end`; `None` when one of
/// those positions lies outside `s`.
pub open spec fn slice_walk(s: Seq<char>, i: int, end: int, step: int) -> Option<Seq<char>>
    decreases (if step > 0 && i < end { end - i } else { 0 }),
{
    if i >= end || step <= 0 {
        Some(Seq::empty())
    } else if i < 0 || i >= s.len() {
        None
    } else {
        match slice_walk(s, i + step, end, step) {
            Some(rest) => Some(seq![s[i]] + rest),
            None => None,
        }
    }
}

/// Slicing a string: positions from `start` while below `end`, by `step`.
/// Missing bounds default to 0, the length and 1.
pub open spec fn slice_spec(a: Val, start: Option<Val>, end: Option<Val>, step: Option<Val>) -> Outcome {
    match a {
        Val::String(s) => {
            let st = match start { Some(v) => v, None => Val::Integer(0) };
            let en = match end { Some(v) => v, None => Val::Integer(s.len() as i64) };
            let sp = match step { Some(v) => v, None => Val::Integer(1) };
            match (st, en, sp) {
                (Val::Integer(b), Val::Integer(e), Val::Integer(k)) => if k == 0 {
                    Err("Step cannot be 0"@)
                } else if k < 0 && b < e {
                    Err("Step must be positive to reach the end"@)
                } else {
                    match slice_walk(s, b as int, e as int, k as int) {
                        Some(r) => Ok(Val::String(r)),
                        None => Err("Index out of bounds"@),
                    }
                },
                _ => Err("Invalid types for slice"@),
            }
        },
        _ => Err("Can only slice strings"@),
    }
}

/// The name that a function value shows.
pub open spec fn function_name(node: Ast) -> Seq<char> {
    match node {
        Ast::Function { name: Some(n), .. } => n@,
        _ => "<anon>"@,
    }
}

pub open spec fn builtin_name(b: Builtin) -> Seq<char> {
    match b {
        Builtin::Print => "print"@,
        Builtin::Len => "len"@,
        Builtin::Exit => "exit"@,
    }
}

/// The text that `print` writes for a value.
pub open spec fn shown(v: Val) -> Seq<char> {
    match v {
        Val::Integer(i) => decimal(i as int),
        Val::String(s) => s,
        Val::Boolean(b) => if b { "true"@ } else { "false"@ },
        Val::Range(a, b) => decimal(a as int) + ".."@ + decimal(b as int),
        Val::Function { node, .. } => "<function "@ + function_name(*node) + ">"@,
        Val::BuiltInFunction(b) => "<built-in function "@ + builtin_name(b) + ">"@,
        Val::Nothing => "nothing"@,
    }
}

/// The text that shows a value back to the user: as `shown`, but with a string
/// in double quotes.
pub open spec fn repr_text(v: Val) -> Seq<char> {
    match v {
        Val::String(s) => "\""@ + s + "\""@,
        _ => shown(v),
    }
}

impl Value {
    /// A copy of this value.
    pub fn duplicate(&self) -> (r: Value)
        ensures
            r@ == self@,
    {
        match self {
            Value::Integer(i) => Value::Integer(*i),
            Value::String(s) => Value::String(s.clone()),
            Value::Boolean(b) => Value::Boolean(*b),
            Value::Range(a, b) => Value::Range(*a, *b),
            Value::Function { node, scope } => Value::Function { node: node.clone(), scope: *scope },
            Value::BuiltInFunction(b) => Value::BuiltInFunction(*b),
            Value::Nothing => Value::Nothing,
        }
    }

    pub fn plus(left: &Value, right: &Value, span: &Span) -> (r: Result<Value, Error>)
        ensures
            result_view(r) == at(*span, plus_spec(left@, right@)),
    {
        match (left, right) {
            (Value::Integer(x), Value::Integer(y)) => match x.checked_add(*y) {
                Some(z) => Ok(Value::Integer(z)),
                None => Err(Error::runtime_str(span, "Integer overflow")),
            },
            (Value::String(x), Value::String(y)) => {
                let mut z = x.clone();
                let mut w = y.clone();
                z.append(&mut w);
                Ok(Value::String(z))
            },
            _ => Err(Error::runtime_str(span, "Invalid types for addition")),
        }
    }

    pub fn minus(left: &Value, right: &Value, span: &Span) -> (r: Result<Value, Error>)
        ensures
            result_view(r) == at(*span, minus_spec(left@, right@)),
    {
        match (left, right) {
            (Value::Integer(x), Value::Integer(y)) => match x.checked_sub(*y) {
                Some(z) => Ok(Value::Integer(z)),
                None => Err(Error::runtime_str(span, "Integer overflow")),
            },
            _ => Err(Error::runtime_str(span, "Invalid types for subtraction")),
        }
    }

    pub fn multiply(left: &Value, right: &Value, span: &Span) -> (r: Result<Value, Error>)
        ensures
            result_view(r) == at(*span, multiply_spec(left@, right@)),
    {
        match (left, right) {
            (Value::Integer(x), Value::Integer(y)) => match x.checked_mul(*y) {
                Some(z) => Ok(Value::Integer(z)),
                None => Err(Error::runtime_str(span, "Integer overflow")),
            },
            (Value::String(x), Value::Integer(y)) => {
                if *y < 0 {
                    let m = join(int_text(*y), " is not a positive integer.");
                    return Err(Error::runtime(span, m));
                }
                Ok(Value::String(repeat_chars(x, *y as u64)))
            },
            _ => Err(Error::runtime_str(span, "Invalid types for multiplication")),
        }
    }

    pub fn divide(left: &Value, right: &Value, span: &Span) -> (r: Result<Value, Error>)
        ensures
            result_view(r) == at(*span, divide_spec(left@, right@)),
    {
        match (left, right) {
            (Value::Integer(x), Value::Integer(y)) => {
                if *y == 0 {
                    Err(Error::runtime_str(span, "Division by zero"))
                } else if *x == i64::MIN && *y == -1 {
                    Err(Error::runtime_str(span, "Integer overflow"))
                } else {
                    Ok(Value::Integer(truncating_division(*x, *y)))
                }
            },
            _ => Err(Error::runtime_str(span, "Invalid types for division")),
        }
    }

    pub fn slice(
        lhs: &Value,
        start: Option<&Value>,
        end: Option<&Value>,
        step: Option<&Value>,
        span: &Span,
    ) -> (r: Result<Value, Error>)
        ensures
            result_view(r) == at(
                *span,
                slice_spec(lhs@, opt_view(start), opt_view(end), opt_view(step)),
            ),
    {
        let s = match lhs {
            Value::String(s) => s,
            _ => { return Err(Error::runtime_str(span, "Can only slice strings")); },
        };
        let b: i64 = match start {
            None => 0,
            Some(Value::Integer(b)) => *b,
            Some(_) => { return Err(Error::runtime_str(span, "Invalid types for slice")); },
        };
        let e: i64 = match end {
            None => s.len() as i64,
            Some(Value::Integer(e)) => *e,
            Some(_) => { return Err(Error::runtime_str(span, "Invalid types for slice")); },
        };
        let k: i64 = match step {
            None => 1,
            Some(Value::Integer(k)) => *k,
            Some(_) => { return Err(Error::runtime_str(span, "Invalid types for slice")); },
        };
        if k == 0 {
            return Err(Error::runtime_str(span, "Step cannot be 0"));
        }
        if k < 0 && b < e {
            return Err(Error::runtime_str(span, "Step must be positive to reach the end"));
        }
        match walk_chars(s, b, e, k) {
            Some(r) => Ok(Value::String(r)),
            None => Err(Error::runtime_str(span, "Index out of bounds")),
        }
    }

    pub fn not(val: &Value, span: &Span) -> (r: Result<Value, Error>)
        ensures
            result_view(r) == at(*span, not_spec(val@)),
    {
        match val {
            Value::Boolean(b) => Ok(Value::Boolean(!*b)),
            _ => Err(Error::runtime_str(span, "Invalid type for not")),
        }
    }

    pub fn and(left: &Value, right: &Value, span: &Span) -> (r: Result<Value, Error>)
        ensures
            result_view(r) == at(*span, and_spec(left@, right@)),
    {
        match (left, right) {
            (Value::Boolean(x), Value::Boolean(y)) => Ok(Value::Boolean(*x && *y)),
            _ => Err(Error::runtime_str(span, "Invalid types for and")),
        }
    }

    pub fn or(left: &Value, right: &Value, span: &Span) -> (r: Result<Value, Error>)
        ensures
            result_view(r) == at(*span, or_spec(left@, right@)),
    {
        match (left, right) {
            (Value::Boolean(x), Value::Boolean(y)) => Ok(Value::Boolean(*x || *y)),
            _ => Err(Error::runtime_str(span, "Invalid types for or")),
        }
    }

    /// Equality never fails: values of different kinds are unequal.
    pub fn equals(left: &Value, right: &Value, _span: &Span) -> (r: Result<Value, Error>)
        ensures
            result_view(r) == Ok::<Val, Failure>(Val::Boolean(equal_values(left@, right@))),
    {
        let b = match (left, right) {
            (Value::Integer(x), Value::Integer(y)) => *x == *y,
            (Value::String(x), Value::String(y)) => chars_equal(x, y),
            (Value::Boolean(x), Value::Boolean(y)) => *x == *y,
            _ => false,
        };
        Ok(Value::Boolean(b))
    }

    /// The negation of `equals`.
    pub fn not_equals(left: &Value, right: &Value, span: &Span) -> (r: Result<Value, Error>)
        ensures
            result_view(r) == Ok::<Val, Failure>(Val::Boolean(!equal_values(left@, right@))),
    {
        let eq = Value::equals(left, right, span)?;
        Value::not(&eq, span)
    }

    pub fn less_than(left: &Value, right: &Value, span: &Span) -> (r: Result<Value, Error>)
        ensures
            result_view(r) == at(*span, less_than_spec(left@, right@)),
    {
        match (left, right) {
            (Value::Integer(x), Value::Integer(y)) => Ok(Value::Boolean(*x < *y)),
            (Value::String(x), Value::String(y)) => Ok(Value::Boolean(chars_less(x, y))),
            _ => Err(Error::runtime_str(span, "Invalid types for less than")),
        }
    }

    /// `left > right`, computed as `right < left`.
    pub fn greater_than(left: &Value, right: &Value, span: &Span) -> (r: Result<Value, Error>)
        ensures
            result_view(r) == at(*span, less_than_spec(right@, left@)),
    {
        Value::less_than(right, left, span)
    }

    pub fn less_equals(left: &Value, right: &Value, span: &Span) -> (r: Result<Value, Error>)
        ensures
            result_view(r) == at(*span, less_equals_spec(left@, right@)),
    {
        match (left, right) {
            (Value::Integer(x), Value::Integer(y)) => Ok(Value::Boolean(*x <= *y)),
            (Value::String(x), Value::String(y)) => {
                let lt = chars_less(x, y);
                let eq = chars_equal(x, y);
                Ok(Value::Boolean(lt || eq))
            },
            _ => Err(Error::runtime_str(span, "Invalid types for less than")),
        }
    }

    /// `left >= right`, computed as `right <= left`.
    pub fn greater_equals(left: &Value, right: &Value, span: &Span) -> (r: Result<Value, Error>)
        ensures
            result_view(r) == at(*span, less_equals_spec(right@, left@)),
    {
        Value::less_equals(right, left, span)
    }

    /// The iterator over a string's characters or a range's integers.
    pub fn iterator(value: &Value, span: &Span) -> (r: Result<IteratorValue, Error>)
        ensures
            r is Ok ==> r->Ok_0.wf(),
            match (value@, r) {
                (Val::String(s), Ok(it)) => it.remaining() == chars_seq(s),
                (Val::Range(a, b), Ok(it)) => it.remaining() == ints_seq(a as int, b as int),
                (_, Err(e)) => !(value@ is String || value@ is Range)
                    && e@ == runtime_failure(*span, "Cannot iterate over this type"@),
                _ => false,
            },
    {
        match value {
            Value::String(s) => Ok(IteratorValue::for_string(s)),
            Value::Range(a, b) => Ok(IteratorValue::for_range(a, b)),
            _ => Err(Error::runtime_str(span, "Cannot iterate over this type")),
        }
    }

    /// The text that shows a value back to the user.
    pub fn repr(value: &Value) -> (r: String)
        ensures
            r@ == repr_text(value@),
    {
        match value {
            Value::String(s) => {
                let t = join(String::from_str("\""), text_of(s).as_str());
                join(t, "\"")
            },
            _ => Value::show(value),
        }
    }

    /// The text that `print` writes for a value.
    pub fn show(value: &Value) -> (r: String)
        ensures
            r@ == shown(value@),
    {
        match value {
            Value::Integer(i) => int_text(*i),
            Value::String(s) => text_of(s),
            Value::Boolean(b) => if *b { String::from_str("true") } else { String::from_str("false") },
            Value::Range(a, b) => {
                let t = join(int_text(*a), "..");
                join(t, int_text(*b).as_str())
            },
            Value::Function { node, .. } => {
                let name = match &**node {
                    Ast::Function { name: Some(n), .. } => n.clone(),
                    _ => String::from_str("<anon>"),
                };
                let t = join(String::from_str("<function "), name.as_str());
                join(t, ">")
            },
            Value::BuiltInFunction(b) => {
                let name = match b {
                    Builtin::Print => "print",
                    Builtin::Len => "len",
                    Builtin::Exit => "exit",
                };
                let t = join(String::from_str("<built-in function "), name);
                join(t, ">")
            },
            Value::Nothing => String::from_str("nothing"),
        }
    }

    pub fn create_range(start: &Value, end: &Value, span: &Span) -> (r: Result<Value, Error>)
        ensures
            result_view(r) == at(*span, range_spec(start@, end@)),
    {
        match (start, end) {
            (Value::Integer(a), Value::Integer(b)) => Ok(Value::Range(*a, *b)),
            _ => Err(Error::runtime_str(span, "Must be integers for range")),
        }
    }

    pub fn index(value: &Value, index: &Value, span: &Span) -> (r: Result<Value, Error>)
        ensures
            result_view(r) == at(*span, index_spec(value@, index@)),
    {
        match (value, index) {
            (Value::String(s), Value::Integer(i)) => {
                if 0 <= *i && (*i as u64) < (s.len() as u64) {
                    let c = s[*i as usize];
                    let mut r: Vec<char> = Vec::new();
                    r.push(c);
                    proof { assert(r@ =~= seq![s@[*i as int]]); }
                    Ok(Value::String(r))
                } else {
                    Err(Error::runtime_str(span, "Index out of bounds"))
                }
            },
            _ => Err(Error::runtime_str(span, "Can only index a string with an integer")),
        }
    }
}

pub open spec fn opt_view(v: Option<&Value>) -> Option<Val> {
    match v {
        Some(x) => Some(x@),
        None => None,
    }
}

/// The quotient of `x` by `y`, rounded toward zero.
fn truncating_division(x: i64, y: i64) -> (r: i64)
    requires
        y != 0,
        !(x == i64::MIN && y == -1),
    ensures
        r as int == trunc_div(x as int, y as int),
        fits(trunc_div(x as int, y as int)),
        r == trunc_div(x as int, y as int) as i64,
{
    let ax: u64 = if x < 0 { (0 - (x as i128)) as u64 } else { x as u64 };
    let ay: u64 = if y < 0 { (0 - (y as i128)) as u64 } else { y as u64 };
    let q: u64 = ax / ay;
    assert(q <= ax) by (nonlinear_arith)
        requires
            ay >= 1,
            q == ax / ay,
    ;
    assert(ay == 1 ==> q == ax) by (nonlinear_arith)
        requires
            q == ax / ay,
    ;
    assert(ay >= 2 ==> q * 2 <= ax) by (nonlinear_arith)
        requires
            q == ax / ay,
            ay >= 1,
    ;
    assert(ax as int == (if x < 0 { -(x as int) } else { x as int }));
    assert(ay as int == (if y < 0 { -(y as int) } else { y as int }));
    if (x < 0) == (y < 0) {
        q as i64
    } else {
        (0 - (q as i128)) as i64
    }
}

proof fn lemma_repeat_empty(s: Seq<char>, n: nat)
    requires
        s.len() == 0,
    ensures
        repeat(s, n) =~= Seq::<char>::empty(),
    decreases n,
{
    if n > 0 {
        lemma_repeat_empty(s, (n - 1) as nat);
    }
}

fn repeat_chars(s: &Vec<char>, n: u64) -> (r: Vec<char>)
    ensures
        r@ == repeat(s@, n as nat),
{
    let mut r: Vec<char> = Vec::new();
    if s.len() == 0 {
        proof { lemma_repeat_empty(s@, n as nat); }
        return r;
    }
    let mut k: u64 = 0;
    while k < n
        invariant
            k <= n,
            r@ == repeat(s@, k as nat),
        decreases n - k,
    {
        let mut j: usize = 0;
        let ghost before = r@;
        while j < s.len()
            invariant
                j <= s@.len(),
                r@ == before + s@.take(j as int),
            decreases s@.len() - j,
        {
            r.push(s[j]);
            proof { assert(s@.take(j as int + 1) =~= s@.take(j as int).push(s@[j as int])); }
            j = j + 1;
        }
        proof { assert(s@.take(s@.len() as int) =~= s@); }
        k = k + 1;
    }
    r
}

fn walk_chars(s: &Vec<char>, start: i64, end: i64, step: i64) -> (r: Option<Vec<char>>)
    requires
        step != 0,
        !(step < 0 && start < end),
    ensures
        match (r, slice_walk(s@, start as int, end as int, step as int)) {
            (Some(v), Some(w)) => v@ == w,
            (None, None) => true,
            _ => false,
        },
{
    let mut r: Vec<char> = Vec::new();
    if start >= end {
        return Some(r);
    }
    let mut i: i64 = start;
    loop
        invariant
            step > 0,
            i < end,
            slice_walk(s@, start as int, end as int, step as int) == match slice_walk(
                s@,
                i as int,
                end as int,
                step as int,
            ) {
                Some(rest) => Some(r@ + rest),
                None => None::<Seq<char>>,
            },
        decreases end - i,
    {
        if i < 0 || (i as u64) >= (s.len() as u64) {
            return None;
        }
        let c = s[i as usize];
        let ghost old_r = r@;
        r.push(c);
        proof {
            assert forall|rest: Seq<char>| old_r + (seq![c] + rest) == r@ + rest by {
                assert(old_r + (seq![c] + rest) =~= r@ + rest);
            }
        }
        if end - i <= step {
            proof {
                assert(slice_walk(s@, i + step, end as int, step as int) == Some(Seq::<char>::empty()));
                assert(r@ + Seq::<char>::empty() =~= r@);
            }
            return Some(r);
        }
        i = i + step;
    }
}

/// The integers from `a` up to, and not including, `b`.
pub open spec fn ints_seq(a: int, b: int) -> Seq<Val> {
    Seq::new(if a < b { (b - a) as nat } else { 0 }, |k: int| Val::Integer((a + k) as i64))
}

/// The one-character strings of `s`, in order.
pub open spec fn chars_seq(s: Seq<char>) -> Seq<Val> {
    Seq::new(s.len(), |k: int| Val::String(seq![s[k]]))
}

/// A single-pass iterator over the characters of a string or the integers of a
/// range.
#[derive(Debug)]
pub enum IteratorValue {
    Chars { chars: Vec<char>, index: usize },
    Numbers { next: i64, end: i64 },
}

impl IteratorValue {
    /// The values that this iterator has still to give, in order.
    pub open spec fn remaining(&self) -> Seq<Val> {
        match self {
            IteratorValue::Chars { chars, index } => chars_seq(chars@).skip(*index as int),
            IteratorValue::Numbers { next, end } => ints_seq(*next as int, *end as int),
        }
    }

    pub open spec fn wf(&self) -> bool {
        match self {
            IteratorValue::Chars { chars, index } => *index <= chars@.len(),
            IteratorValue::Numbers { .. } => true,
        }
    }

    pub fn for_string(string: &Vec<char>) -> (r: IteratorValue)
        ensures
            r.wf(),
            r.remaining() == chars_seq(string@),
    {
        let r = IteratorValue::Chars { chars: string.clone(), index: 0 };
        proof { assert(chars_seq(string@).skip(0) =~= chars_seq(string@)); }
        r
    }

    pub fn for_range(start: &i64, end: &i64) -> (r: IteratorValue)
        ensures
            r.wf(),
            r.remaining() == ints_seq(*start as int, *end as int),
    {
        IteratorValue::Numbers { next: *start, end: *end }
    }

    /// The next value, or `None` once all have been given.
    pub fn next(&mut self) -> (r: Option<Value>)
        requires
            old(self).wf(),
        ensures
            final(self).wf(),
            old(self).remaining().len() == 0 ==> r is None && final(self).remaining() == old(
                self,
            ).remaining(),
            old(self).remaining().len() > 0 ==> r is Some && r->0@ == old(self).remaining()[0]
                && final(self).remaining() == old(self).remaining().drop_first(),
    {
        match self {
            IteratorValue::Chars { chars, index } => {
                if *index >= chars.len() {
                    None
                } else {
                    let c = chars[*index];
                    let mut v: Vec<char> = Vec::new();
                    v.push(c);
                    *index = *index + 1;
                    proof {
                        assert(v@ =~= seq![c]);
                        assert(chars_seq(chars@).skip(*index as int) =~= chars_seq(chars@).skip(
                            *index as int - 1,
                        ).drop_first());
                    }
                    Some(Value::String(v))
                }
            },
            IteratorValue::Numbers { next, end } => {
                if *next >= *end {
                    None
                } else {
                    let v = *next;
                    *next = *next + 1;
                    proof {
                        assert(ints_seq(*next as int, *end as int) =~= ints_seq(
                            v as int,
                            *end as int,
                        ).drop_first());
                    }
                    Some(Value::Integer(v))
                }
            },
        }
    }
}

} // verus!
