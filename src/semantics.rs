use vstd::prelude::*;
use std::rc::Rc;
use crate::ast::{Ast, BinaryOp};
use crate::error::{Failure, runtime_failure};
use crate::text::decimal;
use crate::builtin::{print_line, len_result, exit_code};
use crate::value::{Val, Builtin, Outcome, chars_seq, ints_seq, plus_spec, minus_spec, multiply_spec, divide_spec, and_spec, or_spec, equal_values, less_than_spec, less_equals_spec, not_spec, range_spec, index_spec, slice_spec};

verus! {

/// The model of a scope: its bindings in order of creation, the index of its
/// parent scope, and whether it lies within a function body.
pub struct ScopeView {
    pub vars: Seq<(Seq<char>, Val)>,
    pub parent: Option<usize>,
    pub in_function: bool,
}

/// The model of the interpreter: every scope created so far, addressed by
/// index, and the lines that `print` has written.
pub struct State {
    pub scopes: Seq<ScopeView>,
    pub output: Seq<Seq<char>>,
}

/// How evaluating a node ended: with a value, or with a pending `break`,
/// `continue`, `return` or `exit`.
pub enum FlowView {
    Normal(Val),
    Break,
    Continue,
    Return(Val),
    Exit(i64),
}

pub type Res = Result<FlowView, Failure>;

/// The first position at or after `i` of a binding of `name`, or -1.
pub open spec fn find_from(vars: Seq<(Seq<char>, Val)>, name: Seq<char>, i: int) -> int
    decreases vars.len() - i,
{
    if i < 0 || i >= vars.len() {
        -1
    } else if vars[i].0 == name {
        i
    } else {
        find_from(vars, name, i + 1)
    }
}

pub open spec fn find_var(vars: Seq<(Seq<char>, Val)>, name: Seq<char>) -> int {
    find_from(vars, name, 0)
}

/// The scope, and the position in it, of the binding that `name` refers to
/// from scope `s`: the nearest scope along the parent chain that binds it.
pub open spec fn owner(st: State, s: usize, name: Seq<char>) -> Option<(usize, int)>
    decreases s,
{
    if s >= st.scopes.len() {
        None
    } else {
        let i = find_var(st.scopes[s as int].vars, name);
        if i >= 0 {
            Some((s, i))
        } else {
            match st.scopes[s as int].parent {
                Some(p) => if p < s { owner(st, p, name) } else { None },
                None => None,
            }
        }
    }
}

/// The value that `name` refers to from scope `s`.
pub open spec fn lookup(st: State, s: usize, name: Seq<char>) -> Option<Val> {
    match owner(st, s, name) {
        Some((t, i)) => Some(st.scopes[t as int].vars[i].1),
        None => None,
    }
}

pub open spec fn set_var(st: State, t: usize, i: int, v: Val) -> State {
    let sc = st.scopes[t as int];
    let vars = sc.vars.update(i, (sc.vars[i].0, v));
    State { scopes: st.scopes.update(t as int, ScopeView { vars, ..sc }), ..st }
}

/// Binding `name` in scope `s` itself: the binding there is overwritten, or a
/// new one is added.
pub open spec fn declare(st: State, s: usize, name: Seq<char>, v: Val) -> State {
    if s >= st.scopes.len() {
        st
    } else {
        let i = find_var(st.scopes[s as int].vars, name);
        if i >= 0 {
            set_var(st, s, i, v)
        } else {
            let sc = st.scopes[s as int];
            State {
                scopes: st.scopes.update(s as int, ScopeView { vars: sc.vars.push((name, v)), ..sc }),
                ..st
            }
        }
    }
}

/// Rebinding an existing variable where it is bound; `None` when no scope
/// along the chain binds it.
pub open spec fn assign(st: State, s: usize, name: Seq<char>, v: Val) -> Option<State> {
    match owner(st, s, name) {
        Some((t, i)) => Some(set_var(st, t, i, v)),
        None => None,
    }
}

/// A new empty scope at the end of the arena.
pub open spec fn push_scope(st: State, parent: Option<usize>, in_function: bool) -> State {
    State {
        scopes: st.scopes.push(ScopeView { vars: Seq::empty(), parent, in_function }),
        ..st
    }
}

pub open spec fn in_function(st: State, s: usize) -> bool {
    s < st.scopes.len() && st.scopes[s as int].in_function
}

/// The built-in function that a name stands for.
pub open spec fn builtin_named(name: Seq<char>) -> Option<Builtin> {
    if name == "print"@ {
        Some(Builtin::Print)
    } else if name == "len"@ {
        Some(Builtin::Len)
    } else if name == "exit"@ {
        Some(Builtin::Exit)
    } else {
        None
    }
}

pub open spec fn binary_spec(op: BinaryOp, a: Val, b: Val) -> Outcome {
    match op {
        BinaryOp::Plus => plus_spec(a, b),
        BinaryOp::Minus => minus_spec(a, b),
        BinaryOp::Multiply => multiply_spec(a, b),
        BinaryOp::Divide => divide_spec(a, b),
        BinaryOp::And => and_spec(a, b),
        BinaryOp::Or => or_spec(a, b),
        BinaryOp::Equals => Ok(Val::Boolean(equal_values(a, b))),
        BinaryOp::NotEquals => Ok(Val::Boolean(!equal_values(a, b))),
        BinaryOp::LessThan => less_than_spec(a, b),
        BinaryOp::GreaterThan => less_than_spec(b, a),
        BinaryOp::LessEquals => less_equals_spec(a, b),
        BinaryOp::GreaterEquals => less_equals_spec(b, a),
    }
}

/// An operation's outcome as the result of a node at `span`.
pub open spec fn lift(span: crate::token::Span, o: Outcome) -> Res {
    match o {
        Ok(v) => Ok(FlowView::Normal(v)),
        Err(m) => Err(runtime_failure(span, m)),
    }
}

/// What a built-in function does with its arguments.
pub open spec fn call_builtin(st: State, b: Builtin, args: Seq<Val>, span: crate::token::Span) -> (State, Res) {
    match b {
        Builtin::Print => (
            State { output: st.output.push(print_line(args)), ..st },
            Ok(FlowView::Normal(Val::Nothing)),
        ),
        Builtin::Len => (st, lift(span, len_result(args))),
        Builtin::Exit => match exit_code(args) {
            Ok(c) => (st, Ok(FlowView::Exit(c))),
            Err(m) => (st, Err(runtime_failure(span, m))),
        },
    }
}

/// Binds `params[k..]` to `args[k..]` in scope `s`.
pub open spec fn bind_params(st: State, s: usize, params: Seq<String>, args: Seq<Val>, k: int) -> State
    decreases params.len() - k,
{
    if k < 0 || k >= params.len() || k >= args.len() {
        st
    } else {
        bind_params(declare(st, s, params[k]@, args[k]), s, params, args, k + 1)
    }
}

/// What a call returns once the body has run: the value of a pending
/// `return`, else nothing.
pub open spec fn call_result(r: Res, span: crate::token::Span) -> Res {
    match r {
        Ok(FlowView::Return(v)) => Ok(FlowView::Normal(v)),
        Ok(FlowView::Normal(_)) => Ok(FlowView::Normal(Val::Nothing)),
        Ok(FlowView::Break) => Err(runtime_failure(span, "`break` or `continue` outside of a loop"@)),
        Ok(FlowView::Continue) => Err(runtime_failure(span, "`break` or `continue` outside of a loop"@)),
        other => other,
    }
}

pub open spec fn step_limit(span: crate::token::Span) -> Res {
    Err(runtime_failure(span, "Evaluation step limit reached"@))
}

/// Evaluates `ast` in scope `s`. Every node uses one unit of `fuel`, and so
/// does every round of a `while` loop; the evaluation fails when none is left.
pub open spec fn eval(st: State, ast: Rc<Ast>, s: usize, fuel: nat) -> (State, Res)
    decreases fuel, 0nat, 0nat,
{
    if fuel == 0 {
        (st, step_limit(ast.span_of()))
    } else {
        let f = (fuel - 1) as nat;
        match *ast {
            Ast::BooleanLiteral(_, b) => (st, Ok(FlowView::Normal(Val::Boolean(b)))),
            Ast::IntegerLiteral(_, i) => (st, Ok(FlowView::Normal(Val::Integer(i)))),
            Ast::StringLiteral(_, t) => (st, Ok(FlowView::Normal(Val::String(t@)))),
            Ast::Nothing(_) => (st, Ok(FlowView::Normal(Val::Nothing))),
            Ast::Binary(span, op, l, r) => eval_binary(st, span, op, l, r, s, f),
            Ast::Not(span, e) => eval_not(st, span, e, s, f),
            Ast::Call(span, callee, args) => eval_call(st, span, callee, args@, s, f),
            Ast::Function { name, .. } => {
                let v = Val::Function { node: ast, scope: s as nat };
                match name {
                    Some(n) => (declare(st, s, n@, v), Ok(FlowView::Normal(v))),
                    None => (st, Ok(FlowView::Normal(v))),
                }
            },
            Ast::Slice { span, lhs, start, end, step } => eval_slice(st, span, lhs, start, end, step, s, f),
            Ast::Block(_, stmts) => {
                let st1 = push_scope(st, Some(s), in_function(st, s));
                eval_seq(st1, stmts@, 0, (st.scopes.len()) as usize, f, Val::Nothing)
            },
            Ast::Variable(span, name) => match builtin_named(name@) {
                Some(b) => (st, Ok(FlowView::Normal(Val::BuiltInFunction(b)))),
                None => match lookup(st, s, name@) {
                    Some(v) => (st, Ok(FlowView::Normal(v))),
                    None => (st, Err(runtime_failure(span, "Variable "@ + name@ + " not found"@))),
                },
            },
            Ast::Return(span, e) => if !in_function(st, s) {
                (st, Err(runtime_failure(span, "Return statement outside of function"@)))
            } else {
                let (st1, r) = eval(st, e, s, f);
                match r {
                    Ok(FlowView::Normal(v)) => (st1, Ok(FlowView::Return(v))),
                    other => (st1, other),
                }
            },
            Ast::Assignment(span, lhs, rhs) => eval_assignment(st, span, lhs, rhs, s, f),
            Ast::VarDeclaration(span, name, e) => match builtin_named(name@) {
                Some(_) => (st, Err(runtime_failure(
                    span,
                    "`"@ + name@ + "` is a built-in function, can't be used as a variable"@,
                ))),
                None => {
                    let (st1, r) = eval(st, e, s, f);
                    match r {
                        Ok(FlowView::Normal(v)) => (declare(st1, s, name@, v), Ok(FlowView::Normal(v))),
                        other => (st1, other),
                    }
                },
            },
            Ast::Assert(span, c) => {
                let (st1, r) = eval(st, c, s, f);
                match r {
                    Ok(FlowView::Normal(Val::Boolean(true))) => (st1, Ok(FlowView::Normal(Val::Nothing))),
                    Ok(FlowView::Normal(Val::Boolean(false))) => (st1, Err(runtime_failure(span, "Assertion failed"@))),
                    Ok(FlowView::Normal(_)) => (st1, Err(runtime_failure(span, "Assertion condition must be a boolean"@))),
                    other => (st1, other),
                }
            },
            Ast::If(span, c, body, else_body) => {
                let (st1, r) = eval(st, c, s, f);
                match r {
                    Ok(FlowView::Normal(Val::Boolean(true))) => eval(st1, body, s, f),
                    Ok(FlowView::Normal(Val::Boolean(false))) => match else_body {
                        Some(e) => eval(st1, e, s, f),
                        None => (st1, Ok(FlowView::Normal(Val::Nothing))),
                    },
                    Ok(FlowView::Normal(_)) => (st1, Err(runtime_failure(span, "If condition must be a boolean"@))),
                    other => (st1, other),
                }
            },
            Ast::While(span, c, body) => eval_while(st, span, c, body, s, f),
            Ast::For(span, var, source, body) => eval_for_stmt(st, span, var, source, body, s, f),
            Ast::Range(span, a, b) => eval_pair(st, span, a, b, s, f, 0),
            Ast::Index(span, a, b) => eval_pair(st, span, a, b, s, f, 1),
            Ast::Break(_) => (st, Ok(FlowView::Break)),
            Ast::Continue(_) => (st, Ok(FlowView::Continue)),
        }
    }
}

pub open spec fn eval_binary(
    st: State,
    span: crate::token::Span,
    op: BinaryOp,
    l: Rc<Ast>,
    r: Rc<Ast>,
    s: usize,
    f: nat,
) -> (State, Res)
    decreases f, 1nat, 0nat,
{
    let (st1, r1) = eval(st, l, s, f);
    match r1 {
        Ok(FlowView::Normal(a)) => {
            let (st2, r2) = eval(st1, r, s, f);
            match r2 {
                Ok(FlowView::Normal(b)) => (st2, lift(span, binary_spec(op, a, b))),
                other => (st2, other),
            }
        },
        other => (st1, other),
    }
}

pub open spec fn eval_not(st: State, span: crate::token::Span, e: Rc<Ast>, s: usize, f: nat) -> (State, Res)
    decreases f, 1nat, 0nat,
{
    let (st1, r1) = eval(st, e, s, f);
    match r1 {
        Ok(FlowView::Normal(a)) => (st1, lift(span, not_spec(a))),
        other => (st1, other),
    }
}

/// A range (`which == 0`) or an index (`which == 1`) of two operands.
pub open spec fn eval_pair(
    st: State,
    span: crate::token::Span,
    l: Rc<Ast>,
    r: Rc<Ast>,
    s: usize,
    f: nat,
    which: nat,
) -> (State, Res)
    decreases f, 1nat, 0nat,
{
    let (st1, r1) = eval(st, l, s, f);
    match r1 {
        Ok(FlowView::Normal(a)) => {
            let (st2, r2) = eval(st1, r, s, f);
            match r2 {
                Ok(FlowView::Normal(b)) => (st2, lift(span, if which == 0 { range_spec(a, b) } else { index_spec(a, b) })),
                other => (st2, other),
            }
        },
        other => (st1, other),
    }
}

/// Evaluates an optional operand: `Ok(None)` when it is absent, `Err` with the
/// result to hand on when it does not end normally.
pub open spec fn eval_opt(st: State, e: Option<Rc<Ast>>, s: usize, f: nat) -> (State, Result<Option<Val>, Res>)
    decreases f, 1nat, 0nat,
{
    match e {
        None => (st, Ok(None)),
        Some(x) => {
            let (st1, r) = eval(st, x, s, f);
            match r {
                Ok(FlowView::Normal(v)) => (st1, Ok(Some(v))),
                other => (st1, Err(other)),
            }
        },
    }
}

pub open spec fn eval_slice(
    st: State,
    span: crate::token::Span,
    lhs: Rc<Ast>,
    start: Option<Rc<Ast>>,
    end: Option<Rc<Ast>>,
    step: Option<Rc<Ast>>,
    s: usize,
    f: nat,
) -> (State, Res)
    decreases f, 2nat, 0nat,
{
    let (st1, r1) = eval(st, lhs, s, f);
    match r1 {
        Ok(FlowView::Normal(a)) => {
            let (st2, b) = eval_opt(st1, start, s, f);
            match b {
                Ok(b) => {
                    let (st3, e) = eval_opt(st2, end, s, f);
                    match e {
                        Ok(e) => {
                            let (st4, k) = eval_opt(st3, step, s, f);
                            match k {
                                Ok(k) => (st4, lift(span, slice_spec(a, b, e, k))),
                                Err(x) => (st4, x),
                            }
                        },
                        Err(x) => (st3, x),
                    }
                },
                Err(x) => (st2, x),
            }
        },
        other => (st1, other),
    }
}

pub open spec fn eval_assignment(
    st: State,
    span: crate::token::Span,
    lhs: Rc<Ast>,
    rhs: Rc<Ast>,
    s: usize,
    f: nat,
) -> (State, Res)
    decreases f, 1nat, 0nat,
{
    let (st1, r1) = eval(st, rhs, s, f);
    match r1 {
        Ok(FlowView::Normal(v)) => match *lhs {
            Ast::Variable(vspan, name) => match assign(st1, s, name@, v) {
                None => (st1, Err(runtime_failure(vspan, "Variable "@ + name@ + " doesn't exist"@))),
                Some(st2) => match builtin_named(name@) {
                    Some(_) => (st1, Err(runtime_failure(
                        vspan,
                        "`"@ + name@ + "` is a built-in function, can't override it"@,
                    ))),
                    None => (st2, Ok(FlowView::Normal(v))),
                },
            },
            _ => (st1, Err(runtime_failure(span, "Can only assign to a variable"@))),
        },
        other => (st1, other),
    }
}

/// Runs the statements `stmts[k..]` in scope `s`; `last` is the value of the
/// statement before them.
pub open spec fn eval_seq(st: State, stmts: Seq<Rc<Ast>>, k: int, s: usize, f: nat, last: Val) -> (State, Res)
    decreases f, 1nat, stmts.len() - k,
{
    if k < 0 || k >= stmts.len() {
        (st, Ok(FlowView::Normal(last)))
    } else {
        let (st1, r) = eval(st, stmts[k], s, f);
        match r {
            Ok(FlowView::Normal(v)) => eval_seq(st1, stmts, k + 1, s, f, v),
            other => (st1, other),
        }
    }
}

/// Evaluates the arguments `args[k..]`, after `done` were evaluated.
pub open spec fn eval_args(st: State, args: Seq<Rc<Ast>>, k: int, s: usize, f: nat, done: Seq<Val>) -> (State, Result<Seq<Val>, Res>)
    decreases f, 1nat, args.len() - k,
{
    if k < 0 || k >= args.len() {
        (st, Ok(done))
    } else {
        let (st1, r) = eval(st, args[k], s, f);
        match r {
            Ok(FlowView::Normal(v)) => eval_args(st1, args, k + 1, s, f, done.push(v)),
            other => (st1, Err(other)),
        }
    }
}

pub open spec fn eval_call(
    st: State,
    span: crate::token::Span,
    callee: Rc<Ast>,
    args: Seq<Rc<Ast>>,
    s: usize,
    f: nat,
) -> (State, Res)
    decreases f, 2nat, 0nat,
{
    let (st1, r1) = eval(st, callee, s, f);
    match r1 {
        Ok(FlowView::Normal(fv)) => {
            let (st2, r2) = eval_args(st1, args, 0, s, f, Seq::empty());
            match r2 {
                Ok(vals) => apply(st2, span, fv, vals, f),
                Err(x) => (st2, x),
            }
        },
        other => (st1, other),
    }
}

/// Calls the value `fv` with the evaluated arguments `vals`.
pub open spec fn apply(st: State, span: crate::token::Span, fv: Val, vals: Seq<Val>, f: nat) -> (State, Res)
    decreases f, 1nat, 0nat,
{
    match fv {
        Val::Function { node, scope } => match *node {
            Ast::Function { args: params, body, .. } => if params@.len() != vals.len() {
                (st, Err(runtime_failure(
                    span,
                    "Expected "@ + decimal(params@.len() as int) + " arguments, got "@ + decimal(vals.len() as int),
                )))
            } else {
                let fs = st.scopes.len() as usize;
                let st1 = push_scope(st, Some(scope as usize), true);
                let st2 = bind_params(st1, fs, params@, vals, 0);
                let (st3, r) = eval(st2, body, fs, f);
                (st3, call_result(r, span))
            },
            _ => (st, Err(runtime_failure(span, "Can't call this value"@))),
        },
        Val::BuiltInFunction(b) => call_builtin(st, b, vals, span),
        _ => (st, Err(runtime_failure(span, "Can't call this value"@))),
    }
}

/// The next rounds of a `while` loop.
pub open spec fn eval_while(
    st: State,
    span: crate::token::Span,
    c: Rc<Ast>,
    body: Rc<Ast>,
    s: usize,
    f: nat,
) -> (State, Res)
    decreases f, 1nat, 0nat,
{
    let (st1, r1) = eval(st, c, s, f);
    match r1 {
        Ok(FlowView::Normal(Val::Boolean(true))) => {
            let (st2, r2) = eval(st1, body, s, f);
            match r2 {
                Ok(FlowView::Normal(_)) | Ok(FlowView::Continue) => if f == 0 {
                    (st2, step_limit(span))
                } else {
                    eval_while(st2, span, c, body, s, (f - 1) as nat)
                },
                Ok(FlowView::Break) => (st2, Ok(FlowView::Normal(Val::Nothing))),
                other => (st2, other),
            }
        },
        Ok(FlowView::Normal(Val::Boolean(false))) => (st1, Ok(FlowView::Normal(Val::Nothing))),
        Ok(FlowView::Normal(_)) => (st1, Err(runtime_failure(span, "While condition must be a boolean"@))),
        other => (st1, other),
    }
}

/// A `for` loop: the source is evaluated once, then the body runs for each of
/// its characters or integers.
pub open spec fn eval_for_stmt(
    st: State,
    span: crate::token::Span,
    var: String,
    source: Rc<Ast>,
    body: Rc<Ast>,
    s: usize,
    f: nat,
) -> (State, Res)
    decreases f, 2nat, 0nat,
{
    let (st1, r) = eval(st, source, s, f);
    match r {
        Ok(FlowView::Normal(Val::String(t))) => eval_for(st1, var, chars_seq(t), 0, body, s, f),
        Ok(FlowView::Normal(Val::Range(a, b))) => eval_for(st1, var, ints_seq(a as int, b as int), 0, body, s, f),
        Ok(FlowView::Normal(_)) => (st1, Err(runtime_failure(span, "Cannot iterate over this type"@))),
        other => (st1, other),
    }
}

/// The rounds of a `for` loop over `items[k..]`, each in a fresh scope that
/// binds `var`.
pub open spec fn eval_for(
    st: State,
    var: String,
    items: Seq<Val>,
    k: int,
    body: Rc<Ast>,
    s: usize,
    f: nat,
) -> (State, Res)
    decreases f, 1nat, items.len() - k,
{
    if k < 0 || k >= items.len() {
        (st, Ok(FlowView::Normal(Val::Nothing)))
    } else {
        let ls = st.scopes.len() as usize;
        let st1 = declare(push_scope(st, Some(s), in_function(st, s)), ls, var@, items[k]);
        let (st2, r) = eval(st1, body, ls, f);
        match r {
            Ok(FlowView::Normal(_)) | Ok(FlowView::Continue) => eval_for(st2, var, items, k + 1, body, s, f),
            Ok(FlowView::Break) => (st2, Ok(FlowView::Normal(Val::Nothing))),
            other => (st2, other),
        }
    }
}

/// How a whole program ended: with the value of its last statement, or by a
/// call of `exit` with a code.
pub enum CompletionView {
    Value(Val),
    Exit(i64),
}

/// The end of a program from the result of its statements. A `break` or
/// `continue` that no loop took is an error.
pub open spec fn finish(r: Res, span: crate::token::Span) -> Result<CompletionView, Failure> {
    match r {
        Ok(FlowView::Normal(v)) => Ok(CompletionView::Value(v)),
        Ok(FlowView::Return(v)) => Ok(CompletionView::Value(v)),
        Ok(FlowView::Exit(c)) => Ok(CompletionView::Exit(c)),
        Ok(FlowView::Break) => Err(runtime_failure(span, "`break` or `continue` outside of a loop"@)),
        Ok(FlowView::Continue) => Err(runtime_failure(span, "`break` or `continue` outside of a loop"@)),
        Err(e) => Err(e),
    }
}

/// The statements of a block, run directly in scope `s` with the given fuel.
pub open spec fn run_program(st: State, ast: Rc<Ast>, s: usize, fuel: nat) -> (State, Result<CompletionView, Failure>) {
    match *ast {
        Ast::Block(span, stmts) => {
            let (st1, r) = eval_seq(st, stmts@, 0, s, fuel, Val::Nothing);
            (st1, finish(r, span))
        },
        _ => (st, Err(runtime_failure(ast.span_of(), "A program must be a block"@))),
    }
}

} // verus!
