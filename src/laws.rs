use vstd::prelude::*;
use std::rc::Rc;
use crate::ast::{Ast, BinaryOp};
use crate::semantics::{
    State, FlowView, find_from, find_var, owner, lookup, set_var, declare, assign, push_scope, eval,
    eval_assignment, eval_while, binary_spec, builtin_named, call_result,
};
use crate::token::Span;
use crate::value::{Val, divide_spec, trunc_div, ints_seq};

verus! {

/// Dividing two integers gives the quotient rounded toward zero, as the
/// machine's division does: the remainder is smaller than the divisor and has
/// the sign of the dividend.
pub proof fn law_integer_division(a: i64, b: i64)
    requires
        b != 0,
        !(a == i64::MIN && b == -1),
    ensures
        divide_spec(Val::Integer(a), Val::Integer(b)) == Ok::<Val, Seq<char>>(Val::Integer(trunc_div(a as int, b as int) as i64)),
        ({
            let q = trunc_div(a as int, b as int);
            let r = a - q * b;
            &&& (if r < 0 { -r } else { r }) < (if b < 0 { -(b as int) } else { b as int })
            &&& (r == 0 || (r < 0) == (a < 0))
        }),
{
    let x: int = if a < 0 { -a } else { a as int };
    let y: int = if b < 0 { -b } else { b as int };
    let q0 = x / y;
    assert(x == q0 * y + x % y && 0 <= x % y < y) by (nonlinear_arith)
        requires
            y > 0,
            x >= 0,
            q0 == x / y,
    ;
    assert(q0 <= x) by (nonlinear_arith)
        requires
            y >= 1,
            x >= 0,
            q0 == x / y,
    ;
    assert(y >= 2 ==> q0 * 2 <= x) by (nonlinear_arith)
        requires
            y >= 1,
            x >= 0,
            q0 == x / y,
    ;
    let q = trunc_div(a as int, b as int);
    assert(q == (if (a < 0) == (b < 0) { q0 } else { -q0 }));
    assert(a - q * b == (if a < 0 { -(x % y) } else { x % y })) by (nonlinear_arith)
        requires
            q == (if (a < 0) == (b < 0) { q0 } else { -q0 }),
            x == (if a < 0 { -a } else { a as int }),
            y == (if b < 0 { -b } else { b as int }),
            x == q0 * y + x % y,
    ;
}

/// `a > b` is `b < a`, with the same result or the same failure.
pub proof fn law_greater_than_swaps(a: Val, b: Val)
    ensures
        binary_spec(BinaryOp::GreaterThan, a, b) == binary_spec(BinaryOp::LessThan, b, a),
        binary_spec(BinaryOp::GreaterEquals, a, b) == binary_spec(BinaryOp::LessEquals, b, a),
{
}

proof fn lemma_find_bounds(vars: Seq<(Seq<char>, Val)>, name: Seq<char>, i: int)
    ensures
        find_from(vars, name, i) == -1 || (i <= find_from(vars, name, i) < vars.len()
            && vars[find_from(vars, name, i)].0 == name),
    decreases vars.len() - i,
{
    if 0 <= i < vars.len() && vars[i].0 != name {
        lemma_find_bounds(vars, name, i + 1);
    }
}

proof fn lemma_find_pushed(vars: Seq<(Seq<char>, Val)>, name: Seq<char>, v: Val, i: int)
    requires
        0 <= i <= vars.len(),
        find_from(vars, name, i) == -1,
    ensures
        find_from(vars.push((name, v)), name, i) == vars.len(),
    decreases vars.len() - i,
{
    if i < vars.len() {
        assert(vars.push((name, v))[i] == vars[i]);
        lemma_find_pushed(vars, name, v, i + 1);
    }
}

proof fn lemma_find_same_names(a: Seq<(Seq<char>, Val)>, b: Seq<(Seq<char>, Val)>, name: Seq<char>, i: int)
    requires
        a.len() == b.len(),
        forall|k: int| 0 <= k < a.len() ==> a[k].0 == b[k].0,
    ensures
        find_from(a, name, i) == find_from(b, name, i),
    decreases a.len() - i,
{
    if 0 <= i < a.len() && a[i].0 != name {
        lemma_find_same_names(a, b, name, i + 1);
    }
}

proof fn lemma_found_after_declare(st: State, s: usize, name: Seq<char>, v: Val)
    requires
        s < st.scopes.len(),
    ensures
        ({
            let st1 = declare(st, s, name, v);
            let i = find_var(st1.scopes[s as int].vars, name);
            &&& st1.scopes.len() == st.scopes.len()
            &&& 0 <= i < st1.scopes[s as int].vars.len()
            &&& st1.scopes[s as int].vars[i] == (name, v)
            &&& st1.scopes[s as int].parent == st.scopes[s as int].parent
            &&& forall|t: int| 0 <= t < st.scopes.len() && t != s ==> st1.scopes[t] == st.scopes[t]
        }),
{
    let vars = st.scopes[s as int].vars;
    let st1 = declare(st, s, name, v);
    let vars1 = st1.scopes[s as int].vars;
    lemma_find_bounds(vars, name, 0);
    if find_var(vars, name) < 0 {
        lemma_find_pushed(vars, name, v, 0);
    } else {
        assert forall|k: int| 0 <= k < vars.len() implies vars[k].0 == vars1[k].0 by {}
        lemma_find_same_names(vars, vars1, name, 0);
    }
}

/// Assigning to a name that no scope along the chain binds always fails.
pub proof fn law_assign_undeclared_fails(st: State, s: usize, name: Seq<char>, v: Val)
    requires
        lookup(st, s, name) is None,
    ensures
        assign(st, s, name, v) is None,
{
}

/// After declaring a name in a scope, assigning to it there succeeds, and a
/// lookup then gives the new value.
pub proof fn law_declare_then_assign(st: State, s: usize, name: Seq<char>, v1: Val, v2: Val)
    requires
        s < st.scopes.len(),
    ensures
        assign(declare(st, s, name, v1), s, name, v2) is Some,
        lookup(assign(declare(st, s, name, v1), s, name, v2)->0, s, name) == Some(v2),
{
    let vars = st.scopes[s as int].vars;
    let st1 = declare(st, s, name, v1);
    lemma_found_after_declare(st, s, name, v1);
    let i = find_var(st1.scopes[s as int].vars, name);
    assert(owner(st1, s, name) == Some((s, i)));
    let st2 = assign(st1, s, name, v2)->0;
    let vars1 = st1.scopes[s as int].vars;
    let vars2 = st2.scopes[s as int].vars;
    assert(vars2.len() == vars1.len());
    assert forall|k: int| 0 <= k < vars1.len() implies vars1[k].0 == vars2[k].0 by {}
    lemma_find_same_names(vars1, vars2, name, 0);
    assert(owner(st2, s, name) == Some((s, i)));
}

proof fn lemma_owner_set_var(st: State, t: usize, i: int, v: Val, s: usize, name: Seq<char>)
    requires
        t < st.scopes.len(),
        0 <= i < st.scopes[t as int].vars.len(),
    ensures
        owner(set_var(st, t, i, v), s, name) == owner(st, s, name),
    decreases s,
{
    let st2 = set_var(st, t, i, v);
    if s < st.scopes.len() {
        let a = st.scopes[s as int].vars;
        let b = st2.scopes[s as int].vars;
        assert forall|k: int| 0 <= k < a.len() implies a[k].0 == b[k].0 by {}
        lemma_find_same_names(a, b, name, 0);
        match st.scopes[s as int].parent {
            Some(p) => if p < s {
                lemma_owner_set_var(st, t, i, v, p, name);
            },
            None => {},
        }
    }
}

/// An assignment statement to a variable that no scope along the chain
/// binds fails, once its value has been evaluated.
pub proof fn law_assignment_statement_to_undeclared_fails(
    st: State,
    span: Span,
    vspan: Span,
    name: String,
    lhs: Rc<Ast>,
    rhs: Rc<Ast>,
    s: usize,
    f: nat,
)
    requires
        *lhs == Ast::Variable(vspan, name),
        eval(st, rhs, s, f).1 matches Ok(FlowView::Normal(_)),
        lookup(eval(st, rhs, s, f).0, s, name@) is None,
    ensures
        eval_assignment(st, span, lhs, rhs, s, f).1 is Err,
{
}

/// An assignment statement to a declared variable (that is not a built-in
/// name) succeeds with the assigned value, and a lookup then gives that value.
pub proof fn law_assignment_statement_to_declared_succeeds(
    st: State,
    span: Span,
    vspan: Span,
    name: String,
    lhs: Rc<Ast>,
    rhs: Rc<Ast>,
    s: usize,
    f: nat,
    v: Val,
)
    requires
        *lhs == Ast::Variable(vspan, name),
        eval(st, rhs, s, f).1 == Ok::<FlowView, crate::error::Failure>(FlowView::Normal(v)),
        lookup(eval(st, rhs, s, f).0, s, name@) is Some,
        builtin_named(name@) is None,
    ensures
        eval_assignment(st, span, lhs, rhs, s, f).1 == Ok::<FlowView, crate::error::Failure>(FlowView::Normal(v)),
        lookup(eval_assignment(st, span, lhs, rhs, s, f).0, s, name@) == Some(v),
{
    let st1 = eval(st, rhs, s, f).0;
    lemma_owner_bounds(st1, s, name@);
    let (t, i) = owner(st1, s, name@)->0;
    lemma_owner_set_var(st1, t, i, v, s, name@);
}

/// Evaluating a named function binds its name in the current scope to the
/// function itself, which captures that scope; so the name is visible from the
/// scope of any call of it, whose parent is the captured scope, unless a
/// parameter of the same name hides it.
pub proof fn law_named_function_visible(st: State, ast: Rc<Ast>, s: usize, fuel: nat, n: String)
    requires
        st.scopes.len() < usize::MAX,
        fuel > 0,
        s < st.scopes.len(),
        *ast is Function,
        (*ast)->Function_name == Some(n),
    ensures
        ({
            let name = n@;
            let fv = Val::Function { node: ast, scope: s as nat };
            let (st1, r) = eval(st, ast, s, fuel);
            &&& r == Ok::<FlowView, crate::error::Failure>(FlowView::Normal(fv))
            &&& lookup(st1, s, name) == Some(fv)
            &&& lookup(push_scope(st1, Some(s), true), st1.scopes.len() as usize, name) == Some(fv)
        }),
{
    let name = n@;
    let fv = Val::Function { node: ast, scope: s as nat };
    let st1 = declare(st, s, name, fv);
    lemma_found_after_declare(st, s, name, fv);
    let i = find_var(st1.scopes[s as int].vars, name);
    assert(owner(st1, s, name) == Some((s, i)));
    let st2 = push_scope(st1, Some(s), true);
    let n = st1.scopes.len() as usize;
    assert(st2.scopes[n as int].vars.len() == 0);
    assert(find_var(st2.scopes[n as int].vars, name) == -1);
    assert(st2.scopes[s as int] == st1.scopes[s as int]);
    assert(owner(st2, s, name) == Some((s, i)));
    assert(owner(st2, n, name) == owner(st2, s, name));
}

/// A call's scope has the captured scope as parent, so a name that the call
/// does not bind itself is looked up there as it stands at the time of the
/// call, not as it stood when the function was made.
pub proof fn law_call_sees_current_bindings(st: State, s: usize, name: Seq<char>)
    requires
        st.scopes.len() < usize::MAX,
        s < st.scopes.len(),
    ensures
        lookup(push_scope(st, Some(s), true), st.scopes.len() as usize, name) == lookup(st, s, name),
{
    let st2 = push_scope(st, Some(s), true);
    let n = st.scopes.len() as usize;
    assert(find_var(st2.scopes[n as int].vars, name) == -1);
    lemma_owner_push(st, Some(s), true, s, name);
    assert(owner(st2, n, name) == owner(st2, s, name));
    lemma_owner_bounds(st, s, name);
    match owner(st, s, name) {
        Some((t, i)) => { assert(st2.scopes[t as int] == st.scopes[t as int]); },
        None => {},
    }
}

proof fn lemma_owner_bounds(st: State, s: usize, name: Seq<char>)
    ensures
        match owner(st, s, name) {
            Some((t, i)) => t < st.scopes.len() && 0 <= i < st.scopes[t as int].vars.len(),
            None => true,
        },
    decreases s,
{
    if s < st.scopes.len() {
        lemma_find_bounds(st.scopes[s as int].vars, name, 0);
        match st.scopes[s as int].parent {
            Some(p) => if p < s {
                lemma_owner_bounds(st, p, name);
            },
            None => {},
        }
    }
}

proof fn lemma_owner_push(st: State, parent: Option<usize>, inf: bool, s: usize, name: Seq<char>)
    requires
        s < st.scopes.len(),
    ensures
        owner(push_scope(st, parent, inf), s, name) == owner(st, s, name),
    decreases s,
{
    let st2 = push_scope(st, parent, inf);
    assert(st2.scopes[s as int] == st.scopes[s as int]);
    match st.scopes[s as int].parent {
        Some(p) => if p < s {
            lemma_owner_push(st, parent, inf, p, name);
        },
        None => {},
    }
}

/// `break` ends the loop that runs it and nothing more: the `while` statement
/// itself completes normally, so an enclosing loop goes on.
pub proof fn law_break_ends_only_its_loop(st: State, span: Span, c: Rc<Ast>, body: Rc<Ast>, s: usize, f: nat)
    requires
        eval(st, c, s, f).1 == Ok::<FlowView, crate::error::Failure>(FlowView::Normal(Val::Boolean(true))),
        eval(eval(st, c, s, f).0, body, s, f).1 == Ok::<FlowView, crate::error::Failure>(FlowView::Break),
    ensures
        eval_while(st, span, c, body, s, f) == (
            eval(eval(st, c, s, f).0, body, s, f).0,
            Ok::<FlowView, crate::error::Failure>(FlowView::Normal(Val::Nothing)),
        ),
{
}

/// `return` inside a loop leaves the loop with the pending return, and the
/// call that runs the function body turns it into the call's value.
pub proof fn law_return_leaves_loop_and_call(st: State, span: Span, c: Rc<Ast>, body: Rc<Ast>, s: usize, f: nat, v: Val)
    requires
        eval(st, c, s, f).1 == Ok::<FlowView, crate::error::Failure>(FlowView::Normal(Val::Boolean(true))),
        eval(eval(st, c, s, f).0, body, s, f).1 == Ok::<FlowView, crate::error::Failure>(FlowView::Return(v)),
    ensures
        eval_while(st, span, c, body, s, f).1 == Ok::<FlowView, crate::error::Failure>(FlowView::Return(v)),
        call_result(eval_while(st, span, c, body, s, f).1, span) == Ok::<FlowView, crate::error::Failure>(FlowView::Normal(v)),
{
}

/// A range `a..b` gives the integers from `a` up to, and not including, `b`.
pub proof fn law_range_is_half_open(a: i64, b: i64)
    requires
        a <= b,
    ensures
        ints_seq(a as int, b as int).len() == b - a,
        forall|k: int| 0 <= k < b - a ==> ints_seq(a as int, b as int)[k] == Val::Integer((a + k) as i64),
        !ints_seq(a as int, b as int).contains(Val::Integer(b)),
{
    if ints_seq(a as int, b as int).contains(Val::Integer(b)) {
        let k = choose|k: int| 0 <= k < ints_seq(a as int, b as int).len() && ints_seq(a as int, b as int)[k] == Val::Integer(b);
        assert(ints_seq(a as int, b as int)[k] == Val::Integer((a + k) as i64));
    }
}

} // verus!
