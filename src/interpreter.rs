use vstd::prelude::*;
use std::rc::Rc;
use crate::ast::{Ast, BinaryOp};
use crate::error::{Error, Failure};
use crate::semantics::{State, ScopeView, FlowView, Res, find_from, find_var, owner, lookup, set_var, declare, assign, push_scope, in_function, builtin_named, binary_spec, lift, eval, eval_binary, eval_not, eval_pair, eval_opt, eval_slice, eval_assignment, eval_seq, eval_args, eval_call, apply, eval_while, eval_for, eval_for_stmt, bind_params, CompletionView, run_program, call_result, call_builtin};
use crate::text::{same_text, join, chars_of, count_text};
use crate::builtin::print_line;
use crate::token::Span;
use crate::value::{Val, Value, Builtin, result_view, opt_view, at};

verus! {

/// A variable and the value that it is bound to.
pub struct Binding {
    pub name: String,
    pub value: Value,
}

/// The bindings of one scope, the index of its parent in the interpreter's
/// arena, and whether it lies within a function body.
pub struct Scope {
    pub vars: Vec<Binding>,
    pub parent: Option<usize>,
    pub in_function: bool,
}

pub open spec fn binding_view(b: Binding) -> (Seq<char>, Val) {
    (b.name@, b.value@)
}

impl View for Scope {
    type V = ScopeView;

    open spec fn view(&self) -> ScopeView {
        ScopeView {
            vars: self.vars@.map_values(|b: Binding| binding_view(b)),
            parent: self.parent,
            in_function: self.in_function,
        }
    }
}

impl Scope {
    pub fn new(parent: Option<usize>, in_function: bool) -> (r: Scope)
        ensures
            r@ == (ScopeView { vars: Seq::empty(), parent, in_function }),
    {
        let r = Scope { vars: Vec::new(), parent, in_function };
        proof { assert(r@.vars =~= Seq::<(Seq<char>, Val)>::empty()); }
        r
    }

    /// The position of the binding of `name` in this scope.
    pub fn find(&self, name: &String) -> (r: Option<usize>)
        ensures
            match r {
                Some(i) => i as int == find_var(self@.vars, name@) && i < self.vars@.len(),
                None => find_var(self@.vars, name@) == -1,
            },
    {
        let mut i: usize = 0;
        while i < self.vars.len()
            invariant
                i <= self.vars@.len(),
                find_var(self@.vars, name@) == find_from(self@.vars, name@, i as int),
            decreases self.vars@.len() - i,
        {
            if self.vars[i].name == *name {
                return Some(i);
            }
            i = i + 1;
        }
        None
    }
}

/// The tree-walking interpreter: an arena of scopes, addressed by index, and
/// the lines that `print` has written.
pub struct Interpreter {
    pub scopes: Vec<Scope>,
    pub output: Vec<String>,
}

impl View for Interpreter {
    type V = State;

    open spec fn view(&self) -> State {
        State {
            scopes: self.scopes@.map_values(|s: Scope| s@),
            output: self.output@.map_values(|t: String| t@),
        }
    }
}

impl Interpreter {
    pub fn new() -> (r: Interpreter)
        ensures
            r@.scopes.len() == 0,
            r@.output.len() == 0,
    {
        Interpreter { scopes: Vec::new(), output: Vec::new() }
    }

    /// Adds an empty scope to the arena and gives its index.
    pub fn push_scope(&mut self, parent: Option<usize>, in_function: bool) -> (r: usize)
        ensures
            final(self)@ == push_scope(old(self)@, parent, in_function),
            r == old(self)@.scopes.len(),
    {
        let r = self.scopes.len();
        self.scopes.push(Scope::new(parent, in_function));
        proof {
            assert(self@.scopes =~= push_scope(old(self)@, parent, in_function).scopes);
        }
        r
    }

    pub fn in_function(&self, s: usize) -> (r: bool)
        ensures
            r == in_function(self@, s),
    {
        s < self.scopes.len() && self.scopes[s].in_function
    }

    /// The scope and position of the binding that `name` refers to from `s`.
    pub fn owner(&self, s: usize, name: &String) -> (r: Option<(usize, usize)>)
        ensures
            match (r, owner(self@, s, name@)) {
                (Some((t, i)), Some((t2, i2))) => t == t2 && i as int == i2 && t < self@.scopes.len()
                    && i < self@.scopes[t as int].vars.len(),
                (None, None) => true,
                _ => false,
            },
    {
        let mut cur = s;
        loop
            invariant
                owner(self@, s, name@) == owner(self@, cur, name@),
            decreases cur,
        {
            if cur >= self.scopes.len() {
                return None;
            }
            match self.scopes[cur].find(name) {
                Some(i) => { return Some((cur, i)); },
                None => {},
            }
            match self.scopes[cur].parent {
                Some(p) => {
                    if p < cur {
                        cur = p;
                    } else {
                        return None;
                    }
                },
                None => { return None; },
            }
        }
    }

    /// The value that `name` refers to from scope `s`.
    pub fn lookup(&self, s: usize, name: &String) -> (r: Option<Value>)
        ensures
            match (r, lookup(self@, s, name@)) {
                (Some(v), Some(w)) => v@ == w,
                (None, None) => true,
                _ => false,
            },
    {
        match self.owner(s, name) {
            Some((t, i)) => Some(self.scopes[t].vars[i].value.duplicate()),
            None => None,
        }
    }

    fn set_var(&mut self, t: usize, i: usize, v: Value)
        requires
            t < old(self)@.scopes.len(),
            i < old(self)@.scopes[t as int].vars.len(),
        ensures
            final(self)@ == set_var(old(self)@, t, i as int, v@),
    {
        let ghost vv = v@;
        self.scopes[t].vars[i].value = v;
        proof {
            let st = set_var(old(self)@, t, i as int, vv);
            assert(self@.scopes[t as int].vars =~= st.scopes[t as int].vars);
            assert(self@.scopes =~= st.scopes);
            assert(self@.output =~= st.output);
        }
    }

    /// Binds `name` in scope `s` itself, overwriting a binding there.
    pub fn declare(&mut self, s: usize, name: &String, v: Value)
        ensures
            final(self)@ == declare(old(self)@, s, name@, v@),
    {
        if s >= self.scopes.len() {
            return;
        }
        match self.scopes[s].find(name) {
            Some(i) => self.set_var(s, i, v),
            None => {
                let ghost vv = v@;
                self.scopes[s].vars.push(Binding { name: name.clone(), value: v });
                proof {
                    let st = declare(old(self)@, s, name@, vv);
                    assert(self@.scopes[s as int].vars =~= st.scopes[s as int].vars);
                    assert(self@.scopes =~= st.scopes);
                    assert(self@.output =~= st.output);
                }
            },
        }
    }

    /// Rebinds `name` where it is bound, as seen from `s`; `false`, with
    /// nothing changed, when no scope along the chain binds it.
    pub fn assign(&mut self, s: usize, name: &String, v: Value) -> (r: bool)
        ensures
            r ==> assign(old(self)@, s, name@, v@) == Some(final(self)@),
            !r ==> assign(old(self)@, s, name@, v@) is None && final(self)@ == old(self)@,
    {
        match self.owner(s, name) {
            Some((t, i)) => {
                self.set_var(t, i, v);
                true
            },
            None => false,
        }
    }
}


/// How evaluating a node ended: with a value, or with a pending `break`,
/// `continue`, `return` or `exit`.
#[derive(Debug)]
pub enum Flow {
    Normal(Value),
    Break,
    Continue,
    Return(Value),
    Exit(i64),
}

impl View for Flow {
    type V = FlowView;

    open spec fn view(&self) -> FlowView {
        match self {
            Flow::Normal(v) => FlowView::Normal(v@),
            Flow::Break => FlowView::Break,
            Flow::Continue => FlowView::Continue,
            Flow::Return(v) => FlowView::Return(v@),
            Flow::Exit(c) => FlowView::Exit(*c),
        }
    }
}

pub open spec fn res_view(r: Result<Flow, Error>) -> Res {
    match r {
        Ok(f) => Ok(f@),
        Err(e) => Err(e@),
    }
}

/// A value operation's result as the result of a node.
fn lift_exec(r: Result<Value, Error>, span: &Span, Ghost(o): Ghost<crate::value::Outcome>) -> (out: Result<Flow, Error>)
    requires
        result_view(r) == at(*span, o),
    ensures
        res_view(out) == lift(*span, o),
{
    match r {
        Ok(v) => Ok(Flow::Normal(v)),
        Err(e) => Err(e),
    }
}

fn binary(op: BinaryOp, a: &Value, b: &Value, span: &Span) -> (r: Result<Value, Error>)
    ensures
        result_view(r) == at(*span, binary_spec(op, a@, b@)),
{
    match op {
        BinaryOp::Plus => Value::plus(a, b, span),
        BinaryOp::Minus => Value::minus(a, b, span),
        BinaryOp::Multiply => Value::multiply(a, b, span),
        BinaryOp::Divide => Value::divide(a, b, span),
        BinaryOp::And => Value::and(a, b, span),
        BinaryOp::Or => Value::or(a, b, span),
        BinaryOp::Equals => Value::equals(a, b, span),
        BinaryOp::NotEquals => Value::not_equals(a, b, span),
        BinaryOp::LessThan => Value::less_than(a, b, span),
        BinaryOp::GreaterThan => Value::greater_than(a, b, span),
        BinaryOp::LessEquals => Value::less_equals(a, b, span),
        BinaryOp::GreaterEquals => Value::greater_equals(a, b, span),
    }
}

/// The built-in function that a name stands for.
pub fn builtin_named_exec(name: &String) -> (r: Option<Builtin>)
    ensures
        r == builtin_named(name@),
{
    if same_text(name, "print") {
        Some(Builtin::Print)
    } else if same_text(name, "len") {
        Some(Builtin::Len)
    } else if same_text(name, "exit") {
        Some(Builtin::Exit)
    } else {
        None
    }
}

impl Interpreter {
    /// Evaluates `ast` in scope `s` with at most `fuel` steps of nesting and
    /// loop rounds, exactly as `eval` says.
    pub fn run(&mut self, ast: &Rc<Ast>, s: usize, fuel: u64) -> (r: Result<Flow, Error>)
        ensures
            (final(self)@, res_view(r)) == eval(old(self)@, *ast, s, fuel as nat),
        decreases fuel, 0nat, 0nat,
    {
        if fuel == 0 {
            return Err(Error::runtime_str(ast.span(), "Evaluation step limit reached"));
        }
        let f = fuel - 1;
        match &**ast {
            Ast::BooleanLiteral(_, b) => Ok(Flow::Normal(Value::Boolean(*b))),
            Ast::IntegerLiteral(_, i) => Ok(Flow::Normal(Value::Integer(*i))),
            Ast::StringLiteral(_, t) => Ok(Flow::Normal(Value::String(chars_of(t)))),
            Ast::Nothing(_) => Ok(Flow::Normal(Value::Nothing)),
            Ast::Binary(span, op, l, r) => self.run_binary(span, *op, l, r, s, f),
            Ast::Not(span, e) => self.run_not(span, e, s, f),
            Ast::Call(span, callee, args) => self.run_call(span, callee, args, s, f),
            Ast::Function { name, .. } => {
                let v = Value::Function { node: ast.clone(), scope: s };
                match name {
                    Some(n) => {
                        self.declare(s, n, v.duplicate());
                    },
                    None => {},
                }
                Ok(Flow::Normal(v))
            },
            Ast::Slice { span, lhs, start, end, step } => self.run_slice(span, lhs, start, end, step, s, f),
            Ast::Block(_, stmts) => {
                let inf = self.in_function(s);
                let bs = self.push_scope(Some(s), inf);
                self.run_seq(stmts, bs, f)
            },
            Ast::Variable(span, name) => match builtin_named_exec(name) {
                Some(b) => Ok(Flow::Normal(Value::BuiltInFunction(b))),
                None => match self.lookup(s, name) {
                    Some(v) => Ok(Flow::Normal(v)),
                    None => {
                        let m = join(join(String::from_str("Variable "), name.as_str()), " not found");
                        Err(Error::runtime(span, m))
                    },
                },
            },
            Ast::Return(span, e) => {
                if !self.in_function(s) {
                    return Err(Error::runtime_str(span, "Return statement outside of function"));
                }
                match self.run(e, s, f) {
                    Ok(Flow::Normal(v)) => Ok(Flow::Return(v)),
                    other => other,
                }
            },
            Ast::Assignment(span, lhs, rhs) => self.run_assignment(span, lhs, rhs, s, f),
            Ast::VarDeclaration(span, name, e) => {
                if builtin_named_exec(name).is_some() {
                    let m = join(
                        join(String::from_str("`"), name.as_str()),
                        "` is a built-in function, can't be used as a variable",
                    );
                    return Err(Error::runtime(span, m));
                }
                match self.run(e, s, f) {
                    Ok(Flow::Normal(v)) => {
                        self.declare(s, name, v.duplicate());
                        Ok(Flow::Normal(v))
                    },
                    other => other,
                }
            },
            Ast::Assert(span, c) => match self.run(c, s, f) {
                Ok(Flow::Normal(Value::Boolean(true))) => Ok(Flow::Normal(Value::Nothing)),
                Ok(Flow::Normal(Value::Boolean(false))) => Err(Error::runtime_str(span, "Assertion failed")),
                Ok(Flow::Normal(_)) => Err(Error::runtime_str(span, "Assertion condition must be a boolean")),
                other => other,
            },
            Ast::If(span, c, body, else_body) => match self.run(c, s, f) {
                Ok(Flow::Normal(Value::Boolean(true))) => self.run(body, s, f),
                Ok(Flow::Normal(Value::Boolean(false))) => match else_body {
                    Some(e) => self.run(e, s, f),
                    None => Ok(Flow::Normal(Value::Nothing)),
                },
                Ok(Flow::Normal(_)) => Err(Error::runtime_str(span, "If condition must be a boolean")),
                other => other,
            },
            Ast::While(span, c, body) => self.run_while(span, c, body, s, f),
            Ast::For(span, var, source, body) => self.run_for(span, var, source, body, s, f),
            Ast::Range(span, a, b) => self.run_pair(span, a, b, s, f, 0),
            Ast::Index(span, a, b) => self.run_pair(span, a, b, s, f, 1),
            Ast::Break(_) => Ok(Flow::Break),
            Ast::Continue(_) => Ok(Flow::Continue),
        }
    }

    fn run_binary(&mut self, span: &Span, op: BinaryOp, l: &Rc<Ast>, r: &Rc<Ast>, s: usize, f: u64) -> (out: Result<Flow, Error>)
        ensures
            (final(self)@, res_view(out)) == eval_binary(old(self)@, *span, op, *l, *r, s, f as nat),
        decreases f, 1nat, 0nat,
    {
        let a = match self.run(l, s, f) {
            Ok(Flow::Normal(a)) => a,
            other => { return other; },
        };
        let b = match self.run(r, s, f) {
            Ok(Flow::Normal(b)) => b,
            other => { return other; },
        };
        lift_exec(binary(op, &a, &b, span), span, Ghost(binary_spec(op, a@, b@)))
    }

    fn run_not(&mut self, span: &Span, e: &Rc<Ast>, s: usize, f: u64) -> (out: Result<Flow, Error>)
        ensures
            (final(self)@, res_view(out)) == eval_not(old(self)@, *span, *e, s, f as nat),
        decreases f, 1nat, 0nat,
    {
        let a = match self.run(e, s, f) {
            Ok(Flow::Normal(a)) => a,
            other => { return other; },
        };
        lift_exec(Value::not(&a, span), span, Ghost(crate::value::not_spec(a@)))
    }

    fn run_pair(&mut self, span: &Span, l: &Rc<Ast>, r: &Rc<Ast>, s: usize, f: u64, which: u8) -> (out: Result<Flow, Error>)
        ensures
            (final(self)@, res_view(out)) == eval_pair(old(self)@, *span, *l, *r, s, f as nat, which as nat),
        decreases f, 1nat, 0nat,
    {
        let a = match self.run(l, s, f) {
            Ok(Flow::Normal(a)) => a,
            other => { return other; },
        };
        let b = match self.run(r, s, f) {
            Ok(Flow::Normal(b)) => b,
            other => { return other; },
        };
        if which == 0 {
            lift_exec(Value::create_range(&a, &b, span), span, Ghost(crate::value::range_spec(a@, b@)))
        } else {
            lift_exec(Value::index(&a, &b, span), span, Ghost(crate::value::index_spec(a@, b@)))
        }
    }

    fn run_opt(&mut self, e: &Option<Rc<Ast>>, s: usize, f: u64) -> (out: Result<Option<Value>, Result<Flow, Error>>)
        ensures
            final(self)@ == eval_opt(old(self)@, *e, s, f as nat).0,
            match (out, eval_opt(old(self)@, *e, s, f as nat).1) {
                (Ok(Some(v)), Ok(Some(w))) => v@ == w,
                (Ok(None), Ok(None)) => true,
                (Err(x), Err(y)) => res_view(x) == y,
                _ => false,
            },
        decreases f, 1nat, 0nat,
    {
        match e {
            None => Ok(None),
            Some(x) => match self.run(x, s, f) {
                Ok(Flow::Normal(v)) => Ok(Some(v)),
                other => Err(other),
            },
        }
    }

    fn run_slice(
        &mut self,
        span: &Span,
        lhs: &Rc<Ast>,
        start: &Option<Rc<Ast>>,
        end: &Option<Rc<Ast>>,
        step: &Option<Rc<Ast>>,
        s: usize,
        f: u64,
    ) -> (out: Result<Flow, Error>)
        ensures
            (final(self)@, res_view(out)) == eval_slice(old(self)@, *span, *lhs, *start, *end, *step, s, f as nat),
        decreases f, 2nat, 0nat,
    {
        let a = match self.run(lhs, s, f) {
            Ok(Flow::Normal(a)) => a,
            other => { return other; },
        };
        let b = match self.run_opt(start, s, f) {
            Ok(b) => b,
            Err(x) => { return x; },
        };
        let e = match self.run_opt(end, s, f) {
            Ok(e) => e,
            Err(x) => { return x; },
        };
        let k = match self.run_opt(step, s, f) {
            Ok(k) => k,
            Err(x) => { return x; },
        };
        let bo = b.as_ref();
        let eo = e.as_ref();
        let ko = k.as_ref();
        let r = Value::slice(&a, bo, eo, ko, span);
        lift_exec(r, span, Ghost(crate::value::slice_spec(a@, opt_view(bo), opt_view(eo), opt_view(ko))))
    }

    fn run_assignment(&mut self, span: &Span, lhs: &Rc<Ast>, rhs: &Rc<Ast>, s: usize, f: u64) -> (out: Result<Flow, Error>)
        ensures
            (final(self)@, res_view(out)) == eval_assignment(old(self)@, *span, *lhs, *rhs, s, f as nat),
        decreases f, 1nat, 0nat,
    {
        let v = match self.run(rhs, s, f) {
            Ok(Flow::Normal(v)) => v,
            other => { return other; },
        };
        match &**lhs {
            Ast::Variable(vspan, name) => {
                if self.owner(s, name).is_none() {
                    let m = join(join(String::from_str("Variable "), name.as_str()), " doesn't exist");
                    return Err(Error::runtime(vspan, m));
                }
                if builtin_named_exec(name).is_some() {
                    let m = join(
                        join(String::from_str("`"), name.as_str()),
                        "` is a built-in function, can't override it",
                    );
                    return Err(Error::runtime(vspan, m));
                }
                self.assign(s, name, v.duplicate());
                Ok(Flow::Normal(v))
            },
            _ => Err(Error::runtime_str(span, "Can only assign to a variable")),
        }
    }

    fn run_seq(&mut self, stmts: &Vec<Rc<Ast>>, s: usize, f: u64) -> (out: Result<Flow, Error>)
        ensures
            (final(self)@, res_view(out)) == eval_seq(old(self)@, stmts@, 0, s, f as nat, Val::Nothing),
        decreases f, 1nat, 0nat,
    {
        let mut last = Value::Nothing;
        let mut k: usize = 0;
        while k < stmts.len()
            invariant
                k <= stmts@.len(),
                eval_seq(old(self)@, stmts@, 0, s, f as nat, Val::Nothing) == eval_seq(self@, stmts@, k as int, s, f as nat, last@),
            decreases stmts@.len() - k,
        {
            match self.run(&stmts[k], s, f) {
                Ok(Flow::Normal(v)) => { last = v; },
                other => { return other; },
            }
            k = k + 1;
        }
        Ok(Flow::Normal(last))
    }

    fn run_call(&mut self, span: &Span, callee: &Rc<Ast>, args: &Vec<Rc<Ast>>, s: usize, f: u64) -> (out: Result<Flow, Error>)
        ensures
            (final(self)@, res_view(out)) == eval_call(old(self)@, *span, *callee, args@, s, f as nat),
        decreases f, 2nat, 0nat,
    {
        let fv = match self.run(callee, s, f) {
            Ok(Flow::Normal(v)) => v,
            other => { return other; },
        };
        let ghost st1 = self@;
        proof {
            let (st2, r2) = eval_args(st1, args@, 0, s, f as nat, Seq::empty());
            assert(eval_call(old(self)@, *span, *callee, args@, s, f as nat) == match r2 {
                Ok(vs) => apply(st2, *span, fv@, vs, f as nat),
                Err(x) => (st2, x),
            });
        }
        let mut vals: Vec<Value> = Vec::new();
        proof { assert(vals@.map_values(|v: Value| v@) =~= Seq::<Val>::empty()); }
        let mut k: usize = 0;
        while k < args.len()
            invariant
                k <= args@.len(),
                vals@.len() == k,
                eval_call(old(self)@, *span, *callee, args@, s, f as nat) == match eval_args(st1, args@, 0, s, f as nat, Seq::empty()) {
                    (st2, Ok(vs)) => apply(st2, *span, fv@, vs, f as nat),
                    (st2, Err(x)) => (st2, x),
                },
                eval_args(st1, args@, 0, s, f as nat, Seq::empty()) == eval_args(self@, args@, k as int, s, f as nat, vals@.map_values(|v: Value| v@)),
            decreases args@.len() - k,
        {
            let ghost pre = self@;
            let ghost before = vals@.map_values(|v: Value| v@);
            let r = self.run(&args[k], s, f);
            proof {
                assert(eval_args(pre, args@, k as int, s, f as nat, before) == match eval(pre, args@[k as int], s, f as nat).1 {
                    Ok(FlowView::Normal(v)) => eval_args(self@, args@, k + 1, s, f as nat, before.push(v)),
                    other => (self@, Err(other)),
                });
            }
            match r {
                Ok(Flow::Normal(v)) => {
                    let ghost vv = v@;
                    vals.push(v);
                    proof { assert(vals@.map_values(|v: Value| v@) =~= before.push(vv)); }
                },
                other => {
                    proof {
                        assert(eval_args(st1, args@, 0, s, f as nat, Seq::empty()) == (self@, Err::<Seq<Val>, Res>(res_view(other))));
                    }
                    return other;
                },
            }
            k = k + 1;
        }
        proof {
            assert(eval_args(st1, args@, 0, s, f as nat, Seq::empty()) == (self@, Ok::<Seq<Val>, Res>(vals@.map_values(|v: Value| v@))));
        }
        self.apply(span, &fv, &vals, f)
    }

    fn apply(&mut self, span: &Span, fv: &Value, vals: &Vec<Value>, f: u64) -> (out: Result<Flow, Error>)
        ensures
            (final(self)@, res_view(out)) == apply(old(self)@, *span, fv@, vals@.map_values(|v: Value| v@), f as nat),
        decreases f, 1nat, 0nat,
    {
        let ghost vs = vals@.map_values(|v: Value| v@);
        match fv {
            Value::Function { node, scope } => match &**node {
                Ast::Function { args: params, body, .. } => {
                    if params.len() != vals.len() {
                        let m = join(join(join(String::from_str("Expected "), count_text(params.len()).as_str()), " arguments, got "), count_text(vals.len()).as_str());
                        return Err(Error::runtime(span, m));
                    }
                    let fs = self.push_scope(Some(*scope), true);
                    let ghost st1 = self@;
                    let mut k: usize = 0;
                    while k < params.len()
                        invariant
                            k <= params@.len(),
                            params@.len() == vals@.len(),
                            vs == vals@.map_values(|v: Value| v@),
                            bind_params(st1, fs, params@, vs, 0) == bind_params(self@, fs, params@, vs, k as int),
                        decreases params@.len() - k,
                    {
                        self.declare(fs, &params[k], vals[k].duplicate());
                        k = k + 1;
                    }
                    let r = self.run(body, fs, f);
                    finish_call(r, span)
                },
                _ => Err(Error::runtime_str(span, "Can't call this value")),
            },
            Value::BuiltInFunction(b) => self.call_builtin(*b, vals, span),
            _ => Err(Error::runtime_str(span, "Can't call this value")),
        }
    }

    fn call_builtin(&mut self, b: Builtin, vals: &Vec<Value>, span: &Span) -> (out: Result<Flow, Error>)
        ensures
            (final(self)@, res_view(out)) == call_builtin(old(self)@, b, vals@.map_values(|v: Value| v@), *span),
    {
        match b {
            Builtin::Print => {
                let line = crate::builtin::print(span, vals);
                let ghost before = self@;
                self.output.push(line);
                proof {
                    assert(self@.output =~= before.output.push(print_line(vals@.map_values(|v: Value| v@))));
                    assert(self@.scopes =~= before.scopes);
                }
                Ok(Flow::Normal(Value::Nothing))
            },
            Builtin::Len => {
                let r = crate::builtin::len(span, vals);
                lift_exec(r, span, Ghost(crate::builtin::len_result(vals@.map_values(|v: Value| v@))))
            },
            Builtin::Exit => match crate::builtin::exit(span, vals) {
                Ok(c) => Ok(Flow::Exit(c)),
                Err(e) => Err(e),
            },
        }
    }

    fn run_while(&mut self, span: &Span, c: &Rc<Ast>, body: &Rc<Ast>, s: usize, f: u64) -> (out: Result<Flow, Error>)
        ensures
            (final(self)@, res_view(out)) == eval_while(old(self)@, *span, *c, *body, s, f as nat),
        decreases f, 1nat, 0nat,
    {
        let mut g = f;
        loop
            invariant
                g <= f,
                eval_while(old(self)@, *span, *c, *body, s, f as nat) == eval_while(self@, *span, *c, *body, s, g as nat),
            decreases g,
        {
            match self.run(c, s, g) {
                Ok(Flow::Normal(Value::Boolean(true))) => {
                    match self.run(body, s, g) {
                        Ok(Flow::Normal(_)) | Ok(Flow::Continue) => {
                            if g == 0 {
                                return Err(Error::runtime_str(span, "Evaluation step limit reached"));
                            }
                            g = g - 1;
                        },
                        Ok(Flow::Break) => { return Ok(Flow::Normal(Value::Nothing)); },
                        other => { return other; },
                    }
                },
                Ok(Flow::Normal(Value::Boolean(false))) => { return Ok(Flow::Normal(Value::Nothing)); },
                Ok(Flow::Normal(_)) => { return Err(Error::runtime_str(span, "While condition must be a boolean")); },
                other => { return other; },
            }
        }
    }

    fn run_for(&mut self, span: &Span, var: &String, source: &Rc<Ast>, body: &Rc<Ast>, s: usize, f: u64) -> (out: Result<Flow, Error>)
        ensures
            (final(self)@, res_view(out)) == eval_for_stmt(old(self)@, *span, *var, *source, *body, s, f as nat),
        decreases f, 2nat, 0nat,
    {
        let v = match self.run(source, s, f) {
            Ok(Flow::Normal(v)) => v,
            other => { return other; },
        };
        let mut it = match Value::iterator(&v, span) {
            Ok(it) => it,
            Err(e) => { return Err(e); },
        };
        let ghost items = it.remaining();
        let ghost st1 = self@;
        proof {
            assert(eval_for_stmt(old(self)@, *span, *var, *source, *body, s, f as nat) == eval_for(st1, *var, items, 0, *body, s, f as nat));
        }
        let ghost mut k: int = 0;
        loop
            invariant
                it.wf(),
                0 <= k <= items.len(),
                it.remaining() == items.skip(k),
                eval_for_stmt(old(self)@, *span, *var, *source, *body, s, f as nat) == eval_for(st1, *var, items, 0, *body, s, f as nat),
                eval_for(st1, *var, items, 0, *body, s, f as nat) == eval_for(self@, *var, items, k, *body, s, f as nat),
            decreases it.remaining().len(),
        {
            let item = match it.next() {
                Some(item) => item,
                None => {
                    proof { assert(items.skip(k).len() == 0); }
                    return Ok(Flow::Normal(Value::Nothing));
                },
            };
            proof {
                assert(items.skip(k).drop_first() =~= items.skip(k + 1));
                assert(items.skip(k)[0] == items[k]);
            }
            let ghost pre = self@;
            let inf = self.in_function(s);
            let ls = self.push_scope(Some(s), inf);
            self.declare(ls, var, item);
            let ghost mid = self@;
            proof {
                assert(mid == declare(push_scope(pre, Some(s), in_function(pre, s)), ls, var@, items[k]));
            }
            let r = self.run(body, ls, f);
            proof {
                assert(eval_for(pre, *var, items, k, *body, s, f as nat) == match eval(mid, *body, ls, f as nat).1 {
                    Ok(FlowView::Normal(_)) | Ok(FlowView::Continue) => eval_for(self@, *var, items, k + 1, *body, s, f as nat),
                    Ok(FlowView::Break) => (self@, Ok(FlowView::Normal(Val::Nothing))),
                    other => (self@, other),
                });
            }
            match r {
                Ok(Flow::Normal(_)) | Ok(Flow::Continue) => {},
                Ok(Flow::Break) => { return Ok(Flow::Normal(Value::Nothing)); },
                other => { return other; },
            }
            proof { k = k + 1; }
        }
    }
}

/// What a call gives once the body has run, as `call_result` says.
fn finish_call(r: Result<Flow, Error>, span: &Span) -> (out: Result<Flow, Error>)
    ensures
        res_view(out) == call_result(res_view(r), *span),
{
    match r {
        Ok(Flow::Return(v)) => Ok(Flow::Normal(v)),
        Ok(Flow::Normal(_)) => Ok(Flow::Normal(Value::Nothing)),
        Ok(Flow::Break) | Ok(Flow::Continue) => Err(Error::runtime_str(span, "`break` or `continue` outside of a loop")),
        other => other,
    }
}

/// The steps that a program may take: nesting depth and loop rounds.
pub const STEP_LIMIT: u64 = 18446744073709551615;

/// How a whole program ended.
#[derive(Debug)]
pub enum Completion {
    Value(Value),
    Exit(i64),
}

impl View for Completion {
    type V = CompletionView;

    open spec fn view(&self) -> CompletionView {
        match self {
            Completion::Value(v) => CompletionView::Value(v@),
            Completion::Exit(c) => CompletionView::Exit(*c),
        }
    }
}

pub open spec fn completion_view(r: Result<Completion, Error>) -> Result<CompletionView, Failure> {
    match r {
        Ok(c) => Ok(c@),
        Err(e) => Err(e@),
    }
}

impl Interpreter {
    /// Runs a whole program in a fresh root scope, which is not within a
    /// function.
    pub fn execute(&mut self, ast: &Rc<Ast>) -> (r: Result<Completion, Error>)
        ensures
            (final(self)@, completion_view(r)) == run_program(
                push_scope(old(self)@, None, false),
                *ast,
                old(self)@.scopes.len() as usize,
                STEP_LIMIT as nat,
            ),
    {
        let scope = self.push_scope(None, false);
        self.run_block_without_new_scope(ast, scope)
    }

    /// Runs the statements of a block directly in scope `scope`, so that what
    /// they declare stays there (as for successive inputs at a prompt).
    pub fn run_block_without_new_scope(&mut self, ast: &Rc<Ast>, scope: usize) -> (r: Result<Completion, Error>)
        ensures
            (final(self)@, completion_view(r)) == run_program(old(self)@, *ast, scope, STEP_LIMIT as nat),
    {
        match &**ast {
            Ast::Block(span, stmts) => {
                let r = self.run_seq(stmts, scope, STEP_LIMIT);
                match r {
                    Ok(Flow::Normal(v)) => Ok(Completion::Value(v)),
                    Ok(Flow::Return(v)) => Ok(Completion::Value(v)),
                    Ok(Flow::Exit(c)) => Ok(Completion::Exit(c)),
                    Ok(Flow::Break) | Ok(Flow::Continue) => Err(Error::runtime_str(span, "`break` or `continue` outside of a loop")),
                    Err(e) => Err(e),
                }
            },
            _ => Err(Error::runtime_str(ast.span(), "A program must be a block")),
        }
    }

    /// Hands over the lines that `print` has written, and forgets them.
    pub fn take_output(&mut self) -> (r: Vec<String>)
        ensures
            r@.map_values(|t: String| t@) == old(self)@.output,
            final(self)@ == (State { output: Seq::empty(), ..old(self)@ }),
    {
        let mut r: Vec<String> = Vec::new();
        std::mem::swap(&mut r, &mut self.output);
        proof {
            assert(self@.output =~= Seq::<Seq<char>>::empty());
        }
        r
    }
}

} // verus!
