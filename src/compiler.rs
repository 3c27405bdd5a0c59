use vstd::prelude::*;
use std::rc::Rc;
use crate::ast::{Ast, BinaryOp};
use crate::error::{Error, ErrorKind};
use crate::text::{join, int_text, count_text, same_text, extends, lemma_extends_transitive};
use crate::token::Span;

verus! {

broadcast use vstd::std_specs::vec::axiom_vec_index_decreases, lemma_extends_transitive;

/// Whether the translator handles every node of the tree: literals of
/// integers, strings and nothing, ranges, the four arithmetic operators,
/// blocks, calls of `print`, `for` loops, variables, declarations and
/// functions.
pub open spec fn supported(ast: Ast) -> bool
    decreases ast,
{
    match ast {
        Ast::IntegerLiteral(..) | Ast::StringLiteral(..) | Ast::Nothing(_) | Ast::Variable(..) => true,
        Ast::Range(_, a, b) => supported(*a) && supported(*b),
        Ast::Binary(_, op, l, r) => (op == BinaryOp::Plus || op == BinaryOp::Minus || op == BinaryOp::Multiply
            || op == BinaryOp::Divide) && supported(*l) && supported(*r),
        Ast::Block(_, stmts) => forall|i: int| 0 <= i < stmts@.len() ==> supported(*#[trigger] stmts@[i]),
        Ast::Call(_, callee, args) => match *callee {
            Ast::Variable(_, name) => name@ == "print"@ && forall|i: int| 0 <= i < args@.len() ==> supported(*#[trigger] args@[i]),
            _ => false,
        },
        Ast::For(_, _, source, body) => supported(*source) && supported(*body),
        Ast::VarDeclaration(_, _, value) => supported(*value),
        Ast::Function { body, .. } => supported(*body),
        _ => false,
    }
}

pub open spec fn prelude_text() -> Seq<char> {
    "#include \"runtime/value.h\"\n\nint main() {\n"@
}

/// Translates a syntax tree into the text of a C++ program that uses the
/// runtime library's value type.
pub struct Compiler {
    pub buf: String,
    pub counter: u64,
    pub fn_type: String,
}

impl Compiler {
    pub fn new() -> (r: Compiler)
        ensures
            r.buf@.len() == 0,
            r.counter == 0,
            r.fn_type@ == "std::function<Ref<Value>(vector<Ref<Value>>, const char *)>"@,
    {
        Compiler {
            buf: String::new(),
            counter: 0,
            fn_type: String::from_str("std::function<Ref<Value>(vector<Ref<Value>>, const char *)>"),
        }
    }

    /// The program's text: the prelude, the translated tree, and the closing
    /// brace. It fails exactly when the tree holds a node that the translator
    /// does not handle.
    pub fn compile(&mut self, ast: &Rc<Ast>) -> (r: Result<String, Error>)
        ensures
            r is Ok <==> supported(**ast),
            final(self).fn_type == old(self).fn_type,
            match r {
                Ok(code) => code@ == final(self).buf@ && extends(old(self).buf@ + prelude_text(), code@) && code@.len() >= 2
                    && code@.subrange(code@.len() - 2, code@.len() as int) == "}\n"@,
                Err(e) => e.kind == ErrorKind::Compiler,
            },
    {
        let ghost start = self.buf@;
        self.push("#include \"runtime/value.h\"\n\n");
        self.push("int main() {\n");
        proof {
            reveal_strlit("#include \"runtime/value.h\"\n\n");
            reveal_strlit("int main() {\n");
            reveal_strlit("#include \"runtime/value.h\"\n\nint main() {\n");
            assert(self.buf@ =~= start + prelude_text());
        }
        let ghost mid = self.buf@;
        match self.comp(ast) {
            Ok(()) => {},
            Err(e) => { return Err(e); },
        }
        let ghost before = self.buf@;
        self.push("}\n");
        proof {
            reveal_strlit("}\n");
            assert(self.buf@.subrange(self.buf@.len() - 2, self.buf@.len() as int) =~= "}\n"@);
        }
        Ok(self.buf.clone())
    }

    fn push(&mut self, t: &str)
        ensures
            final(self).buf@ == old(self).buf@ + t@,
            extends(old(self).buf@, final(self).buf@),
            final(self).counter == old(self).counter,
            final(self).fn_type == old(self).fn_type,
    {
        self.buf.append(t);
        proof { assert(self.buf@.subrange(0, old(self).buf@.len() as int) =~= old(self).buf@); }
    }

    /// A fresh name for a temporary of the generated code.
    fn uuid(&mut self) -> (r: String)
        ensures
            final(self).buf == old(self).buf,
            final(self).fn_type == old(self).fn_type,
    {
        let n = self.counter;
        self.counter = n.wrapping_add(1);
        join(String::from_str("__"), int_text(n as i64).as_str())
    }

    /// Translates a binary arithmetic node into a call of the value method `name`.
    fn comp_binary(&mut self, name: &str, left: &Rc<Ast>, right: &Rc<Ast>, span: &Span, whole: &Rc<Ast>) -> (r: Result<(), Error>)
        requires
            decreases_to!(**whole => **left),
            decreases_to!(**whole => **right),
        ensures
            r is Ok <==> supported(**left) && supported(**right),
            r matches Err(e) ==> e.kind == ErrorKind::Compiler,
            extends(old(self).buf@, final(self).buf@),
            final(self).fn_type == old(self).fn_type,
        decreases **whole, 0nat,
    {
        match self.comp(left) {
            Ok(()) => {},
            Err(e) => { return Err(e); },
        }
        let ghost b1 = self.buf@;
        self.push("->");
        self.push(name);
        self.push("(");
        let r = self.comp(right);
        let ghost b2 = self.buf@;
        match r {
            Ok(()) => {},
            Err(e) => { return Err(e); },
        }
        self.push(", ");
        self.comp_loc(span);
        self.push(")");
        Ok(())
    }

    fn comp(&mut self, ast: &Rc<Ast>) -> (r: Result<(), Error>)
        ensures
            r is Ok <==> supported(**ast),
            r matches Err(e) ==> e.kind == ErrorKind::Compiler,
            extends(old(self).buf@, final(self).buf@),
            final(self).fn_type == old(self).fn_type,
        decreases **ast, 1nat,
    {
        match &**ast {
            Ast::IntegerLiteral(_, val) => {
                self.push("Value::from_int(");
                self.push(int_text(*val).as_str());
                self.push(")");
            },
            Ast::StringLiteral(_, val) => {
                self.push("Value::from_string(\"");
                self.push(val.as_str());
                self.push("\")");
            },
            Ast::Nothing(_) => self.push("Nothing"),
            Ast::Range(_, start, end) => {
                self.push("Value::from_range(");
                match self.comp(start) {
                    Ok(()) => {},
                    Err(e) => { return Err(e); },
                }
                self.push(", ");
                match self.comp(end) {
                    Ok(()) => {},
                    Err(e) => { return Err(e); },
                }
                self.push(")");
            },
            Ast::Binary(span, op, left, right) => {
                let name = match op {
                    BinaryOp::Plus => "add",
                    BinaryOp::Minus => "sub",
                    BinaryOp::Multiply => "mul",
                    BinaryOp::Divide => "div",
                    _ => { return Err(compiler_error(span, "Not implemented yet")); },
                };
                return self.comp_binary(name, left, right, span, ast);
            },
            Ast::Block(_, stmts) => {
                self.push("{\n");
                let mut k: usize = 0;
                while k < stmts.len()
                    invariant
                        k <= stmts@.len(),
                        extends(old(self).buf@, self.buf@),
                        self.fn_type == old(self).fn_type,
                        forall|i: int| 0 <= i < k ==> supported(*#[trigger] stmts@[i]),
                        **ast is Block,
                        (**ast)->Block_1 == *stmts,
                    decreases stmts@.len() - k,
                {
                    proof {
                        assert(decreases_to!(**ast => (**ast)->Block_1));
                        assert(decreases_to!(*stmts => stmts[k as int]));
                    }
                    match self.comp(&stmts[k]) {
                        Ok(()) => {},
                        Err(e) => {
                            proof { assert(!supported(*stmts@[k as int])); }
                            return Err(e);
                        },
                    }
                    self.push(";\n");
                    k = k + 1;
                }
                self.push("}");
            },
            Ast::Call(span, lhs, args) => match &**lhs {
                Ast::Variable(_, name) => {
                    proof {
                        assert forall|i: int| 0 <= i < args@.len() implies decreases_to!(**ast => *args@[i]) by {
                            assert(decreases_to!(**ast => *args@[i]));
                        }
                    }
                    return self.comp_builtin_call(span, name, args, ast);
                },
                _ => { return Err(compiler_error(lhs.span(), "Not implemented yet")); },
            },
            Ast::For(_, var, iter, body) => {
                let itervar = self.uuid();
                self.push("{ Ref<Value> ");
                self.push(itervar.as_str());
                self.push(" = ");
                match self.comp(iter) {
                    Ok(()) => {},
                    Err(e) => { return Err(e); },
                }
                self.push("->iter(");
                self.comp_loc(iter.span());
                self.push(");\n");
                self.push("while (");
                self.push(itervar.as_str());
                self.push("->as_iter->has_next()) {\n");
                self.push("  Ref<Value> ");
                self.push(var.as_str());
                self.push(" = ");
                self.push(itervar.as_str());
                self.push("->as_iter->next();\n");
                match self.comp(body) {
                    Ok(()) => {},
                    Err(e) => { return Err(e); },
                }
                self.push("}}\n");
            },
            Ast::Variable(_, name) => self.push(name.as_str()),
            Ast::VarDeclaration(_, name, val) => {
                self.push("Ref<Value> ");
                self.push(name.as_str());
                self.push(" = ");
                match self.comp(val) {
                    Ok(()) => {},
                    Err(e) => { return Err(e); },
                }
            },
            Ast::Function { name, args, body, .. } => {
                let dbg_name = match name {
                    Some(n) => n.clone(),
                    None => self.uuid(),
                };
                let var = self.uuid();
                match name {
                    Some(n) => {
                        self.push("Ref<Value> ");
                        self.push(n.as_str());
                        self.push(" = ");
                    },
                    None => {},
                }
                let fn_type = self.fn_type.clone();
                self.push("({ ");
                self.push(fn_type.as_str());
                self.push(" *");
                self.push(var.as_str());
                self.push(" = new ");
                self.push(fn_type.as_str());
                self.push("([&](");
                let mut i: usize = 0;
                while i < args.len()
                    invariant
                        extends(old(self).buf@, self.buf@),
                        self.fn_type == old(self).fn_type,
                    decreases args@.len() - i,
                {
                    if i > 0 {
                        self.push(", ");
                    }
                    self.push("Ref<Value> ");
                    self.push(args[i].as_str());
                    i = i + 1;
                }
                self.push(") -> Ref<Value>");
                match self.comp(body) {
                    Ok(()) => {},
                    Err(e) => { return Err(e); },
                }
                self.push("); Value::from_func(\"");
                self.push(dbg_name.as_str());
                self.push("\", ");
                self.push(var.as_str());
                self.push("); })");
            },
            _ => { return Err(compiler_error(ast.span(), "Not implemented yet")); },
        }
        Ok(())
    }

    /// A call of a built-in function; only `print` is translated.
    fn comp_builtin_call(&mut self, span: &Span, name: &String, args: &Vec<Rc<Ast>>, whole: &Rc<Ast>) -> (r: Result<(), Error>)
        requires
            forall|i: int| 0 <= i < args@.len() ==> decreases_to!(**whole => *args@[i]),
        ensures
            r is Ok <==> name@ == "print"@ && forall|i: int| 0 <= i < args@.len() ==> supported(*#[trigger] args@[i]),
            r matches Err(e) ==> e.kind == ErrorKind::Compiler,
            extends(old(self).buf@, final(self).buf@),
            final(self).fn_type == old(self).fn_type,
        decreases **whole, 0nat,
    {
        if !same_text(name, "print") {
            return Err(compiler_error(span, "Unknown builtin function"));
        }
        let var = self.uuid();
        self.push("({ vector<Ref<Value>> ");
        self.push(var.as_str());
        self.push(";\n");
        let mut k: usize = 0;
        while k < args.len()
            invariant
                k <= args@.len(),
                extends(old(self).buf@, self.buf@),
                self.fn_type == old(self).fn_type,
                forall|i: int| 0 <= i < k ==> supported(*#[trigger] args@[i]),
                forall|i: int| 0 <= i < args@.len() ==> decreases_to!(**whole => *args@[i]),
            decreases args@.len() - k,
        {
            self.push("  ");
            self.push(var.as_str());
            self.push(".push_back(");
            match self.comp(&args[k]) {
                Ok(()) => {},
                Err(e) => { return Err(e); },
            }
            self.push(");\n");
            k = k + 1;
        }
        self.push(name.as_str());
        self.push("(move(");
        self.push(var.as_str());
        self.push("), ");
        self.comp_loc(span);
        self.push("); })");
        Ok(())
    }

    /// The source location of a node, as a string literal of the generated code.
    fn comp_loc(&mut self, span: &Span)
        ensures
            extends(old(self).buf@, final(self).buf@),
            final(self).counter == old(self).counter,
            final(self).fn_type == old(self).fn_type,
    {
        let loc = &span.0;
        self.push("\"");
        self.push(loc.filename.as_str());
        self.push(":");
        self.push(count_text(loc.line).as_str());
        self.push(":");
        self.push(count_text(loc.column).as_str());
        self.push("\"");
    }
}

fn compiler_error(span: &Span, message: &str) -> (r: Error)
    ensures
        r.kind == ErrorKind::Compiler,
{
    Error { kind: ErrorKind::Compiler, span: span.duplicate(), message: String::from_str(message) }
}

} // verus!
