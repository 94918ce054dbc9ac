//! The code generator: from the AST to bytecode, a constant pool, and
//! per-function exception tables.

use vstd::prelude::*;
use crate::bytecode::{Constant, Exception, FuncTemplate, Inst};
use crate::parser::{BinOp, Node, UnOp};
use crate::vm::VM;

verus! {

/// The compiled form of the whole program: its bytecode and exception
/// table; function bodies live in the engine's constant pool.
#[derive(Debug)]
pub struct CodeInfo {
    pub bytecode: Vec<Inst>,
    pub exception_table: Vec<Exception>,
}

/// A compilation failure.
#[derive(Debug)]
pub struct CodegenError {
    pub msg: String,
}

const CODEGEN_FUEL: usize = 1000000;

fn codegen_error(msg: &str) -> CodegenError {
    CodegenError { msg: msg.to_owned() }
}

fn clone_strings(v: &Vec<String>) -> (r: Vec<String>)
    ensures
        r@ == v@,
{
    let mut out: Vec<String> = Vec::new();
    let n = v.len();
    let mut i: usize = 0;
    while i < n
        invariant
            i <= n,
            n == v@.len(),
            out@ == v@.take(i as int),
        decreases n - i,
    {
        out.push(v[i].clone());
        proof {
            assert(out@ =~= v@.take(i + 1));
        }
        i = i + 1;
    }
    proof {
        assert(v@.take(n as int) =~= v@);
    }
    out
}

impl VM {
    fn add_const_str(&mut self, s: &str) -> (r: usize)
        ensures
            final(self).envs@ == old(self).envs@,
            final(self).memory_allocator@ == old(self).memory_allocator@,
            final(self).global_env == old(self).global_env,
            final(self).object_prototypes == old(self).object_prototypes,
            final(self).stack@ == old(self).stack@,
    {
        self.constant_table.push(Constant::Str(s.to_owned()));
        self.constant_table.len() - 1
    }

    /// Compile a parsed program. With `use_value` set, the last top-level
    /// expression statement leaves its value on the operand stack for the
    /// host to read.
    pub fn compile(&mut self, node: &Node, use_value: bool) -> (r: Result<CodeInfo, CodegenError>)
        ensures
            final(self).envs@ == old(self).envs@,
            final(self).memory_allocator@ == old(self).memory_allocator@,
            final(self).global_env == old(self).global_env,
            final(self).object_prototypes == old(self).object_prototypes,
            final(self).stack@ == old(self).stack@,
    {
        let mut code: Vec<Inst> = Vec::new();
        let mut ex: Vec<Exception> = Vec::new();
        match node {
            Node::StatementList(stmts) => {
                self.compile_stmts(&mut code, &mut ex, stmts, use_value, CODEGEN_FUEL)?;
            },
            _ => {
                self.compile_stmt(&mut code, &mut ex, node, use_value, CODEGEN_FUEL)?;
            },
        }
        Ok(CodeInfo { bytecode: code, exception_table: ex })
    }

    fn compile_stmts(
        &mut self,
        code: &mut Vec<Inst>,
        ex: &mut Vec<Exception>,
        stmts: &Vec<Node>,
        use_value: bool,
        fuel: usize,
    ) -> (r: Result<(), CodegenError>)
        ensures
            final(self).envs@ == old(self).envs@,
            final(self).memory_allocator@ == old(self).memory_allocator@,
            final(self).global_env == old(self).global_env,
            final(self).object_prototypes == old(self).object_prototypes,
            final(self).stack@ == old(self).stack@,
            final(code)@.len() >= old(code)@.len(),
            final(ex)@.len() >= old(ex)@.len(),
        decreases fuel, 1int,
    {
        if fuel == 0 {
            return Err(codegen_error("program too deeply nested"));
        }
        let sub = (fuel - 1) as usize;
        let n = stmts.len();
        let mut i: usize = 0;
        while i < n
            invariant
                i <= n,
                n == stmts@.len(),
                sub < fuel,
                code@.len() >= old(code)@.len(),
                ex@.len() >= old(ex)@.len(),
                self.envs@ == old(self).envs@,
                self.memory_allocator@ == old(self).memory_allocator@,
                self.global_env == old(self).global_env,
                self.object_prototypes == old(self).object_prototypes,
                self.stack@ == old(self).stack@,
            decreases n - i,
        {
            let keep = use_value && i == n - 1;
            self.compile_stmt(code, ex, &stmts[i], keep, sub)?;
            i = i + 1;
        }
        Ok(())
    }

    fn compile_stmt(
        &mut self,
        code: &mut Vec<Inst>,
        ex: &mut Vec<Exception>,
        n: &Node,
        keep: bool,
        fuel: usize,
    ) -> (r: Result<(), CodegenError>)
        ensures
            final(self).envs@ == old(self).envs@,
            final(self).memory_allocator@ == old(self).memory_allocator@,
            final(self).global_env == old(self).global_env,
            final(self).object_prototypes == old(self).object_prototypes,
            final(self).stack@ == old(self).stack@,
            final(code)@.len() >= old(code)@.len(),
            final(ex)@.len() >= old(ex)@.len(),
        decreases fuel, 2int,
    {
        if fuel == 0 {
            return Err(codegen_error("program too deeply nested"));
        }
        let sub = (fuel - 1) as usize;
        match n {
            Node::LetDecl(name, init) => {
                let k = self.add_const_str(name.as_str());
                code.push(Inst::DeclLet(k));
                match init {
                    Some(e) => {
                        self.compile_expr(code, ex, e, sub)?;
                        code.push(Inst::SetName(k));
                        code.push(Inst::Pop);
                    },
                    None => {},
                }
                if keep {
                    code.push(Inst::PushUndefined);
                }
                Ok(())
            },
            Node::VarDecl(name, init) => {
                let k = self.add_const_str(name.as_str());
                code.push(Inst::DeclVar(k));
                match init {
                    Some(e) => {
                        self.compile_expr(code, ex, e, sub)?;
                        code.push(Inst::SetName(k));
                        code.push(Inst::Pop);
                    },
                    None => {},
                }
                if keep {
                    code.push(Inst::PushUndefined);
                }
                Ok(())
            },
            Node::Block(stmts) => {
                code.push(Inst::PushScope);
                self.compile_stmts(code, ex, stmts, false, sub)?;
                code.push(Inst::PopScope);
                if keep {
                    code.push(Inst::PushUndefined);
                }
                Ok(())
            },
            Node::IfStmt(cond, then_body, else_body) => {
                self.compile_expr(code, ex, cond, sub)?;
                let j1 = code.len();
                code.push(Inst::JumpIfFalse(0));
                self.compile_stmts(code, ex, then_body, false, sub)?;
                let j2 = code.len();
                code.push(Inst::Jump(0));
                let else_at = code.len();
                code[j1] = Inst::JumpIfFalse(else_at);
                self.compile_stmts(code, ex, else_body, false, sub)?;
                let end_at = code.len();
                code[j2] = Inst::Jump(end_at);
                if keep {
                    code.push(Inst::PushUndefined);
                }
                Ok(())
            },
            Node::WhileStmt(cond, body) => {
                let top = code.len();
                self.compile_expr(code, ex, cond, sub)?;
                let j = code.len();
                code.push(Inst::JumpIfFalse(0));
                self.compile_stmts(code, ex, body, false, sub)?;
                code.push(Inst::Jump(top));
                let end_at = code.len();
                code[j] = Inst::JumpIfFalse(end_at);
                if keep {
                    code.push(Inst::PushUndefined);
                }
                Ok(())
            },
            Node::ForStmt(init, cond, step, body) => {
                code.push(Inst::PushScope);
                match init {
                    Some(s) => {
                        self.compile_stmt(code, ex, s, false, sub)?;
                    },
                    None => {},
                }
                let top = code.len();
                let j: Option<usize> = match cond {
                    Some(c) => {
                        self.compile_expr(code, ex, c, sub)?;
                        let j = code.len();
                        code.push(Inst::JumpIfFalse(0));
                        Some(j)
                    },
                    None => None,
                };
                self.compile_stmts(code, ex, body, false, sub)?;
                match step {
                    Some(st) => {
                        self.compile_expr(code, ex, st, sub)?;
                        code.push(Inst::Pop);
                    },
                    None => {},
                }
                code.push(Inst::Jump(top));
                let end_at = code.len();
                match j {
                    Some(ji) => {
                        if ji < code.len() {
                            code[ji] = Inst::JumpIfFalse(end_at);
                        }
                    },
                    None => {},
                }
                code.push(Inst::PopScope);
                if keep {
                    code.push(Inst::PushUndefined);
                }
                Ok(())
            },
            Node::ReturnStmt(e) => {
                match e {
                    Some(expr) => {
                        self.compile_expr(code, ex, expr, sub)?;
                    },
                    None => {
                        code.push(Inst::PushUndefined);
                    },
                }
                code.push(Inst::Return);
                Ok(())
            },
            Node::ThrowStmt(e) => {
                self.compile_expr(code, ex, e, sub)?;
                code.push(Inst::Throw);
                Ok(())
            },
            Node::TryStmt(try_body, name, catch_body) => {
                code.push(Inst::PushScope);
                let start = code.len();
                self.compile_stmts(code, ex, try_body, false, sub)?;
                let end = code.len();
                code.push(Inst::PopScope);
                let j = code.len();
                code.push(Inst::Jump(0));
                let handler = code.len();
                code.push(Inst::PopScope);
                code.push(Inst::PushScope);
                let k = self.add_const_str(name.as_str());
                code.push(Inst::DeclLet(k));
                code.push(Inst::SetName(k));
                code.push(Inst::Pop);
                self.compile_stmts(code, ex, catch_body, false, sub)?;
                code.push(Inst::PopScope);
                let end_at = code.len();
                code[j] = Inst::Jump(end_at);
                ex.push(Exception { start, end, dst: handler });
                if keep {
                    code.push(Inst::PushUndefined);
                }
                Ok(())
            },
            _ => {
                self.compile_expr(code, ex, n, sub)?;
                if !keep {
                    code.push(Inst::Pop);
                }
                Ok(())
            },
        }
    }

    fn compile_expr(
        &mut self,
        code: &mut Vec<Inst>,
        ex: &mut Vec<Exception>,
        n: &Node,
        fuel: usize,
    ) -> (r: Result<(), CodegenError>)
        ensures
            final(self).envs@ == old(self).envs@,
            final(self).memory_allocator@ == old(self).memory_allocator@,
            final(self).global_env == old(self).global_env,
            final(self).object_prototypes == old(self).object_prototypes,
            final(self).stack@ == old(self).stack@,
            final(code)@.len() >= old(code)@.len(),
            final(ex)@.len() >= old(ex)@.len(),
        decreases fuel, 3int,
    {
        if fuel == 0 {
            return Err(codegen_error("program too deeply nested"));
        }
        let sub = (fuel - 1) as usize;
        match n {
            Node::Number(v) => {
                code.push(Inst::PushInt(*v));
                Ok(())
            },
            Node::Str(s) => {
                let k = self.add_const_str(s.as_str());
                code.push(Inst::PushStr(k));
                Ok(())
            },
            Node::Boolean(b) => {
                code.push(Inst::PushBool(*b));
                Ok(())
            },
            Node::Null => {
                code.push(Inst::PushNull);
                Ok(())
            },
            Node::Undefined => {
                code.push(Inst::PushUndefined);
                Ok(())
            },
            Node::Nan => {
                code.push(Inst::PushNan);
                Ok(())
            },
            Node::This => {
                code.push(Inst::PushThis);
                Ok(())
            },
            Node::Ident(name) => {
                let k = self.add_const_str(name.as_str());
                code.push(Inst::GetName(k));
                Ok(())
            },
            Node::ObjectLit(props) => {
                code.push(Inst::CreateObject);
                let np = props.len();
                let mut i: usize = 0;
                while i < np
                    invariant
                        i <= np,
                        np == props@.len(),
                        sub < fuel,
                        code@.len() >= old(code)@.len(),
                        ex@.len() >= old(ex)@.len(),
                        self.envs@ == old(self).envs@,
                        self.memory_allocator@ == old(self).memory_allocator@,
                        self.global_env == old(self).global_env,
                        self.object_prototypes == old(self).object_prototypes,
                        self.stack@ == old(self).stack@,
                    decreases np - i,
                {
                    self.compile_expr(code, ex, &props[i].1, sub)?;
                    let k = self.add_const_str(props[i].0.as_str());
                    code.push(Inst::InitProp(k));
                    i = i + 1;
                }
                Ok(())
            },
            Node::Member(obj, name) => {
                self.compile_expr(code, ex, obj, sub)?;
                let k = self.add_const_str(name.as_str());
                code.push(Inst::GetMember(k));
                Ok(())
            },
            Node::Index(obj, idx) => {
                self.compile_expr(code, ex, obj, sub)?;
                self.compile_expr(code, ex, idx, sub)?;
                code.push(Inst::GetIndex);
                Ok(())
            },
            Node::Call(callee, args) => {
                self.compile_expr(code, ex, callee, sub)?;
                let na = args.len();
                let mut i: usize = 0;
                while i < na
                    invariant
                        i <= na,
                        na == args@.len(),
                        sub < fuel,
                        code@.len() >= old(code)@.len(),
                        ex@.len() >= old(ex)@.len(),
                        self.envs@ == old(self).envs@,
                        self.memory_allocator@ == old(self).memory_allocator@,
                        self.global_env == old(self).global_env,
                        self.object_prototypes == old(self).object_prototypes,
                        self.stack@ == old(self).stack@,
                    decreases na - i,
                {
                    self.compile_expr(code, ex, &args[i], sub)?;
                    i = i + 1;
                }
                code.push(Inst::Call(na));
                Ok(())
            },
            Node::NewCall(callee, args) => {
                self.compile_expr(code, ex, callee, sub)?;
                let na = args.len();
                let mut i: usize = 0;
                while i < na
                    invariant
                        i <= na,
                        na == args@.len(),
                        sub < fuel,
                        code@.len() >= old(code)@.len(),
                        ex@.len() >= old(ex)@.len(),
                        self.envs@ == old(self).envs@,
                        self.memory_allocator@ == old(self).memory_allocator@,
                        self.global_env == old(self).global_env,
                        self.object_prototypes == old(self).object_prototypes,
                        self.stack@ == old(self).stack@,
                    decreases na - i,
                {
                    self.compile_expr(code, ex, &args[i], sub)?;
                    i = i + 1;
                }
                code.push(Inst::New(na));
                Ok(())
            },
            Node::Arrow(params, body) => {
                let mut fcode: Vec<Inst> = Vec::new();
                let mut fex: Vec<Exception> = Vec::new();
                self.compile_stmts(&mut fcode, &mut fex, body, false, sub)?;
                fcode.push(Inst::PushUndefined);
                fcode.push(Inst::Return);
                let ps = clone_strings(params);
                self.constant_table.push(
                    Constant::Func(
                        FuncTemplate { params: ps, bytecode: fcode, exception_table: fex },
                    ),
                );
                let idx = self.constant_table.len() - 1;
                code.push(Inst::CreateFunction(idx));
                Ok(())
            },
            Node::Binary(op, a, b) => {
                self.compile_expr(code, ex, a, sub)?;
                self.compile_expr(code, ex, b, sub)?;
                let inst = match op {
                    BinOp::Add => Inst::Add,
                    BinOp::Sub => Inst::Sub,
                    BinOp::Mul => Inst::Mul,
                    BinOp::Div => Inst::Div,
                    BinOp::Rem => Inst::Rem,
                    BinOp::Lt => Inst::Lt,
                    BinOp::Gt => Inst::Gt,
                    BinOp::Le => Inst::Le,
                    BinOp::Ge => Inst::Ge,
                    BinOp::Eq => Inst::Eq,
                    BinOp::Ne => Inst::Ne,
                    BinOp::SEq => Inst::SEq,
                    BinOp::SNe => Inst::SNe,
                };
                code.push(inst);
                Ok(())
            },
            Node::Unary(op, a) => {
                self.compile_expr(code, ex, a, sub)?;
                let inst = match op {
                    UnOp::Plus => Inst::Plus,
                    UnOp::Minus => Inst::Neg,
                    UnOp::Not => Inst::Not,
                };
                code.push(inst);
                Ok(())
            },
            Node::PostIncr(target) => {
                match &**target {
                    Node::Ident(name) => {
                        let k = self.add_const_str(name.as_str());
                        code.push(Inst::GetName(k));
                        code.push(Inst::Plus);
                        code.push(Inst::Dup);
                        code.push(Inst::PushInt(1));
                        code.push(Inst::Add);
                        code.push(Inst::SetName(k));
                        code.push(Inst::Pop);
                        Ok(())
                    },
                    _ => Err(codegen_error("unsupported increment target")),
                }
            },
            Node::Assign(target, value) => {
                match &**target {
                    Node::Ident(name) => {
                        let k = self.add_const_str(name.as_str());
                        self.compile_expr(code, ex, value, sub)?;
                        code.push(Inst::SetName(k));
                        Ok(())
                    },
                    Node::Member(obj, name) => {
                        self.compile_expr(code, ex, obj, sub)?;
                        let k = self.add_const_str(name.as_str());
                        self.compile_expr(code, ex, value, sub)?;
                        code.push(Inst::SetMember(k));
                        Ok(())
                    },
                    _ => Err(codegen_error("unsupported assignment target")),
                }
            },
            _ => Err(codegen_error("statement in expression position")),
        }
    }
}

} // verus!
