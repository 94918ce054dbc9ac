//! The bytecode format the compiler hands to the interpreter: instructions,
//! per-function exception tables, and the constant pool.

use vstd::prelude::*;

verus! {

/// One exception-table entry: while `start <= pc < end`, a thrown error
/// redirects control to `dst` in the same frame.
#[derive(Clone, Copy, Debug, PartialEq, Eq, Structural)]
pub struct Exception {
    pub start: usize,
    pub end: usize,
    pub dst: usize,
}

/// One instruction. String payloads live in the constant pool and are
/// referenced by index; function payloads are templates in the same pool.
#[derive(Clone, Copy, Debug, PartialEq, Eq, Structural)]
pub enum Inst {
    PushInt(i64),
    PushNan,
    PushBool(bool),
    PushStr(usize),
    PushUndefined,
    PushNull,
    PushThis,
    Pop,
    Dup,
    Add,
    Sub,
    Mul,
    Div,
    Rem,
    Lt,
    Gt,
    Le,
    Ge,
    Eq,
    Ne,
    SEq,
    SNe,
    Not,
    Neg,
    Plus,
    GetName(usize),
    SetName(usize),
    DeclLet(usize),
    DeclVar(usize),
    GetMember(usize),
    SetMember(usize),
    InitProp(usize),
    GetIndex,
    CreateObject,
    CreateFunction(usize),
    Call(usize),
    New(usize),
    Return,
    Throw,
    Jump(usize),
    JumpIfFalse(usize),
    PushScope,
    PopScope,
}

/// The compiled form of one function: parameter names, bytecode, and the
/// exception table for that invocation.
#[derive(Debug)]
pub struct FuncTemplate {
    pub params: Vec<String>,
    pub bytecode: Vec<Inst>,
    pub exception_table: Vec<Exception>,
}

/// One constant-pool entry.
#[derive(Debug)]
pub enum Constant {
    Str(String),
    Func(FuncTemplate),
}

/// The first exception-table entry whose range covers `pc`.
pub open spec fn spec_find_handler(t: Seq<Exception>, pc: int) -> Option<Exception>
    decreases t.len(),
{
    if t.len() == 0 {
        None
    } else if t[0].start <= pc < t[0].end {
        Some(t[0])
    } else {
        spec_find_handler(t.drop_first(), pc)
    }
}

/// Scan the exception table for a handler covering `pc`.
pub fn find_handler(t: &Vec<Exception>, pc: usize) -> (r: Option<Exception>)
    ensures
        r == spec_find_handler(t@, pc as int),
{
    let n = t.len();
    let mut i: usize = 0;
    proof {
        assert(t@.skip(0) =~= t@);
    }
    while i < n
        invariant
            i <= n,
            n == t@.len(),
            spec_find_handler(t@, pc as int) == spec_find_handler(t@.skip(i as int), pc as int),
        decreases n - i,
    {
        let e = t[i];
        proof {
            assert(t@.skip(i as int)[0] == t@[i as int]);
            assert(t@.skip(i as int).drop_first() =~= t@.skip(i + 1));
        }
        if e.start <= pc && pc < e.end {
            return Some(e);
        }
        i = i + 1;
    }
    proof {
        assert(t@.skip(n as int) =~= Seq::<Exception>::empty());
    }
    None
}

} // verus!
