//! Call frames and execution contexts: one frame per active call, holding
//! its bytecode cursor, operand-stack bookmark, environment pair, `this`
//! binding, constructor flag, and exception table.

use vstd::prelude::*;
use crate::bytecode::{Exception, Inst};
use crate::env::LexicalEnvironment;
use crate::value::Value;

verus! {

/// A call's environment pair: `variable_environment` receives new `var`
/// declarations and is fixed for the activation; `lexical_environment` is
/// the current scope and changes as nested blocks are entered and left, the
/// prior scopes being saved for LIFO restoration.
#[derive(Debug)]
pub struct ExecutionContext {
    pub variable_environment: usize,
    pub lexical_environment: usize,
    pub saved_lexical_environment: Vec<usize>,
}

impl ExecutionContext {
    pub fn new(env: usize) -> (r: ExecutionContext)
        ensures
            r.variable_environment == env,
            r.lexical_environment == env,
            r.saved_lexical_environment@ == Seq::<usize>::empty(),
    {
        let r = ExecutionContext {
            variable_environment: env,
            lexical_environment: env,
            saved_lexical_environment: Vec::new(),
        };
        proof {
            assert(r.saved_lexical_environment@ =~= Seq::<usize>::empty());
        }
        r
    }
}

/// One function activation: bytecode cursor, the operand-stack height at
/// entry (restored on return and on unwinding), the environment pair, the
/// `this` binding, the constructor flag, and this invocation's exception
/// table.
#[derive(Debug)]
pub struct Frame {
    pub execution_context: ExecutionContext,
    pub pc: usize,
    pub saved_stack_len: usize,
    pub bytecode: Vec<Inst>,
    pub exception_table: Vec<Exception>,
    pub this: Value,
    pub constructor_call: bool,
}

impl Frame {
    /// A frame entering execution: cursor at the first instruction, stack
    /// bookmark still to be set by the caller.
    pub fn new(
        execution_context: ExecutionContext,
        bytecode: Vec<Inst>,
        exception_table: Vec<Exception>,
        this: Value,
        constructor_call: bool,
    ) -> (r: Frame)
        ensures
            r.execution_context == execution_context,
            r.pc == 0,
            r.saved_stack_len == 0,
            r.bytecode == bytecode,
            r.exception_table == exception_table,
            r.this == this,
            r.constructor_call == constructor_call,
    {
        Frame {
            execution_context,
            pc: 0,
            saved_stack_len: 0,
            bytecode,
            exception_table,
            this,
            constructor_call,
        }
    }

    /// The frame's current scope, mutably.
    pub fn lex_env_mut<'a>(&self, envs: &'a mut Vec<LexicalEnvironment>) -> (r: Option<
        &'a mut LexicalEnvironment,
    >)
        ensures
            (r is Some) == (self.execution_context.lexical_environment < old(envs)@.len()),
            r matches Some(e) ==> *e == old(envs)@[self.execution_context.lexical_environment as int]
                && final(envs)@ == old(envs)@.update(
                self.execution_context.lexical_environment as int,
                *final(e),
            ),
            r is None ==> final(envs)@ == old(envs)@,
    {
        if self.execution_context.lexical_environment < envs.len() {
            Some(&mut envs[self.execution_context.lexical_environment])
        } else {
            None
        }
    }

    /// The frame's current scope.
    pub fn lex_env<'a>(&self, envs: &'a Vec<LexicalEnvironment>) -> (r: Option<
        &'a LexicalEnvironment,
    >)
        ensures
            match r {
                Some(e) => self.execution_context.lexical_environment < envs@.len() && e@
                    == envs@[self.execution_context.lexical_environment as int]@,
                None => self.execution_context.lexical_environment >= envs@.len(),
            },
    {
        if self.execution_context.lexical_environment < envs.len() {
            Some(&envs[self.execution_context.lexical_environment])
        } else {
            None
        }
    }
}

} // verus!
