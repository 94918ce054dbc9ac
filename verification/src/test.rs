//! Whole-engine helpers: parse, compile and run a script, and compare or
//! probe the outcome. These are the seams the test suite drives.

use vstd::prelude::*;
use crate::parser::Parser;
use crate::value::{str_eq, Value};
use crate::vm::VM;

verus! {

/// Execute the given code and hand back the inspector image of its
/// completion value, or a one-line description of the failure.
pub fn execute_script(text: String) -> Result<String, String> {
    let mut vm = VM::new();
    let mut parser = Parser::new("test", text);
    let node = match parser.parse_all() {
        Ok(n) => n,
        Err(e) => {
            return Err(e.describe());
        },
    };
    let info = match vm.compile(&node, true) {
        Ok(i) => i,
        Err(e) => {
            return Err(e.msg);
        },
    };
    match vm.run_global(info) {
        Ok(()) => {},
        Err(e) => {
            return Err(e.describe());
        },
    }
    let val = match vm.stack.pop() {
        Some(v) => v,
        None => Value::Undefined,
    };
    Ok(val.debug_string(true))
}

/// Execute the given code and the given answer, and report whether both
/// succeeded with the same displayed value.
pub fn test_code(code: &str, answer: &str) -> bool {
    let ra = execute_script(code.to_owned());
    let rb = execute_script(answer.to_owned());
    match (ra, rb) {
        (Ok(a), Ok(b)) => str_eq(a.as_str(), b.as_str()),
        _ => false,
    }
}

/// Execute the given code, expecting a runtime failure: the description of
/// the error if the script parses, compiles, and then fails while running;
/// `None` when it runs to completion or never reaches execution.
pub fn runtime_error(text: &str) -> Option<String> {
    let mut vm = VM::new();
    let mut parser = Parser::new("test", text.to_owned());
    let node = match parser.parse_all() {
        Ok(n) => n,
        Err(_) => {
            return None;
        },
    };
    let info = match vm.compile(&node, true) {
        Ok(i) => i,
        Err(_) => {
            return None;
        },
    };
    match vm.run_global(info) {
        Ok(()) => None,
        Err(e) => Some(e.describe()),
    }
}

/// The lines `console.log` wrote during the last run, in order.
pub fn drain_output(vm: &mut VM) -> (r: Vec<String>)
    ensures
        final(vm).output@.len() == 0,
        r@ == old(vm).output@,
{
    let mut out: Vec<String> = Vec::new();
    core::mem::swap(&mut out, &mut vm.output);
    out
}

} // verus!
