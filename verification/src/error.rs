//! The runtime error taxonomy: every failing core operation returns one of
//! these kinds, and the interpreter loop alone decides whether it is caught
//! by an exception table or propagated.

use vstd::prelude::*;
use crate::value::Value;

verus! {

/// A typed runtime error. `Reference` covers identifiers used before
/// declaration and undeclared assignment targets; `Type` covers operations
/// applied to values of the wrong runtime type; `General` is the catch-all
/// for malformed builtin invocations; `Exception` carries a value thrown by
/// user code, routed through the same channel as native errors.
#[derive(Debug)]
pub enum RuntimeError {
    Reference(String),
    Type(String),
    General(String),
    Exception(Value),
}

/// The message for a name that cannot be resolved or is read before its
/// initializer has run.
pub open spec fn spec_not_defined_msg(name: Seq<char>) -> Seq<char> {
    seq!['\''] + name + "' is not defined"@
}

/// The message for an assignment whose target is declared nowhere.
pub open spec fn spec_undeclared_msg(name: Seq<char>) -> Seq<char> {
    "Assignment to undeclared identifier '"@ + name + seq!['\'']
}

pub fn not_defined_error(name: &str) -> (r: RuntimeError)
    ensures
        r matches RuntimeError::Reference(m) && m@ == spec_not_defined_msg(name@),
{
    let mut s = String::new();
    s.append("'");
    s.append(name);
    s.append("' is not defined");
    proof {
        reveal_strlit("'");
        assert(s@ =~= spec_not_defined_msg(name@));
    }
    RuntimeError::Reference(s)
}

pub fn undeclared_error(name: &str) -> (r: RuntimeError)
    ensures
        r matches RuntimeError::Reference(m) && m@ == spec_undeclared_msg(name@),
{
    let mut s = String::new();
    s.append("Assignment to undeclared identifier '");
    s.append(name);
    s.append("'");
    proof {
        reveal_strlit("'");
        assert(s@ =~= spec_undeclared_msg(name@));
    }
    RuntimeError::Reference(s)
}

pub fn type_error(msg: &str) -> (r: RuntimeError)
    ensures
        r matches RuntimeError::Type(m) && m@ == msg@,
{
    RuntimeError::Type(msg.to_owned())
}

pub fn general_error(msg: &str) -> (r: RuntimeError)
    ensures
        r matches RuntimeError::General(m) && m@ == msg@,
{
    RuntimeError::General(msg.to_owned())
}

impl RuntimeError {
    /// The value the catch binding receives: a thrown value as it was, a
    /// native error as its message string.
    pub fn to_value(&self) -> (r: Value)
        ensures
            match self {
                RuntimeError::Exception(v) => r@ == v@,
                RuntimeError::Reference(m) => r@ == crate::value::ValueV::String(m@),
                RuntimeError::Type(m) => r@ == crate::value::ValueV::String(m@),
                RuntimeError::General(m) => r@ == crate::value::ValueV::String(m@),
            },
    {
        match self {
            RuntimeError::Exception(v) => v.clone(),
            RuntimeError::Reference(m) => Value::String(m.clone()),
            RuntimeError::Type(m) => Value::String(m.clone()),
            RuntimeError::General(m) => Value::String(m.clone()),
        }
    }

    /// A one-line description, kind first.
    pub fn describe(&self) -> (r: String)
        ensures
            r@ == match self {
                RuntimeError::Reference(m) => "ReferenceError: "@ + m@,
                RuntimeError::Type(m) => "TypeError: "@ + m@,
                RuntimeError::General(m) => "Error: "@ + m@,
                RuntimeError::Exception(v) => "Thrown: "@ + crate::value::spec_debug_chars(
                    v@,
                    true,
                ),
            },
    {
        let mut s = String::new();
        match self {
            RuntimeError::Reference(m) => {
                s.append("ReferenceError: ");
                s.append(m.as_str());
            },
            RuntimeError::Type(m) => {
                s.append("TypeError: ");
                s.append(m.as_str());
            },
            RuntimeError::General(m) => {
                s.append("Error: ");
                s.append(m.as_str());
            },
            RuntimeError::Exception(v) => {
                s.append("Thrown: ");
                let d = v.debug_string(true);
                s.append(d.as_str());
            },
        }
        proof {
            assert(s@ =~= match self {
                RuntimeError::Reference(m) => "ReferenceError: "@ + m@,
                RuntimeError::Type(m) => "TypeError: "@ + m@,
                RuntimeError::General(m) => "Error: "@ + m@,
                RuntimeError::Exception(v) => "Thrown: "@ + crate::value::spec_debug_chars(
                    v@,
                    true,
                ),
            });
        }
        s
    }
}

} // verus!
