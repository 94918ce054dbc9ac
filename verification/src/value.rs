//! The tagged value representation and strict equality.

use vstd::prelude::*;
use crate::numeric::{
    spec_number_to_chars, spec_parse_decimal, push_int_dec, JsNumber,
};

verus! {

/// A runtime value: the tagged union every other part of the engine works
/// on. `Object` carries a handle into the object arena; `Symbol` carries the
/// unique id drawn when the symbol was created. `Uninitialized` is the
/// internal sentinel for `let` bindings before their initializer has run
/// (the temporal dead zone); it is never handed to user code.
#[derive(Debug)]
pub enum Value {
    Number(JsNumber),
    Bool(bool),
    String(String),
    Undefined,
    Null,
    Object(usize),
    Symbol(u64),
    Uninitialized,
}

/// Mathematical image of a `Value`: strings become character sequences,
/// handles and ids become unbounded integers.
#[verifier::ext_equal]
pub enum ValueV {
    Number(JsNumber),
    Bool(bool),
    String(Seq<char>),
    Undefined,
    Null,
    Object(int),
    Symbol(int),
    Uninitialized,
}

impl View for Value {
    type V = ValueV;

    open spec fn view(&self) -> ValueV {
        match self {
            Value::Number(n) => ValueV::Number(*n),
            Value::Bool(b) => ValueV::Bool(*b),
            Value::String(s) => ValueV::String(s@),
            Value::Undefined => ValueV::Undefined,
            Value::Null => ValueV::Null,
            Value::Object(h) => ValueV::Object(*h as int),
            Value::Symbol(i) => ValueV::Symbol(*i as int),
            Value::Uninitialized => ValueV::Uninitialized,
        }
    }
}

/// Strict (`===`) equality: same variant, same payload, no coercion.
/// The numeric `Nan` is unequal to everything, itself included; object
/// equality is identity of the heap handle.
pub open spec fn spec_strict_eq(a: ValueV, b: ValueV) -> bool {
    match (a, b) {
        (ValueV::Number(JsNumber::Int(x)), ValueV::Number(JsNumber::Int(y))) => x == y,
        (ValueV::Number(_), ValueV::Number(_)) => false,
        (ValueV::Bool(x), ValueV::Bool(y)) => x == y,
        (ValueV::String(x), ValueV::String(y)) => x == y,
        (ValueV::Undefined, ValueV::Undefined) => true,
        (ValueV::Null, ValueV::Null) => true,
        (ValueV::Object(x), ValueV::Object(y)) => x == y,
        (ValueV::Symbol(x), ValueV::Symbol(y)) => x == y,
        (ValueV::Uninitialized, ValueV::Uninitialized) => true,
        _ => false,
    }
}

/// Truthiness under boolean coercion: zero, `Nan`, the empty string,
/// `undefined` and `null` are false; every object and symbol is true.
pub open spec fn spec_to_boolean(a: ValueV) -> bool {
    match a {
        ValueV::Number(JsNumber::Int(x)) => x != 0,
        ValueV::Number(JsNumber::Nan) => false,
        ValueV::Bool(b) => b,
        ValueV::String(s) => s.len() != 0,
        ValueV::Undefined => false,
        ValueV::Null => false,
        ValueV::Object(_) => true,
        ValueV::Symbol(_) => true,
        ValueV::Uninitialized => false,
    }
}

/// Numeric coercion: booleans become 0 or 1, `null` becomes 0, strings are
/// parsed as decimal literals, and everything else is `Nan`.
pub open spec fn spec_to_number(a: ValueV) -> JsNumber {
    match a {
        ValueV::Number(n) => n,
        ValueV::Bool(b) => if b { JsNumber::Int(1) } else { JsNumber::Int(0) },
        ValueV::String(s) => spec_parse_decimal(s),
        ValueV::Null => JsNumber::Int(0),
        _ => JsNumber::Nan,
    }
}

/// Display image of a value, optionally quoting strings as the inspector
/// output does.
pub open spec fn spec_debug_chars(a: ValueV, quote: bool) -> Seq<char> {
    match a {
        ValueV::Number(n) => spec_number_to_chars(n),
        ValueV::Bool(b) => if b { "true"@ } else { "false"@ },
        ValueV::String(s) => if quote { seq!['\''] + s + seq!['\''] } else { s },
        ValueV::Undefined => "undefined"@,
        ValueV::Null => "null"@,
        ValueV::Object(_) => "[Object]"@,
        ValueV::Symbol(_) => "Symbol()"@,
        ValueV::Uninitialized => "uninitialized"@,
    }
}

impl Clone for Value {
    /// A clone is indistinguishable from the value it copies.
    fn clone(&self) -> (r: Value)
        ensures
            r@ == self@,
    {
        match self {
            Value::Number(n) => Value::Number(*n),
            Value::Bool(b) => Value::Bool(*b),
            Value::String(s) => Value::String(s.clone()),
            Value::Undefined => Value::Undefined,
            Value::Null => Value::Null,
            Value::Object(h) => Value::Object(*h),
            Value::Symbol(i) => Value::Symbol(*i),
            Value::Uninitialized => Value::Uninitialized,
        }
    }
}

impl Value {
    pub fn undefined() -> (r: Value)
        ensures
            r@ == ValueV::Undefined,
    {
        Value::Undefined
    }

    pub fn uninitialized() -> (r: Value)
        ensures
            r@ == ValueV::Uninitialized,
    {
        Value::Uninitialized
    }

    pub fn is_uninitialized(&self) -> (r: bool)
        ensures
            r == (self@ == ValueV::Uninitialized),
    {
        match self {
            Value::Uninitialized => true,
            _ => false,
        }
    }

    /// Strict equality, the `===` of the language.
    pub fn strict_eq_bool(&self, other: &Value) -> (r: bool)
        ensures
            r == spec_strict_eq(self@, other@),
    {
        match (self, other) {
            (Value::Number(JsNumber::Int(x)), Value::Number(JsNumber::Int(y))) => x == y,
            (Value::Number(_), Value::Number(_)) => false,
            (Value::Bool(x), Value::Bool(y)) => x == y,
            (Value::String(x), Value::String(y)) => x.eq(y),
            (Value::Undefined, Value::Undefined) => true,
            (Value::Null, Value::Null) => true,
            (Value::Object(x), Value::Object(y)) => x == y,
            (Value::Symbol(x), Value::Symbol(y)) => x == y,
            (Value::Uninitialized, Value::Uninitialized) => true,
            _ => false,
        }
    }

    pub fn to_boolean(&self) -> (r: bool)
        ensures
            r == spec_to_boolean(self@),
    {
        match self {
            Value::Number(JsNumber::Int(x)) => *x != 0,
            Value::Number(JsNumber::Nan) => false,
            Value::Bool(b) => *b,
            Value::String(s) => !s.as_str().is_empty(),
            Value::Undefined => false,
            Value::Null => false,
            Value::Object(_) => true,
            Value::Symbol(_) => true,
            Value::Uninitialized => false,
        }
    }

    pub fn to_number(&self) -> (r: JsNumber)
        ensures
            r == spec_to_number(self@),
    {
        match self {
            Value::Number(n) => *n,
            Value::Bool(b) => if *b { JsNumber::Int(1) } else { JsNumber::Int(0) },
            Value::String(s) => {
                let cs = str_to_chars(s.as_str());
                crate::numeric::parse_decimal_chars(&cs)
            },
            Value::Null => JsNumber::Int(0),
            _ => JsNumber::Nan,
        }
    }

    /// Loose equality over this engine's value domain.
    pub fn loose_eq(&self, other: &Value) -> (r: bool)
        ensures
            r == spec_loose_eq(self@, other@),
    {
        if self.strict_eq_bool(other) {
            return true;
        }
        match (self, other) {
            (Value::Null, Value::Undefined) => true,
            (Value::Undefined, Value::Null) => true,
            _ => {
                match (self.to_number(), other.to_number()) {
                    (JsNumber::Int(x), JsNumber::Int(y)) => x == y,
                    _ => false,
                }
            },
        }
    }

    /// Display image used by the inspector and by `console.log`: strings are
    /// quoted when `quote` is set.
    pub fn debug_string(&self, quote: bool) -> (r: String)
        ensures
            r@ == spec_debug_chars(self@, quote),
    {
        match self {
            Value::Number(n) => {
                match n {
                    JsNumber::Int(v) => {
                        let mut cs: Vec<char> = Vec::new();
                        push_int_dec(&mut cs, *v);
                        chars_to_string(&cs)
                    },
                    JsNumber::Nan => {
                        let mut s = String::new();
                        s.append("NaN");
                        proof {
                            reveal_strlit("NaN");
                            assert(s@ =~= spec_number_to_chars(JsNumber::Nan));
                        }
                        s
                    },
                }
            },
            Value::Bool(b) => {
                let mut s = String::new();
                if *b {
                    s.append("true");
                } else {
                    s.append("false");
                }
                proof {
                    assert(s@ =~= spec_debug_chars(self@, quote));
                }
                s
            },
            Value::String(inner) => {
                if quote {
                    let mut s = String::new();
                    s.append("'");
                    s.append(inner.as_str());
                    s.append("'");
                    proof {
                        reveal_strlit("'");
                        assert(s@ =~= seq!['\''] + inner@ + seq!['\'']);
                    }
                    s
                } else {
                    inner.clone()
                }
            },
            Value::Undefined => {
                let mut s = String::new();
                s.append("undefined");
                proof {
                    assert(s@ =~= "undefined"@);
                }
                s
            },
            Value::Null => {
                let mut s = String::new();
                s.append("null");
                proof {
                    assert(s@ =~= "null"@);
                }
                s
            },
            Value::Object(_) => {
                let mut s = String::new();
                s.append("[Object]");
                proof {
                    assert(s@ =~= "[Object]"@);
                }
                s
            },
            Value::Symbol(_) => {
                let mut s = String::new();
                s.append("Symbol()");
                proof {
                    assert(s@ =~= "Symbol()"@);
                }
                s
            },
            Value::Uninitialized => {
                let mut s = String::new();
                s.append("uninitialized");
                proof {
                    assert(s@ =~= "uninitialized"@);
                }
                s
            },
        }
    }
}

/// Law: a value is strictly equal to itself exactly when it is not the
/// numeric `Nan`.
pub proof fn lemma_strict_eq_reflexive(a: ValueV)
    ensures
        spec_strict_eq(a, a) <==> a != ValueV::Number(JsNumber::Nan),
{
}

/// Law: strict equality is symmetric.
pub proof fn lemma_strict_eq_symmetric(a: ValueV, b: ValueV)
    ensures
        spec_strict_eq(a, b) == spec_strict_eq(b, a),
{
}

/// The characters of a string, in order.
pub fn str_to_chars(s: &str) -> (r: Vec<char>)
    ensures
        r@ == s@,
{
    let n = s.unicode_len();
    let mut out: Vec<char> = Vec::new();
    let mut i: usize = 0;
    while i < n
        invariant
            i <= n,
            n == s@.len(),
            out@ == s@.take(i as int),
        decreases n - i,
    {
        out.push(s.get_char(i));
        proof {
            assert(out@ =~= s@.take(i + 1));
        }
        i = i + 1;
    }
    proof {
        assert(s@.take(n as int) =~= s@);
    }
    out
}

/// Loose (`==`) equality, reduced to this engine's value domain: strict
/// equality, the `null`/`undefined` pair, and otherwise numeric coercion of
/// both sides.
pub open spec fn spec_loose_eq(a: ValueV, b: ValueV) -> bool {
    if spec_strict_eq(a, b) {
        true
    } else {
        match (a, b) {
            (ValueV::Null, ValueV::Undefined) => true,
            (ValueV::Undefined, ValueV::Null) => true,
            _ => match (spec_to_number(a), spec_to_number(b)) {
                (JsNumber::Int(x), JsNumber::Int(y)) => x == y,
                _ => false,
            },
        }
    }
}

/// Character-for-character string equality.
pub fn str_eq(a: &str, b: &str) -> (r: bool)
    ensures
        r == (a@ == b@),
{
    let na = a.unicode_len();
    let nb = b.unicode_len();
    if na != nb {
        return false;
    }
    let mut i: usize = 0;
    while i < na
        invariant
            i <= na,
            na == a@.len(),
            nb == b@.len(),
            na == nb,
            forall|j: int| 0 <= j < i ==> a@[j] == b@[j],
        decreases na - i,
    {
        let ca = a.get_char(i);
        let cb = b.get_char(i);
        if ca != cb {
            return false;
        }
        i = i + 1;
    }
    proof {
        assert(a@ =~= b@);
    }
    true
}

/// Relies on `String::from_iter` over `char`: the resulting string holds
/// exactly the characters of the vector, in order.
#[verifier::external_body]
pub fn chars_to_string(v: &Vec<char>) -> (r: String)
    ensures
        r@ == v@,
{
    v.iter().collect()
}

} // verus!
