//! The engine state and the interpreter loop: a single operand stack, a
//! stack of frames, and exception-table-driven unwinding.

use vstd::prelude::*;
use crate::bytecode::{find_handler, Constant, Exception, Inst};
use crate::env::{
    env_seq, envs_wf, global_bindings_initialized, lemma_envs_wf_grow, EnvRecordV,
    EnvironmentRecord, LexicalEnvironment,
};
use crate::error::{general_error, type_error, RuntimeError};
use crate::frame::{ExecutionContext, Frame};
use crate::numeric::JsNumber;
use crate::object::{
    pm_contains, pm_get, pm_keys, spec_get_property_value, BuiltinId, DataPropertyV, FuncCallee,
    MemoryAllocator, ObjV, ObjectInfo, ObjectKind, ObjectKindV, ObjectPrototypes, PropMap,
    Property, PropertyV,
};
use crate::value::{str_eq, Value, ValueV};

verus! {

/// The result type of whole-program execution.
pub type VMResult = Result<(), RuntimeError>;

/// The value a string exposes under a member key: its character count
/// under `length`, a one-character string under a valid index, `undefined`
/// otherwise.
pub open spec fn spec_string_member(s: Seq<char>, key: Seq<char>) -> ValueV {
    if key == "length"@ {
        ValueV::Number(
            JsNumber::Int(
                if s.len() <= i64::MAX {
                    s.len() as i64
                } else {
                    0
                },
            ),
        )
    } else {
        match crate::numeric::spec_parse_decimal(key) {
            JsNumber::Int(i) => if 0 <= i < s.len() {
                ValueV::String(seq![s[i as int]])
            } else {
                ValueV::Undefined
            },
            JsNumber::Nan => ValueV::Undefined,
        }
    }
}

/// The handle inside an object value; meaningless for other values.
pub open spec fn spec_object_handle(v: ValueV) -> int {
    match v {
        ValueV::Object(h) => h,
        _ => -1,
    }
}

/// Whether an object kind is callable.
pub open spec fn spec_is_function_kind(k: ObjectKindV) -> bool {
    match k {
        ObjectKindV::Function(_) => true,
        _ => false,
    }
}

/// Whether an object kind is a user (bytecode) function.
pub open spec fn spec_is_user_fn_kind(k: ObjectKindV) -> bool {
    match k {
        ObjectKindV::Function(fc) => match fc {
            FuncCallee::User { .. } => true,
            FuncCallee::Builtin(_) => false,
        },
        _ => false,
    }
}

/// The prototype a constructor call links the fresh `this` to: the callee's
/// `prototype` property when it is a live object, the standard object
/// prototype otherwise.
pub open spec fn spec_ctor_proto(h: Seq<ObjV>, callee: int, default_proto: int) -> Option<int> {
    match spec_get_property_value(h, callee, "prototype"@) {
        ValueV::Object(p) => if 0 <= p < h.len() {
            Some(p)
        } else {
            Some(default_proto)
        },
        _ => Some(default_proto),
    }
}

/// How many instructions one `run_global` may execute before giving up with
/// an error; a guard against runaway scripts.
pub const DEFAULT_STEP_BUDGET: usize = 10000000;

/// The whole engine: heap, environment arena, the one operand stack shared
/// by all frames, the constant pool, and the buffered `console` output that
/// the host drains after a run.
#[derive(Debug)]
pub struct VM {
    pub memory_allocator: MemoryAllocator,
    pub envs: Vec<LexicalEnvironment>,
    pub stack: Vec<Value>,
    pub constant_table: Vec<Constant>,
    pub global_env: usize,
    pub object_prototypes: ObjectPrototypes,
    pub sym_counter: u64,
    pub output: Vec<String>,
}

impl VM {
    /// The engine's structural invariant: the environment arena is well
    /// formed against the heap, the global scope exists, and the well-known
    /// prototypes are live handles.
    pub open spec fn wf(&self) -> bool {
        &&& envs_wf(env_seq(self.envs@), self.memory_allocator@)
        &&& self.global_env < self.envs@.len()
        &&& self.object_prototypes.object < self.memory_allocator@.len()
        &&& self.object_prototypes.function < self.memory_allocator@.len()
    }

    /// A fresh engine: prototypes, the initialized global object with the
    /// builtin namespace, and a top-level declarative scope over it; stack,
    /// constant pool and console output start empty.
    pub fn new() -> (r: VM)
        ensures
            r.wf(),
            r.stack@.len() == 0,
            r.output@.len() == 0,
            r.constant_table@.len() == 0,
            r.sym_counter == 0,
            r.global_env == 1,
            r.envs@.len() == 2,
            r.envs@[1]@.record == EnvRecordV::Declarative(Map::<Seq<char>, ValueV>::empty()),
            r.envs@[1]@.outer == Some(0int),
            r.envs@[0]@.outer is None,
            r.memory_allocator@.len() == 9,
            r.envs@[0]@.record == EnvRecordV::Global(ValueV::Object(8)),
            global_bindings_initialized(r.memory_allocator@, 8),
    {
        let mut memory_allocator = MemoryAllocator::new();
        let object_prototypes = ObjectPrototypes::new(&mut memory_allocator);
        let genv = LexicalEnvironment::new_global_initialized(
            &mut memory_allocator,
            &object_prototypes,
        );
        let mut envs: Vec<LexicalEnvironment> = Vec::new();
        envs.push(genv);
        envs.push(LexicalEnvironment::new_declarative(Some(0)));
        let r = VM {
            memory_allocator,
            envs,
            stack: Vec::new(),
            constant_table: Vec::new(),
            global_env: 1,
            object_prototypes,
            sym_counter: 0,
            output: Vec::new(),
        };
        proof {
            let es = env_seq(r.envs@);
            assert(es.len() == 2);
            assert(es[0] == r.envs@[0]@);
            assert(es[1] == r.envs@[1]@);
            assert(envs_wf(es, r.memory_allocator@));
        }
        r
    }

    /// Draw a fresh symbol: each call yields a distinct identity until the
    /// id space is exhausted.
    pub fn new_symbol(&mut self) -> (r: Value)
        requires
            old(self).wf(),
        ensures
            final(self).wf(),
            r@ == ValueV::Symbol(old(self).sym_counter as int),
            old(self).sym_counter < u64::MAX ==> final(self).sym_counter == old(self).sym_counter
                + 1,
    {
        let id = self.sym_counter;
        if self.sym_counter < u64::MAX {
            self.sym_counter = self.sym_counter + 1;
        }
        Value::Symbol(id)
    }

    /// The string in the constant pool at `idx`, if that entry is a string.
    fn const_str(&self, idx: usize) -> (r: Option<String>)
        ensures
            match r {
                Some(s) => {
                    &&& idx < self.constant_table@.len()
                    &&& self.constant_table@[idx as int] matches Constant::Str(cs) && s@ == cs@
                },
                None => true,
            },
    {
        if idx < self.constant_table.len() {
            match &self.constant_table[idx] {
                Constant::Str(s) => Some(s.clone()),
                _ => None,
            }
        } else {
            None
        }
    }

    /// Declare `name` in the record of scope `env`: directly in a
    /// declarative record, as a property of the backing object otherwise.
    /// With `overwrite` unset, an existing binding is left alone.
    fn declare(&mut self, env: usize, name: &str, val: Value, overwrite: bool) -> (r: Result<
        (),
        RuntimeError,
    >)
        requires
            old(self).wf(),
            env < old(self).envs@.len(),
        ensures
            final(self).wf(),
            final(self).envs@.len() == old(self).envs@.len(),
            final(self).memory_allocator@.len() == old(self).memory_allocator@.len(),
            final(self).global_env == old(self).global_env,
            final(self).object_prototypes == old(self).object_prototypes,
            final(self).stack@ == old(self).stack@,
            final(self).constant_table@ == old(self).constant_table@,
            final(self).output@ == old(self).output@,
    {
        proof {
            assert(env_seq(self.envs@)[env as int] == self.envs@[env as int]@);
        }
        let target: Option<usize> = match &self.envs[env].record {
            EnvironmentRecord::Declarative(_) => None,
            EnvironmentRecord::Object(o) | EnvironmentRecord::Global(o) => {
                match o {
                    Value::Object(h) => Some(*h),
                    _ => {
                        proof {
                            assert(false);
                        }
                        None
                    },
                }
            },
        };
        match target {
            None => {
                let ghost envs0 = env_seq(self.envs@);
                let ghost heap0 = self.memory_allocator@;
                match &mut self.envs[env].record {
                    EnvironmentRecord::Declarative(m) => {
                        if overwrite || !crate::env::fx_contains(m, name) {
                            crate::env::fx_insert(m, name.to_owned(), val);
                        }
                    },
                    _ => {
                        proof {
                            assert(false);
                        }
                    },
                }
                proof {
                    let envs1 = env_seq(self.envs@);
                    assert(self.memory_allocator@ == heap0);
                    assert forall|i: int| 0 <= i < envs1.len() implies {
                        let e = #[trigger] envs1[i];
                        (match e.outer {
                            Some(o) => 0 <= o < i,
                            None => true,
                        }) && (match e.record {
                            EnvRecordV::Declarative(_) => true,
                            EnvRecordV::Object(v) => v matches ValueV::Object(h) && 0 <= h
                                < heap0.len(),
                            EnvRecordV::Global(v) => v matches ValueV::Object(h) && 0 <= h
                                < heap0.len(),
                        })
                    } by {
                        assert(envs1[i] == self.envs@[i]@);
                        if i != env {
                            assert(envs1[i] == envs0[i]);
                        } else {
                            assert(envs1[i].outer == envs0[i].outer);
                            assert(envs1[i].record is Declarative);
                        }
                    }
                }
                Ok(())
            },
            Some(h) => {
                proof {
                    assert(h < self.memory_allocator@.len());
                }
                let present = self.memory_allocator.has_own_property(h, name);
                if overwrite || !present {
                    let ghost envs0 = env_seq(self.envs@);
                    self.memory_allocator.set_property(h, name.to_owned(), val);
                    proof {
                        assert(env_seq(self.envs@) =~= envs0);
                        assert(envs_wf(env_seq(self.envs@), self.memory_allocator@));
                    }
                }
                Ok(())
            },
        }
    }

    /// Allocate a plain object under the standard object prototype.
    fn create_object(&mut self) -> (r: usize)
        requires
            old(self).wf(),
        ensures
            final(self).wf(),
            final(self).memory_allocator@.len() == old(self).memory_allocator@.len() + 1,
            r < final(self).memory_allocator@.len(),
            final(self).envs@ == old(self).envs@,
            final(self).stack@ == old(self).stack@,
            final(self).constant_table@ == old(self).constant_table@,
            final(self).global_env == old(self).global_env,
            final(self).object_prototypes == old(self).object_prototypes,
            final(self).output@ == old(self).output@,
    {
        let h = self.memory_allocator.allocate(
            ObjectInfo::ordinary(Some(self.object_prototypes.object)),
        );
        proof {
            lemma_envs_wf_grow(
                env_seq(self.envs@),
                old(self).memory_allocator@,
                self.memory_allocator@,
            );
        }
        h
    }

    /// Make a closure object for `template`, capturing `env`, with a fresh
    /// `prototype` property for constructor calls.
    fn create_function(&mut self, template: usize, env: usize) -> (r: Value)
        requires
            old(self).wf(),
        ensures
            final(self).wf(),
            final(self).envs@ == old(self).envs@,
            final(self).stack@ == old(self).stack@,
            final(self).constant_table@ == old(self).constant_table@,
            final(self).global_env == old(self).global_env,
            final(self).object_prototypes == old(self).object_prototypes,
            old(self).memory_allocator@.len() <= final(self).memory_allocator@.len(),
            final(self).output@ == old(self).output@,
            r matches Value::Object(h) && h < final(self).memory_allocator@.len(),
    {
        let proto_obj = self.create_object();
        let mut pm = PropMap::new();
        pm.set("prototype".to_owned(), Property::plain_data(Value::Object(proto_obj)));
        let h = self.memory_allocator.allocate(
            ObjectInfo {
                kind: ObjectKind::Function(FuncCallee::User { template, env }),
                prototype: Some(self.object_prototypes.function),
                property: pm,
            },
        );
        proof {
            lemma_envs_wf_grow(
                env_seq(self.envs@),
                old(self).memory_allocator@,
                self.memory_allocator@,
            );
        }
        Value::Object(h)
    }

    /// Push a fresh declarative scope under `outer` and hand back its index.
    fn push_env(&mut self, record: EnvironmentRecord, outer: usize) -> (r: usize)
        requires
            old(self).wf(),
            outer < old(self).envs@.len(),
            match record {
                EnvironmentRecord::Declarative(_) => true,
                _ => false,
            },
        ensures
            final(self).wf(),
            final(self).envs@.len() == old(self).envs@.len() + 1,
            r == old(self).envs@.len(),
            final(self).memory_allocator@ == old(self).memory_allocator@,
            final(self).stack@ == old(self).stack@,
            final(self).constant_table@ == old(self).constant_table@,
            final(self).global_env == old(self).global_env,
            final(self).object_prototypes == old(self).object_prototypes,
            final(self).output@ == old(self).output@,
    {
        let ghost envs0 = env_seq(self.envs@);
        let idx = self.envs.len();
        self.envs.push(LexicalEnvironment { record, outer: Some(outer) });
        proof {
            let envs1 = env_seq(self.envs@);
            assert(envs1 =~= envs0.push(self.envs@[idx as int]@));
            assert forall|i: int| 0 <= i < envs1.len() implies {
                let e = #[trigger] envs1[i];
                (match e.outer {
                    Some(o) => 0 <= o < i,
                    None => true,
                }) && (match e.record {
                    EnvRecordV::Declarative(_) => true,
                    EnvRecordV::Object(v) => v matches ValueV::Object(h) && 0 <= h
                        < self.memory_allocator@.len(),
                    EnvRecordV::Global(v) => v matches ValueV::Object(h) && 0 <= h
                        < self.memory_allocator@.len(),
                })
            } by {
                if i < envs1.len() - 1 {
                    assert(envs1[i] == envs0[i]);
                }
            }
        }
        idx
    }
}

impl VM {
    /// Run `frame` to completion on the shared operand stack, executing at
    /// most `budget` instructions. Calls push the suspended caller onto the
    /// frame stack; a failing operation consults the active frames'
    /// exception tables, truncating the operand stack to the handling
    /// frame's bookmark and delivering the error's value, and is surfaced to
    /// the host only when no frame catches it.
    pub fn run(&mut self, frame: Frame, budget: usize) -> (r: Result<Value, RuntimeError>)
        requires
            old(self).wf(),
        ensures
            final(self).wf(),
            final(self).global_env == old(self).global_env,
            final(self).object_prototypes == old(self).object_prototypes,
            final(self).constant_table@ == old(self).constant_table@,
            old(self).memory_allocator@.len() <= final(self).memory_allocator@.len(),
            old(self).envs@.len() <= final(self).envs@.len(),
            old(self).output@.len() <= final(self).output@.len(),
            forall|i: int|
                0 <= i < old(self).output@.len() ==> #[trigger] final(self).output@[i] == old(
                    self,
                ).output@[i],
            budget == 0 ==> {
                &&& r matches Err(RuntimeError::General(m)) && m@
                    == "instruction budget exhausted"@
                &&& final(self).stack@ == old(self).stack@
                &&& final(self).memory_allocator@ == old(self).memory_allocator@
                &&& final(self).envs@ == old(self).envs@
                &&& final(self).output@ == old(self).output@
            },
            budget > 0 && frame.pc >= frame.bytecode@.len() ==> {
                &&& match r {
                    Ok(v) => if old(self).stack@.len() > frame.saved_stack_len {
                        final(self).stack@ == old(self).stack@.drop_last() && v@ == old(
                            self,
                        ).stack@.last()@
                    } else {
                        final(self).stack@ == old(self).stack@ && v@ == ValueV::Undefined
                    },
                    Err(_) => false,
                }
                &&& final(self).memory_allocator@ == old(self).memory_allocator@
                &&& final(self).envs@ == old(self).envs@
                &&& final(self).output@ == old(self).output@
            },
    {
        if budget == 0 {
            return Err(general_error("instruction budget exhausted"));
        }
        if frame.pc >= frame.bytecode.len() {
            // An already-completed frame: hand the completion value straight
            // back to the host.
            if self.stack.len() > frame.saved_stack_len {
                return Ok(match self.stack.pop() {
                    Some(v) => v,
                    None => Value::Undefined,
                });
            }
            return Ok(Value::Undefined);
        }
        let mut cur = frame;
        let mut frames: Vec<Frame> = Vec::new();
        let mut fuel = budget;
        loop
            invariant
                self.wf(),
                budget > 0,
                frame.pc < frame.bytecode@.len(),
                self.global_env == old(self).global_env,
                self.object_prototypes == old(self).object_prototypes,
                self.constant_table@ == old(self).constant_table@,
                old(self).memory_allocator@.len() <= self.memory_allocator@.len(),
                old(self).envs@.len() <= self.envs@.len(),
                old(self).output@.len() <= self.output@.len(),
                forall|i: int|
                    0 <= i < old(self).output@.len() ==> #[trigger] self.output@[i] == old(
                        self,
                    ).output@[i],
            decreases fuel,
        {
            if fuel == 0 {
                return Err(general_error("instruction budget exhausted"));
            }
            fuel = fuel - 1;
            if cur.pc >= cur.bytecode.len() {
                // Fell off the end: the outermost frame finishes with the
                // value left for the host, an inner one returns undefined.
                if frames.len() == 0 {
                    if self.stack.len() > cur.saved_stack_len {
                        return Ok(match self.stack.pop() {
                            Some(v) => v,
                            None => Value::Undefined,
                        });
                    }
                    return Ok(Value::Undefined);
                }
                self.stack.truncate(cur.saved_stack_len);
                self.stack.push(Value::Undefined);
                match frames.pop() {
                    Some(f) => {
                        cur = f;
                    },
                    None => {
                        return Err(general_error("frame stack empty"));
                    },
                }
                continue ;
            }
            let pc0 = cur.pc;
            let inst = cur.bytecode[pc0];
            cur.pc = pc0 + 1;
            let step: Result<(), RuntimeError> = match inst {
                Inst::PushInt(v) => {
                    self.stack.push(Value::Number(JsNumber::Int(v)));
                    Ok(())
                },
                Inst::PushNan => {
                    self.stack.push(Value::Number(JsNumber::Nan));
                    Ok(())
                },
                Inst::PushBool(b) => {
                    self.stack.push(Value::Bool(b));
                    Ok(())
                },
                Inst::PushStr(k) => {
                    match self.const_str(k) {
                        Some(st) => {
                            self.stack.push(Value::String(st));
                            Ok(())
                        },
                        None => Err(general_error("missing string constant")),
                    }
                },
                Inst::PushUndefined => {
                    self.stack.push(Value::Undefined);
                    Ok(())
                },
                Inst::PushNull => {
                    self.stack.push(Value::Null);
                    Ok(())
                },
                Inst::PushThis => {
                    self.stack.push(cur.this.clone());
                    Ok(())
                },
                Inst::Pop => {
                    let _ = self.stack.pop();
                    Ok(())
                },
                Inst::Dup => {
                    let n = self.stack.len();
                    if n == 0 {
                        Err(general_error("operand stack underflow"))
                    } else {
                        let v = self.stack[n - 1].clone();
                        self.stack.push(v);
                        Ok(())
                    }
                },
                Inst::Add => {
                    match (self.stack.pop(), self.stack.pop()) {
                        (Some(b), Some(a)) => {
                            let stringish = match (&a, &b) {
                                (Value::String(_), _) => true,
                                (_, Value::String(_)) => true,
                                _ => false,
                            };
                            if stringish {
                                let s1 = a.debug_string(false);
                                let s2 = b.debug_string(false);
                                let joined = s1.concat(s2.as_str());
                                self.stack.push(Value::String(joined));
                            } else {
                                self.stack.push(Value::Number(a.to_number().plus(b.to_number())));
                            }
                            Ok(())
                        },
                        _ => Err(general_error("operand stack underflow")),
                    }
                },
                Inst::Sub => {
                    match (self.stack.pop(), self.stack.pop()) {
                        (Some(b), Some(a)) => {
                            self.stack.push(Value::Number(a.to_number().minus(b.to_number())));
                            Ok(())
                        },
                        _ => Err(general_error("operand stack underflow")),
                    }
                },
                Inst::Mul => {
                    match (self.stack.pop(), self.stack.pop()) {
                        (Some(b), Some(a)) => {
                            self.stack.push(Value::Number(a.to_number().times(b.to_number())));
                            Ok(())
                        },
                        _ => Err(general_error("operand stack underflow")),
                    }
                },
                Inst::Div => {
                    match (self.stack.pop(), self.stack.pop()) {
                        (Some(b), Some(a)) => {
                            self.stack.push(Value::Number(a.to_number().quotient(b.to_number())));
                            Ok(())
                        },
                        _ => Err(general_error("operand stack underflow")),
                    }
                },
                Inst::Rem => {
                    match (self.stack.pop(), self.stack.pop()) {
                        (Some(b), Some(a)) => {
                            self.stack.push(Value::Number(a.to_number().remainder(b.to_number())));
                            Ok(())
                        },
                        _ => Err(general_error("operand stack underflow")),
                    }
                },
                Inst::Lt => {
                    match (self.stack.pop(), self.stack.pop()) {
                        (Some(b), Some(a)) => {
                            self.stack.push(Value::Bool(a.to_number().lt_num(b.to_number())));
                            Ok(())
                        },
                        _ => Err(general_error("operand stack underflow")),
                    }
                },
                Inst::Gt => {
                    match (self.stack.pop(), self.stack.pop()) {
                        (Some(b), Some(a)) => {
                            self.stack.push(Value::Bool(b.to_number().lt_num(a.to_number())));
                            Ok(())
                        },
                        _ => Err(general_error("operand stack underflow")),
                    }
                },
                Inst::Le => {
                    match (self.stack.pop(), self.stack.pop()) {
                        (Some(b), Some(a)) => {
                            self.stack.push(Value::Bool(a.to_number().le_num(b.to_number())));
                            Ok(())
                        },
                        _ => Err(general_error("operand stack underflow")),
                    }
                },
                Inst::Ge => {
                    match (self.stack.pop(), self.stack.pop()) {
                        (Some(b), Some(a)) => {
                            self.stack.push(Value::Bool(b.to_number().le_num(a.to_number())));
                            Ok(())
                        },
                        _ => Err(general_error("operand stack underflow")),
                    }
                },
                Inst::Eq => {
                    match (self.stack.pop(), self.stack.pop()) {
                        (Some(b), Some(a)) => {
                            self.stack.push(Value::Bool(a.loose_eq(&b)));
                            Ok(())
                        },
                        _ => Err(general_error("operand stack underflow")),
                    }
                },
                Inst::Ne => {
                    match (self.stack.pop(), self.stack.pop()) {
                        (Some(b), Some(a)) => {
                            self.stack.push(Value::Bool(!a.loose_eq(&b)));
                            Ok(())
                        },
                        _ => Err(general_error("operand stack underflow")),
                    }
                },
                Inst::SEq => {
                    match (self.stack.pop(), self.stack.pop()) {
                        (Some(b), Some(a)) => {
                            self.stack.push(Value::Bool(a.strict_eq_bool(&b)));
                            Ok(())
                        },
                        _ => Err(general_error("operand stack underflow")),
                    }
                },
                Inst::SNe => {
                    match (self.stack.pop(), self.stack.pop()) {
                        (Some(b), Some(a)) => {
                            self.stack.push(Value::Bool(!a.strict_eq_bool(&b)));
                            Ok(())
                        },
                        _ => Err(general_error("operand stack underflow")),
                    }
                },
                Inst::Not => {
                    match self.stack.pop() {
                        Some(a) => {
                            self.stack.push(Value::Bool(!a.to_boolean()));
                            Ok(())
                        },
                        None => Err(general_error("operand stack underflow")),
                    }
                },
                Inst::Neg => {
                    match self.stack.pop() {
                        Some(a) => {
                            self.stack.push(
                                Value::Number(JsNumber::Int(0).minus(a.to_number())),
                            );
                            Ok(())
                        },
                        None => Err(general_error("operand stack underflow")),
                    }
                },
                Inst::Plus => {
                    match self.stack.pop() {
                        Some(a) => {
                            self.stack.push(Value::Number(a.to_number()));
                            Ok(())
                        },
                        None => Err(general_error("operand stack underflow")),
                    }
                },
                Inst::GetName(k) => {
                    let lex = cur.execution_context.lexical_environment;
                    match self.const_str(k) {
                        Some(name) => {
                            if lex < self.envs.len() {
                                match LexicalEnvironment::get_value(
                                    &self.envs,
                                    &self.memory_allocator,
                                    lex,
                                    name.as_str(),
                                ) {
                                    Ok(v) => {
                                        self.stack.push(v);
                                        Ok(())
                                    },
                                    Err(e) => Err(e),
                                }
                            } else {
                                Err(general_error("scope handle out of range"))
                            }
                        },
                        None => Err(general_error("missing string constant")),
                    }
                },
                Inst::SetName(k) => {
                    let lex = cur.execution_context.lexical_environment;
                    match (self.const_str(k), self.stack.pop()) {
                        (Some(name), Some(val)) => {
                            if lex < self.envs.len() {
                                let vv = val.clone();
                                match LexicalEnvironment::set_value(
                                    &mut self.envs,
                                    &mut self.memory_allocator,
                                    lex,
                                    name.as_str(),
                                    vv,
                                ) {
                                    Ok(()) => {
                                        self.stack.push(val);
                                        Ok(())
                                    },
                                    Err(e) => Err(e),
                                }
                            } else {
                                Err(general_error("scope handle out of range"))
                            }
                        },
                        _ => Err(general_error("missing name or value")),
                    }
                },
                Inst::DeclLet(k) => {
                    let lex = cur.execution_context.lexical_environment;
                    match self.const_str(k) {
                        Some(name) => {
                            if lex < self.envs.len() {
                                self.declare(lex, name.as_str(), Value::Uninitialized, true)
                            } else {
                                Err(general_error("scope handle out of range"))
                            }
                        },
                        None => Err(general_error("missing string constant")),
                    }
                },
                Inst::DeclVar(k) => {
                    let var = cur.execution_context.variable_environment;
                    match self.const_str(k) {
                        Some(name) => {
                            if var < self.envs.len() {
                                self.declare(var, name.as_str(), Value::Undefined, false)
                            } else {
                                Err(general_error("scope handle out of range"))
                            }
                        },
                        None => Err(general_error("missing string constant")),
                    }
                },
                Inst::GetMember(k) => {
                    match (self.const_str(k), self.stack.pop()) {
                        (Some(key), Some(obj)) => self.get_member(obj, key.as_str()),
                        _ => Err(general_error("missing key or receiver")),
                    }
                },
                Inst::SetMember(k) => {
                    match (self.const_str(k), self.stack.pop(), self.stack.pop()) {
                        (Some(key), Some(val), Some(obj)) => self.set_member(obj, key, val),
                        _ => Err(general_error("missing key, value or receiver")),
                    }
                },
                Inst::InitProp(k) => {
                    match (self.const_str(k), self.stack.pop()) {
                        (Some(key), Some(val)) => {
                            let n = self.stack.len();
                            if n == 0 {
                                Err(general_error("operand stack underflow"))
                            } else {
                                let objv = self.stack[n - 1].clone();
                                match objv {
                                    Value::Object(h) => {
                                        if h < self.memory_allocator.len() {
                                            self.memory_allocator.set_property(h, key, val);
                                            Ok(())
                                        } else {
                                            Err(general_error("dangling object handle"))
                                        }
                                    },
                                    _ => Err(general_error("object literal receiver missing")),
                                }
                            }
                        },
                        _ => Err(general_error("missing key or value")),
                    }
                },
                Inst::GetIndex => {
                    match (self.stack.pop(), self.stack.pop()) {
                        (Some(idx), Some(obj)) => self.get_index(obj, idx),
                        _ => Err(general_error("operand stack underflow")),
                    }
                },
                Inst::CreateObject => {
                    let h = self.create_object();
                    self.stack.push(Value::Object(h));
                    Ok(())
                },
                Inst::CreateFunction(t) => {
                    let lex = cur.execution_context.lexical_environment;
                    let v = self.create_function(t, lex);
                    self.stack.push(v);
                    Ok(())
                },
                Inst::Jump(t) => {
                    cur.pc = t;
                    Ok(())
                },
                Inst::JumpIfFalse(t) => {
                    match self.stack.pop() {
                        Some(c) => {
                            if !c.to_boolean() {
                                cur.pc = t;
                            }
                            Ok(())
                        },
                        None => Err(general_error("operand stack underflow")),
                    }
                },
                Inst::PushScope => {
                    let lex = cur.execution_context.lexical_environment;
                    if lex < self.envs.len() {
                        let idx = self.push_env(
                            EnvironmentRecord::Declarative(crate::env::fx_new()),
                            lex,
                        );
                        cur.execution_context.saved_lexical_environment.push(lex);
                        cur.execution_context.lexical_environment = idx;
                        Ok(())
                    } else {
                        Err(general_error("scope handle out of range"))
                    }
                },
                Inst::PopScope => {
                    match cur.execution_context.saved_lexical_environment.pop() {
                        Some(e) => {
                            cur.execution_context.lexical_environment = e;
                            Ok(())
                        },
                        None => Err(general_error("no saved scope to restore")),
                    }
                },
                Inst::Throw => {
                    match self.stack.pop() {
                        Some(v) => Err(RuntimeError::Exception(v)),
                        None => Err(general_error("operand stack underflow")),
                    }
                },
                Inst::Return => {
                    let ret0 = match self.stack.pop() {
                        Some(v) => v,
                        None => Value::Undefined,
                    };
                    let ret = if cur.constructor_call {
                        match ret0 {
                            Value::Object(_) => ret0,
                            _ => cur.this.clone(),
                        }
                    } else {
                        ret0
                    };
                    if frames.len() == 0 {
                        return Ok(ret);
                    }
                    self.stack.truncate(cur.saved_stack_len);
                    self.stack.push(ret);
                    match frames.pop() {
                        Some(f) => {
                            cur = f;
                            Ok(())
                        },
                        None => Ok(()),
                    }
                },
                Inst::Call(nargs) | Inst::New(nargs) => {
                    let is_new = match inst {
                        Inst::New(_) => true,
                        _ => false,
                    };
                    if nargs >= self.stack.len() {
                        Err(general_error("operand stack underflow"))
                    } else {
                        let base = self.stack.len() - nargs;
                        let mut args: Vec<Value> = Vec::new();
                        let mut k: usize = 0;
                        while k < nargs
                            invariant
                                self.wf(),
                                k <= nargs,
                                base + nargs <= usize::MAX,
                                base + nargs <= self.stack@.len(),
                                self.global_env == old(self).global_env,
                                self.object_prototypes == old(self).object_prototypes,
                                self.constant_table@ == old(self).constant_table@,
                                old(self).memory_allocator@.len() <= self.memory_allocator@.len(),
                                old(self).envs@.len() <= self.envs@.len(),
                                old(self).output@.len() <= self.output@.len(),
                                forall|i: int|
                                    0 <= i < old(self).output@.len() ==> #[trigger] self.output@[i]
                                        == old(self).output@[i],
                            decreases nargs - k,
                        {
                            args.push(self.stack[base + k].clone());
                            k = k + 1;
                        }
                        self.stack.truncate(base);
                        let callee = match self.stack.pop() {
                            Some(v) => v,
                            None => Value::Undefined,
                        };
                        self.invoke(callee, args, is_new, &mut cur, &mut frames)
                    }
                },
            };
            match step {
                Ok(()) => {},
                Err(e) => {
                    let mut err = e;
                    cur.pc = pc0;
                    loop
                        invariant
                            self.wf(),
                            budget > 0,
                            frame.pc < frame.bytecode@.len(),
                            self.global_env == old(self).global_env,
                            self.object_prototypes == old(self).object_prototypes,
                            self.constant_table@ == old(self).constant_table@,
                            old(self).memory_allocator@.len() <= self.memory_allocator@.len(),
                            old(self).envs@.len() <= self.envs@.len(),
                            old(self).output@.len() <= self.output@.len(),
                            forall|i: int|
                                0 <= i < old(self).output@.len() ==> #[trigger] self.output@[i]
                                    == old(self).output@[i],
                        decreases frames@.len(),
                    {
                        match find_handler(&cur.exception_table, cur.pc) {
                            Some(ex) => {
                                cur.pc = ex.dst;
                                self.stack.truncate(cur.saved_stack_len);
                                let ev = err.to_value();
                                self.stack.push(ev);
                                break ;
                            },
                            None => {
                                if frames.len() == 0 {
                                    return Err(err);
                                }
                                self.stack.truncate(cur.saved_stack_len);
                                match frames.pop() {
                                    Some(f) => {
                                        cur = f;
                                        if cur.pc > 0 {
                                            cur.pc = cur.pc - 1;
                                        }
                                    },
                                    None => {
                                        return Err(err);
                                    },
                                }
                            },
                        }
                    }
                },
            }
        }
    }

    /// Write a property through a value: create or overwrite the data
    /// property on an object receiver and yield the assigned value back to
    /// the stack; assignment through `undefined` or `null` is a Type error;
    /// any other primitive receiver ignores the write.
    fn set_member(&mut self, obj: Value, key: String, val: Value) -> (r: Result<(), RuntimeError>)
        requires
            old(self).wf(),
        ensures
            final(self).wf(),
            final(self).envs@ == old(self).envs@,
            final(self).constant_table@ == old(self).constant_table@,
            final(self).global_env == old(self).global_env,
            final(self).object_prototypes == old(self).object_prototypes,
            final(self).output@ == old(self).output@,
            r is Ok ==> final(self).stack@.len() == old(self).stack@.len() + 1 && (forall|i: int|
                0 <= i < old(self).stack@.len() ==> #[trigger] final(self).stack@[i] == old(
                    self,
                ).stack@[i]) && final(self).stack@.last()@ == val@,
            r is Err ==> final(self).stack@ == old(self).stack@
                && final(self).memory_allocator@ == old(self).memory_allocator@,
            obj@ matches ValueV::Object(h) ==> if 0 <= h < old(self).memory_allocator@.len() {
                &&& r is Ok
                &&& final(self).memory_allocator@.len() == old(self).memory_allocator@.len()
                &&& (forall|j: int|
                    0 <= j < old(self).memory_allocator@.len() && j != h
                        ==> #[trigger] final(self).memory_allocator@[j] == old(
                        self,
                    ).memory_allocator@[j])
                &&& final(self).memory_allocator@[h].kind == old(self).memory_allocator@[h].kind
                &&& final(self).memory_allocator@[h].prototype == old(
                    self,
                ).memory_allocator@[h].prototype
                &&& pm_get(final(self).memory_allocator@[h].property, key@) == Some(
                    PropertyV::Data(
                        DataPropertyV {
                            val: val@,
                            writable: true,
                            enumerable: true,
                            configurable: true,
                        },
                    ),
                )
                &&& (forall|k2: Seq<char>|
                    k2 != key@ ==> #[trigger] pm_get(final(self).memory_allocator@[h].property, k2)
                        == pm_get(old(self).memory_allocator@[h].property, k2))
                &&& pm_keys(final(self).memory_allocator@[h].property) == (if pm_contains(
                    old(self).memory_allocator@[h].property,
                    key@,
                ) {
                    pm_keys(old(self).memory_allocator@[h].property)
                } else {
                    pm_keys(old(self).memory_allocator@[h].property).push(key@)
                })
            } else {
                r matches Err(RuntimeError::General(_))
            },
            obj@ is Undefined || obj@ is Null ==> r matches Err(RuntimeError::Type(_)),
            obj@ is Number || obj@ is Bool || obj@ is String || obj@ is Symbol
                || obj@ is Uninitialized ==> r is Ok && final(self).memory_allocator@ == old(
                self,
            ).memory_allocator@,
    {
        match obj {
            Value::Object(h) => {
                if h < self.memory_allocator.len() {
                    self.memory_allocator.set_property(h, key, val.clone());
                    self.stack.push(val);
                    Ok(())
                } else {
                    Err(general_error("dangling object handle"))
                }
            },
            Value::Undefined | Value::Null => Err(type_error("Cannot set a property of undefined")),
            _ => {
                self.stack.push(val);
                Ok(())
            },
        }
    }

    /// Read a property through a value: the prototype chain for objects,
    /// `length` and character indexing for strings; reading through
    /// `undefined` or `null` is a Type error.
    fn get_member(&mut self, obj: Value, key: &str) -> (r: Result<(), RuntimeError>)
        requires
            old(self).wf(),
        ensures
            final(self).wf(),
            final(self).memory_allocator@ == old(self).memory_allocator@,
            final(self).envs@ == old(self).envs@,
            final(self).constant_table@ == old(self).constant_table@,
            final(self).global_env == old(self).global_env,
            final(self).object_prototypes == old(self).object_prototypes,
            final(self).output@ == old(self).output@,
            r is Ok ==> final(self).stack@.len() == old(self).stack@.len() + 1 && (forall|i: int|
                0 <= i < old(self).stack@.len() ==> #[trigger] final(self).stack@[i] == old(
                    self,
                ).stack@[i]),
            r is Err ==> final(self).stack@ == old(self).stack@,
            obj@ matches ValueV::Object(h) ==> if 0 <= h < old(self).memory_allocator@.len() {
                r is Ok && final(self).stack@.last()@ == spec_get_property_value(
                    old(self).memory_allocator@,
                    h,
                    key@,
                )
            } else {
                r matches Err(RuntimeError::General(_))
            },
            obj@ matches ValueV::String(sv) ==> r is Ok && final(self).stack@.last()@
                == spec_string_member(sv, key@),
            obj@ is Undefined || obj@ is Null ==> r matches Err(RuntimeError::Type(_)),
            obj@ is Number || obj@ is Bool || obj@ is Symbol || obj@ is Uninitialized ==> r is Ok
                && final(self).stack@.last()@ == ValueV::Undefined,
    {
        match obj {
            Value::Object(h) => {
                if h < self.memory_allocator.len() {
                    let v = self.memory_allocator.get_property(h, key);
                    self.stack.push(v);
                    Ok(())
                } else {
                    Err(general_error("dangling object handle"))
                }
            },
            Value::String(s) => {
                if str_eq(key, "length") {
                    let n = s.as_str().unicode_len();
                    let v: i64 = if (n as u64) <= 9223372036854775807u64 {
                        n as i64
                    } else {
                        0
                    };
                    self.stack.push(Value::Number(JsNumber::Int(v)));
                    Ok(())
                } else {
                    let cs = crate::value::str_to_chars(key);
                    match crate::numeric::parse_decimal_chars(&cs) {
                        JsNumber::Int(i) => {
                            let n = s.as_str().unicode_len();
                            if 0 <= i && (i as u128) < (n as u128) {
                                let c = s.as_str().get_char(i as usize);
                                let mut one: Vec<char> = Vec::new();
                                one.push(c);
                                self.stack.push(
                                    Value::String(crate::value::chars_to_string(&one)),
                                );
                            } else {
                                self.stack.push(Value::Undefined);
                            }
                            Ok(())
                        },
                        JsNumber::Nan => {
                            self.stack.push(Value::Undefined);
                            Ok(())
                        },
                    }
                }
            },
            Value::Undefined | Value::Null => Err(
                type_error("Cannot read a property of undefined"),
            ),
            _ => {
                self.stack.push(Value::Undefined);
                Ok(())
            },
        }
    }

    /// Index a value: characters of a string, elements of an array.
    fn get_index(&mut self, obj: Value, idx: Value) -> (r: Result<(), RuntimeError>)
        requires
            old(self).wf(),
        ensures
            final(self).wf(),
            final(self).memory_allocator@ == old(self).memory_allocator@,
            final(self).envs@ == old(self).envs@,
            final(self).constant_table@ == old(self).constant_table@,
            final(self).global_env == old(self).global_env,
            final(self).object_prototypes == old(self).object_prototypes,
            final(self).output@ == old(self).output@,
            r is Ok ==> final(self).stack@.len() == old(self).stack@.len() + 1 && (forall|i: int|
                0 <= i < old(self).stack@.len() ==> #[trigger] final(self).stack@[i] == old(
                    self,
                ).stack@[i]),
            r is Err ==> final(self).stack@ == old(self).stack@,
            obj@ is Undefined || obj@ is Null ==> r matches Err(RuntimeError::Type(_)),
    {
        match obj {
            Value::String(s) => {
                match idx.to_number() {
                    JsNumber::Int(i) => {
                        let n = s.as_str().unicode_len();
                        if 0 <= i && (i as u128) < (n as u128) {
                            let c = s.as_str().get_char(i as usize);
                            let mut one: Vec<char> = Vec::new();
                            one.push(c);
                            self.stack.push(Value::String(crate::value::chars_to_string(&one)));
                        } else {
                            self.stack.push(Value::Undefined);
                        }
                        Ok(())
                    },
                    JsNumber::Nan => {
                        self.stack.push(Value::Undefined);
                        Ok(())
                    },
                }
            },
            Value::Object(h) => {
                if h < self.memory_allocator.len() {
                    let elem: Option<Value> = match (
                        &self.memory_allocator.obj_at(h).kind,
                        idx.to_number(),
                    ) {
                        (ObjectKind::Array(elems), JsNumber::Int(i)) => {
                            if 0 <= i && (i as u128) < (elems.len() as u128) {
                                match &elems[i as usize] {
                                    Property::Data(d) => Some(d.val.clone()),
                                    Property::Accessor(_) => Some(Value::Undefined),
                                }
                            } else {
                                Some(Value::Undefined)
                            }
                        },
                        _ => Some(Value::Undefined),
                    };
                    match elem {
                        Some(v) => {
                            self.stack.push(v);
                            Ok(())
                        },
                        None => Ok(()),
                    }
                } else {
                    Err(general_error("dangling object handle"))
                }
            },
            Value::Undefined | Value::Null => Err(
                type_error("Cannot read a property of undefined"),
            ),
            _ => {
                self.stack.push(Value::Undefined);
                Ok(())
            },
        }
    }

    /// Call `callee` with `args`: builtins run natively; user functions get
    /// a fresh declarative scope over their captured environment and a new
    /// frame, the caller being suspended on the frame stack. A constructor
    /// call binds `this` to a fresh object under the callee's `prototype`
    /// property; calling anything that is not a function is a Type error.
    fn invoke(
        &mut self,
        callee: Value,
        args: Vec<Value>,
        is_new: bool,
        cur: &mut Frame,
        frames: &mut Vec<Frame>,
    ) -> (r: Result<(), RuntimeError>)
        requires
            old(self).wf(),
        ensures
            final(self).wf(),
            final(self).global_env == old(self).global_env,
            final(self).object_prototypes == old(self).object_prototypes,
            final(self).constant_table@ == old(self).constant_table@,
            old(self).memory_allocator@.len() <= final(self).memory_allocator@.len(),
            old(self).envs@.len() <= final(self).envs@.len(),
            old(self).output@.len() <= final(self).output@.len(),
            forall|i: int|
                0 <= i < old(self).output@.len() ==> #[trigger] final(self).output@[i] == old(
                    self,
                ).output@[i],
            !(callee@ is Object) ==> {
                &&& r matches Err(RuntimeError::Type(_))
                &&& *final(cur) == *old(cur)
                &&& final(frames)@ == old(frames)@
                &&& final(self).memory_allocator@ == old(self).memory_allocator@
                &&& final(self).envs@ == old(self).envs@
                &&& final(self).stack@ == old(self).stack@
            },
            callee@ is Object && r is Ok ==> {
                let h = spec_object_handle(callee@);
                &&& 0 <= h < old(self).memory_allocator@.len()
                &&& spec_is_function_kind(old(self).memory_allocator@[h].kind)
            },
            callee@ is Object && r is Ok && is_new ==> {
                let h = spec_object_handle(callee@);
                let t = old(self).memory_allocator@.len() as int;
                &&& final(cur).constructor_call == true
                &&& final(cur).this@ == ValueV::Object(t)
                &&& t < final(self).memory_allocator@.len()
                &&& final(self).memory_allocator@[t].kind == ObjectKindV::Ordinary
                &&& final(self).memory_allocator@[t].property == Seq::<(
                    Seq<char>,
                    PropertyV,
                )>::empty()
                &&& final(self).memory_allocator@[t].prototype == spec_ctor_proto(
                    old(self).memory_allocator@,
                    h,
                    old(self).object_prototypes.object as int,
                )
                &&& final(frames)@.len() == old(frames)@.len() + 1
            },
            callee@ is Object && r is Ok && !is_new && spec_is_user_fn_kind(
                old(self).memory_allocator@[spec_object_handle(callee@)].kind,
            ) ==> final(cur).constructor_call == false && final(cur).this@ == ValueV::Undefined
                && final(frames)@.len() == old(frames)@.len() + 1,
    {
        let h = match callee {
            Value::Object(h) => h,
            _ => {
                return Err(type_error("value is not a function"));
            },
        };
        if h >= self.memory_allocator.len() {
            return Err(general_error("dangling object handle"));
        }
        let fc: FuncCallee = match &self.memory_allocator.obj_at(h).kind {
            ObjectKind::Function(fc) => *fc,
            _ => {
                return Err(type_error("value is not a function"));
            },
        };
        match fc {
            FuncCallee::Builtin(id) => {
                if is_new {
                    return Err(type_error("builtin is not a constructor"));
                }
                match id {
                    BuiltinId::Log => crate::builtin::builtin_log(self, args.as_slice(), cur),
                    BuiltinId::ParseFloat => crate::builtin::parse_float(
                        self,
                        args.as_slice(),
                        cur,
                    ),
                    BuiltinId::DeepSeq => crate::builtin::deep_seq(self, args.as_slice(), cur),
                    BuiltinId::Require => crate::builtin::require(self, args.as_slice(), cur),
                    BuiltinId::ObjectConstructor => crate::builtin::object_constructor(
                        self,
                        args.as_slice(),
                        cur,
                    ),
                }
            },
            FuncCallee::User { template, env } => {
                if env >= self.envs.len() {
                    return Err(general_error("scope handle out of range"));
                }
                if template >= self.constant_table.len() {
                    return Err(general_error("missing function template"));
                }
                let parts: Option<(Vec<String>, Vec<Inst>, Vec<Exception>)> = match &self
                    .constant_table[template] {
                    Constant::Func(ft) => {
                        let mut ps: Vec<String> = Vec::new();
                        let mut q: usize = 0;
                        let np = ft.params.len();
                        while q < np
                            invariant
                                q <= np,
                                np == ft.params@.len(),
                            decreases np - q,
                        {
                            ps.push(ft.params[q].clone());
                            q = q + 1;
                        }
                        Some((ps, ft.bytecode.clone(), ft.exception_table.clone()))
                    },
                    _ => None,
                };
                let (params, code, extable) = match parts {
                    Some(t) => t,
                    None => {
                        return Err(general_error("missing function template"));
                    },
                };
                let this: Value = if is_new {
                    let proto: Option<usize> = match self.memory_allocator.get_property(
                        h,
                        "prototype",
                    ) {
                        Value::Object(p) => {
                            if p < self.memory_allocator.len() {
                                Some(p)
                            } else {
                                Some(self.object_prototypes.object)
                            }
                        },
                        _ => Some(self.object_prototypes.object),
                    };
                    let th = self.memory_allocator.allocate(ObjectInfo::ordinary(proto));
                    proof {
                        lemma_envs_wf_grow(
                            env_seq(self.envs@),
                            old(self).memory_allocator@,
                            self.memory_allocator@,
                        );
                    }
                    Value::Object(th)
                } else {
                    Value::Undefined
                };
                let mut m = crate::env::fx_new();
                let mut q: usize = 0;
                let np = params.len();
                let na = args.len();
                while q < np
                    invariant
                        q <= np,
                        np == params@.len(),
                        na == args@.len(),
                    decreases np - q,
                {
                    let v: Value = if q < na {
                        args[q].clone()
                    } else {
                        Value::Undefined
                    };
                    crate::env::fx_insert(&mut m, params[q].clone(), v);
                    q = q + 1;
                }
                let new_env = self.push_env(EnvironmentRecord::Declarative(m), env);
                let ctx = ExecutionContext::new(new_env);
                let mut nf = Frame::new(ctx, code, extable, this, is_new);
                nf.saved_stack_len = self.stack.len();
                core::mem::swap(cur, &mut nf);
                frames.push(nf);
                Ok(())
            },
        }
    }
}

impl VM {
    /// Compile-and-run entry point for whole programs: execute the global
    /// code in a fresh frame over the global scope, leaving the completion
    /// value on the operand stack for the host.
    pub fn run_global(&mut self, info: crate::codegen::CodeInfo) -> (r: VMResult)
        requires
            old(self).wf(),
        ensures
            final(self).wf(),
            final(self).global_env == old(self).global_env,
            final(self).object_prototypes == old(self).object_prototypes,
            final(self).constant_table@ == old(self).constant_table@,
            old(self).memory_allocator@.len() <= final(self).memory_allocator@.len(),
            old(self).envs@.len() <= final(self).envs@.len(),
            old(self).output@.len() <= final(self).output@.len(),
            forall|i: int|
                0 <= i < old(self).output@.len() ==> #[trigger] final(self).output@[i] == old(
                    self,
                ).output@[i],
            r is Ok ==> final(self).stack@.len() >= 1,
            info.bytecode@.len() == 0 ==> {
                &&& r is Ok
                &&& final(self).stack@.len() == old(self).stack@.len() + 1
                &&& (forall|i: int|
                    0 <= i < old(self).stack@.len() ==> #[trigger] final(self).stack@[i] == old(
                        self,
                    ).stack@[i])
                &&& final(self).stack@.last()@ == ValueV::Undefined
                &&& final(self).memory_allocator@ == old(self).memory_allocator@
                &&& final(self).envs@ == old(self).envs@
                &&& final(self).output@ == old(self).output@
            },
    {
        let ctx = ExecutionContext::new(self.global_env);
        let mut frame = Frame::new(
            ctx,
            info.bytecode,
            info.exception_table,
            Value::Undefined,
            false,
        );
        frame.saved_stack_len = self.stack.len();
        match self.run(frame, DEFAULT_STEP_BUDGET) {
            Ok(v) => {
                self.stack.push(v);
                Ok(())
            },
            Err(e) => Err(e),
        }
    }
}

} // verus!
