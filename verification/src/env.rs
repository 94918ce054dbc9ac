//! The lexical environment chain: scope records with an outer link,
//! implementing variable lookup and assignment with shadowing, the
//! temporal dead zone, and object-backed global scopes.

use vstd::prelude::*;
use crate::error::{not_defined_error, undeclared_error, RuntimeError};
use crate::object::{
    pm_contains, pm_get, pm_keys, BuiltinId, DataPropertyV, FuncCallee, MemoryAllocator, ObjV,
    ObjectInfo, ObjectKind, ObjectKindV, ObjectPrototypes, PropMap, Property, PropertyV,
};
use crate::value::{Value, ValueV};
use rustc_hash::FxHashMap;

verus! {

#[verifier::external_type_specification]
#[verifier::external_body]
pub struct ExFxBuildHasher(rustc_hash::FxBuildHasher);

/// The name-to-value bindings a declarative record holds, read through the
/// views of its keys and values.
pub uninterp spec fn fx_bindings(m: FxHashMap<String, Value>) -> Map<Seq<char>, ValueV>;

/// Relies on `HashMap::default` (`rustc_hash::FxHashMap` is the standard
/// table with the Fx hasher): a fresh map has no bindings.
#[verifier::external_body]
pub(crate) fn fx_new() -> (r: FxHashMap<String, Value>)
    ensures
        forall|k: Seq<char>| !fx_bindings(r).dom().contains(k),
{
    FxHashMap::default()
}

/// Relies on `HashMap::get`: the value bound to exactly this key, if any.
#[verifier::external_body]
pub(crate) fn fx_get(m: &FxHashMap<String, Value>, k: &str) -> (r: Option<Value>)
    ensures
        match r {
            Some(v) => fx_bindings(*m).dom().contains(k@) && v@ == fx_bindings(*m)[k@],
            None => !fx_bindings(*m).dom().contains(k@),
        },
{
    m.get(k).cloned()
}

/// Relies on `HashMap::contains_key`.
#[verifier::external_body]
pub(crate) fn fx_contains(m: &FxHashMap<String, Value>, k: &str) -> (r: bool)
    ensures
        r == fx_bindings(*m).dom().contains(k@),
{
    m.contains_key(k)
}

/// Relies on `HashMap::insert`: binds the key, replacing any prior binding.
#[verifier::external_body]
pub(crate) fn fx_insert(m: &mut FxHashMap<String, Value>, k: String, v: Value)
    ensures
        fx_bindings(*final(m)) == fx_bindings(*old(m)).insert(k@, v@),
{
    m.insert(k, v);
}

/// The storage strategy of one scope: plain name bindings, or delegation to
/// a backing object's own properties.
#[derive(Debug)]
pub enum EnvironmentRecord {
    Declarative(FxHashMap<String, Value>),
    Object(Value),
    Global(Value),
}

/// One scope: a record plus the link to the enclosing scope.
#[derive(Debug)]
pub struct LexicalEnvironment {
    pub record: EnvironmentRecord,
    pub outer: Option<usize>,
}

#[verifier::ext_equal]
pub enum EnvRecordV {
    Declarative(Map<Seq<char>, ValueV>),
    Object(ValueV),
    Global(ValueV),
}

#[verifier::ext_equal]
pub struct EnvV {
    pub record: EnvRecordV,
    pub outer: Option<int>,
}

impl View for LexicalEnvironment {
    type V = EnvV;

    open spec fn view(&self) -> EnvV {
        EnvV {
            record: match &self.record {
                EnvironmentRecord::Declarative(m) => EnvRecordV::Declarative(fx_bindings(*m)),
                EnvironmentRecord::Object(v) => EnvRecordV::Object(v@),
                EnvironmentRecord::Global(v) => EnvRecordV::Global(v@),
            },
            outer: match self.outer {
                Some(o) => Some(o as int),
                None => None,
            },
        }
    }
}

/// The arena of environments, as their mathematical images.
pub open spec fn env_seq(envs: Seq<LexicalEnvironment>) -> Seq<EnvV> {
    envs.map_values(|e: LexicalEnvironment| e@)
}

/// Outer links point backwards, so scope chains are finite; object-backed
/// records hold a valid object handle.
pub open spec fn envs_wf(envs: Seq<EnvV>, heap: Seq<ObjV>) -> bool {
    forall|i: int|
        0 <= i < envs.len() ==> {
            let e = #[trigger] envs[i];
            (match e.outer {
                Some(o) => 0 <= o < i,
                None => true,
            }) && (match e.record {
                EnvRecordV::Declarative(_) => true,
                EnvRecordV::Object(v) => v matches ValueV::Object(h) && 0 <= h < heap.len(),
                EnvRecordV::Global(v) => v matches ValueV::Object(h) && 0 <= h < heap.len(),
            })
        }
}

/// What one record binds `name` to: for object-backed records, the backing
/// object's own data property (an own accessor reads as `Undefined`, as in
/// property lookup).
pub open spec fn record_lookup(heap: Seq<ObjV>, rec: EnvRecordV, name: Seq<char>) -> Option<
    ValueV,
> {
    match rec {
        EnvRecordV::Declarative(m) => if m.dom().contains(name) {
            Some(m[name])
        } else {
            None
        },
        EnvRecordV::Object(v) | EnvRecordV::Global(v) => match v {
            ValueV::Object(h) => if 0 <= h < heap.len() {
                match pm_get(heap[h].property, name) {
                    Some(PropertyV::Data(d)) => Some(d.val),
                    Some(PropertyV::Accessor(_)) => Some(ValueV::Undefined),
                    None => None,
                }
            } else {
                None
            },
            _ => None,
        },
    }
}

/// Lookup through the chain: the nearest record that binds `name` wins, so
/// inner bindings shadow outer ones.
pub open spec fn chain_lookup(
    envs: Seq<EnvV>,
    heap: Seq<ObjV>,
    env: int,
    name: Seq<char>,
) -> Option<ValueV>
    recommends
        envs_wf(envs, heap),
    decreases env,
{
    if 0 <= env < envs.len() {
        match record_lookup(heap, envs[env].record, name) {
            Some(v) => Some(v),
            None => match envs[env].outer {
                Some(o) => if 0 <= o < env {
                    chain_lookup(envs, heap, o, name)
                } else {
                    None
                },
                None => None,
            },
        }
    } else {
        None
    }
}

/// Where an assignment to `name` lands: the nearest declarative record that
/// already binds it, or the nearest object-backed record (which takes any
/// assignment), or nowhere.
pub enum SetTargetV {
    Decl(int),
    Obj(int),
    Missing,
}

pub open spec fn chain_set_target(
    envs: Seq<EnvV>,
    heap: Seq<ObjV>,
    env: int,
    name: Seq<char>,
) -> SetTargetV
    recommends
        envs_wf(envs, heap),
    decreases env,
{
    if 0 <= env < envs.len() {
        match envs[env].record {
            EnvRecordV::Declarative(m) => if m.dom().contains(name) {
                SetTargetV::Decl(env)
            } else {
                match envs[env].outer {
                    Some(o) => if 0 <= o < env {
                        chain_set_target(envs, heap, o, name)
                    } else {
                        SetTargetV::Missing
                    },
                    None => SetTargetV::Missing,
                }
            },
            EnvRecordV::Object(v) | EnvRecordV::Global(v) => match v {
                ValueV::Object(h) => SetTargetV::Obj(h),
                _ => SetTargetV::Missing,
            },
        }
    } else {
        SetTargetV::Missing
    }
}

impl LexicalEnvironment {
    /// A fresh declarative scope under `outer`.
    pub fn new_declarative(outer: Option<usize>) -> (r: LexicalEnvironment)
        ensures
            r@.record == EnvRecordV::Declarative(Map::<Seq<char>, ValueV>::empty()),
            r@.outer == match outer {
                Some(o) => Some(o as int),
                None => None::<int>,
            },
    {
        LexicalEnvironment { record: EnvironmentRecord::Declarative(fx_new()), outer }
    }

    /// A scope whose bindings are the own properties of `object`.
    pub fn new_object(object: Value, outer: Option<usize>) -> (r: LexicalEnvironment)
        ensures
            r@.record == EnvRecordV::Object(object@),
            r@.outer == match outer {
                Some(o) => Some(o as int),
                None => None::<int>,
            },
    {
        LexicalEnvironment { record: EnvironmentRecord::Object(object), outer }
    }

    /// Resolve `name` through the chain rooted at `env`. A hit on the
    /// uninitialized sentinel (a `let` binding in its temporal dead zone)
    /// and a total miss both fail with a Reference error.
    pub fn get_value(
        envs: &Vec<LexicalEnvironment>,
        heap: &MemoryAllocator,
        env: usize,
        name: &str,
    ) -> (r: Result<Value, RuntimeError>)
        requires
            envs_wf(env_seq(envs@), heap@),
            env < envs@.len(),
        ensures
            match chain_lookup(env_seq(envs@), heap@, env as int, name@) {
                Some(v) => if v == ValueV::Uninitialized {
                    r matches Err(RuntimeError::Reference(m)) && m@ == crate::error::spec_not_defined_msg(name@)
                } else {
                    r matches Ok(got) && got@ == v
                },
                None => r matches Err(RuntimeError::Reference(m)) && m@
                    == crate::error::spec_not_defined_msg(name@),
            },
        decreases env,
    {
        proof {
            assert(env_seq(envs@)[env as int] == envs@[env as int]@);
        }
        let found: Option<Value> = match &envs[env].record {
            EnvironmentRecord::Declarative(m) => fx_get(m, name),
            EnvironmentRecord::Object(obj) | EnvironmentRecord::Global(obj) => {
                let h = match obj {
                    Value::Object(h) => *h,
                    _ => {
                        proof {
                            assert(false);
                        }
                        0
                    },
                };
                match heap.get_own_property(h, name) {
                    Some(p) => match p {
                        Property::Data(d) => Some(d.val.clone()),
                        Property::Accessor(_) => Some(Value::Undefined),
                    },
                    None => None,
                }
            },
        };
        match found {
            Some(v) => {
                if v.is_uninitialized() {
                    Err(not_defined_error(name))
                } else {
                    Ok(v)
                }
            },
            None => {
                match envs[env].outer {
                    Some(o) => {
                        proof {
                            assert(env_seq(envs@)[env as int].outer == Some(o as int));
                        }
                        Self::get_value(envs, heap, o, name)
                    },
                    None => Err(not_defined_error(name)),
                }
            },
        }
    }

    /// Assign `val` to `name`: update the nearest declarative binding, or
    /// write a property of the nearest object-backed record; fail with a
    /// Reference error when the chain declares neither.
    pub fn set_value(
        envs: &mut Vec<LexicalEnvironment>,
        heap: &mut MemoryAllocator,
        env: usize,
        name: &str,
        val: Value,
    ) -> (r: Result<(), RuntimeError>)
        requires
            envs_wf(env_seq(old(envs)@), old(heap)@),
            env < old(envs)@.len(),
        ensures
            final(envs)@.len() == old(envs)@.len(),
            envs_wf(env_seq(final(envs)@), final(heap)@),
            match chain_set_target(env_seq(old(envs)@), old(heap)@, env as int, name@) {
                SetTargetV::Decl(j) => {
                    &&& r is Ok
                    &&& final(heap)@ == old(heap)@
                    &&& env_seq(final(envs)@) == env_seq(old(envs)@).update(
                        j,
                        EnvV {
                            record: EnvRecordV::Declarative(
                                env_seq(old(envs)@)[j].record->Declarative_0.insert(name@, val@),
                            ),
                            outer: env_seq(old(envs)@)[j].outer,
                        },
                    )
                },
                SetTargetV::Obj(h) => {
                    &&& r is Ok
                    &&& env_seq(final(envs)@) == env_seq(old(envs)@)
                    &&& final(heap)@.len() == old(heap)@.len()
                    &&& (forall|j: int|
                        0 <= j < old(heap)@.len() && j != h ==> #[trigger] final(heap)@[j] == old(
                            heap,
                        )@[j])
                    &&& final(heap)@[h].kind == old(heap)@[h].kind
                    &&& final(heap)@[h].prototype == old(heap)@[h].prototype
                    &&& pm_get(final(heap)@[h].property, name@) == Some(
                        PropertyV::Data(
                            crate::object::DataPropertyV {
                                val: val@,
                                writable: true,
                                enumerable: true,
                                configurable: true,
                            },
                        ),
                    )
                    &&& (forall|k2: Seq<char>|
                        k2 != name@ ==> #[trigger] pm_get(final(heap)@[h].property, k2) == pm_get(
                            old(heap)@[h].property,
                            k2,
                        ))
                    &&& pm_keys(final(heap)@[h].property) == (if pm_contains(
                        old(heap)@[h].property,
                        name@,
                    ) {
                        pm_keys(old(heap)@[h].property)
                    } else {
                        pm_keys(old(heap)@[h].property).push(name@)
                    })
                },
                SetTargetV::Missing => {
                    &&& r matches Err(RuntimeError::Reference(m)) && m@
                        == crate::error::spec_undeclared_msg(name@)
                    &&& final(heap)@ == old(heap)@
                    &&& env_seq(final(envs)@) == env_seq(old(envs)@)
                },
            },
        decreases env,
    {
        proof {
            assert(env_seq(envs@)[env as int] == envs@[env as int]@);
        }
        let is_decl_hit: bool = match &envs[env].record {
            EnvironmentRecord::Declarative(m) => fx_contains(m, name),
            _ => false,
        };
        if is_decl_hit {
            let ghost envs0 = env_seq(envs@);
            match &mut envs[env].record {
                EnvironmentRecord::Declarative(m) => {
                    fx_insert(m, name.to_owned(), val);
                },
                _ => {
                    proof {
                        assert(false);
                    }
                },
            }
            proof {
                assert(env_seq(envs@) =~= envs0.update(
                    env as int,
                    EnvV {
                        record: EnvRecordV::Declarative(
                            envs0[env as int].record->Declarative_0.insert(name@, val@),
                        ),
                        outer: envs0[env as int].outer,
                    },
                ));
                assert(envs_wf(env_seq(envs@), heap@));
            }
            return Ok(());
        }
        let obj_handle: Option<usize> = match &envs[env].record {
            EnvironmentRecord::Object(obj) | EnvironmentRecord::Global(obj) => {
                match obj {
                    Value::Object(h) => Some(*h),
                    _ => {
                        proof {
                            assert(false);
                        }
                        None
                    },
                }
            },
            EnvironmentRecord::Declarative(_) => None,
        };
        match obj_handle {
            Some(h) => {
                heap.set_property(h, name.to_owned(), val);
                proof {
                    assert(env_seq(envs@) =~= env_seq(old(envs)@));
                    assert(envs_wf(env_seq(envs@), heap@));
                }
                Ok(())
            },
            None => {
                match envs[env].outer {
                    Some(o) => {
                        proof {
                            assert(env_seq(envs@)[env as int].outer == Some(o as int));
                        }
                        Self::set_value(envs, heap, o, name, val)
                    },
                    None => Err(undeclared_error(name)),
                }
            },
        }
    }

    /// The enclosing scope's index, if any.
    pub fn get_outer(&self) -> (r: Option<usize>)
        ensures
            r == self.outer,
    {
        self.outer
    }

    /// The backing object of a global record.
    pub fn get_global_object(&self) -> (r: Option<Value>)
        ensures
            match self@.record {
                EnvRecordV::Global(v) => r matches Some(g) && g@ == v,
                _ => r is None,
            },
    {
        match &self.record {
            EnvironmentRecord::Global(obj) => Some(obj.clone()),
            _ => None,
        }
    }
}

/// The record is a Global one whose backing object handle is in bounds.
pub open spec fn is_global_backed(e: EnvV, heap_len: int) -> bool {
    match e.record {
        EnvRecordV::Global(v) => match v {
            ValueV::Object(g) => 0 <= g < heap_len,
            _ => false,
        },
        _ => false,
    }
}

/// Growing the heap never invalidates an environment arena.
pub proof fn lemma_envs_wf_grow(envs: Seq<EnvV>, heap1: Seq<ObjV>, heap2: Seq<ObjV>)
    requires
        envs_wf(envs, heap1),
        heap1.len() <= heap2.len(),
    ensures
        envs_wf(envs, heap2),
{
    assert forall|i: int| 0 <= i < envs.len() implies {
        let e = #[trigger] envs[i];
        (match e.outer {
            Some(o) => 0 <= o < i,
            None => true,
        }) && (match e.record {
            EnvRecordV::Declarative(_) => true,
            EnvRecordV::Object(v) => v matches ValueV::Object(h) && 0 <= h < heap2.len(),
            EnvRecordV::Global(v) => v matches ValueV::Object(h) && 0 <= h < heap2.len(),
        })
    } by {
        assert(envs[i] == envs[i]);
    }
}

/// A fresh function object for a native builtin.
fn builtin_function(
    memory_allocator: &mut MemoryAllocator,
    object_prototypes: &ObjectPrototypes,
    id: BuiltinId,
) -> (r: Value)
    requires
        object_prototypes.function < old(memory_allocator)@.len(),
    ensures
        final(memory_allocator)@ == old(memory_allocator)@.push(
            ObjV {
                kind: ObjectKindV::Function(FuncCallee::Builtin(id)),
                prototype: Some(object_prototypes.function as int),
                property: Seq::empty(),
            },
        ),
        r matches Value::Object(h) && h == old(memory_allocator)@.len(),
{
    let h = memory_allocator.allocate(
        ObjectInfo {
            kind: ObjectKind::Function(FuncCallee::Builtin(id)),
            prototype: Some(object_prototypes.function),
            property: PropMap::new(),
        },
    );
    Value::Object(h)
}

/// `obj` binds `key` to a live function object whose callee is `id`.
pub open spec fn binds_builtin_fn(heap: Seq<ObjV>, obj: int, key: Seq<char>, id: BuiltinId) -> bool {
    match pm_get(heap[obj].property, key) {
        Some(PropertyV::Data(d)) => match d.val {
            ValueV::Object(h) => 0 <= h < heap.len() && heap[h].kind == ObjectKindV::Function(
                FuncCallee::Builtin(id),
            ),
            _ => false,
        },
        _ => false,
    }
}

/// The global object carries the engine's namespace: a `console` object
/// whose `log` is the logging builtin, the `Object` constructor, and the
/// `parseFloat`, `__assert_deep_seq` and `require` builtins.
pub open spec fn global_bindings_initialized(heap: Seq<ObjV>, g: int) -> bool {
    &&& match pm_get(heap[g].property, "console"@) {
        Some(PropertyV::Data(d)) => match d.val {
            ValueV::Object(c) => 0 <= c < heap.len() && binds_builtin_fn(
                heap,
                c,
                "log"@,
                BuiltinId::Log,
            ),
            _ => false,
        },
        _ => false,
    }
    &&& binds_builtin_fn(heap, g, "Object"@, BuiltinId::ObjectConstructor)
    &&& binds_builtin_fn(heap, g, "parseFloat"@, BuiltinId::ParseFloat)
    &&& binds_builtin_fn(heap, g, "__assert_deep_seq"@, BuiltinId::DeepSeq)
    &&& binds_builtin_fn(heap, g, "require"@, BuiltinId::Require)
}

/// The global namespace keys are pairwise distinct character sequences.
proof fn lemma_global_keys_distinct()
    ensures
        "console"@ != "Object"@,
        "console"@ != "parseFloat"@,
        "console"@ != "__assert_deep_seq"@,
        "console"@ != "require"@,
        "Object"@ != "parseFloat"@,
        "Object"@ != "__assert_deep_seq"@,
        "Object"@ != "require"@,
        "parseFloat"@ != "__assert_deep_seq"@,
        "parseFloat"@ != "require"@,
        "__assert_deep_seq"@ != "require"@,
{
    reveal_strlit("console");
    reveal_strlit("Object");
    reveal_strlit("parseFloat");
    reveal_strlit("__assert_deep_seq");
    reveal_strlit("require");
    assert("console"@.len() == 7);
    assert("Object"@.len() == 6);
    assert("parseFloat"@.len() == 10);
    assert("__assert_deep_seq"@.len() == 17);
    assert("require"@.len() == 7);
    assert("console"@[0] == 'c');
    assert("require"@[0] == 'r');
}

impl LexicalEnvironment {
    /// The globally initialized scope: a Global record whose backing object
    /// carries the `console` namespace and the native builtins.
    pub fn new_global_initialized(
        memory_allocator: &mut MemoryAllocator,
        object_prototypes: &crate::object::ObjectPrototypes,
    ) -> (r: LexicalEnvironment)
        requires
            object_prototypes.object < old(memory_allocator)@.len(),
            object_prototypes.function < old(memory_allocator)@.len(),
        ensures
            final(memory_allocator)@.len() == old(memory_allocator)@.len() + 7,
            forall|j: int|
                0 <= j < old(memory_allocator)@.len() ==> #[trigger] final(memory_allocator)@[j]
                    == old(memory_allocator)@[j],
            r@.outer is None,
            is_global_backed(r@, final(memory_allocator)@.len() as int),
            r@.record == EnvRecordV::Global(
                ValueV::Object(old(memory_allocator)@.len() as int + 6),
            ),
            global_bindings_initialized(
                final(memory_allocator)@,
                old(memory_allocator)@.len() as int + 6,
            ),
    {
        let ghost len0: int = memory_allocator@.len() as int;
        let log = builtin_function(memory_allocator, object_prototypes, BuiltinId::Log);
        let console = memory_allocator.allocate(
            ObjectInfo::ordinary(Some(object_prototypes.object)),
        );
        memory_allocator.define_property(console, "log".to_owned(), Property::plain_data(log));
        let object_constructor = builtin_function(
            memory_allocator,
            object_prototypes,
            BuiltinId::ObjectConstructor,
        );
        let parse_float_fn = builtin_function(
            memory_allocator,
            object_prototypes,
            BuiltinId::ParseFloat,
        );
        let deep_seq_fn = builtin_function(memory_allocator, object_prototypes, BuiltinId::DeepSeq);
        let require_fn = builtin_function(memory_allocator, object_prototypes, BuiltinId::Require);
        let global = memory_allocator.allocate(
            ObjectInfo::ordinary(Some(object_prototypes.object)),
        );
        proof {
            lemma_global_keys_distinct();
        }
        memory_allocator.define_property(
            global,
            "console".to_owned(),
            Property::plain_data(Value::Object(console)),
        );
        memory_allocator.define_property(
            global,
            "Object".to_owned(),
            Property::plain_data(object_constructor),
        );
        proof {
            assert(pm_get(memory_allocator@[len0 + 6].property, "console"@) matches Some(
                PropertyV::Data(d),
            ) && d.val == ValueV::Object(len0 + 1));
        }
        memory_allocator.define_property(
            global,
            "parseFloat".to_owned(),
            Property::plain_data(parse_float_fn),
        );
        proof {
            assert(pm_get(memory_allocator@[len0 + 6].property, "console"@) matches Some(
                PropertyV::Data(d),
            ) && d.val == ValueV::Object(len0 + 1));
            assert(pm_get(memory_allocator@[len0 + 6].property, "Object"@) matches Some(
                PropertyV::Data(d2),
            ) && d2.val == ValueV::Object(len0 + 2));
        }
        memory_allocator.define_property(
            global,
            "__assert_deep_seq".to_owned(),
            Property::plain_data(deep_seq_fn),
        );
        proof {
            assert(pm_get(memory_allocator@[len0 + 6].property, "console"@) matches Some(
                PropertyV::Data(d),
            ) && d.val == ValueV::Object(len0 + 1));
            assert(pm_get(memory_allocator@[len0 + 6].property, "Object"@) matches Some(
                PropertyV::Data(d2),
            ) && d2.val == ValueV::Object(len0 + 2));
            assert(pm_get(memory_allocator@[len0 + 6].property, "parseFloat"@) matches Some(
                PropertyV::Data(d3),
            ) && d3.val == ValueV::Object(len0 + 3));
        }
        memory_allocator.define_property(
            global,
            "require".to_owned(),
            Property::plain_data(require_fn),
        );
        proof {
            reveal_strlit("log");
            let h = memory_allocator@;
            assert(pm_get(h[len0 + 6].property, "console"@) matches Some(PropertyV::Data(d))
                && d.val == ValueV::Object(len0 + 1));
            assert(pm_get(h[len0 + 6].property, "Object"@) matches Some(PropertyV::Data(d2))
                && d2.val == ValueV::Object(len0 + 2));
            assert(pm_get(h[len0 + 6].property, "parseFloat"@) matches Some(PropertyV::Data(d3))
                && d3.val == ValueV::Object(len0 + 3));
            assert(pm_get(h[len0 + 6].property, "__assert_deep_seq"@) matches Some(
                PropertyV::Data(d4),
            ) && d4.val == ValueV::Object(len0 + 4));
            assert(pm_get(h[len0 + 6].property, "require"@) matches Some(PropertyV::Data(d5))
                && d5.val == ValueV::Object(len0 + 5));
            assert(binds_builtin_fn(h, len0 + 1, "log"@, BuiltinId::Log));
            assert(binds_builtin_fn(h, len0 + 6, "Object"@, BuiltinId::ObjectConstructor));
            assert(binds_builtin_fn(h, len0 + 6, "parseFloat"@, BuiltinId::ParseFloat));
            assert(binds_builtin_fn(h, len0 + 6, "__assert_deep_seq"@, BuiltinId::DeepSeq));
            assert(binds_builtin_fn(h, len0 + 6, "require"@, BuiltinId::Require));
            assert(global_bindings_initialized(h, len0 + 6));
        }
        LexicalEnvironment { record: EnvironmentRecord::Global(Value::Object(global)), outer: None }
    }
}

/// Law: an inner declarative binding shadows any outer binding of the same
/// name — lookup returns the inner one, whatever the outer chain holds.
pub proof fn lemma_shadowing(envs: Seq<EnvV>, heap: Seq<ObjV>, env: int, name: Seq<char>, v: ValueV)
    requires
        0 <= env < envs.len(),
        envs[env].record matches EnvRecordV::Declarative(m) && m.dom().contains(name) && m[name]
            == v,
    ensures
        chain_lookup(envs, heap, env, name) == Some(v),
{
}

/// Law: reading a binding that is still in its temporal dead zone yields
/// the uninitialized sentinel (which `get_value` surfaces as a Reference
/// error), and once `set_value` has stored a value into that declarative
/// record, lookup returns exactly the stored value.
pub proof fn lemma_tdz_set_then_get(
    envs: Seq<EnvV>,
    heap: Seq<ObjV>,
    env: int,
    name: Seq<char>,
    v: ValueV,
)
    requires
        0 <= env < envs.len(),
        envs[env].record matches EnvRecordV::Declarative(m) && m.dom().contains(name),
    ensures
        chain_set_target(envs, heap, env, name) == SetTargetV::Decl(env),
        chain_lookup(
            envs.update(
                env,
                EnvV {
                    record: EnvRecordV::Declarative(
                        envs[env].record->Declarative_0.insert(name, v),
                    ),
                    outer: envs[env].outer,
                },
            ),
            heap,
            env,
            name,
        ) == Some(v),
{
}

/// Law: wherever in the chain an assignment to `name` resolves to a
/// declarative binding — at the starting scope or any distance down the
/// outer links — a lookup from the same starting scope, made after the
/// update, returns exactly the stored value.
pub proof fn lemma_set_then_get_deep(
    envs: Seq<EnvV>,
    heap: Seq<ObjV>,
    env: int,
    name: Seq<char>,
    v: ValueV,
    j: int,
)
    requires
        0 <= env < envs.len(),
        chain_set_target(envs, heap, env, name) == SetTargetV::Decl(j),
    ensures
        0 <= j <= env,
        chain_lookup(
            envs.update(
                j,
                EnvV {
                    record: EnvRecordV::Declarative(
                        envs[j].record->Declarative_0.insert(name, v),
                    ),
                    outer: envs[j].outer,
                },
            ),
            heap,
            env,
            name,
        ) == Some(v),
    decreases env,
{
    let envs2 = envs.update(
        j,
        EnvV {
            record: EnvRecordV::Declarative(envs[j].record->Declarative_0.insert(name, v)),
            outer: envs[j].outer,
        },
    );
    match envs[env].record {
        EnvRecordV::Declarative(m) => {
            if m.dom().contains(name) {
                assert(j == env);
                assert(record_lookup(heap, envs2[env].record, name) == Some(v));
            } else {
                match envs[env].outer {
                    Some(o) => {
                        lemma_set_then_get_deep(envs, heap, o, name, v, j);
                        assert(envs2[env] == envs[env]);
                        assert(record_lookup(heap, envs2[env].record, name) is None);
                    },
                    None => {},
                }
            }
        },
        _ => {},
    }
}

} // verus!
