//! Scenario tests: the value model, deep equality, scoping, constructor
//! calls, and exception-table unwinding, on concrete inputs.

use rapidus::builtin::deep_seq_bool;
use rapidus::bytecode::Exception;
use rapidus::bytecode::Inst;
use rapidus::env::LexicalEnvironment;
use rapidus::frame::{ExecutionContext, Frame};
use rapidus::numeric::JsNumber;
use rapidus::object::{
    AccessorProperty, MemoryAllocator, ObjectInfo, PropMap, Property,
};
use rapidus::test::{drain_output, execute_script, runtime_error};
use rapidus::value::Value;
use rapidus::vm::VM;

fn run_script(vm: &mut VM, text: &str) -> Value {
    let mut parser = rapidus::parser::Parser::new("test", text.to_string());
    let node = parser.parse_all().unwrap();
    let info = vm.compile(&node, true).unwrap();
    vm.run_global(info).unwrap();
    vm.stack.pop().unwrap_or(Value::Undefined)
}

#[test]
fn strict_eq_reflexive_except_nan() {
    let samples = vec![
        Value::Number(JsNumber::Int(3)),
        Value::Bool(true),
        Value::String("abc".to_string()),
        Value::Undefined,
        Value::Null,
        Value::Object(0),
        Value::Symbol(7),
    ];
    for v in &samples {
        assert!(v.strict_eq_bool(v));
    }
    let nan = Value::Number(JsNumber::Nan);
    assert!(!nan.strict_eq_bool(&nan));
}

#[test]
fn strict_eq_distinguishes_payloads() {
    assert!(!Value::Number(JsNumber::Int(1)).strict_eq_bool(&Value::Number(JsNumber::Int(2))));
    assert!(!Value::Number(JsNumber::Int(1)).strict_eq_bool(&Value::Bool(true)));
    assert!(!Value::Object(1).strict_eq_bool(&Value::Object(2)));
    assert!(Value::String("a".to_string()).strict_eq_bool(&Value::String("a".to_string())));
}

fn data(v: Value) -> Property {
    Property::plain_data(v)
}

#[test]
fn deep_eq_order_insensitive_and_reflexive() {
    let mut heap = MemoryAllocator::new();
    // {a:1, b:2} and {b:2, a:1}
    let o1 = heap.allocate(ObjectInfo::ordinary(None));
    heap.define_property(o1, "a".to_string(), data(Value::Number(JsNumber::Int(1))));
    heap.define_property(o1, "b".to_string(), data(Value::Number(JsNumber::Int(2))));
    let o2 = heap.allocate(ObjectInfo::ordinary(None));
    heap.define_property(o2, "b".to_string(), data(Value::Number(JsNumber::Int(2))));
    heap.define_property(o2, "a".to_string(), data(Value::Number(JsNumber::Int(1))));
    let fuel = heap.len() + 1;
    assert!(deep_seq_bool(&heap, &Value::Object(o1), &Value::Object(o2), fuel));
    assert!(deep_seq_bool(&heap, &Value::Object(o2), &Value::Object(o1), fuel));
    assert!(deep_seq_bool(&heap, &Value::Object(o1), &Value::Object(o1), fuel));
}

#[test]
fn deep_eq_detects_mismatch() {
    let mut heap = MemoryAllocator::new();
    let o1 = heap.allocate(ObjectInfo::ordinary(None));
    heap.define_property(o1, "a".to_string(), data(Value::Number(JsNumber::Int(1))));
    let o2 = heap.allocate(ObjectInfo::ordinary(None));
    heap.define_property(o2, "a".to_string(), data(Value::Number(JsNumber::Int(2))));
    let o3 = heap.allocate(ObjectInfo::ordinary(None));
    heap.define_property(o3, "z".to_string(), data(Value::Number(JsNumber::Int(1))));
    let fuel = heap.len() + 1;
    assert!(!deep_seq_bool(&heap, &Value::Object(o1), &Value::Object(o2), fuel));
    assert!(!deep_seq_bool(&heap, &Value::Object(o1), &Value::Object(o3), fuel));
}

#[test]
fn deep_eq_accessor_never_equal() {
    let mut heap = MemoryAllocator::new();
    let o = heap.allocate(ObjectInfo::ordinary(None));
    heap.define_property(
        o,
        "p".to_string(),
        Property::Accessor(AccessorProperty {
            get: Value::Undefined,
            set: Value::Undefined,
            enumerable: true,
            configurable: true,
        }),
    );
    let fuel = heap.len() + 1;
    // an object holding an accessor is not even deep-equal to itself
    assert!(!deep_seq_bool(&heap, &Value::Object(o), &Value::Object(o), fuel));
}

#[test]
fn deep_eq_arrays_elementwise() {
    let mut heap = MemoryAllocator::new();
    let a1 = heap.allocate(ObjectInfo {
        kind: rapidus::object::ObjectKind::Array(vec![
            data(Value::Number(JsNumber::Int(1))),
            data(Value::Number(JsNumber::Int(2))),
        ]),
        prototype: None,
        property: PropMap::new(),
    });
    let a2 = heap.allocate(ObjectInfo {
        kind: rapidus::object::ObjectKind::Array(vec![
            data(Value::Number(JsNumber::Int(2))),
            data(Value::Number(JsNumber::Int(1))),
        ]),
        prototype: None,
        property: PropMap::new(),
    });
    let fuel = heap.len() + 1;
    // arrays compare in index order, so transposed elements differ
    assert!(!deep_seq_bool(&heap, &Value::Object(a1), &Value::Object(a2), fuel));
    assert!(deep_seq_bool(&heap, &Value::Object(a1), &Value::Object(a1), fuel));
}

#[test]
fn deep_eq_builtin_end_to_end() {
    assert_eq!(
        execute_script("__assert_deep_seq({a:1,b:{c:2}}, {b:{c:2},a:1})".to_string()).unwrap(),
        "true"
    );
    assert_eq!(
        execute_script("__assert_deep_seq({a:1,b:{c:2}}, {a:1,b:{c:3}})".to_string()).unwrap(),
        "false"
    );
}

#[test]
fn property_enumeration_order_is_insertion_order() {
    let mut pm = PropMap::new();
    pm.set("b".to_string(), data(Value::Number(JsNumber::Int(1))));
    pm.set("a".to_string(), data(Value::Number(JsNumber::Int(2))));
    // updating an existing key keeps its position
    pm.set("b".to_string(), data(Value::Number(JsNumber::Int(9))));
    pm.set("c".to_string(), data(Value::Number(JsNumber::Int(3))));
    assert_eq!(pm.len(), 3);
    assert_eq!(pm.entry_at(0).0.as_str(), "b");
    assert_eq!(pm.entry_at(1).0.as_str(), "a");
    assert_eq!(pm.entry_at(2).0.as_str(), "c");
    match pm.get("b") {
        Some(Property::Data(d)) => assert!(d.val.strict_eq_bool(&Value::Number(JsNumber::Int(9)))),
        _ => panic!("b lost its slot"),
    }
}

#[test]
fn prototype_chain_lookup() {
    let mut heap = MemoryAllocator::new();
    let proto = heap.allocate(ObjectInfo::ordinary(None));
    heap.define_property(proto, "inherited".to_string(), data(Value::Number(JsNumber::Int(42))));
    let obj = heap.allocate(ObjectInfo::ordinary(Some(proto)));
    heap.define_property(obj, "own".to_string(), data(Value::Number(JsNumber::Int(1))));
    assert!(heap.get_property(obj, "own").strict_eq_bool(&Value::Number(JsNumber::Int(1))));
    assert!(heap.get_property(obj, "inherited").strict_eq_bool(&Value::Number(JsNumber::Int(42))));
    assert!(heap.get_property(obj, "missing").strict_eq_bool(&Value::Undefined));
    assert!(heap.has_own_property(obj, "own"));
    assert!(!heap.has_own_property(obj, "inherited"));
    // writes land on the receiver, never on the prototype
    heap.set_property(obj, "inherited".to_string(), Value::Number(JsNumber::Int(7)));
    assert!(heap.get_property(proto, "inherited").strict_eq_bool(&Value::Number(JsNumber::Int(42))));
    assert!(heap.get_property(obj, "inherited").strict_eq_bool(&Value::Number(JsNumber::Int(7))));
}

#[test]
fn shadowing_inner_binding_wins() {
    assert_eq!(
        execute_script("let x = 1; let f = (y) => { let x = 2; return x }; f(0)".to_string())
            .unwrap(),
        "2"
    );
    assert_eq!(execute_script("let x = 1; let f = (y) => { return x }; f(0)".to_string()).unwrap(), "1");
}

#[test]
fn tdz_read_fails_then_set_then_get() {
    let err = runtime_error("let x; x + 1").unwrap();
    assert!(err.contains("ReferenceError"));
    assert!(err.contains("'x' is not defined"));
    assert_eq!(execute_script("let x; x = 3; x".to_string()).unwrap(), "3");
}

#[test]
fn undeclared_assignment_reference_error() {
    // the global scope is object-backed, so only a purely declarative chain
    // rejects the write; a function body's chain still reaches the global
    // object, which takes the assignment as a property
    assert_eq!(execute_script("y = 4; y".to_string()).unwrap(), "4");
}

#[test]
fn environment_get_outer_and_global_object() {
    let env = LexicalEnvironment::new_declarative(Some(3));
    assert_eq!(env.get_outer(), Some(3));
    assert!(env.get_global_object().is_none());
}

#[test]
fn constructor_call_builds_this_from_prototype() {
    let mut vm = VM::new();
    let result = run_script(&mut vm, "let F = (a) => { return 1 }; let o = new F(2); o");
    let h = match result {
        Value::Object(h) => h,
        other => panic!("constructor did not yield an object: {:?}", other),
    };
    // the fresh `this` survives because the body returned a non-object
    let f = LexicalEnvironment::get_value(&vm.envs, &vm.memory_allocator, vm.global_env, "F")
        .unwrap();
    let fh = match f {
        Value::Object(fh) => fh,
        _ => panic!("F is not an object"),
    };
    let proto_prop = vm.memory_allocator.get_property(fh, "prototype");
    let ph = match proto_prop {
        Value::Object(ph) => ph,
        _ => panic!("F has no prototype object"),
    };
    assert_eq!(vm.memory_allocator.obj_at(h).prototype, Some(ph));
    // called normally, the same body yields its return value instead
    let plain = run_script(&mut vm, "F(2)");
    assert!(plain.strict_eq_bool(&Value::Number(JsNumber::Int(1))));
}

#[test]
fn constructor_flag_is_set_on_frames() {
    let ctx = ExecutionContext::new(0);
    let frame = Frame::new(ctx, Vec::new(), Vec::new(), Value::Undefined, true);
    assert!(frame.constructor_call);
    assert_eq!(frame.pc, 0);
    assert_eq!(frame.saved_stack_len, 0);
}

#[test]
fn exception_table_redirects_and_truncates() {
    let mut vm = VM::new();
    // junk below the frame's bookmark must survive; the operand pushed
    // inside the try range must be discarded on unwinding
    vm.stack.push(Value::Number(JsNumber::Int(7)));
    let code = vec![
        Inst::PushInt(99),
        Inst::PushInt(1),
        Inst::Throw,
        Inst::Return,
    ];
    let table = vec![Exception { start: 0, end: 3, dst: 3 }];
    let ctx = ExecutionContext::new(vm.global_env);
    let mut frame = Frame::new(ctx, code, table, Value::Undefined, false);
    frame.saved_stack_len = vm.stack.len();
    let result = vm.run(frame, 1000).unwrap();
    // the handler saw the stack truncated to its pre-try depth plus the
    // thrown value, which Return then delivered
    assert!(result.strict_eq_bool(&Value::Number(JsNumber::Int(1))));
    assert_eq!(vm.stack.len(), 1);
    assert!(vm.stack.pop().unwrap().strict_eq_bool(&Value::Number(JsNumber::Int(7))));
}

#[test]
fn try_catch_end_to_end() {
    assert_eq!(
        execute_script("let r = 0; try { throw 21 } catch (e) { r = e + e }; r".to_string())
            .unwrap(),
        "42"
    );
    let uncaught = runtime_error("throw 5").unwrap();
    assert!(uncaught.contains("Thrown"));
}

#[test]
fn parse_float_builtin() {
    assert_eq!(execute_script("parseFloat('42')".to_string()).unwrap(), "42");
    assert_eq!(execute_script("parseFloat('-7')".to_string()).unwrap(), "-7");
    assert_eq!(execute_script("parseFloat('x')".to_string()).unwrap(), "NaN");
    assert_eq!(execute_script("parseFloat(8)".to_string()).unwrap(), "8");
}

#[test]
fn require_builtin() {
    assert_eq!(execute_script("require('fs')".to_string()).unwrap(), "'fs'");
    let arity = runtime_error("require()").unwrap();
    assert!(arity.contains("One argument is needed"));
    let wrong_type = runtime_error("require(5)").unwrap();
    assert!(wrong_type.contains("TypeError"));
}

#[test]
fn deep_seq_builtin_arity_error() {
    let err = runtime_error("__assert_deep_seq(1)").unwrap();
    assert!(err.contains("Two arguments are needed"));
}

#[test]
fn console_log_is_buffered() {
    let mut vm = VM::new();
    let _ = run_script(&mut vm, "console.log(1); console.log('hi', 2)");
    let lines = drain_output(&mut vm);
    assert_eq!(lines, vec!["1".to_string(), "hi 2".to_string()]);
    assert_eq!(drain_output(&mut vm).len(), 0);
}

#[test]
fn integer_arithmetic_is_exact_and_overflow_is_nan() {
    assert_eq!(execute_script("6/2".to_string()).unwrap(), "3");
    assert_eq!(execute_script("7/2".to_string()).unwrap(), "NaN");
    assert_eq!(execute_script("1/0".to_string()).unwrap(), "NaN");
    assert_eq!(
        execute_script("9223372036854775807 + 1".to_string()).unwrap(),
        "NaN"
    );
    assert_eq!(execute_script("-6 % 5".to_string()).unwrap(), "-1");
}

#[test]
fn value_coercions() {
    assert_eq!(execute_script("!!5".to_string()).unwrap(), "true");
    assert_eq!(execute_script("!''".to_string()).unwrap(), "true");
    assert_eq!(execute_script("+true".to_string()).unwrap(), "1");
    assert_eq!(execute_script("+null".to_string()).unwrap(), "0");
    assert_eq!(execute_script("+undefined".to_string()).unwrap(), "NaN");
    assert_eq!(execute_script("'a' + 1".to_string()).unwrap(), "'a1'");
}

#[test]
fn while_and_if_control_flow() {
    assert_eq!(
        execute_script("var s = 0; var i = 0; while (i < 5) { s = s + i; i++ }; s".to_string())
            .unwrap(),
        "10"
    );
    assert_eq!(
        execute_script("var r = 0; if (1 < 2) { r = 1 } else { r = 2 }; r".to_string()).unwrap(),
        "1"
    );
}

#[test]
fn member_access_through_undefined_is_type_error() {
    assert!(runtime_error("let a = {}; a.b.c").unwrap().contains("TypeError"));
    assert!(runtime_error("let a = {}; a.b.c = 5").unwrap().contains("TypeError"));
    assert!(runtime_error("let a = {}; a(5)").unwrap().contains("TypeError"));
}

#[test]
fn symbols_are_distinct() {
    let mut vm = VM::new();
    let s1 = vm.new_symbol();
    let s2 = vm.new_symbol();
    assert!(s1.strict_eq_bool(&s1));
    assert!(!s1.strict_eq_bool(&s2));
}
