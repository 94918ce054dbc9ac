//! The engine driven end to end through its script helpers.

use rapidus::test::{execute_script, runtime_error, test_code};

#[test]
fn vm_test() {
    execute_script("for(var i = 0; i < 4; i++){ i }".to_string()).unwrap();
}

#[test]
fn string_test1() {
    assert!(test_code("'死して屍拾う者なし'[4]", "'拾'"));
}

#[test]
fn string_test2() {
    assert!(test_code("'死して屍拾う者なし'.length", "9"));
}

#[test]
fn operator_test() {
    assert!(test_code("+(5>3)+60%7+(3>=5)+!!5+(-6)", "0"));
}

#[test]
fn arrow_function() {
    assert!(test_code("let f = (x) => { return x * x }; f(5)", "25"));
    assert!(test_code("let f = x => { return x * x }; f(6)", "36"));
}

#[test]
fn runtime_error1() {
    assert!(runtime_error("let a = {}; a.b.c").is_some());
}

#[test]
fn runtime_error2() {
    assert!(runtime_error("let a = {}; a.b.c = 5").is_some());
}

#[test]
fn runtime_error3() {
    assert!(runtime_error("let a = {}; a(5)").is_some());
}

#[test]
fn runtime_error4() {
    assert!(runtime_error("let a = {}; a.b(5)").is_some());
}

#[test]
fn runtime_error5() {
    assert!(runtime_error("let a = {}; a(5)").is_some());
}
