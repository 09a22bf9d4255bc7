//! Host-delegated equality: the host's own operator decides, through an
//! `op_Equality` method call, never an identifier comparison.

use unibridge::glue::HostCall;
use unibridge::glue::Runtime;
use unibridge::glue::UniBridgeGlue;
use unibridge::glue::Value;
use unibridge::instance::CastError;

fn installed_runtime() -> Runtime {
    let mut rt = Runtime::new();
    rt.set_glue(UniBridgeGlue::new());
    rt
}

#[test]
fn equality_is_the_hosts_answer() {
    let mut rt = installed_runtime();
    let a = rt.glue.new_instance("Foo", &[]);
    let b = rt.glue.new_instance("Foo", &[]);
    rt.glue.push_result(Some(Value::Bool(true)));
    assert_eq!(a.equals(&mut rt, &b), Ok(true));
    rt.glue.push_result(Some(Value::Bool(false)));
    assert_eq!(a.equals(&mut rt, &b), Ok(false));
    a.dispose(&mut rt);
    b.dispose(&mut rt);
}

#[test]
fn equality_query_balances_its_temporary_owner() {
    let mut rt = installed_runtime();
    let a = rt.glue.new_instance("Foo", &[]);
    let b = rt.glue.new_instance("Foo", &[]);
    let (a_id, b_id) = (a.raw(), b.raw());
    rt.glue.push_result(Some(Value::Bool(true)));
    let logged = rt.glue.log().len();
    let _ = a.equals(&mut rt, &b);
    assert_eq!(rt.glue.ref_count(b_id), 1);
    let seen = &rt.glue.log()[logged..];
    assert_eq!(seen[0], HostCall::CloneInstance(b_id));
    assert_eq!(seen[1], HostCall::InvokeMethod(a_id));
    assert_eq!(seen[2], HostCall::DisposeInstance(b_id));
    assert!(matches!(seen[3], HostCall::TryBool(_)));
    assert_eq!(seen.len(), 4);
}

#[test]
fn null_equality_answer_is_falsy() {
    let mut rt = installed_runtime();
    let a = rt.glue.new_instance("Foo", &[]);
    let b = rt.glue.new_instance("Foo", &[]);
    rt.glue.push_result(None);
    assert_eq!(a.equals(&mut rt, &b), Ok(false));
}

#[test]
fn non_boolean_equality_answer_is_a_cast_error() {
    let mut rt = installed_runtime();
    let a = rt.glue.new_instance("Foo", &[]);
    let b = rt.glue.new_instance("Foo", &[]);
    // No scripted answer: the stub host replies with a fresh opaque object.
    assert_eq!(a.equals(&mut rt, &b), Err(CastError));
}
