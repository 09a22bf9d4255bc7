//! The type cast channel: total boxing of native primitives, fallible casts
//! back out.

use unibridge::glue::HostCall;
use unibridge::glue::Runtime;
use unibridge::glue::UniBridgeGlue;
use unibridge::glue::Value;
use unibridge::instance::CastError;
use unibridge::instance::Instance;

fn installed_runtime() -> Runtime {
    let mut rt = Runtime::new();
    rt.set_glue(UniBridgeGlue::new());
    rt
}

#[test]
fn float_round_trip_is_bit_exact() {
    let mut rt = installed_runtime();
    let x: f32 = 3.14159;
    let h = Instance::from_f32_bits(&mut rt, x.to_bits());
    assert!(!h.is_null());
    let bits = h.try_into_f32_bits(&mut rt).expect("a boxed float casts back");
    assert_eq!(bits, x.to_bits());
    assert_eq!(f32::from_bits(bits), x);
}

#[test]
fn negative_zero_round_trips_as_its_own_bits() {
    let mut rt = installed_runtime();
    let x: f32 = -0.0;
    let h = Instance::from_f32_bits(&mut rt, x.to_bits());
    let bits = h.try_into_f32_bits(&mut rt).expect("a boxed float casts back");
    assert_eq!(bits, x.to_bits());
    assert_ne!(bits, 0.0f32.to_bits());
}

#[test]
fn non_numeric_handle_fails_the_float_cast() {
    let mut rt = installed_runtime();
    let h = Instance::from_str_value(&mut rt, "not a number");
    let id = h.raw();
    assert_eq!(h.try_into_f32_bits(&mut rt), Err(CastError));
    // The consuming cast released the reference even though it failed.
    assert_eq!(rt.glue.ref_count(id), 0);
}

#[test]
fn opaque_object_fails_the_float_cast() {
    let mut rt = installed_runtime();
    let h = rt.glue.new_instance("Foo", &[]);
    assert_eq!(h.try_into_f32_bits(&mut rt), Err(CastError));
}

#[test]
fn null_handle_casts_to_false_without_a_host_call() {
    let mut rt = installed_runtime();
    let h = Instance::null();
    assert_eq!(h.try_into_bool(&mut rt), Ok(false));
    assert!(rt.glue.log().is_empty());
}

#[test]
fn boolean_box_casts_to_its_value() {
    let mut rt = installed_runtime();
    rt.glue.push_result(Some(Value::Bool(true)));
    let h = rt.glue.new_instance("System.Boolean", &[]);
    let id = h.raw();
    assert_eq!(h.try_into_bool(&mut rt), Ok(true));
    assert_eq!(
        rt.glue.log().as_slice(),
        &[HostCall::NewInstance, HostCall::TryBool(id)]
    );
}

#[test]
fn non_boolean_handle_fails_the_bool_cast() {
    let mut rt = installed_runtime();
    let h = Instance::from_f32_bits(&mut rt, 1.0f32.to_bits());
    assert_eq!(h.try_into_bool(&mut rt), Err(CastError));
}

#[test]
fn string_boxing_is_total_and_owning() {
    let mut rt = installed_runtime();
    let h = Instance::from_str_value(&mut rt, "hello");
    assert!(!h.is_null());
    assert_eq!(rt.glue.ref_count(h.raw()), 1);
    assert_eq!(rt.glue.log().as_slice(), &[HostCall::ToStringValue]);
    h.dispose(&mut rt);
}

#[test]
fn byte_buffers_are_wrapped_in_fresh_handles() {
    let mut rt = installed_runtime();
    let h = rt.glue.sized_bytes(&[1, 2, 3]);
    assert!(!h.is_null());
    assert_eq!(rt.glue.log().as_slice(), &[HostCall::SizedBytes]);
    assert_eq!(h.try_into_f32_bits(&mut rt), Err(CastError));
}

#[test]
fn distinct_boxes_get_distinct_identifiers() {
    let mut rt = installed_runtime();
    let a = Instance::from_f32_bits(&mut rt, 1.5f32.to_bits());
    let b = Instance::from_f32_bits(&mut rt, 1.5f32.to_bits());
    assert_ne!(a.raw(), b.raw());
    a.dispose(&mut rt);
    b.dispose(&mut rt);
}
