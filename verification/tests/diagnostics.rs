//! The diagnostics route and the host clock.

use unibridge::glue::HostCall;
use unibridge::glue::Runtime;
use unibridge::glue::UniBridgeGlue;
use unibridge::glue::Value;
use unibridge::instance::CastError;
use unibridge::logger::enabled;
use unibridge::logger::init;
use unibridge::logger::log_line;
use unibridge::logger::Level;
use unibridge::logger::SetLoggerError;
use unibridge::unity::Time;

fn installed_runtime() -> Runtime {
    let mut rt = Runtime::new();
    rt.set_glue(UniBridgeGlue::new());
    rt
}

#[test]
fn init_registers_once_and_fails_the_second_time() {
    let mut rt = installed_runtime();
    assert_eq!(init(&mut rt), Ok(()));
    assert_eq!(init(&mut rt), Err(SetLoggerError));
}

#[test]
fn threshold_keeps_info_and_above() {
    assert!(enabled(Level::Error));
    assert!(enabled(Level::Warn));
    assert!(enabled(Level::Info));
    assert!(!enabled(Level::Debug));
    assert!(!enabled(Level::Trace));
}

#[test]
fn lines_are_routed_to_the_sink_for_their_severity() {
    let mut rt = installed_runtime();
    init(&mut rt).expect("first registration");
    log_line(&mut rt, Level::Error, "e");
    log_line(&mut rt, Level::Warn, "w");
    log_line(&mut rt, Level::Info, "i");
    log_line(&mut rt, Level::Debug, "d");
    log_line(&mut rt, Level::Trace, "t");
    assert_eq!(
        rt.glue.log().as_slice(),
        &[HostCall::ErrorLine, HostCall::WarnLine, HostCall::InfoLine]
    );
}

#[test]
fn without_a_registered_route_nothing_is_sent() {
    let mut rt = installed_runtime();
    log_line(&mut rt, Level::Error, "dropped");
    assert!(rt.glue.log().is_empty());
}

#[test]
fn delta_time_reads_the_hosts_float() {
    let mut rt = installed_runtime();
    let dt: f32 = 0.016;
    rt.glue.push_result(Some(Value::F32Bits(dt.to_bits())));
    let bits = Time::delta_time(&mut rt).expect("host answered with a float");
    assert_eq!(f32::from_bits(bits), dt);
    assert_eq!(rt.glue.log().len(), 2);
    assert_eq!(rt.glue.log()[0], HostCall::GetProperty(0));
}

#[test]
fn delta_time_surfaces_a_non_float_answer_as_cast_error() {
    let mut rt = installed_runtime();
    rt.glue.push_result(Some(Value::Obj));
    assert_eq!(Time::delta_time(&mut rt), Err(CastError));
}
