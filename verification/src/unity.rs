//! The interfaces a host-driven game object exposes to the bridge, and the
//! host services read through it.

use vstd::prelude::*;

use crate::glue::HostCall;
use crate::glue::HostObject;
use crate::glue::Runtime;
use crate::glue::Value;
use crate::instance::CastError;
use crate::instance::Instance;

verus! {

/// An owning handle used as the context object of a native behaviour.
pub type Context = Instance;

/// The frame-loop hooks of a native behaviour; the host drives them through
/// the invocation boundary.
pub trait MonoBehaviour {
    fn start(&mut self) {
    }

    fn update(&mut self) {
    }
}

/// The native-side logic object the invocation boundary dispatches into: it
/// maps a method name and argument handles to one result handle.
pub trait RustInstance {
    fn invoke(&mut self, _method_name: &str, _args: &[Instance]) -> Instance {
        Instance::null()
    }
}

/// The host's clock, read through the operation table.
pub struct Time;

impl Time {
    /// Seconds since the previous frame, as the raw bits of the host's
    /// 32-bit float: the static time property is read through the table and
    /// the returned box is cast back out.  The read's answer is the host's;
    /// an answer that is not a boxed float surfaces as the typed cast
    /// error, never as a fabricated number.
    pub fn delta_time(rt: &mut Runtime) -> (r: Result<u32, CastError>)
        requires
            old(rt).installed,
        ensures
            final(rt).installed,
            final(rt).logger_installed == old(rt).logger_installed,
            final(rt).glue.results@ == old(rt).glue.rest_results(),
            match old(rt).glue.next_result() {
                Some(v) => {
                    &&& final(rt).glue.calls@ == old(rt).glue.calls@ + seq![
                        HostCall::GetProperty(0),
                        HostCall::TryF32(old(rt).glue.next_id()),
                    ]
                    &&& final(rt).glue.objects@ == old(rt).glue.objects@.push(
                        (HostObject { count: 0, value: v }),
                    )
                    &&& r == (match v {
                        Value::F32Bits(b) => Ok::<u32, CastError>(b),
                        _ => Err::<u32, CastError>(CastError),
                    })
                },
                None => {
                    &&& final(rt).glue.calls@ == old(rt).glue.calls@ + seq![
                        HostCall::GetProperty(0),
                        HostCall::TryF32(0),
                    ]
                    &&& final(rt).glue.objects@ == old(rt).glue.objects@
                    &&& r == Err::<u32, CastError>(CastError)
                },
            },
    {
        let ghost pre = rt.glue;
        let h = rt.glue.get_property(0, "UnityEngine.Time, UnityEngine.dll", "deltaTime");
        let n: usize = rt.glue.objects.len();
        proof {
            if pre.next_result() is Some {
                assert(pre.objects@.len() + 1 == n);
                assert(h.id() == n);
            }
        }
        let r = h.try_into_f32_bits(rt);
        proof {
            match pre.next_result() {
                Some(v) => {
                    assert(rt.glue.calls@ =~= pre.calls@ + seq![
                        HostCall::GetProperty(0),
                        HostCall::TryF32(pre.next_id()),
                    ]);
                    assert(rt.glue.objects@ =~= pre.objects@.push(
                        HostObject { count: 0, value: v },
                    ));
                },
                None => {
                    assert(rt.glue.calls@ =~= pre.calls@ + seq![
                        HostCall::GetProperty(0),
                        HostCall::TryF32(0),
                    ]);
                },
            }
        }
        r
    }
}

} // verus!
