//! The operation table and the process-wide bridge state.
//!
//! Every handle operation crosses into the host through a fixed table of
//! entry points that the host supplies once at startup.  The host that owns
//! the real objects sits outside this crate; what the bridge can rely on is
//! the protocol of those entry points.  This module states that protocol as
//! an explicit model: a store of reference-counted objects with sequentially
//! allocated identifiers (identifier `i + 1` lives in slot `i`, identifier
//! `0` is the reserved null, and identifiers are never reused), a queue of
//! host-chosen answers for the calls whose outcome only the host decides,
//! and a log of every call issued through the table, in order.

use vstd::prelude::*;

use crate::instance::Instance;
use crate::instance::TypeCast;

verus! {

/// What a host object holds, as far as the bridge can observe it through the
/// cast channel: an opaque object, a boxed string, a wrapped byte buffer, a
/// boxed 32-bit float (kept as its raw bits), or a boxed boolean.
#[derive(Clone, Copy, PartialEq, Eq, Debug)]
pub enum Value {
    Obj,
    Str,
    Bytes,
    F32Bits(u32),
    Bool(bool),
}

/// One host-side object: how many ownership counts are registered for it,
/// and what it holds.  A count of zero means the object has been collected;
/// its identifier is never handed out again.
#[derive(Clone, Copy, PartialEq, Eq, Debug)]
pub struct HostObject {
    pub count: u64,
    pub value: Value,
}

/// One call observed at the operation table, in the order issued.  Entries
/// carry the identifier they were issued against; the diagnostics entries
/// record that a line was sent, not its text.
#[derive(Clone, Copy, PartialEq, Eq, Debug)]
pub enum HostCall {
    NewInstance,
    DisposeInstance(u64),
    InvokeMethod(u64),
    InvokeAsMethod(u64),
    CloneInstance(u64),
    GetProperty(u64),
    GetField(u64),
    SetProperty(u64),
    SetField(u64),
    SizedBytes,
    ToStringValue,
    ToF32Value,
    TryF32(u64),
    TryBool(u64),
    HandlePanic,
    ErrorLine,
    WarnLine,
    InfoLine,
}

/// The operation table together with the host state it manipulates.
///
/// `objects` is the host's object store, `calls` the log of every call the
/// bridge has issued, and `results` the host's pending answers for the calls
/// it decides freely (creation, invocation, member reads): the front entry
/// is consumed per call, `Some(v)` meaning a fresh object holding `v`,
/// `None` meaning the null handle.  An empty queue stands for a host that
/// keeps answering with fresh opaque objects.
pub struct UniBridgeGlue {
    pub objects: Vec<HostObject>,
    pub results: Vec<Option<Value>>,
    pub calls: Vec<HostCall>,
}

impl UniBridgeGlue {
    /// True if the host still holds the object behind `id`.
    pub open spec fn is_live(self, id: u64) -> bool {
        &&& 1 <= id
        &&& id <= self.objects@.len()
        &&& self.objects@[id - 1].count > 0
    }

    /// Ownership counts registered for `id`: zero for the null identifier,
    /// for collected objects and for identifiers never handed out.
    pub open spec fn count_of(self, id: u64) -> u64 {
        if 1 <= id && id <= self.objects@.len() {
            self.objects@[id - 1].count
        } else {
            0
        }
    }

    /// What the object behind `id` holds, if it is still alive.
    pub open spec fn payload_of(self, id: u64) -> Option<Value> {
        if self.is_live(id) {
            Some(self.objects@[id - 1].value)
        } else {
            None
        }
    }

    /// The identifier the next allocated object will get.
    pub open spec fn next_id(self) -> u64 {
        (self.objects@.len() + 1) as u64
    }

    /// The answer the host will give to the next free-outcome call.
    pub open spec fn next_result(self) -> Option<Value> {
        if self.results@.len() == 0 {
            Some(Value::Obj)
        } else {
            self.results@[0]
        }
    }

    /// The answer queue after one free-outcome call.
    pub open spec fn rest_results(self) -> Seq<Option<Value>> {
        if self.results@.len() == 0 {
            self.results@
        } else {
            self.results@.subrange(1, self.results@.len() as int)
        }
    }

    /// How one table call that the host answers with a handle changes the
    /// state: the call is logged, the front of the answer queue is consumed,
    /// and either a fresh object with a single ownership count appears — the
    /// returned handle names it — or the null handle comes back.
    pub open spec fn produces(pre: Self, post: Self, r: Instance, call: HostCall) -> bool {
        &&& post.calls@ == pre.calls@.push(call)
        &&& post.results@ == pre.rest_results()
        &&& match pre.next_result() {
            Some(v) => {
                &&& r.id() == pre.next_id()
                &&& post.objects@ == pre.objects@.push(HostObject { count: 1, value: v })
            },
            None => {
                &&& r.id() == 0
                &&& post.objects@ == pre.objects@
            },
        }
    }

    /// How a total boxing constructor changes the state: the call is logged
    /// and a fresh object holding `v` appears, with a single ownership count.
    pub open spec fn boxes(pre: Self, post: Self, r: Instance, v: Value, call: HostCall) -> bool {
        &&& post.calls@ == pre.calls@.push(call)
        &&& post.results@ == pre.results@
        &&& r.id() == pre.next_id()
        &&& post.objects@ == pre.objects@.push(HostObject { count: 1, value: v })
    }

    /// How releasing one ownership count changes the state: the call is
    /// logged even for identifiers the host no longer knows; only a live
    /// object's count moves, and it moves down by exactly one.
    pub open spec fn disposes(pre: Self, post: Self, id: u64) -> bool {
        &&& post.calls@ == pre.calls@.push(HostCall::DisposeInstance(id))
        &&& post.results@ == pre.results@
        &&& if pre.is_live(id) {
            post.objects@ == pre.objects@.update(
                id - 1,
                HostObject {
                    count: (pre.objects@[id - 1].count - 1) as u64,
                    value: pre.objects@[id - 1].value,
                },
            )
        } else {
            post.objects@ == pre.objects@
        }
    }

    /// How registering one more owner changes the state: for a live object
    /// the count moves up by exactly one and the same identifier comes back;
    /// for anything else the host answers null and nothing moves.
    pub open spec fn clones(pre: Self, post: Self, id: u64, r: Instance) -> bool {
        &&& post.calls@ == pre.calls@.push(HostCall::CloneInstance(id))
        &&& post.results@ == pre.results@
        &&& if pre.is_live(id) {
            &&& r.id() == id
            &&& post.objects@ == pre.objects@.update(
                id - 1,
                HostObject {
                    count: (pre.objects@[id - 1].count + 1) as u64,
                    value: pre.objects@[id - 1].value,
                },
            )
        } else {
            &&& r.id() == 0
            &&& post.objects@ == pre.objects@
        }
    }

    /// How a fallible consuming cast changes the state: the call is logged,
    /// the handle passed in is taken over by the host — one ownership count
    /// is released whether or not the cast succeeds — and the cast succeeds
    /// exactly when the object holds a value of the asked-for shape.
    pub open spec fn consumes(pre: Self, post: Self, id: u64, call: HostCall) -> bool {
        &&& post.calls@ == pre.calls@.push(call)
        &&& post.results@ == pre.results@
        &&& if pre.is_live(id) {
            post.objects@ == pre.objects@.update(
                id - 1,
                HostObject {
                    count: (pre.objects@[id - 1].count - 1) as u64,
                    value: pre.objects@[id - 1].value,
                },
            )
        } else {
            post.objects@ == pre.objects@
        }
    }

    /// How a call that only reports something changes the state: the call is
    /// logged; objects and pending answers stay as they were.
    pub open spec fn logs_only(pre: Self, post: Self, call: HostCall) -> bool {
        &&& post.calls@ == pre.calls@.push(call)
        &&& post.results@ == pre.results@
        &&& post.objects@ == pre.objects@
    }

    /// An empty table: no objects, no pending answers, nothing logged.
    pub fn new() -> (g: UniBridgeGlue)
        ensures
            g.objects@ == Seq::<HostObject>::empty(),
            g.results@ == Seq::<Option<Value>>::empty(),
            g.calls@ == Seq::<HostCall>::empty(),
    {
        UniBridgeGlue { objects: Vec::new(), results: Vec::new(), calls: Vec::new() }
    }

    /// Queues the answer the host will give to the next free-outcome call.
    pub fn push_result(&mut self, v: Option<Value>)
        ensures
            final(self).results@ == old(self).results@.push(v),
            final(self).objects@ == old(self).objects@,
            final(self).calls@ == old(self).calls@,
    {
        self.results.push(v);
    }

    /// Read access to the call log.
    pub fn log(&self) -> (r: &Vec<HostCall>)
        ensures
            r@ == self.calls@,
    {
        &self.calls
    }

    /// The ownership counts currently registered for `id`.
    pub fn ref_count(&self, id: u64) -> (c: u64)
        ensures
            c == self.count_of(id),
    {
        if 1 <= id && id <= self.objects.len() as u64 {
            self.objects[(id - 1) as usize].count
        } else {
            0
        }
    }

    fn take_next_result(&mut self) -> (v: Option<Value>)
        ensures
            v == old(self).next_result(),
            final(self).results@ == old(self).rest_results(),
            final(self).objects@ == old(self).objects@,
            final(self).calls@ == old(self).calls@,
    {
        if self.results.len() == 0 {
            Some(Value::Obj)
        } else {
            let v = self.results.remove(0);
            proof {
                assert(old(self).results@.remove(0) =~= old(self).rest_results());
            }
            v
        }
    }

    fn produce(&mut self, call: HostCall) -> (r: Instance)
        ensures
            Self::produces(*old(self), *final(self), r, call),
    {
        let next = self.take_next_result();
        self.calls.push(call);
        match next {
            Some(v) => {
                self.objects.push(HostObject { count: 1, value: v });
                let id: u64 = self.objects.len() as u64;
                Instance::from_raw_unchecked(id)
            },
            None => Instance::null(),
        }
    }

    fn box_value(&mut self, v: Value, call: HostCall) -> (r: Instance)
        ensures
            Self::boxes(*old(self), *final(self), r, v, call),
    {
        self.calls.push(call);
        self.objects.push(HostObject { count: 1, value: v });
        let id: u64 = self.objects.len() as u64;
        Instance::from_raw_unchecked(id)
    }

    fn release_one(&mut self, id: u64)
        ensures
            final(self).calls@ == old(self).calls@,
            final(self).results@ == old(self).results@,
            if old(self).is_live(id) {
                final(self).objects@ == old(self).objects@.update(
                    id - 1,
                    HostObject {
                        count: (old(self).objects@[id - 1].count - 1) as u64,
                        value: old(self).objects@[id - 1].value,
                    },
                )
            } else {
                final(self).objects@ == old(self).objects@
            },
    {
        if 1 <= id && id <= self.objects.len() as u64 {
            let i: usize = (id - 1) as usize;
            let c: u64 = self.objects[i].count;
            if c > 0 {
                let v = self.objects[i].value;
                self.objects.set(i, HostObject { count: c - 1, value: v });
            }
        }
    }

    /// Asks the host to instantiate an object of the named type with the
    /// given argument handles.  A null answer is a checkable outcome of the
    /// host — instantiation failed host-side — not an error of the bridge.
    pub fn new_instance(&mut self, _class_name: &str, _args: &[Instance]) -> (r: Instance)
        ensures
            Self::produces(*old(self), *final(self), r, HostCall::NewInstance),
    {
        self.produce(HostCall::NewInstance)
    }

    /// Asks the host to call the named method on `id`'s referent by its
    /// most-derived runtime type.  Null stands for void or failed calls.
    pub fn invoke_method(&mut self, id: u64, _method: &str, _args: &[Instance]) -> (r: Instance)
        ensures
            Self::produces(*old(self), *final(self), r, HostCall::InvokeMethod(id)),
    {
        self.produce(HostCall::InvokeMethod(id))
    }

    /// Like `invoke_method`, but resolves the method on the named declaring
    /// type, for base-type or interface members shadowed by an override.
    pub fn invoke_as(&mut self, id: u64, _class_name: &str, _method: &str, _args: &[Instance]) -> (r:
        Instance)
        ensures
            Self::produces(*old(self), *final(self), r, HostCall::InvokeAsMethod(id)),
    {
        self.produce(HostCall::InvokeAsMethod(id))
    }

    /// Reads the named property of `id`'s referent, by declaring type.
    pub fn get_property(&mut self, id: u64, _class_name: &str, _property_name: &str) -> (r:
        Instance)
        ensures
            Self::produces(*old(self), *final(self), r, HostCall::GetProperty(id)),
    {
        self.produce(HostCall::GetProperty(id))
    }

    /// Reads the named field of `id`'s referent, by declaring type.
    pub fn get_field(&mut self, id: u64, _class_name: &str, _field_name: &str) -> (r: Instance)
        ensures
            Self::produces(*old(self), *final(self), r, HostCall::GetField(id)),
    {
        self.produce(HostCall::GetField(id))
    }

    /// Writes the named property of `id`'s referent and reports success.
    pub fn set_property(&mut self, id: u64, _class_name: &str, _property_name: &str, _value: u64)
        -> (ok: bool)
        ensures
            Self::logs_only(*old(self), *final(self), HostCall::SetProperty(id)),
            ok,
    {
        self.calls.push(HostCall::SetProperty(id));
        true
    }

    /// Writes the named field of `id`'s referent and reports success.
    pub fn set_field(&mut self, id: u64, _class_name: &str, _field_name: &str, _value: u64) -> (ok:
        bool)
        ensures
            Self::logs_only(*old(self), *final(self), HostCall::SetField(id)),
            ok,
    {
        self.calls.push(HostCall::SetField(id));
        true
    }

    /// Releases one ownership count for `id`.
    pub fn dispose_instance(&mut self, id: u64)
        ensures
            Self::disposes(*old(self), *final(self), id),
    {
        self.calls.push(HostCall::DisposeInstance(id));
        self.release_one(id);
    }

    /// Asks the host to register one more owner for `id`'s referent.  The
    /// same identifier comes back while the referent is alive; null once it
    /// has been collected, so this call doubles as the liveness check.
    pub fn clone_instance(&mut self, id: u64) -> (r: Instance)
        requires
            old(self).is_live(id) ==> old(self).count_of(id) < u64::MAX,
        ensures
            Self::clones(*old(self), *final(self), id, r),
    {
        self.calls.push(HostCall::CloneInstance(id));
        if 1 <= id && id <= self.objects.len() as u64 {
            let i: usize = (id - 1) as usize;
            let c: u64 = self.objects[i].count;
            if c > 0 {
                let v = self.objects[i].value;
                self.objects.set(i, HostObject { count: c + 1, value: v });
                return Instance::from_raw_unchecked(id);
            }
        }
        Instance::null()
    }

    /// Wraps a byte buffer in a fresh host object.  Total.
    pub fn sized_bytes(&mut self, _ptr: &[u8]) -> (r: Instance)
        ensures
            Self::boxes(*old(self), *final(self), r, Value::Bytes, HostCall::SizedBytes),
    {
        self.box_value(Value::Bytes, HostCall::SizedBytes)
    }

    /// Boxes a native string in a fresh host object.  Total.
    pub fn to_string(&mut self, _string: &str) -> (r: Instance)
        ensures
            Self::boxes(*old(self), *final(self), r, Value::Str, HostCall::ToStringValue),
    {
        self.box_value(Value::Str, HostCall::ToStringValue)
    }

    /// Boxes a native 32-bit float, given as its raw bits, in a fresh host
    /// object.  Total.
    pub fn to_f32(&mut self, bits: u32) -> (r: Instance)
        ensures
            Self::boxes(
                *old(self),
                *final(self),
                r,
                Value::F32Bits(bits),
                HostCall::ToF32Value,
            ),
    {
        self.box_value(Value::F32Bits(bits), HostCall::ToF32Value)
    }

    /// The fallible cast of `id`'s referent to a 32-bit float, as raw bits.
    /// The handle passed in is taken over and released by the host.  The
    /// flag is set exactly when the object holds a boxed float; on failure
    /// the carried value means nothing.
    pub fn try_f32(&mut self, id: u64) -> (r: TypeCast<u32>)
        ensures
            Self::consumes(*old(self), *final(self), id, HostCall::TryF32(id)),
            match old(self).payload_of(id) {
                Some(Value::F32Bits(b)) => r.0 && r.1 == b,
                _ => !r.0,
            },
    {
        self.calls.push(HostCall::TryF32(id));
        let mut out: TypeCast<u32> = TypeCast(false, 0);
        if 1 <= id && id <= self.objects.len() as u64 {
            let i: usize = (id - 1) as usize;
            if self.objects[i].count > 0 {
                if let Value::F32Bits(b) = self.objects[i].value {
                    out = TypeCast(true, b);
                }
            }
        }
        self.release_one(id);
        out
    }

    /// The fallible cast of `id`'s referent to a boolean.  Same consuming
    /// protocol as the float cast.
    pub fn try_bool(&mut self, id: u64) -> (r: TypeCast<bool>)
        ensures
            Self::consumes(*old(self), *final(self), id, HostCall::TryBool(id)),
            match old(self).payload_of(id) {
                Some(Value::Bool(b)) => r.0 && r.1 == b,
                _ => !r.0,
            },
    {
        self.calls.push(HostCall::TryBool(id));
        let mut out: TypeCast<bool> = TypeCast(false, false);
        if 1 <= id && id <= self.objects.len() as u64 {
            let i: usize = (id - 1) as usize;
            if self.objects[i].count > 0 {
                if let Value::Bool(b) = self.objects[i].value {
                    out = TypeCast(true, b);
                }
            }
        }
        self.release_one(id);
        out
    }

    /// Tells the host that a native fault was contained, so it can apply its
    /// own recovery policy.  Fire and forget.
    pub fn handle_panic(&mut self)
        ensures
            Self::logs_only(*old(self), *final(self), HostCall::HandlePanic),
    {
        self.calls.push(HostCall::HandlePanic);
    }

    /// Sends one line to the host's error sink.  Fire and forget.
    pub fn error_log(&mut self, _message: &str)
        ensures
            Self::logs_only(*old(self), *final(self), HostCall::ErrorLine),
    {
        self.calls.push(HostCall::ErrorLine);
    }

    /// Sends one line to the host's warning sink.  Fire and forget.
    pub fn warn_log(&mut self, _message: &str)
        ensures
            Self::logs_only(*old(self), *final(self), HostCall::WarnLine),
    {
        self.calls.push(HostCall::WarnLine);
    }

    /// Sends one line to the host's info sink.  Fire and forget.
    pub fn info_log(&mut self, _message: &str)
        ensures
            Self::logs_only(*old(self), *final(self), HostCall::InfoLine),
    {
        self.calls.push(HostCall::InfoLine);
    }
}

/// The process-wide bridge state: the operation table and whether it is
/// currently installed, plus whether the diagnostics route has been
/// registered.  In the normal lifecycle the table is written exactly twice —
/// installed at startup, torn down at shutdown — and read by every handle
/// operation in between; the host must keep install and teardown on a
/// quiescent thread, with no handle traffic in flight.
pub struct Runtime {
    pub glue: UniBridgeGlue,
    pub installed: bool,
    pub logger_installed: bool,
}

impl Runtime {
    /// A bridge that has not been installed yet.
    pub fn new() -> (rt: Runtime)
        ensures
            !rt.installed,
            !rt.logger_installed,
            rt.glue.objects@ == Seq::<HostObject>::empty(),
            rt.glue.results@ == Seq::<Option<Value>>::empty(),
            rt.glue.calls@ == Seq::<HostCall>::empty(),
    {
        Runtime { glue: UniBridgeGlue::new(), installed: false, logger_installed: false }
    }

    /// Installs the operation table.  Installing twice without an
    /// intervening teardown is an integration bug, ruled out up front.
    pub fn set_glue(&mut self, glue: UniBridgeGlue)
        requires
            !old(self).installed,
        ensures
            final(self).installed,
            final(self).glue == glue,
            final(self).logger_installed == old(self).logger_installed,
    {
        self.glue = glue;
        self.installed = true;
    }

    /// Whether the operation table is currently installed.
    pub fn glue_loaded(&self) -> (b: bool)
        ensures
            b == self.installed,
    {
        self.installed
    }

    /// Tears the table down.  Handles created under it may still be
    /// disposed afterwards: their destruction becomes a no-op.  The table's
    /// record stays readable, and nothing further is ever issued through it.
    pub fn drop_glue(&mut self)
        ensures
            !final(self).installed,
            final(self).glue == old(self).glue,
            final(self).logger_installed == old(self).logger_installed,
    {
        self.installed = false;
    }
}

} // verus!
