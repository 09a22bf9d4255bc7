//! Owning and weak handles to host-side objects.
//!
//! A handle wraps a 64-bit identifier that is meaningful only to the host;
//! identifier `0` is the reserved null sentinel and carries no ownership.
//! A non-null handle stands for one registered ownership count on the host
//! side, so handles are move-only: duplicating one is an explicit host call,
//! and releasing one is an explicit, single disposal.

use vstd::prelude::*;

use crate::glue::HostCall;
use crate::glue::HostObject;
use crate::glue::Runtime;
use crate::glue::UniBridgeGlue;
use crate::glue::Value;

verus! {

/// An owning reference to a host-side object.
#[derive(Debug)]
pub struct Instance(u64);

/// A non-owning observer of a handle's identifier.  It never triggers a
/// host-side release, and it must be revalidated with the host before use.
#[derive(Clone, Copy, Debug)]
pub struct WeakInstance(u64);

/// The tagged result of a conversion that may fail: the flag must be checked
/// before the value is trusted, and on failure the value carries no meaning.
pub struct TypeCast<T>(pub bool, pub T);

/// The typed error returned when a handle does not hold the requested
/// primitive value.
#[derive(Clone, Copy, PartialEq, Eq, Debug)]
pub struct CastError;

impl Instance {
    /// The raw identifier this handle wraps; `0` is null.
    pub closed spec fn id(self) -> u64 {
        self.0
    }

    pub open spec fn spec_is_null(&self) -> bool {
        self.id() == 0
    }

    /// Adopts `id` as an owning handle without consulting the host: the
    /// caller asserts that one ownership count for `id` is already
    /// registered and unclaimed.
    pub fn from_raw_unchecked(id: u64) -> (r: Instance)
        ensures
            r.id() == id,
    {
        Instance(id)
    }

    /// The null handle: no referent, no ownership, no destruction obligation.
    pub fn null() -> (r: Instance)
        ensures
            r.id() == 0,
    {
        Instance(0)
    }

    /// Whether this is the null handle.  Resolved locally; no host call.
    #[verifier::when_used_as_spec(spec_is_null)]
    pub fn is_null(&self) -> (b: bool)
        ensures
            b == self.spec_is_null(),
    {
        self.0 == 0
    }

    /// The raw identifier, for handing to host calls that take one.
    pub fn raw(&self) -> (id: u64)
        ensures
            id == self.id(),
    {
        self.0
    }

    /// Gives up the handle without releasing its ownership count and returns
    /// the bare identifier: the caller takes over the destruction obligation.
    pub fn leak(instance: Self) -> (id: u64)
        ensures
            id == instance.id(),
    {
        instance.0
    }

    /// A weak observer of the same identifier.  Cheap: no host call.
    pub fn downgrade(&self) -> (w: WeakInstance)
        ensures
            w.id() == self.id(),
    {
        WeakInstance(self.0)
    }
}

/// How upgrading the identifier `id` changes the table: liveness is
/// revalidated with the host by asking it to mint one more owner, so a live
/// referent comes back as a fresh owning handle with the same identifier,
/// and a collected one as absent.
pub open spec fn upgrades(
    pre: UniBridgeGlue,
    post: UniBridgeGlue,
    id: u64,
    r: Option<Instance>,
) -> bool {
    &&& post.calls@ == pre.calls@.push(HostCall::CloneInstance(id))
    &&& post.results@ == pre.results@
    &&& if pre.is_live(id) {
        &&& r matches Some(h) && h.id() == id
        &&& post.objects@ == pre.objects@.update(
            id - 1,
            HostObject { count: (pre.objects@[id - 1].count + 1) as u64, value: pre.objects@[id - 1].value },
        )
    } else {
        &&& r is None
        &&& post.objects@ == pre.objects@
    }
}

/// How the fallible float cast changes the table and what it returns: the
/// handle is consumed — the host takes the reference over and releases it —
/// and the raw bits come back exactly when the referent is a boxed 32-bit
/// float; anything else is a typed failure, never a fabricated number.
pub open spec fn f32_casts(
    pre: UniBridgeGlue,
    post: UniBridgeGlue,
    id: u64,
    r: Result<u32, CastError>,
) -> bool {
    &&& UniBridgeGlue::consumes(pre, post, id, HostCall::TryF32(id))
    &&& match pre.payload_of(id) {
        Some(Value::F32Bits(b)) => r == Ok::<u32, CastError>(b),
        _ => r == Err::<u32, CastError>(CastError),
    }
}

/// How the fallible boolean cast of a non-null handle changes the table and
/// what it returns; the same consuming protocol as the float cast.
pub open spec fn bool_casts(
    pre: UniBridgeGlue,
    post: UniBridgeGlue,
    id: u64,
    r: Result<bool, CastError>,
) -> bool {
    &&& UniBridgeGlue::consumes(pre, post, id, HostCall::TryBool(id))
    &&& match pre.payload_of(id) {
        Some(Value::Bool(b)) => r == Ok::<bool, CastError>(b),
        _ => r == Err::<bool, CastError>(CastError),
    }
}

/// What the host's equality operator answers, given the answer the host has
/// queued for the underlying method call: a null answer is falsy, a boxed
/// boolean is its value, anything else is a cast failure.
pub open spec fn equality_result(pre: UniBridgeGlue) -> Result<bool, CastError> {
    match pre.next_result() {
        None => Ok(false),
        Some(Value::Bool(b)) => Ok(b),
        Some(_) => Err(CastError),
    }
}

/// The host calls one equality query issues, in order: a temporary owner is
/// registered for the right-hand referent, the equality method is invoked on
/// the left-hand one, the temporary owner is released — unless the
/// registration already answered null — and a non-null answer is consumed by
/// the boolean cast.
pub open spec fn equality_calls(pre: UniBridgeGlue, lhs: u64, rhs: u64) -> Seq<HostCall> {
    let dispose_part = if pre.is_live(rhs) {
        seq![HostCall::DisposeInstance(rhs)]
    } else {
        Seq::<HostCall>::empty()
    };
    let cast_part = if pre.next_result() is Some {
        seq![HostCall::TryBool(pre.next_id())]
    } else {
        Seq::<HostCall>::empty()
    };
    seq![HostCall::CloneInstance(rhs), HostCall::InvokeMethod(lhs)] + dispose_part + cast_part
}

impl Instance {
    /// Revalidates `id` with the host and adopts it only if its referent is
    /// still alive, registering a fresh ownership count for it.
    pub fn from_raw(rt: &mut Runtime, id: u64) -> (r: Option<Instance>)
        requires
            old(rt).installed,
            old(rt).glue.is_live(id) ==> old(rt).glue.count_of(id) < u64::MAX,
        ensures
            final(rt).installed,
            final(rt).logger_installed == old(rt).logger_installed,
            upgrades(old(rt).glue, final(rt).glue, id, r),
    {
        WeakInstance(id).upgrade(rt)
    }

    /// Asks the host to call `method` on the referent by its most-derived
    /// runtime type.  The answer is an owning handle; null stands for void
    /// or failed calls and must be checked before use.
    pub fn invoke(&self, rt: &mut Runtime, method: &str, args: &[Instance]) -> (r: Instance)
        requires
            old(rt).installed,
        ensures
            final(rt).installed,
            final(rt).logger_installed == old(rt).logger_installed,
            UniBridgeGlue::produces(
                old(rt).glue,
                final(rt).glue,
                r,
                HostCall::InvokeMethod(self.id()),
            ),
    {
        rt.glue.invoke_method(self.0, method, args)
    }

    /// Like `invoke`, but resolves `method` on the named declaring type
    /// rather than the runtime type, to reach a base-type or interface
    /// member shadowed by a derived override.
    pub fn invoke_as(&self, rt: &mut Runtime, class_name: &str, method: &str, args: &[Instance])
        -> (r: Instance)
        requires
            old(rt).installed,
        ensures
            final(rt).installed,
            final(rt).logger_installed == old(rt).logger_installed,
            UniBridgeGlue::produces(
                old(rt).glue,
                final(rt).glue,
                r,
                HostCall::InvokeAsMethod(self.id()),
            ),
    {
        rt.glue.invoke_as(self.0, class_name, method, args)
    }

    /// Asks the host to register one more owner for the referent and hands
    /// back the new owning handle.  Duplication is never a bitwise copy of
    /// ownership: a dangling or null identifier yields the null handle.
    pub fn duplicate(&self, rt: &mut Runtime) -> (r: Instance)
        requires
            old(rt).installed,
            old(rt).glue.is_live(self.id()) ==> old(rt).glue.count_of(self.id()) < u64::MAX,
        ensures
            final(rt).installed,
            final(rt).logger_installed == old(rt).logger_installed,
            UniBridgeGlue::clones(old(rt).glue, final(rt).glue, self.id(), r),
    {
        rt.glue.clone_instance(self.0)
    }

    /// Releases this handle's ownership count: exactly one host dispose call
    /// if the handle is non-null and the table is still installed, and
    /// nothing at all — no host call — for a null handle or after teardown.
    /// Consuming the handle is what makes the release happen exactly once.
    pub fn dispose(self, rt: &mut Runtime)
        ensures
            final(rt).installed == old(rt).installed,
            final(rt).logger_installed == old(rt).logger_installed,
            if self.is_null() || !old(rt).installed {
                *final(rt) == *old(rt)
            } else {
                UniBridgeGlue::disposes(old(rt).glue, final(rt).glue, self.id())
            },
    {
        if self.0 == 0 || !rt.glue_loaded() {
            return ;
        }
        rt.glue.dispose_instance(self.0);
    }

    /// Boxes a native string host-side.  Total: it cannot fail.
    pub fn from_str_value(rt: &mut Runtime, s: &str) -> (r: Instance)
        requires
            old(rt).installed,
        ensures
            final(rt).installed,
            final(rt).logger_installed == old(rt).logger_installed,
            UniBridgeGlue::boxes(
                old(rt).glue,
                final(rt).glue,
                r,
                Value::Str,
                HostCall::ToStringValue,
            ),
    {
        rt.glue.to_string(s)
    }

    /// Boxes a native 32-bit float, given as its raw bits.  Total.
    pub fn from_f32_bits(rt: &mut Runtime, bits: u32) -> (r: Instance)
        requires
            old(rt).installed,
        ensures
            final(rt).installed,
            final(rt).logger_installed == old(rt).logger_installed,
            UniBridgeGlue::boxes(
                old(rt).glue,
                final(rt).glue,
                r,
                Value::F32Bits(bits),
                HostCall::ToF32Value,
            ),
    {
        rt.glue.to_f32(bits)
    }

    /// Asks the host whether the two referents are equal by the host's own
    /// equality operator — the host is authoritative: two different
    /// identifiers may stand for equal values, so this is a method call
    /// (`op_Equality`), never an identifier comparison.  A temporary owner
    /// is registered for `other` for the duration of the call and released
    /// afterwards.  A null answer from the host is falsy; a non-boolean
    /// answer is the typed cast error.
    pub fn equals(&self, rt: &mut Runtime, other: &Instance) -> (r: Result<bool, CastError>)
        requires
            old(rt).installed,
            old(rt).glue.is_live(other.id()) ==> old(rt).glue.count_of(other.id()) < u64::MAX,
        ensures
            final(rt).installed,
            final(rt).logger_installed == old(rt).logger_installed,
            r == equality_result(old(rt).glue),
            final(rt).glue.results@ == old(rt).glue.rest_results(),
            match old(rt).glue.next_result() {
                Some(v) => final(rt).glue.objects@ == old(rt).glue.objects@.push(
                    (HostObject { count: 0, value: v }),
                ),
                None => final(rt).glue.objects@ == old(rt).glue.objects@,
            },
            final(rt).glue.calls@ == old(rt).glue.calls@ + equality_calls(
                old(rt).glue,
                self.id(),
                other.id(),
            ),
    {
        let ghost pre = rt.glue;
        let dup = other.duplicate(rt);
        let mut args: Vec<Instance> = Vec::new();
        args.push(dup);
        let res = self.invoke(rt, "op_Equality", args.as_slice());
        let n: usize = rt.glue.objects.len();
        let dup_back = args.pop().unwrap();
        dup_back.dispose(rt);
        proof {
            if pre.next_result() is Some {
                assert(pre.objects@.len() + 1 == n);
                assert(res.id() == n);
            }
        }
        let r = res.try_into_bool(rt);
        proof {
            match pre.next_result() {
                Some(v) => {
                    assert(rt.glue.objects@ =~= pre.objects@.push(
                        HostObject { count: 0, value: v },
                    ));
                    assert(rt.glue.calls@ =~= pre.calls@ + equality_calls(
                        pre,
                        self.id(),
                        other.id(),
                    ));
                },
                None => {
                    assert(rt.glue.objects@ =~= pre.objects@);
                    assert(rt.glue.calls@ =~= pre.calls@ + equality_calls(
                        pre,
                        self.id(),
                        other.id(),
                    ));
                },
            }
        }
        r
    }

    /// The fallible cast to a 32-bit float, as raw bits.  The handle is
    /// consumed either way; on failure the caller gets the typed error,
    /// never a default value.
    pub fn try_into_f32_bits(self, rt: &mut Runtime) -> (r: Result<u32, CastError>)
        requires
            old(rt).installed,
        ensures
            final(rt).installed,
            final(rt).logger_installed == old(rt).logger_installed,
            f32_casts(old(rt).glue, final(rt).glue, self.id(), r),
    {
        let TypeCast(succ, val) = rt.glue.try_f32(self.0);
        if succ {
            Ok(val)
        } else {
            Err(CastError)
        }
    }

    /// The fallible cast to a boolean.  A null handle is falsy by
    /// convention and is resolved locally: the answer is `false` and no
    /// host call is issued.  Otherwise the host decides, consuming the
    /// handle, and a failure comes back as the typed error.
    pub fn try_into_bool(self, rt: &mut Runtime) -> (r: Result<bool, CastError>)
        requires
            old(rt).installed,
        ensures
            final(rt).installed,
            final(rt).logger_installed == old(rt).logger_installed,
            self.is_null() ==> r == Ok::<bool, CastError>(false) && *final(rt) == *old(rt),
            !self.is_null() ==> bool_casts(old(rt).glue, final(rt).glue, self.id(), r),
    {
        if self.0 == 0 {
            return Ok(false);
        }
        let TypeCast(succ, val) = rt.glue.try_bool(self.0);
        if succ {
            Ok(val)
        } else {
            Err(CastError)
        }
    }
}

impl WeakInstance {
    /// The identifier this weak handle observes.
    pub closed spec fn id(self) -> u64 {
        self.0
    }

    /// Asks the host to mint a fresh owning handle for the observed
    /// identifier.  Liveness is revalidated with the host, not read off the
    /// cached identifier: a collected referent comes back as absent, never
    /// as a handle to a dead object.
    pub fn upgrade(self, rt: &mut Runtime) -> (r: Option<Instance>)
        requires
            old(rt).installed,
            old(rt).glue.is_live(self.id()) ==> old(rt).glue.count_of(self.id()) < u64::MAX,
        ensures
            final(rt).installed,
            final(rt).logger_installed == old(rt).logger_installed,
            upgrades(old(rt).glue, final(rt).glue, self.id(), r),
    {
        let v = rt.glue.clone_instance(self.0);
        if v.is_null() {
            None
        } else {
            Some(v)
        }
    }
}

/// Law: disposing one handle releases exactly one ownership count.  After a
/// duplication and the disposal of both the original handle and the
/// duplicate, the host has seen the clone call and then exactly two dispose
/// calls for the identifier, and the referent's count stands exactly one
/// below where it was before the duplication — the original handle's own
/// count is among the two released.  Never two counts for one handle, never
/// a leaked count.
pub proof fn lemma_duplicate_then_dispose_both(
    g0: UniBridgeGlue,
    g1: UniBridgeGlue,
    g2: UniBridgeGlue,
    g3: UniBridgeGlue,
    id: u64,
    dup: Instance,
)
    requires
        g0.is_live(id),
        g0.count_of(id) < u64::MAX,
        UniBridgeGlue::clones(g0, g1, id, dup),
        UniBridgeGlue::disposes(g1, g2, id),
        UniBridgeGlue::disposes(g2, g3, dup.id()),
    ensures
        dup.id() == id,
        g3.count_of(id) == g0.count_of(id) - 1,
        g3.calls@ == g0.calls@ + seq![
            HostCall::CloneInstance(id),
            HostCall::DisposeInstance(id),
            HostCall::DisposeInstance(id),
        ],
{
    assert(g3.calls@ =~= g0.calls@ + seq![
        HostCall::CloneInstance(id),
        HostCall::DisposeInstance(id),
        HostCall::DisposeInstance(id),
    ]);
}

/// Law: downgrading a handle and upgrading the weak copy yields a live
/// handle with the original's identifier while the referent is alive, and
/// absent once the referent has been collected.
pub proof fn lemma_downgrade_then_upgrade(
    g0: UniBridgeGlue,
    g1: UniBridgeGlue,
    h: Instance,
    w: WeakInstance,
    r: Option<Instance>,
)
    requires
        w.id() == h.id(),
        g0.is_live(h.id()) ==> g0.count_of(h.id()) < u64::MAX,
        upgrades(g0, g1, w.id(), r),
    ensures
        g0.is_live(h.id()) ==> (r matches Some(u) && u.id() == h.id() && g1.is_live(u.id())),
        !g0.is_live(h.id()) ==> r is None,
{
}

/// Law: boxing a native 32-bit float and casting the box back yields the
/// same float, bit for bit.
pub proof fn lemma_f32_round_trip(
    g0: UniBridgeGlue,
    g1: UniBridgeGlue,
    g2: UniBridgeGlue,
    h: Instance,
    bits: u32,
    r: Result<u32, CastError>,
)
    requires
        g0.objects@.len() < u64::MAX,
        UniBridgeGlue::boxes(g0, g1, h, Value::F32Bits(bits), HostCall::ToF32Value),
        f32_casts(g1, g2, h.id(), r),
    ensures
        r == Ok::<u32, CastError>(bits),
        !h.spec_is_null(),
{
    assert(g1.is_live(h.id()));
}

impl Default for Instance {
    /// The default handle is null.
    fn default() -> (r: Self)
        ensures
            r.id() == 0,
    {
        Instance(0)
    }
}

} // verus!
