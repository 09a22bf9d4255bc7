//! A bridge that lets native code hold safe, reference-counted handles to
//! objects owned by an external managed runtime, invoke methods and convert
//! primitive values across that boundary, and contain any native-side fault
//! before it can unwind into the host.

use vstd::prelude::*;

pub mod glue;
pub mod instance;
pub mod logger;
pub mod unity;

pub use glue::Runtime;
pub use glue::UniBridgeGlue;
pub use instance::Instance;

verus! {

/// What came out of dispatching one host-initiated invocation into native
/// logic: either the produced result handle, or the fault barrier caught a
/// native-side failure before it could unwind into the host.
pub enum DispatchOutcome {
    Completed(Instance),
    Faulted,
}

/// Installs the operation table and registers the diagnostics route, as the
/// embedder's startup entry point does.  A route already registered is
/// tolerated; a table already installed is an integration bug, ruled out up
/// front.
pub fn unibridge_init_runtime(rt: &mut Runtime, glue: UniBridgeGlue)
    requires
        !old(rt).installed,
    ensures
        final(rt).installed,
        final(rt).glue == glue,
        final(rt).logger_installed,
{
    rt.set_glue(glue);
    let _ = logger::init(rt);
}

/// Tears the operation table down.  Handles created under it may still be
/// disposed afterwards; their destruction becomes a no-op, and nothing
/// further is issued through the table.
pub fn unibridge_drop_runtime(rt: &mut Runtime)
    ensures
        !final(rt).installed,
        final(rt).glue == old(rt).glue,
        final(rt).logger_installed == old(rt).logger_installed,
{
    rt.drop_glue();
}

/// The panic hook's body: routes a contained fault's composed report line
/// to the host's error sink.  The process-wide hook that the embedder
/// installs around this crate hands the message here while the offending
/// call stack unwinds toward the fault barrier.
pub fn report_panic(rt: &mut Runtime, message: &str)
    requires
        old(rt).installed,
    ensures
        final(rt).installed,
        final(rt).logger_installed == old(rt).logger_installed,
        UniBridgeGlue::logs_only(old(rt).glue, final(rt).glue, glue::HostCall::ErrorLine),
{
    rt.glue.error_log(message);
}

/// The host-facing completion of one dispatched invocation.  A completed
/// dispatch hands its result handle straight back; a contained fault
/// notifies the host's fault callback exactly once and hands back the null
/// handle.  Nothing a dispatch does can unwind past this point, and a fault
/// is surfaced once, never retried.
pub fn unibridge_invoke(rt: &mut Runtime, outcome: DispatchOutcome) -> (r: Instance)
    requires
        old(rt).installed,
    ensures
        final(rt).installed,
        final(rt).logger_installed == old(rt).logger_installed,
        outcome matches DispatchOutcome::Completed(h) ==> r == h && *final(rt) == *old(rt),
        outcome is Faulted ==> r.spec_is_null() && UniBridgeGlue::logs_only(
            old(rt).glue,
            final(rt).glue,
            glue::HostCall::HandlePanic,
        ),
{
    match outcome {
        DispatchOutcome::Completed(h) => h,
        DispatchOutcome::Faulted => {
            rt.glue.handle_panic();
            Instance::null()
        },
    }
}

/// Law: a dispatched invocation whose native logic faults reports the fault
/// through the diagnostics sink exactly once and notifies the host's fault
/// callback exactly once, in that order, touches no object's ownership, and
/// hands the null handle back to the host — the fault never unwinds further,
/// so the host process keeps running.
pub proof fn lemma_contained_fault(
    g0: glue::UniBridgeGlue,
    g1: glue::UniBridgeGlue,
    g2: glue::UniBridgeGlue,
    r: Instance,
)
    requires
        UniBridgeGlue::logs_only(g0, g1, glue::HostCall::ErrorLine),
        UniBridgeGlue::logs_only(g1, g2, glue::HostCall::HandlePanic),
        r.spec_is_null(),
    ensures
        g2.calls@ == g0.calls@ + seq![glue::HostCall::ErrorLine, glue::HostCall::HandlePanic],
        g2.objects@ == g0.objects@,
        r.id() == 0,
{
    assert(g2.calls@ =~= g0.calls@ + seq![
        glue::HostCall::ErrorLine,
        glue::HostCall::HandlePanic,
    ]);
}

} // verus!
