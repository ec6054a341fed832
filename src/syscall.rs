//! The decisions of the syscall dispatcher: how a handler's result becomes a
//! return value, what the stubs for unserved numbers do, and how a dispatch
//! is bracketed by the time-accounting switches.
use vstd::prelude::*;
use crate::errno::{LinuxError, errno_of};
use crate::time::{Side, TimeStat};

verus! {

/// How a syscall number that has no handler is answered.
#[derive(Debug, Clone, Copy, PartialEq, Eq, Structural)]
pub enum StubPolicy {
    /// Pretend success: return 0.
    Bypass,
    /// Fail cleanly with `ENOSYS`.
    Unimplemented,
    /// Terminate the calling task with `ENOSYS` as its exit code.
    Kill,
}

/// The syscalls that are answered by a stub rather than a handler; every
/// number without a handler counts as `Other`.
#[derive(Debug, Clone, Copy, PartialEq, Eq, Structural)]
pub enum StubbedCall {
    Nanosleep,
    Ioctl,
    Access,
    Faccessat,
    Utimensat,
    Sysinfo,
    Other,
}

/// The policy configured for each stubbed syscall: the optional calls that
/// programs expect to succeed are bypassed, `sysinfo` fails cleanly, and
/// any other number kills the caller.
pub open spec fn policy_of(call: StubbedCall) -> StubPolicy {
    match call {
        StubbedCall::Sysinfo => StubPolicy::Unimplemented,
        StubbedCall::Other => StubPolicy::Kill,
        _ => StubPolicy::Bypass,
    }
}

/// The stub policy of a stubbed syscall.
pub fn stub_policy(call: StubbedCall) -> (r: StubPolicy)
    ensures
        r == policy_of(call),
{
    match call {
        StubbedCall::Sysinfo => StubPolicy::Unimplemented,
        StubbedCall::Other => StubPolicy::Kill,
        _ => StubPolicy::Bypass,
    }
}

/// What the dispatcher does once a syscall has been served.
#[derive(Debug, Clone, Copy, PartialEq, Eq, Structural)]
pub enum DispatchAction {
    /// Return this value to user space.
    Return(isize),
    /// Terminate the calling task with this exit code.
    Exit(i32),
}

/// The value a handler's result stands for in the syscall ABI.
pub open spec fn return_value(result: Result<isize, LinuxError>) -> isize {
    match result {
        Ok(v) => v,
        Err(e) => (-errno_of(e)) as isize,
    }
}

/// The action that a stub policy stands for.
pub open spec fn stub_action(policy: StubPolicy) -> DispatchAction {
    match policy {
        StubPolicy::Bypass => DispatchAction::Return(0),
        StubPolicy::Unimplemented => DispatchAction::Return((-errno_of(LinuxError::ENOSYS)) as isize),
        StubPolicy::Kill => DispatchAction::Exit(errno_of(LinuxError::ENOSYS)),
    }
}

/// A handler's result as a syscall return value: the value itself on
/// success, the negated errno on failure.
pub fn syscall_return(result: Result<isize, LinuxError>) -> (r: isize)
    ensures
        r == return_value(result),
        result matches Err(e) ==> (errno_of(e) > 0 ==> r < 0),
{
    match result {
        Ok(v) => v,
        Err(e) => -(e.code() as isize),
    }
}

/// The action taken for a syscall number served by a stub.
pub fn stub(policy: StubPolicy) -> (r: DispatchAction)
    ensures
        r == stub_action(policy),
{
    match policy {
        StubPolicy::Bypass => DispatchAction::Return(0),
        StubPolicy::Unimplemented => DispatchAction::Return(
            -(LinuxError::ENOSYS.code() as isize),
        ),
        StubPolicy::Kill => DispatchAction::Exit(LinuxError::ENOSYS.code()),
    }
}

/// Entry into the dispatcher at `now`: the task leaves user mode, so the
/// handler runs on kernel time.
pub fn begin_syscall(time: &mut TimeStat, now: usize)
    requires
        old(time).can_charge(now),
    ensures
        *final(time) == old(time).after_switch_to_kernel(now),
        final(time).side == Side::Kernel,
{
    time.switch_into_kernel_mode(now);
}

/// Exit from the dispatcher at `now` with the handler's result: the task
/// goes back to user mode and receives the value that the result stands for.
pub fn finish_syscall(time: &mut TimeStat, result: Result<isize, LinuxError>, now: usize) -> (r:
    isize)
    requires
        old(time).can_charge(now),
    ensures
        *final(time) == old(time).after_switch_to_user(now),
        r == return_value(result),
{
    let r = syscall_return(result);
    time.switch_into_user_mode(now);
    r
}

/// A dispatch entered at `enter` and left at `exit` crosses the boundary
/// once each way: the time since the last switch up to `enter` is charged to
/// user mode, `exit - enter` to kernel mode, and nothing else.
pub proof fn lemma_dispatch_brackets_once(t: TimeStat, enter: usize, exit: usize)
    requires
        t.can_charge(enter),
        enter <= exit,
        t.after_switch_to_kernel(enter).can_charge(exit),
    ensures
        ({
            let inside = t.after_switch_to_kernel(enter);
            let after = inside.after_switch_to_user(exit);
            &&& inside.side == Side::Kernel
            &&& after.side == Side::User
            &&& after.user_ns == t.user_ns + (enter - t.last_ns)
            &&& after.kernel_ns == t.kernel_ns + (exit - enter)
            &&& after.last_ns == exit
            &&& after.total() == t.total() + (exit - t.last_ns)
        }),
{
}

/// One dispatch: the task enters the kernel at `enter`, `handler` runs on
/// kernel time and sees the record in kernel mode, its result becomes the
/// return value, and the task goes back to user mode at the time `clock`
/// reads then. The record crosses the boundary exactly once each way.
pub fn dispatch<F, C>(time: &mut TimeStat, enter: usize, handler: F, clock: C) -> (r: isize) where
    F: FnOnce(&TimeStat) -> Result<isize, LinuxError>,
    C: FnOnce() -> usize,

    requires
        old(time).can_charge(enter),
        forall|t: &TimeStat| t.side == Side::Kernel ==> #[trigger] handler.requires((t,)),
        clock.requires(()),
        forall|now: usize| #[trigger]
            clock.ensures((), now) ==> old(time).after_switch_to_kernel(enter).can_charge(now),
    ensures
        exists|res: Result<isize, LinuxError>, now: usize|
            #![trigger handler.ensures((&old(time).after_switch_to_kernel(enter),), res), clock.ensures((), now)]
            handler.ensures((&old(time).after_switch_to_kernel(enter),), res) && clock.ensures(
                (),
                now,
            ) && r == return_value(res) && *final(time) == old(time).after_switch_to_kernel(
                enter,
            ).after_switch_to_user(now),
{
    begin_syscall(time, enter);
    let res = handler(&*time);
    let now = clock();
    finish_syscall(time, res, now)
}

} // verus!
