use starry_kernel::errno::LinuxError;
use starry_kernel::syscall::{
    begin_syscall, dispatch, finish_syscall, stub, stub_policy, syscall_return, DispatchAction, StubPolicy,
    StubbedCall,
};
use starry_kernel::time::{Side, TimeStat};

#[test]
fn errno_codes() {
    assert_eq!(LinuxError::ENOENT.code(), 2);
    assert_eq!(LinuxError::ECHILD.code(), 10);
    assert_eq!(LinuxError::EFAULT.code(), 14);
    assert_eq!(LinuxError::ENOTDIR.code(), 20);
    assert_eq!(LinuxError::EISDIR.code(), 21);
    assert_eq!(LinuxError::EINVAL.code(), 22);
    assert_eq!(LinuxError::ENAMETOOLONG.code(), 36);
    assert_eq!(LinuxError::ENOSYS.code(), 38);
    assert_eq!(LinuxError::EOPNOTSUPP.code(), 95);
}

#[test]
fn results_become_return_values() {
    assert_eq!(syscall_return(Ok(5)), 5);
    assert_eq!(syscall_return(Ok(0)), 0);
    assert_eq!(syscall_return(Err(LinuxError::EINVAL)), -22);
    assert_eq!(syscall_return(Err(LinuxError::ENOSYS)), -38);
}

#[test]
fn stub_policies() {
    assert_eq!(stub(StubPolicy::Kill), DispatchAction::Exit(38));
    assert_eq!(stub(StubPolicy::Unimplemented), DispatchAction::Return(-38));
    assert_eq!(stub(StubPolicy::Bypass), DispatchAction::Return(0));
}

#[test]
fn time_switches_charge_each_side() {
    let mut t = TimeStat::new(100);
    t.switch_into_user_mode(150);
    assert_eq!(t.output(), (0, 50));
    assert_eq!(t.side, Side::User);
    t.switch_into_kernel_mode(400);
    assert_eq!(t.output(), (250, 50));
    assert_eq!(t.side, Side::Kernel);
    assert_eq!(t.last_ns, 400);
}

#[test]
fn dispatch_brackets_handler_once() {
    let mut t = TimeStat { user_ns: 10, kernel_ns: 20, last_ns: 1000, side: Side::User };
    begin_syscall(&mut t, 1300);
    assert_eq!(t.side, Side::Kernel);
    let r = finish_syscall(&mut t, Err(LinuxError::EFAULT), 1700);
    assert_eq!(r, -14);
    assert_eq!(t.user_ns, 310);
    assert_eq!(t.kernel_ns, 420);
    assert_eq!(t.user_ns + t.kernel_ns, 10 + 20 + (1700 - 1000));
    assert_eq!(t.side, Side::User);
}

#[test]
fn total_time_never_decreases() {
    let mut t = TimeStat::new(0);
    let mut last_total = 0;
    for k in 1..20usize {
        if k % 2 == 0 {
            t.switch_into_kernel_mode(k * 7);
        } else {
            t.switch_into_user_mode(k * 7);
        }
        let (u, s) = t.output();
        assert!(u + s >= last_total);
        last_total = u + s;
    }
    assert_eq!(last_total, 19 * 7);
}

#[test]
fn stub_table() {
    assert_eq!(stub_policy(StubbedCall::Nanosleep), StubPolicy::Bypass);
    assert_eq!(stub_policy(StubbedCall::Ioctl), StubPolicy::Bypass);
    assert_eq!(stub_policy(StubbedCall::Access), StubPolicy::Bypass);
    assert_eq!(stub_policy(StubbedCall::Faccessat), StubPolicy::Bypass);
    assert_eq!(stub_policy(StubbedCall::Utimensat), StubPolicy::Bypass);
    assert_eq!(stub_policy(StubbedCall::Sysinfo), StubPolicy::Unimplemented);
    assert_eq!(stub_policy(StubbedCall::Other), StubPolicy::Kill);
    assert_eq!(stub(stub_policy(StubbedCall::Other)), DispatchAction::Exit(38));
}

#[test]
fn other_errnos_pass_through() {
    assert_eq!(LinuxError::Other(9).code(), 9);
    assert_eq!(syscall_return(Err(LinuxError::Other(9))), -9);
    assert_eq!(syscall_return(Err(LinuxError::Other(13))), -13);
}

#[test]
fn dispatch_runs_handler_in_kernel_mode() {
    let mut t = TimeStat { user_ns: 10, kernel_ns: 20, last_ns: 1000, side: Side::User };
    let r = dispatch(
        &mut t,
        1300,
        |seen: &TimeStat| {
            assert_eq!(seen.side, Side::Kernel);
            assert_eq!(seen.user_ns, 310);
            Ok(7)
        },
        || 1700,
    );
    assert_eq!(r, 7);
    assert_eq!((t.user_ns, t.kernel_ns, t.last_ns, t.side), (310, 420, 1700, Side::User));
    let r = dispatch(&mut t, 1800, |_: &TimeStat| Err(LinuxError::ENOSYS), || 1850);
    assert_eq!(r, -38);
    assert_eq!((t.user_ns, t.kernel_ns), (410, 470));
}
