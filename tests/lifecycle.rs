use starry_kernel::context::{clone_context, Isa, TrapFrame, UspaceContext};
use starry_kernel::errno::LinuxError;
use starry_kernel::rlimit::Rlimit;
use starry_kernel::signal::SigSet;
use starry_kernel::task::{CLONE_FLAG_BITS, time_stat_output, wait4_step, wait_status, ChildTask, TaskExt, Wait4Step, WaitStatus};

fn frame() -> TrapFrame {
    TrapFrame { args: [1, 2, 3, 4, 5, 6], ip: 0x1000, sp: 0x7000, retval: 99 }
}

fn parent() -> TaskExt {
    TaskExt::new(3, UspaceContext::new(0x400, 0x9000, 0), 0x2000)
}

#[test]
fn new_task_defaults() {
    let t = parent();
    assert_eq!(t.proc_id, 3);
    assert_eq!(t.get_parent(), 1);
    assert!(t.children.is_empty());
    assert_eq!(t.clear_child_tid(), 0);
    assert_eq!(t.get_heap_bottom(), 0x2000);
    assert_eq!(t.get_heap_top(), 0x2000);
    assert_eq!(t.get_rlimit_nofile(), Rlimit { rlim_cur: 65535, rlim_max: 65535 });
    assert_eq!(t.get_rlimit_stack(), Rlimit::default());
    assert_eq!(t.get_signal_mask().bits, [0, 0]);
    assert_eq!(t.time_stat_output(), (0, 0));
    assert_eq!(t.uctx.ip(), 0x400);
    assert_eq!(t.uctx.sp(), 0x9000);
}

#[test]
fn rlimit_default_values() {
    let r = Rlimit::default();
    assert_eq!(r.rlim_cur, 65535);
    assert_eq!(r.rlim_max, 65535);
}

#[test]
fn clone_registers_child_before_returning() {
    let mut p = parent();
    let (id, child) = p.clone_task(17, 42, &frame(), Some(0x8800), Isa::Riscv64, Ok(()), 0x5000).unwrap();
    assert_eq!(id, 42);
    assert_eq!(p.children, vec![ChildTask { id: 42, exited: false, exit_code: 0 }]);
    assert_eq!(child.proc_id, 42);
    assert_eq!(child.get_parent(), 3);
    assert_eq!(child.uctx.ip(), 0x1004);
    assert_eq!(child.uctx.sp(), 0x8800);
    assert_eq!(child.uctx.frame.retval, 0);
    assert_eq!(child.uctx.frame.args, [1, 2, 3, 4, 5, 6]);
    assert_eq!(child.get_heap_bottom(), 0x5000);
    assert_eq!(child.get_heap_top(), 0x5000);
    assert!(child.children.is_empty());
}

#[test]
fn clone_keeps_ip_where_trap_returns_past_it() {
    let c = clone_context(&frame(), None, Isa::X86_64);
    assert_eq!(c.ip(), 0x1000);
    assert_eq!(c.sp(), 0x7000);
    assert_eq!(c.frame.retval, 0);
    let c = clone_context(&frame(), None, Isa::Aarch64);
    assert_eq!(c.ip(), 0x1000);
    let c = clone_context(&frame(), None, Isa::Loongarch64);
    assert_eq!(c.ip(), 0x1004);
}

#[test]
fn clone_fails_cleanly_when_aspace_clone_fails() {
    let mut p = parent();
    let r = p.clone_task(17, 42, &frame(), None, Isa::X86_64, Err(LinuxError::ENOENT), 0x5000);
    assert_eq!(r.err(), Some(LinuxError::ENOENT));
    assert!(p.children.is_empty());
}

#[test]
fn clone_exit_wait_scenario() {
    let mut p = parent();
    let (id, _child) = p.clone_task(17, 8, &frame(), None, Isa::Riscv64, Ok(()), 0).unwrap();
    p.children[0].exited = true;
    p.children[0].exit_code = 7;
    assert_eq!(p.wait_pid(-1), Ok((id, 1792)));
    assert!(p.children.is_empty());
    assert_eq!(p.wait_pid(-1), Err(WaitStatus::NotExist));
}

#[test]
fn wait4_steps() {
    let mut p = parent();
    p.children = vec![ChildTask { id: 9, exited: false, exit_code: 0 }];
    assert_eq!(wait4_step(p.wait_pid(-1)), Wait4Step::Retry);
    p.children[0].exited = true;
    p.children[0].exit_code = 7;
    assert_eq!(wait4_step(p.wait_pid(-1)), Wait4Step::Done(9));
    assert_eq!(wait4_step(p.wait_pid(-1)), Wait4Step::Fail(LinuxError::ECHILD));
    assert_eq!(LinuxError::ECHILD.code(), 10);
}

#[test]
fn wait_any_with_running_children() {
    let mut p = parent();
    p.clone_task(17, 8, &frame(), None, Isa::Riscv64, Ok(()), 0).unwrap();
    assert_eq!(p.wait_pid(-1), Err(WaitStatus::Running));
    assert_eq!(p.wait_pid(0), Err(WaitStatus::Running));
    assert_eq!(p.children.len(), 1);
}

#[test]
fn wait_any_reaps_first_exited_in_order() {
    let mut p = parent();
    p.children = vec![
        ChildTask { id: 4, exited: false, exit_code: 0 },
        ChildTask { id: 5, exited: true, exit_code: 1 },
        ChildTask { id: 6, exited: true, exit_code: 2 },
    ];
    assert_eq!(p.wait_pid(-1), Ok((5, 256)));
    assert_eq!(p.wait_pid(-1), Ok((6, 512)));
    assert_eq!(p.wait_pid(-1), Err(WaitStatus::Running));
    assert_eq!(p.children, vec![ChildTask { id: 4, exited: false, exit_code: 0 }]);
}

#[test]
fn wait_for_given_pid() {
    let mut p = parent();
    p.children = vec![
        ChildTask { id: 4, exited: true, exit_code: 3 },
        ChildTask { id: 5, exited: false, exit_code: 0 },
    ];
    assert_eq!(p.wait_pid(5), Err(WaitStatus::Running));
    assert_eq!(p.wait_pid(9), Err(WaitStatus::NotExist));
    assert_eq!(p.wait_pid(4), Ok((4, 768)));
    assert_eq!(p.children.len(), 1);
}

#[test]
fn wait_without_children() {
    let mut p = parent();
    assert_eq!(p.wait_pid(-1), Err(WaitStatus::NotExist));
    assert_eq!(p.wait_pid(3), Err(WaitStatus::NotExist));
}

#[test]
fn status_word_encoding() {
    assert_eq!(wait_status(0), 0);
    assert_eq!(wait_status(7), 1792);
    assert_eq!(wait_status(255), 65280);
    assert_eq!(wait_status(-1), -256);
}

#[test]
fn exec_refuses_shared_aspace() {
    let mut p = parent();
    p.set_rlimit_cpu(Rlimit { rlim_cur: 5, rlim_max: 6 });
    let r = p.exec(2, Some((0x1000, 0x8000)));
    assert_eq!(r, Err(LinuxError::EOPNOTSUPP));
    assert_eq!(p.uctx.ip(), 0x400);
    assert_eq!(p.uctx.sp(), 0x9000);
    assert_eq!(p.get_rlimit_cpu(), Rlimit { rlim_cur: 5, rlim_max: 6 });
}

#[test]
fn exec_without_image() {
    let mut p = parent();
    assert_eq!(p.exec(1, None), Err(LinuxError::ENOENT));
    assert_eq!(p.uctx.ip(), 0x400);
}

#[test]
fn exec_installs_new_context() {
    let mut p = parent();
    assert_eq!(p.exec(1, Some((0x1000, 0x8000))), Ok(()));
    assert_eq!(p.uctx.ip(), 0x1000);
    assert_eq!(p.uctx.sp(), 0x8000);
    assert_eq!(p.uctx.frame.args[0], 0);
}

#[test]
fn limits_are_stored_and_echoed() {
    let mut t = parent();
    let v = Rlimit { rlim_cur: 10, rlim_max: 20 };
    t.set_rlimit_nofile(v);
    t.set_rlimit_stack(Rlimit { rlim_cur: 1, rlim_max: 2 });
    t.set_rlimit_data(Rlimit { rlim_cur: 3, rlim_max: 4 });
    t.set_rlimit_fsize(Rlimit { rlim_cur: 5, rlim_max: 6 });
    t.set_rlimit_as(Rlimit { rlim_cur: 7, rlim_max: 8 });
    assert_eq!(t.get_rlimit_nofile(), v);
    assert_eq!(t.get_rlimit_stack(), Rlimit { rlim_cur: 1, rlim_max: 2 });
    assert_eq!(t.get_rlimit_data(), Rlimit { rlim_cur: 3, rlim_max: 4 });
    assert_eq!(t.get_rlimit_fsize(), Rlimit { rlim_cur: 5, rlim_max: 6 });
    assert_eq!(t.get_rlimit_as(), Rlimit { rlim_cur: 7, rlim_max: 8 });
    assert_eq!(t.get_rlimit_cpu(), Rlimit::default());
}

#[test]
fn signal_mask_accessors() {
    let mut t = parent();
    t.add_signal(&SigSet { bits: [0b110, 1] });
    assert_eq!(t.get_signal_mask().bits, [0b110, 1]);
    t.remove_signal(&SigSet { bits: [0b010, 0] });
    assert_eq!(t.get_signal_mask().bits, [0b100, 1]);
    t.set_signal_mask(&SigSet { bits: [9, 9] });
    assert_eq!(t.get_signal_mask().bits, [9, 9]);
}

#[test]
fn heap_and_tid_accessors() {
    let mut t = parent();
    t.set_heap_top(0x3000);
    t.set_heap_bottom(0x2800);
    assert_eq!(t.get_heap_bottom(), 0x2800);
    assert_eq!(t.get_heap_top(), 0x3000);
    t.set_clear_child_tid(0xdead0);
    assert_eq!(t.clear_child_tid(), 0xdead0);
    t.set_parent(17);
    assert_eq!(t.get_parent(), 17);
}

#[test]
fn task_time_switches() {
    let mut t = parent();
    t.time_stat_from_user_to_kernel(100);
    t.time_stat_from_kernel_to_user(130);
    assert_eq!(t.time_stat_output(), (100, 30));
}

#[test]
fn task_time_in_seconds_and_micros() {
    let mut t = parent();
    t.time.user_ns = 2_500_000_000;
    t.time.kernel_ns = 1_234_567;
    assert_eq!(time_stat_output(&t), (2, 2_500_000, 0, 1_234));
}

#[test]
fn clone_zero_stack_keeps_parent_sp() {
    let mut p = parent();
    let (_, child) = p.clone_task(0, 42, &frame(), Some(0), Isa::X86_64, Ok(()), 0).unwrap();
    assert_eq!(child.uctx.sp(), 0x7000);
    let c = clone_context(&frame(), Some(0), Isa::Riscv64);
    assert_eq!(c.sp(), 0x7000);
    assert_eq!(c.ip(), 0x1004);
}

#[test]
fn clone_refuses_undefined_flags() {
    let mut p = parent();
    for flags in [0x40usize, 0x80, 0x100 | 0xc0, 1usize << 40] {
        let r = p.clone_task(flags, 42, &frame(), None, Isa::X86_64, Ok(()), 0);
        assert_eq!(r.err(), Some(LinuxError::EINVAL));
        assert!(p.children.is_empty());
    }
    let ok = p.clone_task(CLONE_FLAG_BITS | 0x3f, 42, &frame(), None, Isa::X86_64, Ok(()), 0);
    assert!(ok.is_ok());
    assert_eq!(p.children.len(), 1);
}

#[test]
fn flags_checked_before_aspace_outcome() {
    let mut p = parent();
    let r = p.clone_task(0x40, 42, &frame(), None, Isa::X86_64, Err(LinuxError::ENOENT), 0);
    assert_eq!(r.err(), Some(LinuxError::EINVAL));
}

#[test]
fn exec_context_registers_cleared() {
    let mut p = TaskExt::new(3, UspaceContext::from_frame(&frame()), 0);
    assert_eq!(p.exec(1, Some((0x1000, 0x8000))), Ok(()));
    assert_eq!(p.uctx.frame.args, [0, 0, 0, 0, 0, 0]);
    assert_eq!(p.uctx.frame.retval, 0);
    let u = UspaceContext::new(1, 2, 3);
    assert_eq!(u.frame.args, [3, 0, 0, 0, 0, 0]);
}
