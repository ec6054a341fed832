//! The per-task kernel record and the lifecycle decisions made on it:
//! cloning, executing a new image, and reaping children.
use vstd::prelude::*;
use crate::context::{TrapFrame, UspaceContext, Isa, child_context, clone_context};
use crate::errno::LinuxError;
use crate::rlimit::{Rlimit, RLIMIT_DEFAULT};
use crate::signal::SigSet;
use crate::time::{TimeStat, NANOS_PER_MICROS, NANOS_PER_SEC};

verus! {

/// The id of the init task, every task's parent until told otherwise.
pub const INIT_PROC_ID: u64 = 1;

/// The low bits of the clone flags, which carry the signal sent to the
/// parent when the child exits.
pub const CLONE_SIGNAL_BITS: usize = 0x3f;

/// The bits that name clone flags, from `CLONE_VM` (bit 8) to `CLONE_IO`
/// (bit 31).
pub const CLONE_FLAG_BITS: usize = 0xffff_ff00;

/// The clone flags set no bit that is neither an exit signal nor a flag.
pub open spec fn clone_flags_valid(flags: usize) -> bool {
    flags & !(CLONE_SIGNAL_BITS | CLONE_FLAG_BITS) == 0
}

/// What the parent knows of one child: its id, and whether and how it has
/// exited.
#[derive(Debug, Clone, Copy, PartialEq, Eq, Structural)]
pub struct ChildTask {
    pub id: u64,
    pub exited: bool,
    pub exit_code: i32,
}

/// Why a wait did not reap a child.
#[derive(Debug, Clone, Copy, PartialEq, Eq, Structural)]
pub enum WaitStatus {
    /// A child was reaped (never handed out as a failure).
    Exited,
    /// A matching child exists but has not exited yet.
    Running,
    /// No child matches.
    NotExist,
}

/// Task extended data for the monolithic kernel.
pub struct TaskExt {
    /// The process ID.
    pub proc_id: usize,
    /// The parent process ID.
    pub parent_id: u64,
    /// The children, in the order they were created.
    pub children: Vec<ChildTask>,
    /// The address whose word is cleared when the task exits (0: none).
    pub clear_child_tid: u64,
    /// The user space context.
    pub uctx: UspaceContext,
    /// The time statistics.
    pub time: TimeStat,
    /// The user heap bottom.
    pub heap_bottom: u64,
    /// The user heap top.
    pub heap_top: u64,
    /// RLIMIT_AS: largest virtual memory size.
    pub rlimit_as: Rlimit,
    /// RLIMIT_CORE: largest core dump.
    pub rlimit_asc: Rlimit,
    /// RLIMIT_CPU: CPU time, in seconds.
    pub rlimit_cpu: Rlimit,
    /// RLIMIT_DATA: largest data segment.
    pub rlimit_data: Rlimit,
    /// RLIMIT_FSIZE: largest file the task may create.
    pub rlimit_fsize: Rlimit,
    /// RLIMIT_NOFILE: most open file descriptors.
    pub rlimit_nofile: Rlimit,
    /// RLIMIT_STACK: largest stack.
    pub rlimit_stack: Rlimit,
    /// The signal mask.
    pub signal_mask: SigSet,
}

/// A limit at its default value.
pub open spec fn is_default_limit(l: Rlimit) -> bool {
    l.rlim_cur == RLIMIT_DEFAULT && l.rlim_max == RLIMIT_DEFAULT
}

impl TaskExt {
    /// The heap bounds are ordered.
    pub open spec fn wf(&self) -> bool {
        self.heap_bottom <= self.heap_top
    }

    /// The state a freshly made task starts in.
    pub open spec fn is_fresh(&self, proc_id: usize, uctx: UspaceContext, heap_bottom: u64) -> bool {
        self.parent_id == INIT_PROC_ID && self.is_fresh_but_parent(proc_id, uctx.frame, heap_bottom)
    }

    /// Everything but the children is the same in both records.
    pub open spec fn same_but_children(&self, other: &TaskExt) -> bool {
        &&& self.proc_id == other.proc_id
        &&& self.parent_id == other.parent_id
        &&& self.clear_child_tid == other.clear_child_tid
        &&& self.uctx == other.uctx
        &&& self.time == other.time
        &&& self.heap_bottom == other.heap_bottom
        &&& self.heap_top == other.heap_top
        &&& self.rlimit_as == other.rlimit_as && self.rlimit_asc == other.rlimit_asc
        &&& self.rlimit_cpu == other.rlimit_cpu && self.rlimit_data == other.rlimit_data
        &&& self.rlimit_fsize == other.rlimit_fsize && self.rlimit_nofile == other.rlimit_nofile
        &&& self.rlimit_stack == other.rlimit_stack
        &&& self.signal_mask == other.signal_mask
    }

    /// A record for task `proc_id`: child of init, no children, resuming at
    /// `uctx`, an empty heap at `heap_bottom`, default limits, nothing masked.
    pub fn new(proc_id: usize, uctx: UspaceContext, heap_bottom: u64) -> (r: TaskExt)
        ensures
            r.wf(),
            r.is_fresh(proc_id, uctx, heap_bottom),
    {
        TaskExt {
            proc_id,
            parent_id: INIT_PROC_ID,
            children: Vec::new(),
            clear_child_tid: 0,
            uctx,
            time: TimeStat::new(0),
            heap_bottom,
            heap_top: heap_bottom,
            rlimit_as: Rlimit::default(),
            rlimit_asc: Rlimit::default(),
            rlimit_cpu: Rlimit::default(),
            rlimit_data: Rlimit::default(),
            rlimit_fsize: Rlimit::default(),
            rlimit_nofile: Rlimit::default(),
            rlimit_stack: Rlimit::default(),
            signal_mask: SigSet { bits: [0, 0] },
        }
    }
}

/// Whether child `c` answers a wait for `pid`: for `pid <= 0` any child
/// that has exited, otherwise the child with that id.
pub open spec fn selects(c: ChildTask, pid: i32) -> bool {
    if pid <= 0 {
        c.exited
    } else {
        c.id == pid as u64
    }
}

/// The index of the first child from `i` on that answers a wait for `pid`,
/// or -1.
pub open spec fn first_selected(s: Seq<ChildTask>, pid: i32, i: int) -> int
    decreases s.len() - i,
{
    if i < 0 || i >= s.len() {
        -1
    } else if selects(s[i], pid) {
        i
    } else {
        first_selected(s, pid, i + 1)
    }
}

/// The status word reported for exit code `code`: the code in bits 8..16,
/// the low byte left for a signal.
pub open spec fn wait_status_word(code: i32) -> i32 {
    ((code as u32) << 8u32) as i32
}

/// What a wait for `pid` over the children `s` answers: the id and status
/// word of the reaped child, or why none was reaped.
pub open spec fn wait_outcome(s: Seq<ChildTask>, pid: i32) -> Result<(u64, i32), WaitStatus> {
    let i = first_selected(s, pid, 0);
    if i >= 0 && s[i].exited {
        Ok((s[i].id, wait_status_word(s[i].exit_code)))
    } else if i >= 0 || (pid <= 0 && s.len() > 0) {
        Err(WaitStatus::Running)
    } else {
        Err(WaitStatus::NotExist)
    }
}

/// The children that are left after a wait for `pid`.
pub open spec fn children_after_wait(s: Seq<ChildTask>, pid: i32) -> Seq<ChildTask> {
    let i = first_selected(s, pid, 0);
    if i >= 0 && s[i].exited {
        s.remove(i)
    } else {
        s
    }
}

proof fn lemma_first_selected_bounds(s: Seq<ChildTask>, pid: i32, i: int)
    requires
        0 <= i,
    ensures
        first_selected(s, pid, i) == -1 || (i <= first_selected(s, pid, i) < s.len() && selects(
            s[first_selected(s, pid, i)],
            pid,
        )),
    decreases s.len() - i,
{
    if i < s.len() && !selects(s[i], pid) {
        lemma_first_selected_bounds(s, pid, i + 1);
    }
}

/// The exit status word of exit code `code`.
pub fn wait_status(code: i32) -> (r: i32)
    ensures
        r == wait_status_word(code),
        0 <= code < 256 ==> r == code * 256,
{
    proof {
        let c = code as u32;
        if 0 <= code < 256 {
            assert(c < 256 ==> c << 8u32 == c * 256) by (bit_vector);
        }
    }
    ((code as u32) << 8u32) as i32
}

impl TaskExt {
    /// Reaps a child. For `pid <= 0` the first child that has exited is
    /// taken; with none, the answer is `Running` if there are children and
    /// `NotExist` if there are none. For `pid > 0` the child with that id is
    /// taken if it has exited, `Running` is answered if it has not (the caller
    /// joins it and asks again), `NotExist` if there is no such child. A
    /// reaped child leaves `children`, and its id and status word are
    /// returned.
    pub fn wait_pid(&mut self, pid: i32) -> (r: Result<(u64, i32), WaitStatus>)
        ensures
            r == wait_outcome(old(self).children@, pid),
            final(self).children@ == children_after_wait(old(self).children@, pid),
            final(self).same_but_children(old(self)),
            final(self).wf() == old(self).wf(),
    {
        let n = self.children.len();
        let mut i: usize = 0;
        while i < n
            invariant
                n == self.children@.len(),
                i <= n,
                first_selected(self.children@, pid, 0) == first_selected(self.children@, pid, i as int),
            ensures
                i <= n,
                first_selected(self.children@, pid, 0) == first_selected(self.children@, pid, i as int),
                i < n ==> selects(self.children@[i as int], pid),
            decreases n - i,
        {
            let c = self.children[i];
            let hit = if pid <= 0 {
                c.exited
            } else {
                c.id == pid as u64
            };
            if hit {
                break;
            }
            i = i + 1;
        }
        proof {
            lemma_first_selected_bounds(self.children@, pid, 0);
        }
        if i == n {
            if pid <= 0 && n > 0 {
                return Err(WaitStatus::Running);
            }
            return Err(WaitStatus::NotExist);
        }
        let c = self.children[i];
        if !c.exited {
            return Err(WaitStatus::Running);
        }
        self.children.remove(i);
        Ok((c.id, wait_status(c.exit_code)))
    }
}

/// A parent whose only child has exited with code `k`, waiting for any
/// child, gets that child's id and the status word `k << 8`, and is left
/// with no children; a second wait, for any pid, finds none.
pub proof fn lemma_wait_reaps_only_child(c: ChildTask, pid: i32, later: i32)
    requires
        c.exited,
        pid <= 0,
    ensures
        wait_outcome(seq![c], pid) == Ok::<(u64, i32), WaitStatus>((c.id, wait_status_word(c.exit_code))),
        children_after_wait(seq![c], pid) == Seq::<ChildTask>::empty(),
        wait_outcome(children_after_wait(seq![c], pid), later) == Err::<(u64, i32), WaitStatus>(
            WaitStatus::NotExist,
        ),
{
    let s = seq![c];
    assert(first_selected(s, pid, 0) == 0);
    assert(s.remove(0) =~= Seq::<ChildTask>::empty());
    assert(first_selected(Seq::<ChildTask>::empty(), later, 0) == -1);
}

impl TaskExt {
    /// Clones the calling task into a new task with id `new_id`, which
    /// resumes at `frame` as `child_context` describes. Flags with a bit that
    /// is neither an exit signal nor a clone flag are refused with `EINVAL`.
    /// `aspace` is the outcome of cloning the address space: where it
    /// failed, its error is returned. Either way nothing changes. Otherwise the child is appended to
    /// `children`, and its id and record are returned: its parent is this
    /// task, and it starts with an empty heap at `heap_base`.
    pub fn clone_task(
        &mut self,
        flags: usize,
        new_id: u64,
        frame: &TrapFrame,
        stack: Option<usize>,
        isa: Isa,
        aspace: Result<(), LinuxError>,
        heap_base: u64,
    ) -> (r: Result<(u64, TaskExt), LinuxError>)
        ensures
            !clone_flags_valid(flags) ==> r == Err::<(u64, TaskExt), LinuxError>(LinuxError::EINVAL),
            clone_flags_valid(flags) ==> (aspace matches Err(e) ==> r == Err::<
                (u64, TaskExt),
                LinuxError,
            >(e)),
            r is Err ==> *final(self) == *old(self),
            clone_flags_valid(flags) && aspace is Ok ==> (r matches Ok((id, child)) && id == new_id && final(self).children@
                == old(self).children@.push((ChildTask { id: new_id, exited: false, exit_code: 0 }))
                && final(self).same_but_children(old(self)) && child.wf()
                && child.parent_id == old(self).proc_id as u64 && child.is_fresh_but_parent(
                new_id as usize,
                child_context(*frame, stack, isa),
                heap_base,
            )),
    {
        if flags & !(CLONE_SIGNAL_BITS | CLONE_FLAG_BITS) != 0 {
            return Err(LinuxError::EINVAL);
        }
        if let Err(e) = aspace {
            return Err(e);
        }
        let uctx = clone_context(frame, stack, isa);
        let mut child = TaskExt::new(new_id as usize, uctx, heap_base);
        child.set_parent(self.proc_id as u64);
        self.children.push(ChildTask { id: new_id, exited: false, exit_code: 0 });
        Ok((new_id, child))
    }

    /// Replaces the running image. `aspace_refs` is the number of tasks that
    /// share the address space, and `image` the entry point and user stack of
    /// the loaded program, or `None` where it could not be loaded. With a
    /// shared address space `EOPNOTSUPP` is returned, and without an image
    /// `ENOENT`; either way the task is left as it was. Otherwise the task
    /// resumes at the new entry point, on the new stack.
    pub fn exec(&mut self, aspace_refs: usize, image: Option<(usize, usize)>) -> (r: Result<
        (),
        LinuxError,
    >)
        ensures
            aspace_refs != 1 ==> r == Err::<(), LinuxError>(LinuxError::EOPNOTSUPP),
            aspace_refs == 1 && image is None ==> r == Err::<(), LinuxError>(LinuxError::ENOENT),
            r is Ok <==> (aspace_refs == 1 && image is Some),
            r is Err ==> *final(self) == *old(self),
            r is Ok ==> *final(self) == (TaskExt { uctx: final(self).uctx, ..*old(self) }),
            image matches Some((entry, ustack)) ==> (r is Ok ==> final(self).uctx.frame.ip == entry
                && final(self).uctx.frame.sp == ustack && final(self).uctx.frame.args@ == seq![
                0usize,
                0usize,
                0usize,
                0usize,
                0usize,
                0usize,
            ] && final(self).uctx.frame.retval == 0),
    {
        if aspace_refs != 1 {
            return Err(LinuxError::EOPNOTSUPP);
        }
        match image {
            None => Err(LinuxError::ENOENT),
            Some((entry, ustack)) => {
                self.uctx = UspaceContext::new(entry, ustack, 0);
                Ok(())
            },
        }
    }

    /// As `is_fresh`, but for the parent id.
    pub open spec fn is_fresh_but_parent(&self, proc_id: usize, frame: TrapFrame, heap_bottom: u64) -> bool {
        &&& self.proc_id == proc_id
        &&& self.children@.len() == 0
        &&& self.clear_child_tid == 0
        &&& self.uctx.frame == frame
        &&& self.time.user_ns == 0 && self.time.kernel_ns == 0
        &&& self.heap_bottom == heap_bottom
        &&& self.heap_top == heap_bottom
        &&& is_default_limit(self.rlimit_as) && is_default_limit(self.rlimit_asc)
        &&& is_default_limit(self.rlimit_cpu) && is_default_limit(self.rlimit_data)
        &&& is_default_limit(self.rlimit_fsize) && is_default_limit(self.rlimit_nofile)
        &&& is_default_limit(self.rlimit_stack)
        &&& self.signal_mask.low() == 0 && self.signal_mask.high() == 0
    }

    /// The address cleared when the task exits.
    pub fn clear_child_tid(&self) -> (r: u64)
        ensures
            r == self.clear_child_tid,
    {
        self.clear_child_tid
    }

    pub fn set_clear_child_tid(&mut self, clear_child_tid: u64)
        ensures
            *final(self) == (TaskExt { clear_child_tid, ..*old(self) }),
    {
        self.clear_child_tid = clear_child_tid;
    }

    pub fn get_parent(&self) -> (r: u64)
        ensures
            r == self.parent_id,
    {
        self.parent_id
    }

    pub fn set_parent(&mut self, parent_id: u64)
        ensures
            *final(self) == (TaskExt { parent_id, ..*old(self) }),
    {
        self.parent_id = parent_id;
    }
}

impl TaskExt {
    /// Sets the limit on open file descriptors.
    pub fn set_rlimit_nofile(&mut self, new_value: Rlimit)
        ensures
            *final(self) == (TaskExt { rlimit_nofile: new_value, ..*old(self) }),
    {
        self.rlimit_nofile = new_value;
    }

    /// The limit on open file descriptors.
    pub fn get_rlimit_nofile(&self) -> (r: Rlimit)
        ensures
            r == self.rlimit_nofile,
    {
        self.rlimit_nofile
    }

    /// Sets the limit on stack size.
    pub fn set_rlimit_stack(&mut self, new_value: Rlimit)
        ensures
            *final(self) == (TaskExt { rlimit_stack: new_value, ..*old(self) }),
    {
        self.rlimit_stack = new_value;
    }

    /// The limit on stack size.
    pub fn get_rlimit_stack(&self) -> (r: Rlimit)
        ensures
            r == self.rlimit_stack,
    {
        self.rlimit_stack
    }

    /// Sets the limit on CPU time.
    pub fn set_rlimit_cpu(&mut self, new_value: Rlimit)
        ensures
            *final(self) == (TaskExt { rlimit_cpu: new_value, ..*old(self) }),
    {
        self.rlimit_cpu = new_value;
    }

    /// The limit on CPU time.
    pub fn get_rlimit_cpu(&self) -> (r: Rlimit)
        ensures
            r == self.rlimit_cpu,
    {
        self.rlimit_cpu
    }

    /// Sets the limit on data segment size.
    pub fn set_rlimit_data(&mut self, new_value: Rlimit)
        ensures
            *final(self) == (TaskExt { rlimit_data: new_value, ..*old(self) }),
    {
        self.rlimit_data = new_value;
    }

    /// The limit on data segment size.
    pub fn get_rlimit_data(&self) -> (r: Rlimit)
        ensures
            r == self.rlimit_data,
    {
        self.rlimit_data
    }

    /// Sets the limit on file size.
    pub fn set_rlimit_fsize(&mut self, new_value: Rlimit)
        ensures
            *final(self) == (TaskExt { rlimit_fsize: new_value, ..*old(self) }),
    {
        self.rlimit_fsize = new_value;
    }

    /// The limit on file size.
    pub fn get_rlimit_fsize(&self) -> (r: Rlimit)
        ensures
            r == self.rlimit_fsize,
    {
        self.rlimit_fsize
    }

    /// Sets the limit on address space size.
    pub fn set_rlimit_as(&mut self, new_value: Rlimit)
        ensures
            *final(self) == (TaskExt { rlimit_as: new_value, ..*old(self) }),
    {
        self.rlimit_as = new_value;
    }

    /// The limit on address space size.
    pub fn get_rlimit_as(&self) -> (r: Rlimit)
        ensures
            r == self.rlimit_as,
    {
        self.rlimit_as
    }

    /// Adds the signals of `other` to the mask.
    pub fn add_signal(&mut self, other: &SigSet)
        ensures
            final(self).signal_mask.low() == old(self).signal_mask.low() | other.low(),
            final(self).signal_mask.high() == old(self).signal_mask.high() | other.high(),
            final(self).same_but_mask(old(self)),
    {
        let mut mask = self.signal_mask;
        mask.add_from(other);
        self.signal_mask = mask;
    }

    /// Takes the signals of `other` out of the mask.
    pub fn remove_signal(&mut self, other: &SigSet)
        ensures
            final(self).signal_mask.low() == old(self).signal_mask.low() & !other.low(),
            final(self).signal_mask.high() == old(self).signal_mask.high() & !other.high(),
            final(self).same_but_mask(old(self)),
    {
        let mut mask = self.signal_mask;
        mask.remove_from(other);
        self.signal_mask = mask;
    }

    pub fn get_signal_mask(&self) -> (r: SigSet)
        ensures
            r == self.signal_mask,
    {
        self.signal_mask
    }

    pub fn set_signal_mask(&mut self, mask: &SigSet)
        ensures
            *final(self) == (TaskExt { signal_mask: *mask, ..*old(self) }),
    {
        self.signal_mask = *mask;
    }

    /// Everything but the signal mask is the same in both records.
    pub open spec fn same_but_mask(&self, other: &TaskExt) -> bool {
        *self == (TaskExt { signal_mask: self.signal_mask, ..*other })
    }

    pub fn get_heap_bottom(&self) -> (r: u64)
        ensures
            r == self.heap_bottom,
    {
        self.heap_bottom
    }

    /// Moves the heap bottom; it may not pass the top.
    pub fn set_heap_bottom(&mut self, bottom: u64)
        requires
            bottom <= old(self).heap_top,
        ensures
            *final(self) == (TaskExt { heap_bottom: bottom, ..*old(self) }),
            final(self).wf(),
    {
        self.heap_bottom = bottom;
    }

    pub fn get_heap_top(&self) -> (r: u64)
        ensures
            r == self.heap_top,
    {
        self.heap_top
    }

    /// Moves the heap top; it may not fall below the bottom.
    pub fn set_heap_top(&mut self, top: u64)
        requires
            old(self).heap_bottom <= top,
        ensures
            *final(self) == (TaskExt { heap_top: top, ..*old(self) }),
            final(self).wf(),
    {
        self.heap_top = top;
    }

    /// The task returns to user mode at `current_tick`.
    pub fn time_stat_from_kernel_to_user(&mut self, current_tick: usize)
        requires
            old(self).time.can_charge(current_tick),
        ensures
            *final(self) == (TaskExt {
                time: old(self).time.after_switch_to_user(current_tick),
                ..*old(self)
            }),
    {
        self.time.switch_into_user_mode(current_tick);
    }

    /// The task enters the kernel at `current_tick`.
    pub fn time_stat_from_user_to_kernel(&mut self, current_tick: usize)
        requires
            old(self).time.can_charge(current_tick),
        ensures
            *final(self) == (TaskExt {
                time: old(self).time.after_switch_to_kernel(current_tick),
                ..*old(self)
            }),
    {
        self.time.switch_into_kernel_mode(current_tick);
    }

    /// The user and kernel nanoseconds charged to the task.
    pub fn time_stat_output(&self) -> (r: (usize, usize))
        ensures
            r == (self.time.user_ns, self.time.kernel_ns),
    {
        self.time.output()
    }
}

/// What a blocking `wait4` does with the outcome of one wait.
#[derive(Debug, Clone, Copy, PartialEq, Eq, Structural)]
pub enum Wait4Step {
    /// Return the reaped child's id.
    Done(u64),
    /// Yield and wait again.
    Retry,
    /// Fail with this error.
    Fail(LinuxError),
}

/// The step of a blocking `wait4` after one wait: a reaped child ends it,
/// a child that is still running makes it try again, and no matching child
/// fails it with `ECHILD`.
pub fn wait4_step(outcome: Result<(u64, i32), WaitStatus>) -> (r: Wait4Step)
    ensures
        outcome matches Ok((id, _)) ==> r == Wait4Step::Done(id),
        outcome == Err::<(u64, i32), WaitStatus>(WaitStatus::Running) ==> r == Wait4Step::Retry,
        outcome == Err::<(u64, i32), WaitStatus>(WaitStatus::NotExist) ==> r == Wait4Step::Fail(
            LinuxError::ECHILD,
        ),
        outcome == Err::<(u64, i32), WaitStatus>(WaitStatus::Exited) ==> r == Wait4Step::Fail(
            LinuxError::ECHILD,
        ),
{
    match outcome {
        Ok((id, _)) => Wait4Step::Done(id),
        Err(WaitStatus::Running) => Wait4Step::Retry,
        Err(_) => Wait4Step::Fail(LinuxError::ECHILD),
    }
}

/// The task's user and kernel time as whole seconds and whole
/// microseconds: `(user s, user us, kernel s, kernel us)`.
pub fn time_stat_output(task: &TaskExt) -> (r: (usize, usize, usize, usize))
    ensures
        r == (
            task.time.user_ns / NANOS_PER_SEC,
            task.time.user_ns / NANOS_PER_MICROS,
            task.time.kernel_ns / NANOS_PER_SEC,
            task.time.kernel_ns / NANOS_PER_MICROS,
        ),
{
    let (utime_ns, stime_ns) = task.time_stat_output();
    (
        utime_ns / NANOS_PER_SEC,
        utime_ns / NANOS_PER_MICROS,
        stime_ns / NANOS_PER_SEC,
        stime_ns / NANOS_PER_MICROS,
    )
}

} // verus!
