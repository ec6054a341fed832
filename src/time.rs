//! Accounting of user and kernel time.
use vstd::prelude::*;

verus! {

/// Which side of the user/kernel boundary a task runs on.
#[derive(Debug, Clone, Copy, PartialEq, Eq, Structural)]
pub enum Side {
    User,
    Kernel,
}

/// Nanoseconds charged to user and to kernel mode, with the time and the side
/// of the last switch.
#[derive(Debug, Clone, Copy, PartialEq, Eq, Structural)]
pub struct TimeStat {
    pub user_ns: usize,
    pub kernel_ns: usize,
    pub last_ns: usize,
    pub side: Side,
}

/// Nanoseconds in a second and in a microsecond.
pub const NANOS_PER_SEC: usize = 1_000_000_000;
pub const NANOS_PER_MICROS: usize = 1_000;

impl TimeStat {
    /// All time charged so far.
    pub open spec fn total(self) -> int {
        self.user_ns + self.kernel_ns
    }

    /// `now` can be charged: it is not before the last switch, and the
    /// counters do not overflow.
    pub open spec fn can_charge(self, now: usize) -> bool {
        self.last_ns <= now && self.user_ns + self.kernel_ns + (now - self.last_ns) <= usize::MAX
    }

    /// The record after a switch into kernel mode at `now`: the time since the
    /// last switch is charged to user mode.
    pub open spec fn after_switch_to_kernel(self, now: usize) -> TimeStat {
        TimeStat {
            user_ns: (self.user_ns + (now - self.last_ns)) as usize,
            kernel_ns: self.kernel_ns,
            last_ns: now,
            side: Side::Kernel,
        }
    }

    /// The record after a switch into user mode at `now`: the time since the
    /// last switch is charged to kernel mode.
    pub open spec fn after_switch_to_user(self, now: usize) -> TimeStat {
        TimeStat {
            user_ns: self.user_ns,
            kernel_ns: (self.kernel_ns + (now - self.last_ns)) as usize,
            last_ns: now,
            side: Side::User,
        }
    }

    /// A fresh record: nothing charged, in kernel mode since `now`.
    pub fn new(now: usize) -> (r: TimeStat)
        ensures
            r.user_ns == 0,
            r.kernel_ns == 0,
            r.last_ns == now,
            r.side == Side::Kernel,
    {
        TimeStat { user_ns: 0, kernel_ns: 0, last_ns: now, side: Side::Kernel }
    }

    /// Leaves user mode at `now`.
    pub fn switch_into_kernel_mode(&mut self, now: usize)
        requires
            old(self).can_charge(now),
        ensures
            *final(self) == old(self).after_switch_to_kernel(now),
            final(self).total() == old(self).total() + (now - old(self).last_ns),
            final(self).total() >= old(self).total(),
    {
        self.user_ns = self.user_ns + (now - self.last_ns);
        self.last_ns = now;
        self.side = Side::Kernel;
    }

    /// Leaves kernel mode at `now`.
    pub fn switch_into_user_mode(&mut self, now: usize)
        requires
            old(self).can_charge(now),
        ensures
            *final(self) == old(self).after_switch_to_user(now),
            final(self).total() == old(self).total() + (now - old(self).last_ns),
            final(self).total() >= old(self).total(),
    {
        self.kernel_ns = self.kernel_ns + (now - self.last_ns);
        self.last_ns = now;
        self.side = Side::User;
    }

    /// The user and the kernel nanoseconds.
    pub fn output(&self) -> (r: (usize, usize))
        ensures
            r == (self.user_ns, self.kernel_ns),
    {
        (self.user_ns, self.kernel_ns)
    }
}

/// Charging time never takes any away: over any switch, in either direction,
/// the sum of user and kernel time does not decrease.
pub proof fn lemma_total_monotonic(t: TimeStat, now: usize)
    requires
        t.can_charge(now),
    ensures
        t.after_switch_to_kernel(now).total() >= t.total(),
        t.after_switch_to_user(now).total() >= t.total(),
{
}

/// The record after one switch at `now`: into user mode when `to_user`,
/// into kernel mode otherwise.
pub open spec fn after_switch(t: TimeStat, now: usize, to_user: bool) -> TimeStat {
    if to_user {
        t.after_switch_to_user(now)
    } else {
        t.after_switch_to_kernel(now)
    }
}

/// Every switch of `run`, taken in order from `t`, can be charged: the
/// clock readings never go back and the counters never overflow.
pub open spec fn chargeable_run(t: TimeStat, run: Seq<(usize, bool)>) -> bool
    decreases run.len(),
{
    run.len() == 0 || (t.can_charge(run[0].0) && chargeable_run(
        after_switch(t, run[0].0, run[0].1),
        run.drop_first(),
    ))
}

/// The record after the switches of `run`, in order.
pub open spec fn after_run(t: TimeStat, run: Seq<(usize, bool)>) -> TimeStat
    decreases run.len(),
{
    if run.len() == 0 {
        t
    } else {
        after_run(after_switch(t, run[0].0, run[0].1), run.drop_first())
    }
}

/// Over any run of switches with ordered clock readings, neither the user
/// time, nor the kernel time, nor their sum ever decreases.
pub proof fn lemma_run_monotonic(t: TimeStat, run: Seq<(usize, bool)>)
    requires
        chargeable_run(t, run),
    ensures
        after_run(t, run).user_ns >= t.user_ns,
        after_run(t, run).kernel_ns >= t.kernel_ns,
        after_run(t, run).total() >= t.total(),
    decreases run.len(),
{
    if run.len() > 0 {
        lemma_run_monotonic(after_switch(t, run[0].0, run[0].1), run.drop_first());
    }
}

} // verus!
