//! The kinds of workload and the contract that every workload unit obeys.

use crate::intensity::Intensity;
use vstd::prelude::*;

verus! {

/// The kinds of workload the engine can run. At most one unit of each kind
/// is alive at any time.
#[derive(Clone, Copy, Debug, PartialEq, Eq, Hash, Structural)]
pub enum AttackType {
    /// Simulated network flood.
    DDoS,
    /// CPU saturation by duty-cycled workers.
    CPUSpike,
    /// Memory that grows until a safety ceiling.
    MemoryLeak,
}

impl AttackType {
    /// The name of the kind as reports and log entries print it.
    pub open spec fn label(self) -> Seq<char> {
        match self {
            AttackType::DDoS => "DDoS"@,
            AttackType::CPUSpike => "CPU Spike"@,
            AttackType::MemoryLeak => "Memory Leak"@,
        }
    }

    /// The name of the kind as reports and log entries print it.
    pub fn name(&self) -> (s: &'static str)
        ensures
            s@ == self.label(),
    {
        match self {
            AttackType::DDoS => "DDoS",
            AttackType::CPUSpike => "CPU Spike",
            AttackType::MemoryLeak => "Memory Leak",
        }
    }
}

/// The longest single sleep of a worker, in milliseconds. A worker that
/// sleeps in naps of at most this length and looks at its stop signal
/// between them exits well within a second of a stop.
pub const MAX_NAP_MS: u64 = 100;

/// The next nap of a worker that still has `left_ms` milliseconds to sleep:
/// all of what is left, or [`MAX_NAP_MS`] when more is left.
pub fn next_nap_ms(left_ms: u64) -> (nap: u64)
    ensures
        nap == if left_ms < MAX_NAP_MS {
            left_ms
        } else {
            MAX_NAP_MS
        },
        nap <= left_ms,
        nap <= 1000,
        left_ms > 0 ==> nap > 0,
{
    if left_ms < MAX_NAP_MS {
        left_ms
    } else {
        MAX_NAP_MS
    }
}

/// A point-in-time report of a workload unit. It is made anew on every
/// read.
#[derive(Debug, PartialEq, Eq)]
pub struct MetricsSnapshot {
    /// The dial position the unit works from.
    pub intensity: Intensity,
    /// The rate or quantity that the unit reports: the flood's target rate
    /// in packets per second, the burner's CPU share in tenths of a percent,
    /// the grower's retained bytes.
    pub quantity: u64,
    /// The one-line summary.
    pub summary: String,
}

/// The lifecycle that every workload unit offers to the registry.
///
/// A unit does not own threads. It records how many workers it has asked
/// its caller to run, and each operation tells the caller how many to launch
/// or to wait for. The caller launches exactly the workers that `start`
/// reports, and a stop is complete once the caller has waited for every
/// worker that `stop` reports.
pub trait Attack: Sized {
    /// The unit's internal consistency; every constructor establishes it.
    spec fn wf(&self) -> bool;

    /// Whether the unit has been started and not stopped since.
    spec fn running(&self) -> bool;

    /// The dial position the unit currently works from.
    spec fn intensity(&self) -> Intensity;

    /// The number of workers that the unit currently accounts for.
    spec fn workers(&self) -> nat;

    /// A sound unit accounts for workers exactly while it is running: none
    /// is left once it has stopped.
    proof fn lemma_workers_while_running(&self)
        requires
            self.wf(),
        ensures
            self.running() <==> self.workers() >= 1,
    ;

    /// Brings an idle unit to running and returns the number of workers to
    /// launch, which is never zero. A unit that is already running is left
    /// exactly as it is, and no worker is to be launched.
    fn start(&mut self) -> (spawned: usize)
        requires
            old(self).wf(),
        ensures
            final(self).wf(),
            final(self).running(),
            final(self).intensity() == old(self).intensity(),
            old(self).running() ==> spawned == 0 && *final(self) == *old(self),
            !old(self).running() ==> spawned >= 1 && spawned == final(self).workers(),
    ;

    /// Brings the unit to idle and returns the number of workers the caller
    /// has to wait for. A unit that is not running is left exactly as it is.
    fn stop(&mut self) -> (joined: usize)
        requires
            old(self).wf(),
        ensures
            final(self).wf(),
            !final(self).running(),
            final(self).workers() == 0,
            final(self).intensity() == old(self).intensity(),
            joined == old(self).workers(),
            !old(self).running() ==> *final(self) == *old(self),
    ;

    /// Moves the dial. The result is `Some(n)` when the change forced a
    /// restart: every earlier worker is to be joined and `n` new ones
    /// launched. It is `None` when the change took effect without a restart.
    /// A unit that is not running never restarts.
    fn update_intensity(&mut self, intensity: Intensity) -> (respawned: Option<usize>)
        requires
            old(self).wf(),
        ensures
            final(self).wf(),
            final(self).intensity() == intensity,
            final(self).running() == old(self).running(),
            respawned matches Some(n) ==> old(self).running() && n >= 1 && n
                == final(self).workers(),
            respawned is None ==> final(self).workers() == old(self).workers(),
    ;

    /// The unit's current report: the dial position, the rate or quantity
    /// of its kind, and a one-line summary.
    fn get_metrics(&self) -> (report: MetricsSnapshot)
        requires
            self.wf(),
        ensures
            report.intensity == self.intensity(),
    ;
}

} // verus!
