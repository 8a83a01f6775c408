//! The CPU burner: a unit that sizes a set of workers from the cores of the
//! machine and the dial, each of which alternates a fixed computation with
//! a sleep that shrinks as the dial rises.

use crate::attacks::{Attack, MetricsSnapshot};
use crate::intensity::Intensity;
use crate::text::{append_fixed1, fixed1};
use vstd::prelude::*;
use vstd::string::*;

verus! {

/// Width of a restart bucket in tenths of a percent (20 percentage points).
/// A running burner restarts when the dial moves into another bucket. The
/// width is a tuning choice: a narrower bucket follows the dial more
/// closely at the price of more restarts.
pub const BUCKET_TENTHS: u16 = 200;

/// Length of one duty cycle in milliseconds.
pub const CYCLE_MS: u64 = 10_000;

/// Steps of the computation that a worker runs between two sleeps.
pub const BURN_STEPS: u32 = 10_000;

/// Workers for `cores` cores at a dial position: the share of the cores
/// that the dial names, rounded to the nearest whole (a half upwards), and
/// never fewer than one.
pub open spec fn worker_count(cores: nat, intensity: Intensity) -> nat {
    let share = (cores * intensity@ + 500) / 1000;
    if share < 1 {
        1
    } else {
        share as nat
    }
}

/// Milliseconds that a worker sleeps in each duty cycle at a dial position:
/// the part of [`CYCLE_MS`] that the dial leaves idle.
pub open spec fn duty_sleep_ms(intensity: Intensity) -> int {
    10 * (1000 - intensity@)
}

/// The restart bucket of a dial position.
pub open spec fn bucket(intensity: Intensity) -> int {
    intensity@ / (BUCKET_TENTHS as int)
}

/// The one-line summary of a burner at a dial position, as in `30.0% CPU`.
pub open spec fn cpu_summary(intensity: Intensity) -> Seq<char> {
    fixed1(intensity@ as nat) + "% CPU"@
}

/// Workers for `cores` cores at a dial position.
pub fn workers_for(cores: usize, intensity: Intensity) -> (n: usize)
    ensures
        n as nat == worker_count(cores as nat, intensity),
        n >= 1,
        cores >= 1 ==> n <= cores,
{
    let tenths = intensity.tenths() as u128;
    assert(cores as u128 * tenths <= cores as u128 * 1000) by (nonlinear_arith)
        requires
            tenths <= 1000,
    ;
    let share = (cores as u128 * tenths + 500) / 1000;
    if share < 1 {
        1
    } else {
        share as usize
    }
}

/// Milliseconds that a worker launched at a dial position sleeps after each
/// computation. At 100% it does not sleep at all.
pub fn sleep_ms_for(intensity: Intensity) -> (ms: u64)
    ensures
        ms as int == duty_sleep_ms(intensity),
        ms <= CYCLE_MS,
{
    10 * (1000 - intensity.tenths() as u64)
}

/// The CPU unit as the registry sees it.
#[derive(Debug)]
pub struct CPUSpikeAttack {
    intensity: Intensity,
    running: bool,
    threads: usize,
}

impl CPUSpikeAttack {
    /// An idle unit at `intensity`.
    pub fn new(intensity: Intensity) -> (unit: CPUSpikeAttack)
        ensures
            unit.wf(),
            !unit.running(),
            unit.workers() == 0,
            unit.intensity() == intensity,
    {
        CPUSpikeAttack { intensity, running: false, threads: 0 }
    }

    /// Whether the unit is running.
    pub fn is_running(&self) -> (r: bool)
        ensures
            r == self.running(),
    {
        self.running
    }

    /// The number of workers the unit accounts for.
    pub fn thread_count(&self) -> (n: usize)
        ensures
            n as nat == self.workers(),
    {
        self.threads
    }

    /// Brings an idle unit to running on a machine with `cores` cores and
    /// returns the number of workers to launch, [`worker_count`]. A unit that
    /// is already running is left as it is.
    pub fn start_with_cores(&mut self, cores: usize) -> (spawned: usize)
        requires
            old(self).wf(),
        ensures
            final(self).wf(),
            final(self).running(),
            final(self).intensity() == old(self).intensity(),
            old(self).running() ==> spawned == 0 && *final(self) == *old(self),
            !old(self).running() ==> spawned == final(self).workers() && spawned as nat
                == worker_count(cores as nat, old(self).intensity()),
    {
        if self.running {
            return 0;
        }
        let spawned = workers_for(cores, self.intensity);
        self.running = true;
        self.threads = spawned;
        spawned
    }

    /// Moves the dial on a machine with `cores` cores. A running unit
    /// restarts exactly when the new position lies in another bucket than
    /// the old one; the restart sizes the workers by the new position.
    pub fn update_intensity_with_cores(&mut self, intensity: Intensity, cores: usize) -> (respawned:
        Option<usize>)
        requires
            old(self).wf(),
        ensures
            final(self).wf(),
            final(self).intensity() == intensity,
            final(self).running() == old(self).running(),
            respawned is Some <==> old(self).running() && bucket(intensity) != bucket(
                old(self).intensity(),
            ),
            respawned matches Some(n) ==> n == final(self).workers() && n as nat == worker_count(
                cores as nat,
                intensity,
            ),
            respawned is None ==> final(self).workers() == old(self).workers(),
    {
        let restart_needed = intensity.tenths() / BUCKET_TENTHS != self.intensity.tenths()
            / BUCKET_TENTHS;
        self.intensity = intensity;
        if restart_needed && self.running {
            self.stop();
            let spawned = self.start_with_cores(cores);
            Some(spawned)
        } else {
            None
        }
    }
}

impl Attack for CPUSpikeAttack {
    closed spec fn wf(&self) -> bool {
        &&& self.running ==> self.threads >= 1
        &&& !self.running ==> self.threads == 0
    }

    closed spec fn running(&self) -> bool {
        self.running
    }

    closed spec fn intensity(&self) -> Intensity {
        self.intensity
    }

    closed spec fn workers(&self) -> nat {
        self.threads as nat
    }

    proof fn lemma_workers_while_running(&self) {
    }

    /// Starts the unit on this machine: [`Self::start_with_cores`] with the
    /// number of cores that the machine reports at this moment.
    fn start(&mut self) -> (spawned: usize)
        ensures
            !old(self).running() ==> exists|cores: usize|
                cores >= 1 && spawned as nat == #[trigger] worker_count(
                    cores as nat,
                    old(self).intensity(),
                ),
    {
        let cores = num_cpus::get();
        self.start_with_cores(cores)
    }

    fn stop(&mut self) -> (joined: usize) {
        if !self.running {
            return 0;
        }
        let joined = self.threads;
        self.running = false;
        self.threads = 0;
        joined
    }

    /// Moves the dial on this machine. Where the move forces a restart, it is
    /// [`Self::update_intensity_with_cores`] with the number of cores that
    /// the machine reports at this moment; otherwise the machine is not
    /// asked.
    fn update_intensity(&mut self, intensity: Intensity) -> (respawned: Option<usize>)
        ensures
            respawned is Some <==> old(self).running() && bucket(intensity) != bucket(
                old(self).intensity(),
            ),
            respawned matches Some(n) ==> exists|cores: usize|
                cores >= 1 && n as nat == #[trigger] worker_count(cores as nat, intensity),
    {
        let moved = intensity.tenths() / BUCKET_TENTHS != self.intensity.tenths() / BUCKET_TENTHS;
        if moved && self.running {
            let cores = num_cpus::get();
            self.update_intensity_with_cores(intensity, cores)
        } else {
            self.intensity = intensity;
            None
        }
    }

    /// The dial position, the CPU share it names in tenths of a percent, and
    /// its rendering as in `30.0% CPU`.
    fn get_metrics(&self) -> (report: MetricsSnapshot)
        ensures
            report.quantity as int == self.intensity()@,
            report.summary@ == cpu_summary(self.intensity()),
    {
        let tenths = self.intensity.tenths() as u64;
        let mut summary = String::new();
        append_fixed1(&mut summary, tenths);
        summary.append("% CPU");
        MetricsSnapshot { intensity: self.intensity, quantity: tenths, summary }
    }
}

} // verus!
