//! The registry: one configuration per kind of workload, at most one live
//! unit per kind, and the activity log that records every transition.

use crate::attacks::{Attack, AttackType, MetricsSnapshot};
use crate::communication::{CommunicationManager, Protocol, DEFAULT_PORT};
use crate::cpu_spike::{bucket, cpu_summary, worker_count, CPUSpikeAttack};
use crate::ddos::{
    bandwidth, bandwidth_summary, target_rate, DDoSAttack, RESTART_THRESHOLD_TENTHS,
};
use crate::intensity::{clamp_tenths, Intensity, DEFAULT_TENTHS};
use crate::logger::{appended, LogRecord, Logger};
use crate::memory_leak::{
    retained_summary, system_ceiling, MemoryLeakAttack, MemoryStep, MemoryTick,
};
use crate::text::{append_fixed1, fixed1};
use vstd::prelude::*;
use vstd::string::*;

verus! {

/// The record that is published when a workload starts: the dial position
/// under the resource that the workload loads, and zero under the others.
#[derive(Clone, Copy, Debug, PartialEq, Eq, Structural)]
pub struct AttackMetrics {
    pub cpu_usage: Intensity,
    pub memory_usage: Intensity,
    pub network_traffic: Intensity,
}

/// The stored configuration of one kind of workload.
#[derive(Clone, Copy, Debug, PartialEq, Eq, Structural)]
pub struct AttackConfig {
    /// Whether the workload is switched on.
    pub enabled: bool,
    /// The dial position the workload runs at, or will run at.
    pub intensity: Intensity,
}

/// What a toggle did, and what it leaves to the caller.
#[derive(Clone, Copy, Debug, PartialEq, Eq, Structural)]
pub enum Toggled {
    /// The workload was switched on.
    Started {
        /// Workers to launch.
        workers: usize,
        /// The record to publish.
        metrics: AttackMetrics,
        /// The time of the log entry that was written.
        at: i64,
    },
    /// The workload was switched off.
    Stopped {
        /// Workers to wait for.
        workers: usize,
        /// The time of the log entry that was written.
        at: i64,
    },
}

/// What a move of the dial did, and what it leaves to the caller.
#[derive(Clone, Copy, Debug, PartialEq, Eq, Structural)]
pub enum Retuned {
    /// The workload is switched off: only its configuration changed.
    Stored,
    /// The live unit took the new position.
    Applied {
        /// `Some(n)` when the unit restarted: every earlier worker is to be
        /// joined and `n` new ones launched.
        respawned: Option<usize>,
        /// The time of the log entry that was written.
        at: i64,
    },
}

/// What a tick of the memory worker did through the registry.
#[derive(Clone, Copy, Debug, PartialEq, Eq, Structural)]
pub struct MemoryOutcome {
    /// The unit's own outcome; idle when no memory unit is registered.
    pub tick: MemoryTick,
    /// The time of the log entry, if the tick paused and was logged.
    pub logged_at: Option<i64>,
}

/// The log message for a workload that was switched on.
pub open spec fn started_message(kind: AttackType, intensity: Intensity) -> Seq<char> {
    "Started "@ + kind.label() + " attack with intensity "@ + fixed1(intensity@ as nat) + "%"@
}

/// The log message for a workload that was switched off.
pub open spec fn stopped_message(kind: AttackType) -> Seq<char> {
    "Stopped "@ + kind.label() + " attack"@
}

/// The log message for a live workload whose dial was moved.
pub open spec fn updated_message(kind: AttackType, intensity: Intensity) -> Seq<char> {
    "Updated "@ + kind.label() + " attack intensity to "@ + fixed1(intensity@ as nat) + "%"@
}

/// The log message for a memory tick that retained nothing.
pub open spec fn paused_message() -> Seq<char> {
    "Memory allocation paused: reached safety threshold"@
}

/// The tenths of the dial that the start of a workload publishes under each
/// resource: cpu, memory, network.
pub open spec fn published_tenths(kind: AttackType, intensity: Intensity) -> (int, int, int) {
    match kind {
        AttackType::CPUSpike => (intensity@, 0, 0),
        AttackType::MemoryLeak => (0, intensity@, 0),
        AttackType::DDoS => (0, 0, intensity@),
    }
}

/// The record that the start of a workload publishes.
pub fn metrics_for(kind: AttackType, intensity: Intensity) -> (metrics: AttackMetrics)
    ensures
        (metrics.cpu_usage@, metrics.memory_usage@, metrics.network_traffic@) == published_tenths(
            kind,
            intensity,
        ),
{
    let zero = Intensity::from_tenths(0);
    match kind {
        AttackType::CPUSpike => AttackMetrics {
            cpu_usage: intensity,
            memory_usage: zero,
            network_traffic: zero,
        },
        AttackType::MemoryLeak => AttackMetrics {
            cpu_usage: zero,
            memory_usage: intensity,
            network_traffic: zero,
        },
        AttackType::DDoS => AttackMetrics {
            cpu_usage: zero,
            memory_usage: zero,
            network_traffic: intensity,
        },
    }
}

fn started_text(kind: AttackType, intensity: Intensity) -> (text: String)
    ensures
        text@ == started_message(kind, intensity),
{
    let mut text = String::from_str("Started ");
    text.append(kind.name());
    text.append(" attack with intensity ");
    append_fixed1(&mut text, intensity.tenths() as u64);
    text.append("%");
    text
}

fn stopped_text(kind: AttackType) -> (text: String)
    ensures
        text@ == stopped_message(kind),
{
    let mut text = String::from_str("Stopped ");
    text.append(kind.name());
    text.append(" attack");
    text
}

fn updated_text(kind: AttackType, intensity: Intensity) -> (text: String)
    ensures
        text@ == updated_message(kind, intensity),
{
    let mut text = String::from_str("Updated ");
    text.append(kind.name());
    text.append(" attack intensity to ");
    append_fixed1(&mut text, intensity.tenths() as u64);
    text.append("%");
    text
}

/// The registry of workloads.
#[derive(Debug)]
pub struct AppState {
    ddos_config: AttackConfig,
    cpu_config: AttackConfig,
    memory_config: AttackConfig,
    ddos: Option<DDoSAttack>,
    cpu_spike: Option<CPUSpikeAttack>,
    memory_leak: Option<MemoryLeakAttack>,
    logger: Logger,
    comm_manager: CommunicationManager,
}

impl AppState {
    /// The stored configuration of `kind`.
    pub closed spec fn spec_config(&self, kind: AttackType) -> AttackConfig {
        match kind {
            AttackType::DDoS => self.ddos_config,
            AttackType::CPUSpike => self.cpu_config,
            AttackType::MemoryLeak => self.memory_config,
        }
    }

    /// The live flood unit, if one is registered.
    pub closed spec fn ddos_unit(&self) -> Option<DDoSAttack> {
        self.ddos
    }

    /// The live CPU unit, if one is registered.
    pub closed spec fn cpu_unit(&self) -> Option<CPUSpikeAttack> {
        self.cpu_spike
    }

    /// The live memory unit, if one is registered.
    pub closed spec fn memory_unit(&self) -> Option<MemoryLeakAttack> {
        self.memory_leak
    }

    /// The activity log, oldest entry first.
    pub closed spec fn entries(&self) -> Seq<LogRecord> {
        self.logger@
    }

    /// The publisher's settings.
    pub closed spec fn publisher(&self) -> CommunicationManager {
        self.comm_manager
    }

    /// Whether a live unit of `kind` is registered.
    pub open spec fn registered(&self, kind: AttackType) -> bool {
        match kind {
            AttackType::DDoS => self.ddos_unit() is Some,
            AttackType::CPUSpike => self.cpu_unit() is Some,
            AttackType::MemoryLeak => self.memory_unit() is Some,
        }
    }

    /// The workers that the unit of `kind` accounts for; none when no unit
    /// is registered.
    pub open spec fn live_workers(&self, kind: AttackType) -> nat {
        match kind {
            AttackType::DDoS => match self.ddos_unit() {
                Some(unit) => unit.workers(),
                None => 0,
            },
            AttackType::CPUSpike => match self.cpu_unit() {
                Some(unit) => unit.workers(),
                None => 0,
            },
            AttackType::MemoryLeak => match self.memory_unit() {
                Some(unit) => unit.workers(),
                None => 0,
            },
        }
    }

    /// Whether the unit of `kind`, if there is one, is sound, running, and
    /// set to `intensity`.
    pub open spec fn unit_follows(&self, kind: AttackType, intensity: Intensity) -> bool {
        match kind {
            AttackType::DDoS => self.ddos_unit() matches Some(unit) ==> unit.wf() && unit.running()
                && unit.intensity() == intensity,
            AttackType::CPUSpike => self.cpu_unit() matches Some(unit) ==> unit.wf()
                && unit.running() && unit.intensity() == intensity,
            AttackType::MemoryLeak => self.memory_unit() matches Some(unit) ==> unit.wf()
                && unit.running() && unit.intensity() == intensity,
        }
    }

    /// The registry's invariant for one kind: the kind is enabled exactly
    /// when a live unit is registered for it, and that unit is running at
    /// the configured dial position.
    pub open spec fn slot_wf(&self, kind: AttackType) -> bool {
        &&& self.spec_config(kind).enabled <==> self.registered(kind)
        &&& self.unit_follows(kind, self.spec_config(kind).intensity)
    }

    /// The registry's invariant: [`Self::slot_wf`] for every kind.
    pub open spec fn wf(&self) -> bool {
        &&& self.slot_wf(AttackType::DDoS)
        &&& self.slot_wf(AttackType::CPUSpike)
        &&& self.slot_wf(AttackType::MemoryLeak)
    }

    /// Whether everything but the slot of `kind` and the log is as in `pre`.
    pub open spec fn rest_as_in(&self, pre: &AppState, kind: AttackType) -> bool {
        &&& kind != AttackType::DDoS ==> self.spec_config(AttackType::DDoS) == pre.spec_config(
            AttackType::DDoS,
        ) && self.ddos_unit() == pre.ddos_unit()
        &&& kind != AttackType::CPUSpike ==> self.spec_config(AttackType::CPUSpike)
            == pre.spec_config(AttackType::CPUSpike) && self.cpu_unit() == pre.cpu_unit()
        &&& kind != AttackType::MemoryLeak ==> self.spec_config(AttackType::MemoryLeak)
            == pre.spec_config(AttackType::MemoryLeak) && self.memory_unit() == pre.memory_unit()
        &&& self.publisher() == pre.publisher()
    }

    /// Whether the unit of `kind` is one that has just been started at
    /// `intensity` with `workers` workers: the flood has published its
    /// target rate and asks for one worker, the burner asks for the workers
    /// that some number of cores gives, and the grower asks for one worker
    /// and retains nothing.
    pub open spec fn freshly_started(
        &self,
        kind: AttackType,
        intensity: Intensity,
        workers: nat,
    ) -> bool {
        &&& self.registered(kind)
        &&& self.unit_follows(kind, intensity)
        &&& self.live_workers(kind) == workers
        &&& match kind {
            AttackType::DDoS => workers == 1 && self.ddos_unit().unwrap().metrics() == (
                target_rate(intensity),
                bandwidth(target_rate(intensity)),
            ),
            AttackType::CPUSpike => exists|cores: usize|
                cores >= 1 && workers == #[trigger] worker_count(cores as nat, intensity),
            AttackType::MemoryLeak => workers == 1 && self.memory_unit().unwrap().chunks()
                == Seq::<Seq<u8>>::empty(),
        }
    }

    /// How a toggle of `kind` takes the registry from `pre` to `self` with
    /// the outcome `outcome`.
    pub open spec fn toggled_from(&self, pre: &AppState, kind: AttackType, outcome: Toggled) -> bool {
        let before = pre.spec_config(kind);
        &&& self.spec_config(kind) == AttackConfig {
            enabled: !before.enabled,
            intensity: before.intensity,
        }
        &&& self.rest_as_in(pre, kind)
        &&& match outcome {
            Toggled::Started { workers, metrics, at } => {
                &&& !before.enabled
                &&& workers >= 1
                &&& self.freshly_started(kind, before.intensity, workers as nat)
                &&& (metrics.cpu_usage@, metrics.memory_usage@, metrics.network_traffic@)
                    == published_tenths(kind, before.intensity)
                &&& self.entries() == appended(
                    pre.entries(),
                    LogRecord { timestamp: at, message: started_message(kind, before.intensity) },
                )
            },
            Toggled::Stopped { workers, at } => {
                &&& before.enabled
                &&& !self.registered(kind)
                &&& workers == pre.live_workers(kind)
                &&& self.entries() == appended(
                    pre.entries(),
                    LogRecord { timestamp: at, message: stopped_message(kind) },
                )
            },
        }
    }

    /// What a read of the metrics of `kind` reports, as dial position in
    /// tenths, rate or quantity, and summary. For a live flood these are its
    /// dial, its target rate in packets per second and the bandwidth of that
    /// rate; for a live burner its dial, its CPU share in tenths of a
    /// percent and that share as text; for a live grower its dial, its
    /// retained bytes and those bytes as text. With no unit registered they
    /// are zero, zero and an empty summary.
    pub open spec fn snapshot(&self, kind: AttackType) -> (int, int, Seq<char>) {
        match kind {
            AttackType::DDoS => match self.ddos_unit() {
                Some(unit) => (
                    unit.intensity()@,
                    target_rate(unit.intensity()),
                    bandwidth_summary(bandwidth(target_rate(unit.intensity())) as nat),
                ),
                None => (0, 0, Seq::empty()),
            },
            AttackType::CPUSpike => match self.cpu_unit() {
                Some(unit) => (unit.intensity()@, unit.intensity()@, cpu_summary(unit.intensity())),
                None => (0, 0, Seq::empty()),
            },
            AttackType::MemoryLeak => match self.memory_unit() {
                Some(unit) => (
                    unit.intensity()@,
                    unit.retained_bytes() as int,
                    retained_summary(unit.retained_bytes()),
                ),
                None => (0, 0, Seq::empty()),
            },
        }
    }

    /// The stored configuration of `kind`.
    #[verifier::when_used_as_spec(spec_config)]
    pub fn config(&self, kind: AttackType) -> (config: AttackConfig)
        ensures
            config == self.spec_config(kind),
    {
        match kind {
            AttackType::DDoS => self.ddos_config,
            AttackType::CPUSpike => self.cpu_config,
            AttackType::MemoryLeak => self.memory_config,
        }
    }

    /// Whether a live unit of `kind` is registered.
    pub fn is_registered(&self, kind: AttackType) -> (r: bool)
        ensures
            r == self.registered(kind),
    {
        match kind {
            AttackType::DDoS => self.ddos.is_some(),
            AttackType::CPUSpike => self.cpu_spike.is_some(),
            AttackType::MemoryLeak => self.memory_leak.is_some(),
        }
    }

    /// The live flood unit, if one is registered.
    pub fn ddos(&self) -> (unit: Option<&DDoSAttack>)
        ensures
            unit is Some == self.ddos_unit() is Some,
            unit matches Some(u) ==> *u == self.ddos_unit().unwrap(),
    {
        self.ddos.as_ref()
    }

    /// The live CPU unit, if one is registered.
    pub fn cpu_spike(&self) -> (unit: Option<&CPUSpikeAttack>)
        ensures
            unit is Some == self.cpu_unit() is Some,
            unit matches Some(u) ==> *u == self.cpu_unit().unwrap(),
    {
        self.cpu_spike.as_ref()
    }

    /// The live memory unit, if one is registered.
    pub fn memory_leak(&self) -> (unit: Option<&MemoryLeakAttack>)
        ensures
            unit is Some == self.memory_unit() is Some,
            unit matches Some(u) ==> *u == self.memory_unit().unwrap(),
    {
        self.memory_leak.as_ref()
    }

    /// The activity log.
    pub fn logger(&self) -> (logger: &Logger)
        ensures
            logger@ == self.entries(),
    {
        &self.logger
    }

    /// The publisher's settings.
    pub fn comm_manager(&self) -> (manager: &CommunicationManager)
        ensures
            *manager == self.publisher(),
    {
        &self.comm_manager
    }

    /// Whether every slot is as in `pre`: the same configurations and the
    /// same units.
    pub open spec fn slots_as_in(&self, pre: &AppState) -> bool {
        &&& forall|kind: AttackType| self.spec_config(kind) == pre.spec_config(kind)
        &&& self.ddos_unit() == pre.ddos_unit()
        &&& self.cpu_unit() == pre.cpu_unit()
        &&& self.memory_unit() == pre.memory_unit()
    }

    /// The publisher's settings, to change them. Nothing else in the
    /// registry depends on them.
    pub fn comm_manager_mut(&mut self) -> (manager: &mut CommunicationManager)
        ensures
            *manager == old(self).publisher(),
            final(self).publisher() == *final(manager),
            final(self).slots_as_in(old(self)),
            final(self).entries() == old(self).entries(),
            old(self).wf() ==> final(self).wf(),
    {
        &mut self.comm_manager
    }

    /// Appends an entry of the caller's own to the activity log, with the
    /// time of the wall clock, and returns that time.
    pub fn log(&mut self, message: String) -> (at: i64)
        ensures
            final(self).entries() == appended(
                old(self).entries(),
                LogRecord { timestamp: at, message: message@ },
            ),
            final(self).slots_as_in(old(self)),
            final(self).publisher() == old(self).publisher(),
            old(self).wf() ==> final(self).wf(),
    {
        self.logger.log(message)
    }

    fn store(&mut self, kind: AttackType, config: AttackConfig)
        ensures
            final(self).ddos_config == if kind == AttackType::DDoS {
                config
            } else {
                old(self).ddos_config
            },
            final(self).cpu_config == if kind == AttackType::CPUSpike {
                config
            } else {
                old(self).cpu_config
            },
            final(self).memory_config == if kind == AttackType::MemoryLeak {
                config
            } else {
                old(self).memory_config
            },
            final(self).ddos == old(self).ddos,
            final(self).cpu_spike == old(self).cpu_spike,
            final(self).memory_leak == old(self).memory_leak,
            final(self).logger == old(self).logger,
            final(self).comm_manager == old(self).comm_manager,
    {
        match kind {
            AttackType::DDoS => {
                self.ddos_config = config;
            },
            AttackType::CPUSpike => {
                self.cpu_config = config;
            },
            AttackType::MemoryLeak => {
                self.memory_config = config;
            },
        }
    }

    /// Switches `kind` on if it is off, and off if it is on.
    ///
    /// Switching on makes a unit at the configured dial position, starts
    /// it, registers it and logs the start; the caller launches the workers
    /// and publishes the record that the outcome names. Switching off takes
    /// the unit out of the registry, stops it, which releases what it
    /// holds, and logs the stop; the caller waits for the workers. No other
    /// kind is touched.
    pub fn toggle_attack(&mut self, attack_type: AttackType) -> (outcome: Toggled)
        requires
            old(self).wf(),
        ensures
            final(self).wf(),
            final(self).toggled_from(old(self), attack_type, outcome),
    {
        let before = self.config(attack_type);
        let intensity = before.intensity;
        if !before.enabled {
            let workers = match attack_type {
                AttackType::DDoS => {
                    let mut unit = DDoSAttack::new(intensity);
                    let spawned = unit.start();
                    self.ddos = Some(unit);
                    spawned
                },
                AttackType::CPUSpike => {
                    let mut unit = CPUSpikeAttack::new(intensity);
                    let spawned = unit.start();
                    self.cpu_spike = Some(unit);
                    spawned
                },
                AttackType::MemoryLeak => {
                    let mut unit = MemoryLeakAttack::new(intensity);
                    let spawned = unit.start();
                    self.memory_leak = Some(unit);
                    spawned
                },
            };
            self.store(attack_type, AttackConfig { enabled: true, intensity });
            let at = self.logger.log(started_text(attack_type, intensity));
            Toggled::Started { workers, metrics: metrics_for(attack_type, intensity), at }
        } else {
            let workers = match attack_type {
                AttackType::DDoS => match self.ddos.take() {
                    Some(mut unit) => unit.stop(),
                    None => 0,
                },
                AttackType::CPUSpike => match self.cpu_spike.take() {
                    Some(mut unit) => unit.stop(),
                    None => 0,
                },
                AttackType::MemoryLeak => match self.memory_leak.take() {
                    Some(mut unit) => unit.stop(),
                    None => 0,
                },
            };
            self.store(attack_type, AttackConfig { enabled: false, intensity });
            let at = self.logger.log(stopped_text(attack_type));
            Toggled::Stopped { workers, at }
        }
    }
}

impl AppState {
    /// Whether a running unit of `kind` restarts when its dial moves from
    /// `from` to `to`: the flood when the move exceeds ten percentage
    /// points, the burner when the move leaves the bucket, the grower never.
    pub open spec fn restart_due(kind: AttackType, from: Intensity, to: Intensity) -> bool {
        match kind {
            AttackType::DDoS => to@ - from@ > RESTART_THRESHOLD_TENTHS || from@ - to@
                > RESTART_THRESHOLD_TENTHS,
            AttackType::CPUSpike => bucket(to) != bucket(from),
            AttackType::MemoryLeak => false,
        }
    }

    /// Whether the live unit of `kind` is the unit of `pre` after its dial
    /// was moved to `intensity` with the result `respawned`.
    pub open spec fn unit_retuned(
        &self,
        pre: &AppState,
        kind: AttackType,
        intensity: Intensity,
        respawned: Option<usize>,
    ) -> bool {
        &&& self.registered(kind)
        &&& self.unit_follows(kind, intensity)
        &&& respawned is Some <==> Self::restart_due(kind, pre.spec_config(kind).intensity, intensity)
        &&& respawned matches Some(n) ==> n >= 1 && n == self.live_workers(kind)
        &&& respawned is None ==> self.live_workers(kind) == pre.live_workers(kind)
        &&& match kind {
            AttackType::DDoS => {
                &&& respawned matches Some(n) ==> n == 1
                &&& self.ddos_unit().unwrap().metrics() == (
                    target_rate(intensity),
                    bandwidth(target_rate(intensity)),
                )
            },
            AttackType::CPUSpike => respawned matches Some(n) ==> exists|cores: usize|
                cores >= 1 && n as nat == #[trigger] worker_count(cores as nat, intensity),
            AttackType::MemoryLeak => self.memory_unit().unwrap().chunks()
                == pre.memory_unit().unwrap().chunks(),
        }
    }

    /// How a move of the dial of `kind` to `tenths` takes the registry from
    /// `pre` to `self` with the outcome `outcome`.
    pub open spec fn retuned_from(
        &self,
        pre: &AppState,
        kind: AttackType,
        tenths: i64,
        outcome: Retuned,
    ) -> bool {
        let before = pre.spec_config(kind);
        let after = self.spec_config(kind);
        &&& after.enabled == before.enabled
        &&& after.intensity@ == clamp_tenths(tenths as int)
        &&& self.rest_as_in(pre, kind)
        &&& match outcome {
            Retuned::Stored => {
                &&& !before.enabled
                &&& !self.registered(kind)
                &&& self.entries() == pre.entries()
            },
            Retuned::Applied { respawned, at } => {
                &&& before.enabled
                &&& self.unit_retuned(pre, kind, after.intensity, respawned)
                &&& self.entries() == appended(
                    pre.entries(),
                    LogRecord { timestamp: at, message: updated_message(kind, after.intensity) },
                )
            },
        }
    }

    /// How a tick of the memory worker under `ceiling` takes the registry
    /// from `pre` to `self` with the outcome `outcome`.
    pub open spec fn memory_ticked_from(
        &self,
        pre: &AppState,
        ceiling: Option<u64>,
        outcome: MemoryOutcome,
    ) -> bool {
        &&& self.spec_config(AttackType::MemoryLeak) == pre.spec_config(AttackType::MemoryLeak)
        &&& self.rest_as_in(pre, AttackType::MemoryLeak)
        &&& match pre.memory_unit() {
            None => {
                &&& self.memory_unit() is None
                &&& outcome.tick == (MemoryTick { step: MemoryStep::Idle, sleep_ms: 0 })
            },
            Some(unit) => {
                &&& self.memory_unit() is Some
                &&& self.memory_unit().unwrap().wf()
                &&& self.memory_unit().unwrap().ticked_from(&unit, ceiling, outcome.tick)
            },
        }
        &&& match outcome.logged_at {
            Some(at) => {
                &&& outcome.tick.step == MemoryStep::Paused
                &&& self.entries() == appended(
                    pre.entries(),
                    LogRecord { timestamp: at, message: paused_message() },
                )
            },
            None => {
                &&& outcome.tick.step != MemoryStep::Paused
                &&& self.entries() == pre.entries()
            },
        }
    }

    /// Moves the dial of `kind` to `tenths` tenths of a percent, or to the
    /// nearest end of the dial when `tenths` lies outside it.
    ///
    /// The stored configuration always takes the new position. When the
    /// kind is switched on, its live unit takes it too, which may restart
    /// the unit, and the change is logged; when it is switched off, nothing
    /// else happens.
    pub fn update_attack_intensity(&mut self, attack_type: AttackType, tenths: i64) -> (outcome:
        Retuned)
        requires
            old(self).wf(),
        ensures
            final(self).wf(),
            final(self).retuned_from(old(self), attack_type, tenths, outcome),
    {
        let before = self.config(attack_type);
        let intensity = Intensity::from_tenths(tenths);
        self.store(attack_type, AttackConfig { enabled: before.enabled, intensity });
        if !before.enabled {
            return Retuned::Stored;
        }
        let respawned = match attack_type {
            AttackType::DDoS => match self.ddos.take() {
                Some(mut unit) => {
                    let respawned = unit.update_intensity(intensity);
                    self.ddos = Some(unit);
                    respawned
                },
                None => None,
            },
            AttackType::CPUSpike => match self.cpu_spike.take() {
                Some(mut unit) => {
                    let respawned = unit.update_intensity(intensity);
                    self.cpu_spike = Some(unit);
                    respawned
                },
                None => None,
            },
            AttackType::MemoryLeak => match self.memory_leak.take() {
                Some(mut unit) => {
                    let respawned = unit.update_intensity(intensity);
                    self.memory_leak = Some(unit);
                    respawned
                },
                None => None,
            },
        };
        let at = self.logger.log(updated_text(attack_type, intensity));
        Retuned::Applied { respawned, at }
    }

    /// The current report of `kind`: the live unit's, or zero and an empty
    /// summary when the kind is switched off.
    pub fn read_metrics(&self, attack_type: AttackType) -> (report: MetricsSnapshot)
        requires
            self.wf(),
        ensures
            (report.intensity@, report.quantity as int, report.summary@) == self.snapshot(
                attack_type,
            ),
    {
        let live = match attack_type {
            AttackType::DDoS => match &self.ddos {
                Some(unit) => Some(unit.get_metrics()),
                None => None,
            },
            AttackType::CPUSpike => match &self.cpu_spike {
                Some(unit) => Some(unit.get_metrics()),
                None => None,
            },
            AttackType::MemoryLeak => match &self.memory_leak {
                Some(unit) => Some(unit.get_metrics()),
                None => None,
            },
        };
        match live {
            Some(report) => report,
            None => MetricsSnapshot {
                intensity: Intensity::from_tenths(0),
                quantity: 0,
                summary: String::new(),
            },
        }
    }

    /// One tick of the memory worker under a given safety ceiling; `None`
    /// stands for a ceiling that could not be found out. The live memory
    /// unit ticks under that ceiling, and a tick that paused is logged. With
    /// no memory unit registered the tick is idle and changes nothing.
    pub fn tick_memory_with_ceiling(&mut self, ceiling: Option<u64>) -> (outcome: MemoryOutcome)
        requires
            old(self).wf(),
        ensures
            final(self).wf(),
            final(self).memory_ticked_from(old(self), ceiling, outcome),
    {
        let tick = match self.memory_leak.take() {
            Some(mut unit) => {
                let tick = unit.tick_with_ceiling(ceiling);
                self.memory_leak = Some(unit);
                tick
            },
            None => MemoryTick { step: MemoryStep::Idle, sleep_ms: 0 },
        };
        let logged_at = match tick.step {
            MemoryStep::Paused => Some(
                self.logger.log(
                    String::from_str("Memory allocation paused: reached safety threshold"),
                ),
            ),
            _ => None,
        };
        MemoryOutcome { tick, logged_at }
    }

    /// One tick of the memory worker under the safety ceiling of this
    /// machine: [`Self::tick_memory_with_ceiling`] under whatever ceiling
    /// the machine reported.
    pub fn tick_memory(&mut self) -> (outcome: MemoryOutcome)
        requires
            old(self).wf(),
        ensures
            final(self).wf(),
            exists|ceiling: Option<u64>| final(self).memory_ticked_from(old(self), ceiling, outcome),
    {
        let ceiling = system_ceiling();
        let outcome = self.tick_memory_with_ceiling(ceiling);
        assert(self.memory_ticked_from(old(self), ceiling, outcome));
        outcome
    }
}

/// At every point between two operations, a kind is enabled exactly when a
/// live unit is registered for it.
pub proof fn lemma_enabled_iff_registered(state: AppState, kind: AttackType)
    requires
        state.wf(),
    ensures
        state.spec_config(kind).enabled <==> state.registered(kind),
        !state.spec_config(kind).enabled ==> state.live_workers(kind) == 0,
{
}

/// One step of the registry: a toggle, a move of a dial, a tick of the
/// memory worker, or a change that leaves every slot as it is (a log entry
/// of the caller's, a change of the publisher's settings).
pub open spec fn step(pre: &AppState, post: &AppState) -> bool {
    ||| exists|kind: AttackType, outcome: Toggled| #[trigger] post.toggled_from(pre, kind, outcome)
    ||| exists|kind: AttackType, tenths: i64, outcome: Retuned| #[trigger]
        post.retuned_from(pre, kind, tenths, outcome)
    ||| exists|ceiling: Option<u64>, outcome: MemoryOutcome| #[trigger]
        post.memory_ticked_from(pre, ceiling, outcome)
    ||| post.slots_as_in(pre)
}

/// Every step keeps the registry's invariant: whatever the order of
/// operations, a kind is enabled exactly when a live unit is registered
/// for it.
pub proof fn lemma_step_keeps_invariant(pre: AppState, post: AppState)
    requires
        pre.wf(),
        step(&pre, &post),
    ensures
        post.wf(),
        forall|kind: AttackType| #[trigger]
            post.spec_config(kind).enabled <==> post.registered(kind),
{
    assert forall|kind: AttackType| #[trigger]
        post.spec_config(kind).enabled <==> post.registered(kind) by {
        assert(post.slot_wf(kind));
    }
}

/// A move of the dial stores a position inside the dial: the requested one
/// if it lies inside, and the nearest end if it does not.
pub proof fn lemma_retune_clamps(
    pre: AppState,
    post: AppState,
    kind: AttackType,
    tenths: i64,
    outcome: Retuned,
)
    requires
        post.retuned_from(&pre, kind, tenths, outcome),
    ensures
        0 <= post.spec_config(kind).intensity@ <= 1000,
        0 <= tenths <= 1000 ==> post.spec_config(kind).intensity@ == tenths,
        tenths < 0 ==> post.spec_config(kind).intensity@ == 0,
        tenths > 1000 ==> post.spec_config(kind).intensity@ == 1000,
{
}

/// Two toggles of one kind in a row bring its configuration back to where
/// it was, registered exactly when it was registered before, and leave no
/// worker behind if the kind ends switched off. Every other kind stays as
/// it was throughout.
pub proof fn lemma_toggle_twice(
    start: AppState,
    middle: AppState,
    end: AppState,
    kind: AttackType,
    first: Toggled,
    second: Toggled,
)
    requires
        start.wf(),
        middle.toggled_from(&start, kind, first),
        end.toggled_from(&middle, kind, second),
    ensures
        end.spec_config(kind) == start.spec_config(kind),
        end.registered(kind) == start.registered(kind),
        !end.spec_config(kind).enabled ==> end.live_workers(kind) == 0,
        end.rest_as_in(&start, kind),
        first is Started <==> second is Stopped,
{
}

impl Default for AppState {
    /// A registry in which every kind is switched off at 50%, no unit is
    /// registered, the log is empty and the publisher has its defaults.
    fn default() -> (state: AppState)
        ensures
            state.wf(),
            forall|kind: AttackType| #[trigger]
                state.spec_config(kind).enabled == false && state.spec_config(kind).intensity@
                    == DEFAULT_TENTHS,
            forall|kind: AttackType| !#[trigger] state.registered(kind),
            state.entries() == Seq::<LogRecord>::empty(),
            state.publisher().protocol == Protocol::TCP,
            state.publisher().port == DEFAULT_PORT,
            !state.publisher().running,
    {
        let off = AttackConfig { enabled: false, intensity: Intensity::default() };
        AppState {
            ddos_config: off,
            cpu_config: off,
            memory_config: off,
            ddos: None,
            cpu_spike: None,
            memory_leak: None,
            logger: Logger::new(),
            comm_manager: CommunicationManager::new(),
        }
    }
}

} // verus!
