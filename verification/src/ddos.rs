//! The network-flood simulator: a unit that derives a target packet rate
//! from the dial, and the worker that synthesises packets at that rate.
//! No packet leaves the machine.

use crate::attacks::{Attack, MetricsSnapshot};
use crate::intensity::Intensity;
use crate::platform::random_octet;
use crate::text::{append_decimal, append_fixed2, decimal, fixed2, mib_hundredths, to_mib_hundredths};
use vstd::prelude::*;
use vstd::string::*;

verus! {

/// Bytes that one synthetic packet stands for.
pub const PACKET_SIZE_BYTES: u64 = 1500;

/// A change of the dial by more than this many tenths of a percent restarts
/// a running flood (10 percentage points).
pub const RESTART_THRESHOLD_TENTHS: u16 = 100;

/// The most packets one tick synthesises.
pub const BATCH_CEILING: u32 = 100;

/// Milliseconds between two ticks of a worker that has packets to make.
pub const TICK_MS: u64 = 100;

/// Milliseconds between two ticks of a worker whose rate gives it nothing
/// to make.
pub const IDLE_TICK_MS: u64 = 1000;

/// Milliseconds after which the packet counter is reported and reset.
pub const REPORT_INTERVAL_MS: u64 = 1000;

/// Target rate at a dial position, in packets per second: one hundred per
/// percentage point.
pub open spec fn target_rate(intensity: Intensity) -> int {
    10 * intensity@
}

/// Bytes per second that a packet rate amounts to.
pub open spec fn bandwidth(packets_per_second: int) -> int {
    packets_per_second * PACKET_SIZE_BYTES as int
}

/// The one-line summary of a flood whose bandwidth is `bytes_per_second`:
/// binary megabytes per second with two places, as in `7.15 MB/s`.
pub open spec fn bandwidth_summary(bytes_per_second: nat) -> Seq<char> {
    fixed2(mib_hundredths(bytes_per_second)) + " MB/s"@
}

/// Packets that one tick synthesises at a rate: a tenth of the rate, at most
/// [`BATCH_CEILING`].
pub open spec fn batch_size(packets_per_second: int) -> int {
    if packets_per_second / 10 > BATCH_CEILING as int {
        BATCH_CEILING as int
    } else {
        packets_per_second / 10
    }
}

/// Four numbers written as a dotted address.
pub open spec fn dotted_quad(a: nat, b: nat, c: nat, d: nat) -> Seq<char> {
    decimal(a) + seq!['.'] + decimal(b) + seq!['.'] + decimal(c) + seq!['.'] + decimal(d)
}

/// Whether `s` is a source address as the flood makes them up: a dotted
/// address whose first part is in `1..255` and whose other parts are in
/// `0..255`.
pub open spec fn is_spoofed_source(s: Seq<char>) -> bool {
    exists|a: nat, b: nat, c: nat, d: nat|
        1 <= a < 255 && b < 255 && c < 255 && d < 255 && s == #[trigger] dotted_quad(a, b, c, d)
}

/// Whether a report is due at `now_ms` when the last one was made at
/// `last_ms`: a full interval has passed. A clock that ran backwards makes
/// no report due.
pub open spec fn report_due(last_ms: u64, now_ms: u64) -> bool {
    now_ms >= last_ms && now_ms - last_ms >= REPORT_INTERVAL_MS
}

/// The flood unit as the registry sees it.
#[derive(Debug)]
pub struct DDoSAttack {
    intensity: Intensity,
    running: bool,
    threads: usize,
    /// Target rate in packets per second and the bandwidth it amounts to in
    /// bytes per second, as published for the current dial position.
    metrics: (u32, u64),
}

impl DDoSAttack {
    /// The published target rate (packets per second) and bandwidth (bytes
    /// per second).
    pub closed spec fn metrics(&self) -> (int, int) {
        (self.metrics.0 as int, self.metrics.1 as int)
    }

    /// A sound flood has published the rate and bandwidth of its dial
    /// position, whether it runs or not, and has exactly one worker while
    /// it runs.
    pub proof fn lemma_flood_publishes_its_rate(&self)
        requires
            self.wf(),
        ensures
            self.metrics() == (
                target_rate(self.intensity()),
                bandwidth(target_rate(self.intensity())),
            ),
            self.running() ==> self.workers() == 1,
    {
    }

    /// An idle unit at `intensity`, with the target rate of that position
    /// published.
    pub fn new(intensity: Intensity) -> (unit: DDoSAttack)
        ensures
            unit.wf(),
            !unit.running(),
            unit.workers() == 0,
            unit.intensity() == intensity,
            unit.metrics() == (target_rate(intensity), bandwidth(target_rate(intensity))),
    {
        let mut unit = DDoSAttack { intensity, running: false, threads: 0, metrics: (0, 0) };
        unit.publish();
        unit
    }

    /// The target rate at the unit's dial position, in packets per second.
    pub fn calculate_packets_per_second(&self) -> (rate: u32)
        ensures
            rate as int == target_rate(self.intensity()),
            rate <= 10_000,
    {
        (self.intensity.tenths() as u32) * 10
    }

    /// Whether the unit is running.
    pub fn is_running(&self) -> (r: bool)
        ensures
            r == self.running(),
    {
        self.running
    }

    /// The number of workers the unit accounts for.
    pub fn thread_count(&self) -> (n: usize)
        ensures
            n as nat == self.workers(),
    {
        self.threads
    }

    /// Publishes the rate and bandwidth of the current dial position.
    fn publish(&mut self)
        ensures
            final(self).intensity == old(self).intensity,
            final(self).running == old(self).running,
            final(self).threads == old(self).threads,
            final(self).metrics() == (
                target_rate(old(self).intensity()),
                bandwidth(target_rate(old(self).intensity())),
            ),
    {
        let rate = self.calculate_packets_per_second();
        self.metrics = (rate, rate as u64 * PACKET_SIZE_BYTES);
    }
}

impl Attack for DDoSAttack {
    closed spec fn wf(&self) -> bool {
        &&& self.threads == (if self.running { 1usize } else { 0usize })
        &&& self.metrics() == (target_rate(self.intensity), bandwidth(target_rate(self.intensity)))
    }

    closed spec fn running(&self) -> bool {
        self.running
    }

    closed spec fn intensity(&self) -> Intensity {
        self.intensity
    }

    closed spec fn workers(&self) -> nat {
        self.threads as nat
    }

    proof fn lemma_workers_while_running(&self) {
    }

    /// Asks for the single flood worker, which is to run at the published
    /// target rate.
    fn start(&mut self) -> (spawned: usize)
        ensures
            !old(self).running() ==> spawned == 1 && final(self).metrics() == (
                target_rate(old(self).intensity()),
                bandwidth(target_rate(old(self).intensity())),
            ),
    {
        if self.running {
            return 0;
        }
        self.publish();
        self.running = true;
        self.threads = 1;
        1
    }

    fn stop(&mut self) -> (joined: usize)
        ensures
            final(self).metrics() == old(self).metrics(),
    {
        if !self.running {
            return 0;
        }
        let joined = self.threads;
        self.running = false;
        self.threads = 0;
        joined
    }

    /// Moves the dial and publishes the new target rate at once. A running
    /// flood restarts exactly when the dial moved by more than
    /// [`RESTART_THRESHOLD_TENTHS`]; after a smaller move its worker goes on
    /// and takes the published rate up with [`DDoSWorker::set_rate`].
    fn update_intensity(&mut self, intensity: Intensity) -> (respawned: Option<usize>)
        ensures
            final(self).metrics() == (target_rate(intensity), bandwidth(target_rate(intensity))),
            respawned is Some <==> old(self).running() && (intensity@ - old(self).intensity()@
                > RESTART_THRESHOLD_TENTHS || old(self).intensity()@ - intensity@
                > RESTART_THRESHOLD_TENTHS),
            respawned matches Some(n) ==> n == 1,
    {
        let before = self.intensity.tenths();
        let after = intensity.tenths();
        self.intensity = intensity;
        self.publish();
        let change = if after >= before {
            after - before
        } else {
            before - after
        };
        if change > RESTART_THRESHOLD_TENTHS && self.running {
            self.stop();
            let spawned = self.start();
            Some(spawned)
        } else {
            None
        }
    }

    /// The dial position, the current target rate in packets per second, and
    /// the bandwidth that rate amounts to, as in `7.15 MB/s`.
    fn get_metrics(&self) -> (report: MetricsSnapshot)
        ensures
            report.quantity as int == target_rate(self.intensity()),
            report.quantity as int == self.metrics().0,
            report.summary@ == bandwidth_summary(bandwidth(target_rate(self.intensity())) as nat),
    {
        MetricsSnapshot {
            intensity: self.intensity,
            quantity: self.metrics.0 as u64,
            summary: bandwidth_text(self.metrics.1),
        }
    }
}

/// The one-line summary of a bandwidth in bytes per second.
pub fn bandwidth_text(bytes_per_second: u64) -> (text: String)
    ensures
        text@ == bandwidth_summary(bytes_per_second as nat),
{
    let mut text = String::new();
    append_fixed2(&mut text, to_mib_hundredths(bytes_per_second));
    text.append(" MB/s");
    text
}

/// Writes four octets as a dotted address.
pub fn format_source(a: u8, b: u8, c: u8, d: u8) -> (s: String)
    ensures
        s@ == dotted_quad(a as nat, b as nat, c as nat, d as nat),
{
    let mut s = String::new();
    append_decimal(&mut s, a as u64);
    s.append(".");
    append_decimal(&mut s, b as u64);
    s.append(".");
    append_decimal(&mut s, c as u64);
    s.append(".");
    append_decimal(&mut s, d as u64);
    proof {
        reveal_strlit(".");
        assert(s@ =~= dotted_quad(a as nat, b as nat, c as nat, d as nat));
    }
    s
}

/// Makes up one source address from four random octets.
pub fn random_source() -> (s: String)
    ensures
        is_spoofed_source(s@),
{
    let a = random_octet(1, 255);
    let b = random_octet(0, 255);
    let c = random_octet(0, 255);
    let d = random_octet(0, 255);
    let s = format_source(a, b, c, d);
    assert(s@ == dotted_quad(a as nat, b as nat, c as nat, d as nat));
    s
}

/// What one tick of the flood worker did.
#[derive(Clone, Copy, Debug, PartialEq, Eq, Structural)]
pub struct DDoSTick {
    /// Packets synthesised in this tick.
    pub generated: usize,
    /// The packet count of the interval that this tick closed, if it closed
    /// one.
    pub drained: Option<u64>,
    /// Milliseconds to sleep before the next tick.
    pub sleep_ms: u64,
}

/// The state of the single flood worker. It is made when the worker is
/// launched, with the rate published at that moment.
#[derive(Debug)]
pub struct DDoSWorker {
    packets_per_second: u32,
    packet_count: u64,
    last_log: u64,
    buffer: Vec<String>,
}

impl DDoSWorker {
    /// The rate the worker currently makes packets at.
    pub closed spec fn packets_per_second(&self) -> u32 {
        self.packets_per_second
    }

    /// Packets synthesised since the last report.
    pub closed spec fn packet_count(&self) -> u64 {
        self.packet_count
    }

    /// The time of the last report, or of the launch before the first one.
    pub closed spec fn last_log(&self) -> u64 {
        self.last_log
    }

    /// The source addresses of the last batch.
    pub closed spec fn batch(&self) -> Seq<Seq<char>> {
        self.buffer@.map_values(|s: String| s@)
    }

    /// A worker launched at `now_ms` with the rate `packets_per_second`: it
    /// has counted nothing and measures its first interval from `now_ms`.
    pub fn new(packets_per_second: u32, now_ms: u64) -> (w: DDoSWorker)
        ensures
            w.packets_per_second() == packets_per_second,
            w.packet_count() == 0,
            w.last_log() == now_ms,
            w.batch() == Seq::<Seq<char>>::empty(),
    {
        let w = DDoSWorker { packets_per_second, packet_count: 0, last_log: now_ms, buffer: Vec::new() };
        assert(w.batch() =~= Seq::<Seq<char>>::empty());
        w
    }

    /// Takes up a new rate for the ticks to come. The counter, the running
    /// interval and the last batch stay as they are.
    pub fn set_rate(&mut self, packets_per_second: u32)
        ensures
            final(self).packets_per_second() == packets_per_second,
            final(self).packet_count() == old(self).packet_count(),
            final(self).last_log() == old(self).last_log(),
            final(self).batch() == old(self).batch(),
    {
        self.packets_per_second = packets_per_second;
    }

    /// The source addresses of the last batch.
    pub fn last_batch(&self) -> (b: &Vec<String>)
        ensures
            b@.len() == self.batch().len(),
            forall|i: int| 0 <= i < b@.len() ==> (#[trigger] b@[i])@ == self.batch()[i],
    {
        &self.buffer
    }

    /// One tick at the time `now_ms`.
    ///
    /// A worker whose rate is below ten per second has nothing to make: its
    /// state stays as it is and it sleeps for [`IDLE_TICK_MS`]. Any other
    /// worker replaces its batch by [`batch_size`] fresh source addresses,
    /// adds their number to its counter (wrapping), and sleeps for
    /// [`TICK_MS`]. When a report is due it hands out the counter, resets it
    /// and measures the next interval from `now_ms`.
    pub fn tick(&mut self, now_ms: u64) -> (t: DDoSTick)
        ensures
            final(self).packets_per_second() == old(self).packets_per_second(),
            batch_size(old(self).packets_per_second() as int) == 0 ==> {
                &&& *final(self) == *old(self)
                &&& t == (DDoSTick { generated: 0, drained: None, sleep_ms: IDLE_TICK_MS })
            },
            batch_size(old(self).packets_per_second() as int) > 0 ==> {
                let counted = old(self).packet_count().wrapping_add(t.generated as u64);
                &&& t.generated == batch_size(old(self).packets_per_second() as int)
                &&& t.sleep_ms == TICK_MS
                &&& final(self).batch().len() == t.generated
                &&& forall|i: int|
                    0 <= i < t.generated ==> is_spoofed_source(#[trigger] final(self).batch()[i])
                &&& report_due(old(self).last_log(), now_ms) ==> {
                    &&& t.drained == Some(counted)
                    &&& final(self).packet_count() == 0
                    &&& final(self).last_log() == now_ms
                }
                &&& !report_due(old(self).last_log(), now_ms) ==> {
                    &&& t.drained is None
                    &&& final(self).packet_count() == counted
                    &&& final(self).last_log() == old(self).last_log()
                }
            },
    {
        let per_batch = self.packets_per_second / 10;
        if per_batch == 0 {
            return DDoSTick { generated: 0, drained: None, sleep_ms: IDLE_TICK_MS };
        }
        let wanted = if per_batch > BATCH_CEILING {
            BATCH_CEILING
        } else {
            per_batch
        };
        self.buffer.clear();
        let mut made: u32 = 0;
        while made < wanted
            invariant
                made <= wanted,
                self.buffer@.len() == made,
                forall|i: int| 0 <= i < made ==> is_spoofed_source(#[trigger] self.buffer@[i]@),
                self.packets_per_second == old(self).packets_per_second,
                self.packet_count == old(self).packet_count,
                self.last_log == old(self).last_log,
            decreases wanted - made,
        {
            let source = random_source();
            self.buffer.push(source);
            made = made + 1;
        }
        let generated = self.buffer.len();
        let counted = self.packet_count.wrapping_add(generated as u64);
        let due = now_ms >= self.last_log && now_ms - self.last_log >= REPORT_INTERVAL_MS;
        let drained = if due {
            self.last_log = now_ms;
            self.packet_count = 0;
            Some(counted)
        } else {
            self.packet_count = counted;
            None
        };
        proof {
            assert forall|i: int| 0 <= i < generated implies is_spoofed_source(
                #[trigger] self.batch()[i],
            ) by {
                assert(self.batch()[i] == self.buffer@[i]@);
            }
        }
        DDoSTick { generated, drained, sleep_ms: TICK_MS }
    }
}

} // verus!
