//! The memory grower: a unit that retains one more zeroed chunk on every
//! tick for as long as the total stays within a safety ceiling, and gives
//! all of it back when it stops.

use crate::attacks::{Attack, MetricsSnapshot};
use crate::intensity::Intensity;
use crate::platform::total_memory_kb;
use crate::text::{append_fixed2, fixed2, mib_hundredths, to_mib_hundredths};
use vstd::prelude::*;
use vstd::string::*;

verus! {

/// Share of the machine's physical memory, in percent, that the grower may
/// retain at most.
pub const MAX_MEMORY_PERCENTAGE: u64 = 90;

/// Shortest pause between two ticks, in milliseconds.
pub const MIN_PAUSE_MS: u64 = 100;

/// Bytes of the chunk that one tick retains at a dial position: a tenth of a
/// binary megabyte per percentage point, rounded down.
pub open spec fn chunk_size(intensity: Intensity) -> int {
    intensity@ * 1048576 / 100
}

/// Milliseconds between two ticks at a dial position: ten less per
/// percentage point, starting from a second, and never below
/// [`MIN_PAUSE_MS`].
pub open spec fn pause_ms(intensity: Intensity) -> int {
    if 1000 - intensity@ < MIN_PAUSE_MS as int {
        MIN_PAUSE_MS as int
    } else {
        1000 - intensity@
    }
}

/// The safety ceiling in bytes on a machine with `total_kb` kilobytes of
/// physical memory: [`MAX_MEMORY_PERCENTAGE`] percent of it, rounded down.
pub open spec fn ceiling_for(total_kb: nat) -> nat {
    total_kb * 1024 * (MAX_MEMORY_PERCENTAGE as nat) / 100
}

/// [`ceiling_for`], held at `u64::MAX` where it would lie above.
pub open spec fn capped_ceiling(total_kb: nat) -> nat {
    if ceiling_for(total_kb) > u64::MAX {
        u64::MAX as nat
    } else {
        ceiling_for(total_kb)
    }
}

/// Total length of a list of chunks.
pub open spec fn total_bytes(chunks: Seq<Seq<u8>>) -> nat
    decreases chunks.len(),
{
    if chunks.len() == 0 {
        0
    } else {
        total_bytes(chunks.drop_last()) + chunks.last().len()
    }
}

/// Chunks of one size add up to their number times that size. So while the
/// dial has not moved since the grower started, what it retains is its
/// chunk count times the chunk size of its dial position.
pub proof fn lemma_uniform_chunks(chunks: Seq<Seq<u8>>, size: nat)
    requires
        forall|i: int| 0 <= i < chunks.len() ==> (#[trigger] chunks[i]).len() == size,
    ensures
        total_bytes(chunks) == chunks.len() * size,
    decreases chunks.len(),
{
    if chunks.len() > 0 {
        lemma_uniform_chunks(chunks.drop_last(), size);
        assert(chunks.len() * size == (chunks.len() - 1) * size + size) by (nonlinear_arith);
    }
}

/// The one-line summary of a grower that retains `bytes` bytes: binary
/// megabytes with two places, as in `20.00 MB`.
pub open spec fn retained_summary(bytes: nat) -> Seq<char> {
    fixed2(mib_hundredths(bytes)) + " MB"@
}

/// A chunk of `len` zero bytes.
pub open spec fn zeroed(len: nat) -> Seq<u8> {
    Seq::new(len, |i: int| 0u8)
}

/// Whether a tick under `ceiling` retains a new chunk: the unit is running,
/// the ceiling is known, and the total with the new chunk does not exceed
/// it.
pub open spec fn may_allocate(
    running: bool,
    retained: nat,
    chunk: int,
    ceiling: Option<u64>,
) -> bool {
    &&& running
    &&& ceiling matches Some(limit) && retained + chunk <= limit
}

/// What a tick of the grower came to.
#[derive(Clone, Copy, Debug, PartialEq, Eq, Structural)]
pub enum MemoryStep {
    /// The unit is not running; nothing was done.
    Idle,
    /// A chunk was retained.
    Allocated,
    /// The chunk would have taken the total over the ceiling, or the ceiling
    /// is unknown; nothing was retained.
    Paused,
}

/// The outcome of one tick of the grower.
#[derive(Clone, Copy, Debug, PartialEq, Eq, Structural)]
pub struct MemoryTick {
    /// What the tick came to.
    pub step: MemoryStep,
    /// Milliseconds to sleep before the next tick.
    pub sleep_ms: u64,
}

/// The memory unit: its dial position and the chunks it retains.
#[derive(Debug)]
pub struct MemoryLeakAttack {
    intensity: Intensity,
    running: bool,
    memory_chunks: Vec<Vec<u8>>,
    retained: u64,
    threads: usize,
}

/// The safety ceiling in bytes for `total_kb` kilobytes of physical memory,
/// held at `u64::MAX` where the exact value does not fit.
pub fn safety_ceiling(total_kb: u64) -> (limit: u64)
    ensures
        limit as nat == capped_ceiling(total_kb as nat),
{
    let share: u128 = MAX_MEMORY_PERCENTAGE as u128;
    assert(share == 90);
    let exact: u128 = total_kb as u128 * 1024 * share / 100;
    if exact > u64::MAX as u128 {
        u64::MAX
    } else {
        exact as u64
    }
}

/// The safety ceiling of this machine, or `None` when its memory cannot be
/// queried. The machine is asked on every call; whatever total it names,
/// the ceiling is [`capped_ceiling`] of it.
pub fn system_ceiling() -> (limit: Option<u64>)
    ensures
        limit matches Some(bytes) ==> exists|total_kb: u64|
            bytes as nat == #[trigger] capped_ceiling(total_kb as nat),
{
    match total_memory_kb() {
        Some(total_kb) => Some(safety_ceiling(total_kb)),
        None => None,
    }
}

impl MemoryLeakAttack {
    /// The retained chunks, oldest first.
    pub closed spec fn chunks(&self) -> Seq<Seq<u8>> {
        self.memory_chunks@.map_values(|c: Vec<u8>| c@)
    }

    /// Bytes currently retained.
    pub open spec fn retained_bytes(&self) -> nat {
        total_bytes(self.chunks())
    }

    /// How a tick under `ceiling` takes the unit from `pre` to `self` with
    /// the outcome `t`.
    pub open spec fn ticked_from(
        &self,
        pre: &MemoryLeakAttack,
        ceiling: Option<u64>,
        t: MemoryTick,
    ) -> bool {
        let chunk = chunk_size(pre.intensity());
        &&& self.running() == pre.running()
        &&& self.intensity() == pre.intensity()
        &&& self.workers() == pre.workers()
        &&& if may_allocate(pre.running(), pre.retained_bytes(), chunk, ceiling) {
            &&& t.step == MemoryStep::Allocated
            &&& self.chunks() == pre.chunks().push(zeroed(chunk as nat))
        } else {
            &&& t.step == if pre.running() {
                MemoryStep::Paused
            } else {
                MemoryStep::Idle
            }
            &&& self.chunks() == pre.chunks()
        }
        &&& t.sleep_ms == if pre.running() {
            pause_ms(pre.intensity())
        } else {
            0
        }
    }

    /// A sound grower that is not running retains nothing, and one that is
    /// running has exactly one worker.
    pub proof fn lemma_idle_grower_is_empty(&self)
        requires
            self.wf(),
        ensures
            !self.running() ==> self.chunks() == Seq::<Seq<u8>>::empty(),
            !self.running() ==> self.retained_bytes() == 0,
            self.running() ==> self.workers() == 1,
    {
        if !self.running {
            assert(self.chunks() =~= Seq::<Seq<u8>>::empty());
        }
    }

    /// An idle unit at `intensity` that retains nothing.
    pub fn new(intensity: Intensity) -> (unit: MemoryLeakAttack)
        ensures
            unit.wf(),
            !unit.running(),
            unit.workers() == 0,
            unit.intensity() == intensity,
            unit.chunks() == Seq::<Seq<u8>>::empty(),
    {
        let unit = MemoryLeakAttack {
            intensity,
            running: false,
            memory_chunks: Vec::new(),
            retained: 0,
            threads: 0,
        };
        assert(unit.chunks() =~= Seq::<Seq<u8>>::empty());
        unit
    }

    /// Bytes of the chunk that a tick retains at the current dial position.
    pub fn calculate_chunk_size(&self) -> (size: usize)
        ensures
            size as int == chunk_size(self.intensity()),
            size <= 10 * 1048576,
    {
        let tenths = self.intensity.tenths() as u64;
        (tenths * 1048576 / 100) as usize
    }

    /// Milliseconds between two ticks at the current dial position.
    pub fn calculate_pause_ms(&self) -> (ms: u64)
        ensures
            ms as int == pause_ms(self.intensity()),
            MIN_PAUSE_MS <= ms <= 1000,
    {
        let rest = 1000 - self.intensity.tenths() as u64;
        if rest < MIN_PAUSE_MS {
            MIN_PAUSE_MS
        } else {
            rest
        }
    }

    /// Whether the unit is running.
    pub fn is_running(&self) -> (r: bool)
        ensures
            r == self.running(),
    {
        self.running
    }

    /// The number of workers the unit accounts for.
    pub fn thread_count(&self) -> (n: usize)
        ensures
            n as nat == self.workers(),
    {
        self.threads
    }

    /// The number of chunks currently retained.
    pub fn chunk_count(&self) -> (n: usize)
        ensures
            n == self.chunks().len(),
    {
        self.memory_chunks.len()
    }

    /// Bytes currently retained.
    pub fn retained(&self) -> (bytes: u64)
        requires
            self.wf(),
        ensures
            bytes as nat == self.retained_bytes(),
    {
        self.retained
    }

    /// One tick of the worker under a given safety ceiling; `None` stands
    /// for a ceiling that could not be found out.
    ///
    /// A running unit retains one more zeroed chunk of [`chunk_size`] bytes
    /// when the total with it stays within the ceiling, and pauses
    /// otherwise; either way the worker is to sleep for [`pause_ms`]. A unit
    /// that is not running does nothing. The total never grows beyond a
    /// ceiling that it respected before.
    pub fn tick_with_ceiling(&mut self, ceiling: Option<u64>) -> (t: MemoryTick)
        requires
            old(self).wf(),
        ensures
            final(self).wf(),
            final(self).ticked_from(old(self), ceiling, t),
            ceiling matches Some(limit) ==> (old(self).retained_bytes() <= limit
                ==> final(self).retained_bytes() <= limit),
    {
        if !self.running {
            return MemoryTick { step: MemoryStep::Idle, sleep_ms: 0 };
        }
        let sleep_ms = self.calculate_pause_ms();
        let chunk = self.calculate_chunk_size();
        let fits = match ceiling {
            Some(limit) => self.retained <= limit && chunk as u64 <= limit - self.retained,
            None => false,
        };
        if fits {
            let new_chunk = vec![0u8; chunk];
            proof {
                assert(new_chunk@ =~= zeroed(chunk as nat));
                let grown = self.chunks().push(new_chunk@);
                assert(grown.drop_last() =~= self.chunks());
                assert(self.memory_chunks@.push(new_chunk).map_values(|c: Vec<u8>| c@) =~= grown);
            }
            self.memory_chunks.push(new_chunk);
            self.retained = self.retained + chunk as u64;
            MemoryTick { step: MemoryStep::Allocated, sleep_ms }
        } else {
            MemoryTick { step: MemoryStep::Paused, sleep_ms }
        }
    }

    /// One tick of the worker under the safety ceiling of this machine,
    /// which is asked for anew on every tick. The tick is
    /// [`Self::tick_with_ceiling`] under whatever ceiling the machine
    /// reported.
    pub fn tick(&mut self) -> (t: MemoryTick)
        requires
            old(self).wf(),
        ensures
            final(self).wf(),
            exists|ceiling: Option<u64>| final(self).ticked_from(old(self), ceiling, t),
    {
        let ceiling = system_ceiling();
        let t = self.tick_with_ceiling(ceiling);
        assert(self.ticked_from(old(self), ceiling, t));
        t
    }
}

impl Attack for MemoryLeakAttack {
    closed spec fn wf(&self) -> bool {
        &&& self.threads == (if self.running { 1usize } else { 0usize })
        &&& self.retained as nat == total_bytes(self.chunks())
        &&& !self.running ==> self.memory_chunks@.len() == 0
    }

    closed spec fn running(&self) -> bool {
        self.running
    }

    closed spec fn intensity(&self) -> Intensity {
        self.intensity
    }

    closed spec fn workers(&self) -> nat {
        self.threads as nat
    }

    proof fn lemma_workers_while_running(&self) {
    }

    /// Asks for the single grower worker. Nothing is retained yet.
    fn start(&mut self) -> (spawned: usize)
        ensures
            !old(self).running() ==> spawned == 1,
            final(self).chunks() == old(self).chunks(),
    {
        if self.running {
            return 0;
        }
        self.running = true;
        self.threads = 1;
        1
    }

    /// Stops the unit and releases every retained chunk.
    fn stop(&mut self) -> (joined: usize)
        ensures
            final(self).chunks() == Seq::<Seq<u8>>::empty(),
    {
        if !self.running {
            assert(self.chunks() =~= Seq::<Seq<u8>>::empty());
            return 0;
        }
        let joined = self.threads;
        self.running = false;
        self.threads = 0;
        self.memory_chunks.clear();
        self.retained = 0;
        assert(self.chunks() =~= Seq::<Seq<u8>>::empty());
        joined
    }

    /// Moves the dial. The next tick sizes its chunk and its pause by the
    /// new position; the grower never restarts and keeps what it retains.
    fn update_intensity(&mut self, intensity: Intensity) -> (respawned: Option<usize>)
        ensures
            respawned is None,
            final(self).chunks() == old(self).chunks(),
    {
        self.intensity = intensity;
        None
    }

    /// The dial position, the retained bytes, and the retained bytes in
    /// binary megabytes with two places, as in `20.00 MB`.
    fn get_metrics(&self) -> (report: MetricsSnapshot)
        ensures
            report.quantity as nat == self.retained_bytes(),
            report.summary@ == retained_summary(self.retained_bytes()),
    {
        let mut summary = String::new();
        append_fixed2(&mut summary, to_mib_hundredths(self.retained));
        summary.append(" MB");
        MetricsSnapshot { intensity: self.intensity, quantity: self.retained, summary }
    }
}

} // verus!
