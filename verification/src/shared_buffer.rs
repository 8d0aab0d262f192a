//! Strict-lockstep publication protocol between one producer and its consumers.
//!
//! The producer fills one of `buf_count` buffer slots, publishes it as the
//! next generation, and waits until every consumer has acknowledged that
//! generation before it prepares the next one.  A consumer waits until the
//! published generation changes, reads the published slot, runs the frame and
//! then acknowledges the generation.
//!
//! This module holds the protocol's decisions over plain values: the layout
//! of the control block, the producer's and consumers' state, and what each
//! side does on each observation.  Whoever owns the shared memory performs
//! the atomic loads and stores, the waiting and the copying that the returned
//! actions ask for.
use vstd::prelude::*;

verus! {

/// At most this many consumers can attach to one producer.
pub const MAX_CONSUMERS: usize = 16;

/// Sanity value stored in the control block once it is initialized.
pub const MAGIC: u64 = 0x53584C4F434B5354;

/// Bookkeeping is stored in a region of this size at the start of the block.
pub const SHMEM_DATA_OFFSET: usize = 8192;

/// Page size assumed when the system does not report one.
pub const MAX_PAGE: usize = 16384;

// MARK: Allocation size

/// The least multiple of `page` that is at least `n`.
pub open spec fn round_up(n: nat, page: nat) -> nat
    recommends
        page > 0,
{
    if n % page == 0 {
        n
    } else {
        (n - n % page + page) as nat
    }
}

/// The bytes a shared block needs for `buf_count` buffers of `buf_size`
/// bytes after the bookkeeping region.
pub open spec fn block_bytes(buf_count: nat, buf_size: nat) -> nat {
    (SHMEM_DATA_OFFSET as nat + buf_size * buf_count) as nat
}

/// Size of the shared block for `buf_count` buffers of `buf_size` bytes,
/// rounded up to whole pages of `page_size` bytes; `None` when the size does
/// not fit in a `usize`.
pub fn allocation_size_for_page(buf_count: usize, buf_size: usize, page_size: usize) -> (r: Option<
    usize,
>)
    requires
        page_size > 0,
    ensures
        match r {
            Some(size) => size == round_up(block_bytes(buf_count as nat, buf_size as nat), page_size as nat),
            None => round_up(block_bytes(buf_count as nat, buf_size as nat), page_size as nat)
                > usize::MAX,
        },
{
    let data = match buf_size.checked_mul(buf_count) {
        Some(d) => d,
        None => {
            proof {
                lemma_round_up_bounds(block_bytes(buf_count as nat, buf_size as nat), page_size as nat);
            }
            return None;
        },
    };
    let total = match SHMEM_DATA_OFFSET.checked_add(data) {
        Some(t) => t,
        None => {
            proof {
                lemma_round_up_bounds(block_bytes(buf_count as nat, buf_size as nat), page_size as nat);
            }
            return None;
        },
    };
    let rem = total % page_size;
    assert(rem <= total) by (nonlinear_arith)
        requires
            rem == total % page_size,
            page_size > 0,
    ;
    if rem == 0 {
        Some(total)
    } else {
        match (total - rem).checked_add(page_size) {
            Some(t) => Some(t),
            None => None,
        }
    }
}

proof fn lemma_round_up_bounds(n: nat, page: nat)
    requires
        page > 0,
    ensures
        round_up(n, page) >= n,
{
}

/// The page size that a `sysconf(_SC_PAGESIZE)` report stands for: the
/// report itself, or `MAX_PAGE` when it is negative (no report).
pub open spec fn page_from_report(report: i64) -> nat {
    if report < 0 || report > usize::MAX {
        MAX_PAGE as nat
    } else {
        report as nat
    }
}

/// Size of the shared block for `buf_count` buffers of `buf_size` bytes,
/// rounded up to whole pages of the page size that the system reported as
/// `reported_page_size`; `None` when the size does not fit in a `usize`.
pub fn compute_shmem_allocation_size(buf_count: usize, buf_size: usize, reported_page_size: i64) -> (r:
    Option<usize>)
    requires
        reported_page_size != 0,
    ensures
        match r {
            Some(size) => size == round_up(
                block_bytes(buf_count as nat, buf_size as nat),
                page_from_report(reported_page_size),
            ),
            None => round_up(
                block_bytes(buf_count as nat, buf_size as nat),
                page_from_report(reported_page_size),
            ) > usize::MAX,
        },
{
    let page: usize = if reported_page_size < 0 || reported_page_size as i128 > usize::MAX as i128 {
        MAX_PAGE
    } else {
        reported_page_size as usize
    };
    allocation_size_for_page(buf_count, buf_size, page)
}

// MARK: Control block

/// The consumers' general barrier.
pub struct Barrier {
    pub thread_count: u32,
    pub state: u32,
    pub generation: u64,
}

impl Barrier {
    pub fn init(&mut self, child_count: u32)
        ensures
            final(self).thread_count == child_count,
            final(self).state == 0,
            final(self).generation == 0,
    {
        self.thread_count = child_count;
        self.state = 0;
        self.generation = 0;
    }
}

/// The bookkeeping at the start of the shared block, each field as a plain value.
pub struct ControlBlock {
    /// sanity check
    pub magic: u64,
    /// N buffers (>= 2, ideally 3+)
    pub buf_count: u32,
    /// bytes per buffer
    pub buf_size: u64,
    /// <= MAX_CONSUMERS
    pub num_consumers: u32,
    /// number of consumers that joined
    pub ready_count: u32,
    /// 0 = not started, 1 = started
    pub started: u32,
    /// if set, begin shutdown
    pub shutdown: u32,
    /// monotonically increasing frame number (starts at 0)
    pub publish_gen: u64,
    /// which buffer currently holds publish_gen
    pub publish_idx: u32,
    pub consumer_barrier: Barrier,
    /// Per-consumer last seen/acked generation
    pub consumer_gen: [u64; MAX_CONSUMERS],
}

/// The least of the first `n` acknowledged generations (`u64::MAX` for none).
pub open spec fn spec_min_acked(gens: Seq<u64>, n: nat) -> u64
    decreases n,
{
    if n == 0 {
        u64::MAX
    } else {
        let m = spec_min_acked(gens, (n - 1) as nat);
        if gens[n - 1] < m {
            gens[n - 1]
        } else {
            m
        }
    }
}

/// The least acknowledged generation reaches `target` exactly when every one
/// of the first `n` consumers has acknowledged `target` or later.
pub proof fn lemma_min_acked_reaches(gens: Seq<u64>, n: nat, target: u64)
    requires
        n <= gens.len(),
    ensures
        spec_min_acked(gens, n) >= target <==> forall|i: int| 0 <= i < n ==> gens[i] >= target,
    decreases n,
{
    if n > 0 {
        lemma_min_acked_reaches(gens, (n - 1) as nat, target);
    }
}

impl ControlBlock {
    /// The control block as freshly zeroed memory.
    pub fn zeroed() -> (cb: Self)
        ensures
            cb.magic == 0,
            cb.buf_count == 0,
            cb.buf_size == 0,
            cb.num_consumers == 0,
            cb.ready_count == 0,
            cb.started == 0,
            cb.shutdown == 0,
            cb.publish_gen == 0,
            cb.publish_idx == 0,
            cb.consumer_barrier.thread_count == 0,
            cb.consumer_barrier.state == 0,
            cb.consumer_barrier.generation == 0,
            forall|i: int| 0 <= i < MAX_CONSUMERS ==> cb.consumer_gen[i] == 0,
    {
        ControlBlock {
            magic: 0,
            buf_count: 0,
            buf_size: 0,
            num_consumers: 0,
            ready_count: 0,
            started: 0,
            shutdown: 0,
            publish_gen: 0,
            publish_idx: 0,
            consumer_barrier: Barrier { thread_count: 0, state: 0, generation: 0 },
            consumer_gen: [0u64; MAX_CONSUMERS],
        }
    }

    pub fn min_acked(&self, n: usize) -> (m: u64)
        requires
            n <= MAX_CONSUMERS,
        ensures
            m == spec_min_acked(self.consumer_gen@, n as nat),
    {
        let mut m = u64::MAX;
        let mut i: usize = 0;
        while i < n
            invariant
                0 <= i <= n,
                n <= MAX_CONSUMERS,
                m == spec_min_acked(self.consumer_gen@, i as nat),
            decreases n - i,
        {
            let g = self.consumer_gen[i];
            if g < m {
                m = g;
            }
            i = i + 1;
        }
        m
    }

    /// Set up the block for a producer: zero all of it, then set the
    /// barrier, the buffer layout, generation 0 published in slot 0 and
    /// acknowledged by every consumer, and finally the magic value.
    pub fn initialize(&mut self, buf_count: u32, buf_size: u64, num_consumers: u32)
        requires
            num_consumers <= MAX_CONSUMERS,
        ensures
            final(self).magic == MAGIC,
            final(self).buf_count == buf_count,
            final(self).buf_size == buf_size,
            final(self).num_consumers == num_consumers,
            final(self).ready_count == 0,
            final(self).started == 0,
            final(self).shutdown == 0,
            final(self).publish_gen == 0,
            final(self).publish_idx == 0,
            final(self).consumer_barrier.thread_count == num_consumers,
            final(self).consumer_barrier.state == 0,
            final(self).consumer_barrier.generation == 0,
            forall|i: int| 0 <= i < MAX_CONSUMERS ==> final(self).consumer_gen[i] == 0,
    {
        *self = ControlBlock::zeroed();
        self.consumer_barrier.init(num_consumers);
        self.buf_count = buf_count;
        self.buf_size = buf_size;
        self.num_consumers = num_consumers;
        self.publish_idx = 0;
        self.publish_gen = 0;
        let n = num_consumers as usize;
        let mut i: usize = 0;
        while i < n
            invariant
                0 <= i <= n,
                n == num_consumers,
                n <= MAX_CONSUMERS,
                forall|k: int| 0 <= k < MAX_CONSUMERS ==> self.consumer_gen[k] == 0,
                self.magic == 0,
                self.buf_count == buf_count,
                self.buf_size == buf_size,
                self.num_consumers == num_consumers,
                self.ready_count == 0,
                self.started == 0,
                self.shutdown == 0,
                self.publish_gen == 0,
                self.publish_idx == 0,
                self.consumer_barrier.thread_count == num_consumers,
                self.consumer_barrier.state == 0,
                self.consumer_barrier.generation == 0,
            decreases n - i,
        {
            self.consumer_gen[i] = 0;
            i = i + 1;
        }
        self.magic = MAGIC;
    }

    /// Publish `slot` as holding generation `gen`.
    pub fn publish(&mut self, slot: u32, gen: u64)
        ensures
            final(self).publish_idx == slot,
            final(self).publish_gen == gen,
            final(self).consumer_gen == old(self).consumer_gen,
            final(self).num_consumers == old(self).num_consumers,
            final(self).buf_count == old(self).buf_count,
            final(self).shutdown == old(self).shutdown,
    {
        self.publish_idx = slot;
        self.publish_gen = gen;
    }
}

// MARK: Producer

/// Why a producer cannot be set up.
#[derive(PartialEq, Eq, Structural, Debug, Clone, Copy)]
pub enum ProducerConfigError {
    /// Fewer than two buffers.
    TooFewBuffers,
    /// No consumer, or `MAX_CONSUMERS` or more.
    ConsumerCountOutOfBounds,
}

impl ProducerConfigError {
    pub fn message(&self) -> (m: &'static str)
        ensures
            m@ == (match self {
                ProducerConfigError::TooFewBuffers => "buffer count must be >= 2"@,
                ProducerConfigError::ConsumerCountOutOfBounds => "number of consumers is out of bounds"@,
            }),
    {
        match self {
            ProducerConfigError::TooFewBuffers => "buffer count must be >= 2",
            ProducerConfigError::ConsumerCountOutOfBounds => "number of consumers is out of bounds",
        }
    }
}

/// The shared buffer has been interrupted.
#[derive(PartialEq, Eq, Structural, Debug, Clone, Copy)]
pub enum RunResultError {
    Interrupt,
}

impl RunResultError {
    pub fn message(&self) -> (m: &'static str)
        ensures
            m@ == "the shared buffer has been interrupted"@,
    {
        "the shared buffer has been interrupted"
    }
}

/// A frame slot that the producer is filling.
#[derive(PartialEq, Eq, Structural, Debug, Clone, Copy)]
pub struct PartialWriteState {
    pub gen_next: u64,
    pub slot: u32,
    pub size: usize,
}

/// The producer's own state.
pub struct ProducerState {
    pub buf_count: u32,
    pub buf_size: usize,
    pub num_consumers: u32,
    pub last_published: u64,
    pub cached_ready: bool,
    pub start_shutdown: bool,
}

/// What the producer does while it waits for its consumers to join.
#[derive(PartialEq, Eq, Structural, Debug, Clone, Copy)]
pub enum ReadyStep {
    /// Shutdown was requested: set the block's shutdown flag and stop.
    Interrupt,
    /// Every consumer has joined; `start` asks to set the block's started flag.
    Ready { start: bool },
    /// Not every consumer has joined yet: pause and look again.
    Wait,
}

/// What the producer does while it waits for acknowledgements.
#[derive(PartialEq, Eq, Structural, Debug, Clone, Copy)]
pub enum CommitStep {
    /// Every consumer acknowledged the generation: it is committed.
    Done { gen: u64, slot: u32 },
    /// Shutdown was requested.
    Interrupt,
    /// Pause and look again.
    Wait,
}

/// What one look at the acknowledgements decides for the frame `state`.
pub open spec fn commit_outcome(state: PartialWriteState, min_acked: u64, shutdown: u32) -> CommitStep {
    if min_acked >= state.gen_next {
        CommitStep::Done { gen: state.gen_next, slot: state.slot }
    } else if shutdown > 0 {
        CommitStep::Interrupt
    } else {
        CommitStep::Wait
    }
}

/// The valid producer configurations.
pub open spec fn producer_config_ok(num_buffers: nat, num_consumers: nat) -> bool {
    num_buffers >= 2 && 0 < num_consumers < MAX_CONSUMERS
}

impl ProducerState {
    /// Check the configuration, zero and initialize the control block `cb`
    /// and return the producer's state.
    pub fn new(
        num_buffers: usize,
        buffer_size: usize,
        num_consumers: usize,
        cb: &mut ControlBlock,
    ) -> (r: Result<ProducerState, ProducerConfigError>)
        requires
            num_buffers <= u32::MAX,
        ensures
            num_buffers < 2 ==> r == Err::<ProducerState, _>(ProducerConfigError::TooFewBuffers),
            num_buffers >= 2 && !(0 < num_consumers < MAX_CONSUMERS) ==> r == Err::<
                ProducerState,
                _,
            >(ProducerConfigError::ConsumerCountOutOfBounds),
            producer_config_ok(num_buffers as nat, num_consumers as nat) ==> r is Ok,
            r is Err ==> *final(cb) == *old(cb),
            r matches Ok(p) ==> {
                &&& producer_config_ok(num_buffers as nat, num_consumers as nat)
                &&& p.buf_count == num_buffers
                &&& p.buf_size == buffer_size
                &&& p.num_consumers == num_consumers
                &&& p.last_published == 0
                &&& !p.cached_ready
                &&& !p.start_shutdown
                &&& final(cb).magic == MAGIC
                &&& final(cb).buf_count == num_buffers
                &&& final(cb).buf_size == buffer_size
                &&& final(cb).num_consumers == num_consumers
                &&& final(cb).ready_count == 0
                &&& final(cb).started == 0
                &&& final(cb).shutdown == 0
                &&& final(cb).publish_gen == 0
                &&& final(cb).publish_idx == 0
                &&& final(cb).consumer_barrier.thread_count == num_consumers
                &&& final(cb).consumer_barrier.state == 0
                &&& final(cb).consumer_barrier.generation == 0
                &&& forall|i: int| 0 <= i < MAX_CONSUMERS ==> final(cb).consumer_gen[i] == 0
            },
    {
        if num_buffers < 2 {
            return Err(ProducerConfigError::TooFewBuffers);
        }
        if num_consumers == 0 || num_consumers >= MAX_CONSUMERS {
            return Err(ProducerConfigError::ConsumerCountOutOfBounds);
        }
        cb.initialize(num_buffers as u32, buffer_size as u64, num_consumers as u32);
        Ok(ProducerState {
            buf_count: num_buffers as u32,
            buf_size: buffer_size,
            num_consumers: num_consumers as u32,
            last_published: cb.publish_gen,
            cached_ready: false,
            start_shutdown: false,
        })
    }

    pub fn shutdown(&mut self)
        ensures
            final(self).start_shutdown,
            final(self).buf_count == old(self).buf_count,
            final(self).buf_size == old(self).buf_size,
            final(self).num_consumers == old(self).num_consumers,
            final(self).last_published == old(self).last_published,
            final(self).cached_ready == old(self).cached_ready,
    {
        self.start_shutdown = true;
    }

    /// Round-robin slot for generation `gen_next`.
    pub fn choose_slot_rr(&self, gen_next: u64) -> (slot: u32)
        requires
            self.buf_count > 0,
        ensures
            slot == (gen_next as u32) % self.buf_count,
            slot < self.buf_count,
    {
        (gen_next as u32) % self.buf_count
    }

    /// One look at the block while waiting for the consumers to join, given
    /// how many have joined.
    pub fn wait_until_ready_step(&mut self, ready_count: u32) -> (step: ReadyStep)
        ensures
            old(self).start_shutdown ==> step == ReadyStep::Interrupt,
            !old(self).start_shutdown && old(self).cached_ready ==> step == (ReadyStep::Ready {
                start: false,
            }),
            !old(self).start_shutdown && !old(self).cached_ready && ready_count
                == old(self).num_consumers ==> step == (ReadyStep::Ready { start: true }),
            !old(self).start_shutdown && !old(self).cached_ready && ready_count
                != old(self).num_consumers ==> step == ReadyStep::Wait,
            final(self).cached_ready == (old(self).cached_ready || step == (ReadyStep::Ready {
                start: true,
            })),
            final(self).start_shutdown == old(self).start_shutdown,
            final(self).buf_count == old(self).buf_count,
            final(self).buf_size == old(self).buf_size,
            final(self).num_consumers == old(self).num_consumers,
            final(self).last_published == old(self).last_published,
    {
        if self.start_shutdown {
            return ReadyStep::Interrupt;
        }
        if self.cached_ready {
            return ReadyStep::Ready { start: false };
        }
        if ready_count == self.num_consumers {
            self.cached_ready = true;
            ReadyStep::Ready { start: true }
        } else {
            ReadyStep::Wait
        }
    }

    /// The slot and generation of the next frame.
    pub fn prepare(&self) -> (state: PartialWriteState)
        requires
            self.buf_count > 0,
            self.last_published < u64::MAX,
        ensures
            state == prepared_frame(*self),
            state.gen_next == self.last_published + 1,
            state.slot == ((self.last_published + 1) as u32) % self.buf_count,
            state.slot < self.buf_count,
            state.size == self.buf_size,
    {
        let gen_next = self.last_published + 1;
        let slot = self.choose_slot_rr(gen_next);
        PartialWriteState { gen_next, slot, size: self.buf_size }
    }

    /// One look at the block while waiting for every consumer to acknowledge
    /// the published frame `state`, given the least acknowledged generation
    /// and the block's shutdown flag.
    pub fn commit_step(&mut self, state: &PartialWriteState, min_acked: u64, shutdown: u32) -> (step:
        CommitStep)
        ensures
            step == commit_outcome(*state, min_acked, shutdown),
            *final(self) == if step is Done {
                committed(*old(self), *state)
            } else {
                *old(self)
            },
            final(self).last_published == if step is Done {
                state.gen_next
            } else {
                old(self).last_published
            },
            final(self).buf_count == old(self).buf_count,
            final(self).buf_size == old(self).buf_size,
            final(self).num_consumers == old(self).num_consumers,
            final(self).cached_ready == old(self).cached_ready,
            final(self).start_shutdown == old(self).start_shutdown,
    {
        if min_acked >= state.gen_next {
            self.last_published = state.gen_next;
            CommitStep::Done { gen: state.gen_next, slot: state.slot }
        } else if shutdown > 0 {
            CommitStep::Interrupt
        } else {
            CommitStep::Wait
        }
    }
}

/// How a waiting side pauses before it looks again.
#[derive(PartialEq, Eq, Structural, Debug, Clone, Copy)]
pub enum Pause {
    /// Spin for a moment.
    Spin,
    /// Give up the rest of the time slice.
    Yield,
    /// Sleep for a microsecond.
    Sleep,
}

/// Count one more pause and choose it: the first pauses spin, the next ones
/// yield, and from the 256th on they sleep.
pub fn adaptive_pause(spins: &mut u32) -> (p: Pause)
    requires
        *old(spins) < u32::MAX,
    ensures
        *final(spins) == *old(spins) + 1,
        p == if *final(spins) < 64 {
            Pause::Spin
        } else if *final(spins) < 256 {
            Pause::Yield
        } else {
            Pause::Sleep
        },
{
    *spins = *spins + 1;
    if *spins < 64 {
        Pause::Spin
    } else if *spins < 256 {
        Pause::Yield
    } else {
        Pause::Sleep
    }
}

/// The frame that `prepare` hands out: the generation after the last
/// published one, its round-robin slot, and the buffer size.
pub open spec fn prepared_frame(p: ProducerState) -> PartialWriteState {
    PartialWriteState {
        gen_next: (p.last_published + 1) as u64,
        slot: (((p.last_published + 1) as u64) as u32) % p.buf_count,
        size: p.buf_size,
    }
}

/// The producer once the frame `state` is committed: its generation is the
/// last published one, and nothing else changes.
pub open spec fn committed(p: ProducerState, state: PartialWriteState) -> ProducerState {
    ProducerState {
        buf_count: p.buf_count,
        buf_size: p.buf_size,
        num_consumers: p.num_consumers,
        last_published: state.gen_next,
        cached_ready: p.cached_ready,
        start_shutdown: p.start_shutdown,
    }
}

/// Prepare, then commit: preparing leaves the producer as it was, so two
/// prepares hand out the same frame; once every consumer has acknowledged
/// the prepared generation, the commit is done with that generation and
/// slot, whatever the shutdown flag says, and the producer it leaves has
/// that generation as its last published one, so the next prepare hands
/// out the generation after it.
pub proof fn lemma_prepare_then_commit(p: ProducerState, gens: Seq<u64>, shutdown: u32)
    requires
        p.buf_count > 0,
        p.last_published < u64::MAX,
        p.num_consumers <= gens.len(),
        forall|i: int| 0 <= i < p.num_consumers ==> gens[i] >= p.last_published + 1,
    ensures
        prepared_frame(p).gen_next == p.last_published + 1,
        commit_outcome(prepared_frame(p), spec_min_acked(gens, p.num_consumers as nat), shutdown)
            == (CommitStep::Done { gen: prepared_frame(p).gen_next, slot: prepared_frame(p).slot }),
        committed(p, prepared_frame(p)).last_published == p.last_published + 1,
        committed(p, prepared_frame(p)).last_published < u64::MAX ==> prepared_frame(
            committed(p, prepared_frame(p)),
        ).gen_next == p.last_published + 2,
{
    lemma_min_acked_reaches(gens, p.num_consumers as nat, prepared_frame(p).gen_next);
}

/// Strict lockstep: looking at the least acknowledgement of the first `n`
/// consumers, a frame commits only once every one of them has acknowledged
/// its generation; otherwise the producer waits or stops.
pub proof fn lemma_strict_lockstep(gens: Seq<u64>, n: nat, state: PartialWriteState, shutdown: u32)
    requires
        n <= gens.len(),
    ensures
        commit_outcome(state, spec_min_acked(gens, n), shutdown) is Done <==> forall|i: int|
            0 <= i < n ==> gens[i] >= state.gen_next,
        !(commit_outcome(state, spec_min_acked(gens, n), shutdown) is Done) ==> exists|i: int|
            0 <= i < n && gens[i] < state.gen_next,
{
    lemma_min_acked_reaches(gens, n, state.gen_next);
}

/// Round robin: with two or more slots, consecutive generations use
/// different slots, except where the generation's low 32 bits wrap.
pub proof fn lemma_consecutive_slots_differ(gen: u64, buf_count: u32)
    requires
        buf_count >= 2,
        gen < u64::MAX,
        (gen as u32) < u32::MAX,
    ensures
        (gen as u32) % buf_count != (((gen + 1) as u64) as u32) % buf_count,
{
    let a = gen as u32;
    let b = ((gen + 1) as u64) as u32;
    assert(b == a + 1) by (bit_vector)
        requires
            a == gen as u32,
            b == ((gen + 1) as u64) as u32,
            gen < u64::MAX,
            a < u32::MAX,
    ;
    let n = buf_count as int;
    let x = a as int;
    assert(x % n != (x + 1) % n) by (nonlinear_arith)
        requires
            n >= 2,
            x >= 0,
    ;
}

// MARK: Consumer

/// A consumer's own state.
pub struct ConsumerState {
    pub id: usize,
    pub buf_size: usize,
    pub last_seen: u64,
}

/// What a consumer does while it waits for the next frame.
#[derive(PartialEq, Eq, Structural, Debug, Clone, Copy)]
pub enum NextFrame {
    /// Shutdown was requested.
    Interrupt,
    /// Nothing new was published: pause and look again.
    Wait,
    /// A newer publish raced with the read: look again at once.
    Retry,
    /// Generation `gen` is ready in `slot`.
    Frame { gen: u64, slot: u32 },
}

/// Why a consumer cannot attach.
#[derive(PartialEq, Eq, Structural, Debug, Clone, Copy)]
pub enum AttachError {
    /// The producer already started: late attach is not allowed.
    LateAttach,
}

impl AttachError {
    pub fn message(&self) -> (m: &'static str)
        ensures
            m@ == "late attach not allowed: producer already started"@,
    {
        "late attach not allowed: producer already started"
    }
}

/// Whether a consumer may join, given the block's started flag read before
/// it joined.  On success the caller increments `ready_count`.
pub fn check_join(started: u32) -> (r: Result<(), AttachError>)
    ensures
        r is Ok <==> started == 0,
{
    if started != 0 {
        Err(AttachError::LateAttach)
    } else {
        Ok(())
    }
}

/// Whether the join stands, given the started flag read after incrementing
/// `ready_count`.  On error the caller decrements `ready_count` again.
pub fn confirm_join(started: u32) -> (r: Result<(), AttachError>)
    ensures
        r is Ok <==> started == 0,
{
    if started != 0 {
        Err(AttachError::LateAttach)
    } else {
        Ok(())
    }
}

/// What one look at the block decides for a consumer that last saw `last_seen`.
pub open spec fn next_frame_outcome(last_seen: u64, shutdown: u32, g1: u64, slot: u32, g2: u64) -> NextFrame {
    if shutdown > 0 {
        NextFrame::Interrupt
    } else if g1 == last_seen {
        NextFrame::Wait
    } else if g1 == g2 {
        NextFrame::Frame { gen: g1, slot }
    } else {
        NextFrame::Retry
    }
}

impl ConsumerState {
    /// A consumer that joined at the published generation `publish_gen`; the
    /// caller also stores `publish_gen` as its acknowledgement.
    pub fn new(consumer_id: usize, num_consumers: u32, publish_gen: u64, buf_size: u64) -> (c: Self)
        requires
            consumer_id < num_consumers,
            buf_size <= usize::MAX,
        ensures
            c.id == consumer_id,
            c.last_seen == publish_gen,
            c.buf_size == buf_size,
    {
        ConsumerState { id: consumer_id, buf_size: buf_size as usize, last_seen: publish_gen }
    }

    /// One look at the block: its shutdown flag, the published generation,
    /// the published slot, and the published generation read again.
    pub fn wait_for_next_step(&self, shutdown: u32, g1: u64, slot: u32, g2: u64) -> (step: NextFrame)
        ensures
            step == next_frame_outcome(self.last_seen, shutdown, g1, slot, g2),
    {
        if shutdown > 0 {
            NextFrame::Interrupt
        } else if g1 == self.last_seen {
            NextFrame::Wait
        } else if g1 == g2 {
            NextFrame::Frame { gen: g1, slot }
        } else {
            NextFrame::Retry
        }
    }

    /// Record that generation `gen_id` is done: it becomes the last seen
    /// one.  Returns the consumer's index, where the block's acknowledgement
    /// of `gen_id` is to be stored.
    pub fn record_ack(&mut self, gen_id: u64) -> (index: usize)
        ensures
            index == old(self).id,
            final(self).last_seen == gen_id,
            final(self).id == old(self).id,
            final(self).buf_size == old(self).buf_size,
    {
        self.last_seen = gen_id;
        self.id
    }

    /// Acknowledge completion of generation `gen_id`.
    pub fn ack(&mut self, cb: &mut ControlBlock, gen_id: u64)
        requires
            old(self).id < MAX_CONSUMERS,
        ensures
            final(self).last_seen == gen_id,
            final(self).id == old(self).id,
            final(self).buf_size == old(self).buf_size,
            final(cb).consumer_gen@ == old(cb).consumer_gen@.update(old(self).id as int, gen_id),
            final(cb).publish_gen == old(cb).publish_gen,
            final(cb).num_consumers == old(cb).num_consumers,
            final(cb).shutdown == old(cb).shutdown,
    {
        let index = self.record_ack(gen_id);
        cb.consumer_gen[index] = gen_id;
    }
}

/// A consumer takes a frame only for a generation it has not seen, read
/// the same twice, and never once shutdown is requested.
pub proof fn lemma_frames_are_new(last_seen: u64, shutdown: u32, g1: u64, slot: u32, g2: u64)
    ensures
        next_frame_outcome(last_seen, shutdown, g1, slot, g2) matches NextFrame::Frame {
            gen,
            slot: s,
        } ==> gen != last_seen && gen == g1 && gen == g2 && s == slot && shutdown == 0,
{
}

} // verus!
