//! The GPU frame-in-flight pipeline.
//!
//! A `FramePipeline` owns the graphics device chain and a fixed ring of
//! `FrameSlot`s, each bundling one reusable recording context with a
//! completion fence. The pipeline is a state machine: every mutation of it
//! is an exec function whose contract equates the new state with a spec
//! transition on `PipelineModel`, the mathematical image of the pipeline.
//! The caller performs the actual device work (acquire, submit, present,
//! fence waits) between these steps and feeds the observed results back
//! in; the contracts make the unsafe orders unreachable: a slot cannot be
//! reused before its fence was observed at the slot's expected value, a
//! slot cannot be destroyed while anything is still retired on it, and the
//! device chain is released in one fixed order only after every slot is
//! destroyed.

use vstd::prelude::*;
use vstd::arithmetic::div_mod::lemma_small_mod;
use vstd::arithmetic::div_mod::lemma_mod_self_0;
use vstd::arithmetic::div_mod::lemma_fundamental_div_mod;
use vstd::arithmetic::div_mod::lemma_fundamental_div_mod_converse;

verus! {

/// Ring depth the presentation loop asks for; the surface may clamp it.
pub const MAX_FRAMES_IN_FLIGHT: u32 = 3;

/// Why pipeline construction aborted. All of these are terminal: no
/// partial pipeline is left reachable behind any of them.
#[derive(Copy, Clone, PartialEq, Eq, Structural, Debug)]
pub enum InitError {
    /// Adapter enumeration came back empty.
    NoAdapter,
    /// The selected adapter reported no capabilities for the surface.
    NoSurfaceCapabilities,
    /// Opening the device and queue on the adapter failed.
    DeviceOpenFailed,
    /// Configuring the surface on the opened device failed.
    SurfaceConfigureFailed,
}

/// Failure of the per-frame surface-image acquisition. Fatal for the
/// presentation loop: there is no retry policy, the loop stops.
#[derive(Copy, Clone, PartialEq, Eq, Structural, Debug)]
pub enum AcquireError {
    SurfaceImageUnavailable,
}

/// Lifecycle phase of one frame slot.
#[derive(Copy, Clone, PartialEq, Eq, Structural, Debug)]
pub enum SlotPhase {
    /// Nothing outstanding: fresh, or cleared after a confirmed-complete
    /// submission. The only phase from which recording or destruction may
    /// start.
    Ready,
    /// The slot's encoder is recording the current frame.
    Recording,
    /// The slot's last recording was submitted; its fence will signal the
    /// slot's expected value once that work retires on the device.
    Submitted,
    /// The slot's encoder and fence are gone; terminal.
    Destroyed,
}

/// One reusable unit of per-frame recording and synchronization state.
/// The encoder and fence themselves live on the device; the slot tracks
/// what the pipeline must know about them: the fence value the last
/// submission will signal, and the retired resources (as opaque handles)
/// that may be released only after that value was observed.
pub struct FrameSlot {
    pub phase: SlotPhase,
    /// Monotonically increasing fence counter; the slot's prior work is
    /// known complete iff the fence was observed at or above this value.
    pub expected_value: u64,
    /// Transient texture views created by the slot's past recordings, in
    /// creation order, awaiting release.
    pub retired_views: Vec<u64>,
    /// Command buffers submitted from this slot, in submission order,
    /// awaiting release.
    pub retired_cmd_bufs: Vec<u64>,
    /// Diagnostic count of frames recorded since the last reclaim.
    pub frames_recorded: usize,
    /// Diagnostic count of times this slot was waited for and cleared.
    pub reclaims: u64,
}

/// Mathematical image of one slot.
#[verifier::ext_equal]
pub struct SlotModel {
    pub phase: SlotPhase,
    pub expected: int,
    pub views: Seq<u64>,
    pub cmd_bufs: Seq<u64>,
    pub frames: int,
    pub reclaims: int,
}

impl FrameSlot {
    pub open spec fn model(self) -> SlotModel {
        SlotModel {
            phase: self.phase,
            expected: self.expected_value as int,
            views: self.retired_views@,
            cmd_bufs: self.retired_cmd_bufs@,
            frames: self.frames_recorded as int,
            reclaims: self.reclaims as int,
        }
    }
}

impl SlotModel {
    /// A slot as initialization creates it: fence at zero, nothing
    /// retired, never recorded.
    pub open spec fn fresh() -> SlotModel {
        SlotModel {
            phase: SlotPhase::Ready,
            expected: 0,
            views: Seq::empty(),
            cmd_bufs: Seq::empty(),
            frames: 0,
            reclaims: 0,
        }
    }

    /// The slot's prior GPU work is complete at observed fence value
    /// `observed`.
    pub open spec fn complete_at(self, observed: int) -> bool {
        observed >= self.expected
    }

    /// Nothing is retired on the slot, so it may be destroyed.
    pub open spec fn drained(self) -> bool {
        &&& self.phase == SlotPhase::Ready
        &&& self.views.len() == 0
        &&& self.cmd_bufs.len() == 0
    }

    /// Waited for and cleared: retired resources released, counters reset.
    pub open spec fn reclaimed(self) -> SlotModel {
        SlotModel {
            phase: SlotPhase::Ready,
            expected: self.expected,
            views: Seq::empty(),
            cmd_bufs: Seq::empty(),
            frames: 0,
            reclaims: self.reclaims + 1,
        }
    }

    /// Recording began on the slot's encoder.
    pub open spec fn recording(self) -> SlotModel {
        SlotModel { phase: SlotPhase::Recording, ..self }
    }

    /// The recorded frame was submitted, signalling `expected + 1`, and
    /// its transient view and command buffer joined the retirement lists.
    pub open spec fn submitted(self, view: u64, cmd_buf: u64) -> SlotModel {
        SlotModel {
            phase: SlotPhase::Submitted,
            expected: self.expected + 1,
            views: self.views.push(view),
            cmd_bufs: self.cmd_bufs.push(cmd_buf),
            frames: self.frames + 1,
            reclaims: self.reclaims,
        }
    }

    /// An empty batch was submitted on the slot's fence to obtain one
    /// final value to wait for; nothing new is retired.
    pub open spec fn empty_submitted(self) -> SlotModel {
        SlotModel { phase: SlotPhase::Submitted, expected: self.expected + 1, ..self }
    }

    /// The slot's encoder and fence were released.
    pub open spec fn destroyed(self) -> SlotModel {
        SlotModel { phase: SlotPhase::Destroyed, ..self }
    }
}

/// Lifecycle state of the whole pipeline. Transitions only ever move
/// forward: `Running` to `Draining` (on the shutdown signal) to
/// `Destroyed`; no transition skips a state or goes back.
#[derive(Copy, Clone, PartialEq, Eq, Structural, Debug)]
pub enum PipelineState {
    Running,
    Draining,
    Destroyed,
}

/// Mathematical image of the pipeline: the slot ring, the cursor, and the
/// lifecycle state.
#[verifier::ext_equal]
pub struct PipelineModel {
    pub slots: Seq<SlotModel>,
    pub index: int,
    pub state: PipelineState,
}

impl PipelineModel {
    pub open spec fn ring_size(self) -> int {
        self.slots.len() as int
    }

    pub open spec fn current(self) -> SlotModel {
        self.slots[self.index]
    }

    /// Well-formedness: the cursor stays on the ring, and at most one slot
    /// is ever recording — the current one, and only while running.
    pub open spec fn wf(self) -> bool {
        &&& 1 <= self.slots.len()
        &&& 0 <= self.index < self.slots.len()
        &&& (forall|i: int|
            0 <= i < self.slots.len() && i != self.index ==> (#[trigger] self.slots[i]).phase
                != SlotPhase::Recording)
        &&& (self.state != PipelineState::Running ==> self.current().phase != SlotPhase::Recording)
    }

    /// The pipeline as initialization leaves it: `n` fresh slots, cursor
    /// at zero, running.
    pub open spec fn fresh(n: int) -> PipelineModel {
        PipelineModel {
            slots: Seq::new(n as nat, |i: int| SlotModel::fresh()),
            index: 0,
            state: PipelineState::Running,
        }
    }

    /// Every step of the render protocol requires this: a well-formed
    /// pipeline that has not begun shutting down.
    pub open spec fn rendering_allowed(self) -> bool {
        self.wf() && self.state == PipelineState::Running
    }

    /// Shutdown may begin: running, and no frame is mid-recording.
    pub open spec fn shutdown_allowed(self) -> bool {
        self.rendering_allowed() && self.current().phase != SlotPhase::Recording
    }

    /// The cursor after one frame: one step around the ring.
    pub open spec fn next_index(self) -> int {
        if self.index + 1 == self.ring_size() {
            0
        } else {
            self.index + 1
        }
    }

    /// Slot `i` waited for and cleared.
    pub open spec fn reclaim_at(self, i: int) -> PipelineModel {
        PipelineModel { slots: self.slots.update(i, self.slots[i].reclaimed()), ..self }
    }

    /// Recording began on the current slot.
    pub open spec fn begin_step(self) -> PipelineModel {
        PipelineModel { slots: self.slots.update(self.index, self.current().recording()), ..self }
    }

    /// The current frame was submitted and presented; the cursor advances.
    pub open spec fn submit_step(self, view: u64, cmd_buf: u64) -> PipelineModel {
        PipelineModel {
            slots: self.slots.update(self.index, self.current().submitted(view, cmd_buf)),
            index: self.next_index(),
            state: self.state,
        }
    }

    /// One whole renderFrame: the current slot is drained first if (and
    /// only if) it still carries a prior submission, then records and
    /// submits one frame.
    pub open spec fn render_step(self, view: u64, cmd_buf: u64) -> PipelineModel {
        let drained = if self.current().phase == SlotPhase::Submitted {
            self.reclaim_at(self.index)
        } else {
            self
        };
        drained.begin_step().submit_step(view, cmd_buf)
    }

    /// `k` renderFrames in a row. The recorded handle values do not affect
    /// scheduling, so zeros stand in for them.
    pub open spec fn render_run(self, k: nat) -> PipelineModel
        decreases k,
    {
        if k == 0 {
            self
        } else {
            self.render_run((k - 1) as nat).render_step(0, 0)
        }
    }

    /// Shutdown began: an empty batch was submitted on the current slot's
    /// fence, and the pipeline will never render again.
    pub open spec fn drain_begin_step(self) -> PipelineModel {
        PipelineModel {
            slots: self.slots.update(self.index, self.current().empty_submitted()),
            index: self.index,
            state: PipelineState::Draining,
        }
    }

    /// Slot `i`'s encoder and fence were released.
    pub open spec fn destroy_step(self, i: int) -> PipelineModel {
        PipelineModel { slots: self.slots.update(i, self.slots[i].destroyed()), ..self }
    }

    /// The device chain was released; terminal.
    pub open spec fn close_step(self) -> PipelineModel {
        PipelineModel { slots: self.slots, index: self.index, state: PipelineState::Destroyed }
    }
}

/// A device-chain action of the final teardown, performed by the caller.
#[derive(Copy, Clone, PartialEq, Eq, Structural, Debug)]
pub enum TeardownAction {
    /// Unconfigure the surface on the device.
    UnconfigureSurface,
    /// Release the device, passing it the queue for coordinated release.
    ReleaseDevice,
    /// Destroy the surface handle via the instance.
    DestroySurface,
    /// Release the adapter.
    ReleaseAdapter,
}

/// The one order in which the device chain may be torn down, after every
/// slot is destroyed: the surface is unconfigured before the device that
/// configured it is released, and the surface handle is destroyed before
/// the adapter goes.
pub open spec fn teardown_order() -> Seq<TeardownAction> {
    seq![
        TeardownAction::UnconfigureSurface,
        TeardownAction::ReleaseDevice,
        TeardownAction::DestroySurface,
        TeardownAction::ReleaseAdapter,
    ]
}

/// What the surface reports at initialization: the range of swap-chain
/// sizes it supports.
#[derive(Copy, Clone, PartialEq, Eq, Structural, Debug)]
pub struct SurfaceCaps {
    pub min_swap_chain_size: u32,
    pub max_swap_chain_size: u32,
}

/// `desired` clamped into `[lo, hi]`.
pub open spec fn clamped(desired: int, lo: int, hi: int) -> int {
    if desired < lo {
        lo
    } else if desired > hi {
        hi
    } else {
        desired
    }
}

/// The decisions initialization settles before any device is opened:
/// which adapter to take and how deep to configure the swap chain.
#[derive(Copy, Clone, PartialEq, Eq, Structural, Debug)]
pub struct InitPlan {
    /// Index of the adapter to open: the first one enumerated.
    pub adapter_index: usize,
    /// Ring depth, clamped into what the surface supports.
    pub swap_chain_size: u32,
}

/// Decide initialization from what enumeration and the surface reported:
/// take the first adapter, or fail with `NoAdapter` when none was found;
/// fail with `NoSurfaceCapabilities` when the adapter reported none; else
/// configure the swap chain at `MAX_FRAMES_IN_FLIGHT` clamped into the
/// supported range. Each error comes exactly on the stated input, and on
/// an error no pipeline is ever constructed, so no partial pipeline or
/// stray device resource is left behind.
pub fn plan_initialization(adapter_count: usize, caps: Option<SurfaceCaps>) -> (r: Result<
    InitPlan,
    InitError,
>)
    requires
        caps matches Some(c) ==> c.min_swap_chain_size <= c.max_swap_chain_size,
    ensures
        adapter_count == 0 ==> r == Err::<InitPlan, InitError>(InitError::NoAdapter),
        adapter_count > 0 && caps is None ==> r == Err::<InitPlan, InitError>(
            InitError::NoSurfaceCapabilities,
        ),
        adapter_count > 0 && caps is Some ==> (r matches Ok(p) && p.adapter_index == 0
            && p.swap_chain_size as int == clamped(
            MAX_FRAMES_IN_FLIGHT as int,
            caps->Some_0.min_swap_chain_size as int,
            caps->Some_0.max_swap_chain_size as int,
        )),
{
    if adapter_count == 0 {
        return Err(InitError::NoAdapter);
    }
    match caps {
        None => Err(InitError::NoSurfaceCapabilities),
        Some(c) => {
            let desired = MAX_FRAMES_IN_FLIGHT;
            let size = if desired < c.min_swap_chain_size {
                c.min_swap_chain_size
            } else if desired > c.max_swap_chain_size {
                c.max_swap_chain_size
            } else {
                desired
            };
            Ok(InitPlan { adapter_index: 0, swap_chain_size: size })
        },
    }
}

/// Shutdown is one-way and exclusive: once the pipeline has left
/// `Running`, no step of the render protocol and no second shutdown
/// satisfies its precondition. Calling `renderFrame` after `shutdown` is
/// thereby a precondition violation, never a silent no-op, and shutdown
/// itself can begin at most once.
pub proof fn lemma_shutdown_is_terminal(m: PipelineModel)
    requires
        m.state != PipelineState::Running,
    ensures
        !m.rendering_allowed(),
        !m.shutdown_allowed(),
{
}

/// How many of the first `k` frames use slot `j` in a ring of size `n`:
/// frame `m` (counting from zero) uses slot `m % n`.
pub open spec fn uses_of_slot(n: int, k: nat, j: int) -> int
    decreases k,
{
    if k == 0 {
        0
    } else {
        uses_of_slot(n, (k - 1) as nat, j) + if ((k - 1) as int) % n == j {
            1int
        } else {
            0int
        }
    }
}

/// Scheduling law: from a fresh pipeline with ring size `n`, the cursor
/// after `k` frames stands at `k % n`, so the `(k+1)`-th renderFrame uses
/// slot `k % n` — the ring is walked strictly round-robin, and the run
/// stays well-formed and running.
pub proof fn lemma_slot_schedule(n: int, k: nat)
    requires
        1 <= n,
    ensures
        PipelineModel::fresh(n).render_run(k).wf(),
        PipelineModel::fresh(n).render_run(k).ring_size() == n,
        PipelineModel::fresh(n).render_run(k).state == PipelineState::Running,
        PipelineModel::fresh(n).render_run(k).index == (k as int) % n,
    decreases k,
{
    if k == 0 {
        lemma_small_mod(0, n as nat);
    } else {
        lemma_slot_schedule(n, (k - 1) as nat);
        let prev = PipelineModel::fresh(n).render_run((k - 1) as nat);
        let i = prev.index;
        lemma_fundamental_div_mod((k - 1) as int, n);
        let q = ((k - 1) as int) / n;
        assert((k - 1) as int == n * q + i);
        if i + 1 == n {
            assert(k as int == (q + 1) * n + 0) by (nonlinear_arith)
                requires
                    (k - 1) as int == n * q + i,
                    i + 1 == n,
            ;
            lemma_fundamental_div_mod_converse(k as int, n, q + 1, 0);
        } else {
            assert(k as int == q * n + (i + 1)) by (nonlinear_arith)
                requires
                    (k - 1) as int == n * q + i,
            ;
            lemma_fundamental_div_mod_converse(k as int, n, q, i + 1);
        }
    }
}

/// Per-slot bookkeeping along a run: after `k` frames from a fresh ring
/// of size `n`, slot `j` carries one fence increment per use, has been
/// reclaimed on every use after its first (lazily, just before reuse),
/// and stands `Submitted` iff it was used at all, with exactly the one
/// last frame recorded on it since its last reclaim.
pub proof fn lemma_run_slot_state(n: int, k: nat, j: int)
    requires
        1 <= n,
        0 <= j < n,
    ensures
        0 <= uses_of_slot(n, k, j),
        PipelineModel::fresh(n).render_run(k).slots[j].expected == uses_of_slot(n, k, j),
        PipelineModel::fresh(n).render_run(k).slots[j].reclaims == (if uses_of_slot(n, k, j) == 0 {
            0int
        } else {
            uses_of_slot(n, k, j) - 1
        }),
        PipelineModel::fresh(n).render_run(k).slots[j].phase == (if uses_of_slot(n, k, j) == 0 {
            SlotPhase::Ready
        } else {
            SlotPhase::Submitted
        }),
        PipelineModel::fresh(n).render_run(k).slots[j].frames == (if uses_of_slot(n, k, j) == 0 {
            0int
        } else {
            1int
        }),
    decreases k,
{
    if k > 0 {
        lemma_run_slot_state(n, (k - 1) as nat, j);
        lemma_slot_schedule(n, (k - 1) as nat);
        let prev = PipelineModel::fresh(n).render_run((k - 1) as nat);
        let run = PipelineModel::fresh(n).render_run(k);
        let u_old = uses_of_slot(n, (k - 1) as nat, j);
        let u = uses_of_slot(n, k, j);
        assert(run == prev.render_step(0, 0));
        if j == prev.index {
            assert(u == u_old + 1);
            if u_old == 0 {
                assert(run.slots[j] == prev.current().recording().submitted(0, 0));
            } else {
                assert(run.slots[j] == prev.current().reclaimed().recording().submitted(0, 0));
            }
        } else {
            assert(u == u_old);
            assert(run.slots[j] == prev.slots[j]);
        }
    }
}

/// Counting uses of the first slot: it is used once within the first `n`
/// frames (namely by the very first), and a second time from frame `n + 1`
/// on.
proof fn lemma_uses_of_slot_zero(n: int, k: nat)
    requires
        1 <= n,
    ensures
        k == 0 ==> uses_of_slot(n, k, 0) == 0,
        1 <= k <= n ==> uses_of_slot(n, k, 0) == 1,
        k > n ==> uses_of_slot(n, k, 0) >= 2,
    decreases k,
{
    if k > 0 {
        lemma_uses_of_slot_zero(n, (k - 1) as nat);
        let m = (k - 1) as int;
        if m == 0 {
            lemma_small_mod(0, n as nat);
        } else if m < n {
            lemma_small_mod((k - 1) as nat, n as nat);
        } else if m == n {
            lemma_mod_self_0(n);
        }
    }
}

/// Lazy-reclaim law: with ring size `n`, the first slot is never
/// reclaimed within the first `n` frames — it is reused, and therefore
/// drained for the first time, only by frame `n + 1` — and after any
/// `k >= n + 1` frames it has been reclaimed at least once. Reclamation
/// itself is reachable only through `reclaim_current`, whose precondition
/// demands that the slot's expected fence value was observed reached.
pub proof fn lemma_first_slot_reclaim(n: int, k: nat)
    requires
        1 <= n,
    ensures
        k <= n ==> PipelineModel::fresh(n).render_run(k).slots[0].reclaims == 0,
        k >= n + 1 ==> PipelineModel::fresh(n).render_run(k).slots[0].reclaims >= 1,
{
    lemma_run_slot_state(n, k, 0);
    lemma_uses_of_slot_zero(n, k);
}

/// The frame-in-flight pipeline: the slot ring and cursor, with the
/// lifecycle state that gates every operation. The device objects
/// themselves (instance, adapter, surface, device, queue) are owned by the
/// caller that drives this state machine; their handles never appear here,
/// only the decisions and bookkeeping that keep their use safe.
pub struct FramePipeline {
    slots: Vec<FrameSlot>,
    frame_index: usize,
    state: PipelineState,
}

impl FramePipeline {
    /// The mathematical state of the pipeline.
    pub closed spec fn model(self) -> PipelineModel {
        PipelineModel {
            slots: self.slots@.map_values(|s: FrameSlot| s.model()),
            index: self.frame_index as int,
            state: self.state,
        }
    }

    /// Build the slot ring, as initialization does once the device is
    /// open: all `ring_size` slots are created eagerly, each with a fresh
    /// recording context and a fence at value zero.
    pub fn new(ring_size: usize) -> (r: Self)
        requires
            1 <= ring_size,
        ensures
            r.model() == PipelineModel::fresh(ring_size as int),
            r.model().wf(),
    {
        let mut slots: Vec<FrameSlot> = Vec::new();
        let mut i: usize = 0;
        while i < ring_size
            invariant
                i <= ring_size,
                slots@.len() == i,
                forall|j: int| 0 <= j < i ==> (#[trigger] slots@[j]).model() == SlotModel::fresh(),
            decreases ring_size - i,
        {
            slots.push(
                FrameSlot {
                    phase: SlotPhase::Ready,
                    expected_value: 0,
                    retired_views: Vec::new(),
                    retired_cmd_bufs: Vec::new(),
                    frames_recorded: 0,
                    reclaims: 0,
                },
            );
            i = i + 1;
        }
        let r = FramePipeline { slots, frame_index: 0, state: PipelineState::Running };
        proof {
            assert(r.model().slots =~= PipelineModel::fresh(ring_size as int).slots);
            assert(r.model() =~= PipelineModel::fresh(ring_size as int));
        }
        r
    }

    /// Number of slots in the ring, fixed for the pipeline's lifetime.
    pub fn ring_size(&self) -> (r: usize)
        ensures
            r as int == self.model().ring_size(),
    {
        self.slots.len()
    }

    /// The cursor: index of the slot the next frame will use.
    pub fn current_slot(&self) -> (r: usize)
        ensures
            r as int == self.model().index,
    {
        self.frame_index
    }

    /// Whether the pipeline is still running (may render).
    pub fn is_running(&self) -> (r: bool)
        ensures
            r == (self.model().state == PipelineState::Running),
    {
        self.state == PipelineState::Running
    }

    /// Whether the current slot still carries a prior submission, which
    /// must be waited for and reclaimed before the slot records again.
    pub fn needs_reclaim(&self) -> (r: bool)
        requires
            self.model().wf(),
        ensures
            r == (self.model().current().phase == SlotPhase::Submitted),
    {
        self.slots[self.frame_index].phase == SlotPhase::Submitted
    }

    /// The fence value the current slot's last submission will signal: the
    /// value the caller must observe before `reclaim_current`.
    pub fn reclaim_fence_target(&self) -> (r: u64)
        requires
            self.model().wf(),
        ensures
            r as int == self.model().current().expected,
    {
        self.slots[self.frame_index].expected_value
    }

    /// Diagnostic: frames recorded on slot `i` since its last reclaim.
    pub fn slot_frames_recorded(&self, i: usize) -> (r: usize)
        requires
            i < self.model().ring_size(),
        ensures
            r as int == self.model().slots[i as int].frames,
    {
        self.slots[i].frames_recorded
    }

    /// Lifecycle phase of slot `i`; teardown drivers read it to decide
    /// which slots still need a drain before destruction.
    pub fn slot_phase(&self, i: usize) -> (r: SlotPhase)
        requires
            i < self.model().ring_size(),
        ensures
            r == self.model().slots[i as int].phase,
    {
        self.slots[i].phase
    }

    /// The fence value slot `i`'s last submission will signal: what the
    /// caller must observe before `drain_slot(i, ..)`.
    pub fn slot_fence_target(&self, i: usize) -> (r: u64)
        requires
            i < self.model().ring_size(),
        ensures
            r as int == self.model().slots[i as int].expected,
    {
        self.slots[i].expected_value
    }

    /// Diagnostic: how many times slot `i` was waited for and cleared.
    pub fn slot_reclaims(&self, i: usize) -> (r: u64)
        requires
            i < self.model().ring_size(),
        ensures
            r as int == self.model().slots[i as int].reclaims,
    {
        self.slots[i].reclaims
    }

    /// Reclaim the current slot after the caller observed its completion
    /// fence at (or above) the slot's expected value: every retired view
    /// and command buffer is handed back for release, both lists and the
    /// frame counter are cleared, and the slot becomes recordable again.
    /// This is the only way a used slot returns to `Ready`, so a slot is
    /// never reused before its prior GPU work is confirmed complete.
    pub fn reclaim_current(&mut self, observed_fence: u64) -> (r: (Vec<u64>, Vec<u64>))
        requires
            old(self).model().rendering_allowed(),
            old(self).model().current().phase == SlotPhase::Submitted,
            old(self).model().current().complete_at(observed_fence as int),
            old(self).model().current().reclaims < u64::MAX,
        ensures
            final(self).model() == old(self).model().reclaim_at(old(self).model().index),
            final(self).model().rendering_allowed(),
            r.0@ == old(self).model().current().views,
            r.1@ == old(self).model().current().cmd_bufs,
    {
        let i = self.frame_index;
        let slot = self.slots.remove(i);
        let cleared = FrameSlot {
            phase: SlotPhase::Ready,
            expected_value: slot.expected_value,
            retired_views: Vec::new(),
            retired_cmd_bufs: Vec::new(),
            frames_recorded: 0,
            reclaims: slot.reclaims + 1,
        };
        self.slots.insert(i, cleared);
        proof {
            let target = old(self).model().reclaim_at(old(self).model().index);
            assert(self.model().slots =~= target.slots);
            assert(self.model() =~= target);
        }
        (slot.retired_views, slot.retired_cmd_bufs)
    }

    /// Begin recording the next frame on the current slot. Only a drained
    /// or fresh slot may record, so at most one slot of the ring is ever
    /// recording. Returns the slot's index.
    pub fn begin_recording(&mut self) -> (r: usize)
        requires
            old(self).model().rendering_allowed(),
            old(self).model().current().phase == SlotPhase::Ready,
        ensures
            final(self).model() == old(self).model().begin_step(),
            final(self).model().rendering_allowed(),
            r as int == old(self).model().index,
    {
        let i = self.frame_index;
        let mut slot = self.slots.remove(i);
        slot.phase = SlotPhase::Recording;
        self.slots.insert(i, slot);
        proof {
            assert(self.model().slots =~= old(self).model().begin_step().slots);
            assert(self.model() =~= old(self).model().begin_step());
        }
        i
    }

    /// Finish the frame on the current slot: the recorded command buffer
    /// was submitted paired with the slot's fence at one new expected
    /// value, and the acquired image presented. The transient view and the
    /// command buffer join the slot's retirement lists, and the cursor
    /// advances one step around the ring. Returns the fence value the
    /// submission will signal.
    pub fn submit_recorded(&mut self, view_handle: u64, cmd_buf_handle: u64) -> (r: u64)
        requires
            old(self).model().rendering_allowed(),
            old(self).model().current().phase == SlotPhase::Recording,
            old(self).model().current().expected < u64::MAX,
            old(self).model().current().frames < usize::MAX,
        ensures
            final(self).model() == old(self).model().submit_step(view_handle, cmd_buf_handle),
            final(self).model().rendering_allowed(),
            r as int == old(self).model().current().expected + 1,
    {
        let i = self.frame_index;
        let mut slot = self.slots.remove(i);
        slot.phase = SlotPhase::Submitted;
        slot.expected_value = slot.expected_value + 1;
        slot.retired_views.push(view_handle);
        slot.retired_cmd_bufs.push(cmd_buf_handle);
        slot.frames_recorded = slot.frames_recorded + 1;
        let fence_value = slot.expected_value;
        self.slots.insert(i, slot);
        let n = self.slots.len();
        proof {
            assert(i < n);
        }
        self.frame_index = if i + 1 == n {
            0
        } else {
            i + 1
        };
        proof {
            let target = old(self).model().submit_step(view_handle, cmd_buf_handle);
            assert(self.model().slots =~= target.slots);
            assert(self.model() =~= target);
        }
        fence_value
    }

    /// Begin shutdown: an empty batch is submitted on the current slot,
    /// pairing its fence with one final expected value for the caller to
    /// wait on. The pipeline leaves `Running` for good; no render step's
    /// precondition can hold again. Returns the final fence value.
    pub fn begin_shutdown(&mut self) -> (r: u64)
        requires
            old(self).model().shutdown_allowed(),
            old(self).model().current().expected < u64::MAX,
        ensures
            final(self).model() == old(self).model().drain_begin_step(),
            final(self).model().wf(),
            final(self).model().state == PipelineState::Draining,
            r as int == old(self).model().current().expected + 1,
    {
        let i = self.frame_index;
        let mut slot = self.slots.remove(i);
        slot.phase = SlotPhase::Submitted;
        slot.expected_value = slot.expected_value + 1;
        let fence_value = slot.expected_value;
        self.slots.insert(i, slot);
        self.state = PipelineState::Draining;
        proof {
            assert(self.model().slots =~= old(self).model().drain_begin_step().slots);
            assert(self.model() =~= old(self).model().drain_begin_step());
        }
        fence_value
    }

    /// Drain slot `i` during teardown, after the caller observed its fence
    /// at the slot's expected value: its retired resources come back for
    /// release and the slot is cleared, ready to be destroyed.
    pub fn drain_slot(&mut self, i: usize, observed_fence: u64) -> (r: (Vec<u64>, Vec<u64>))
        requires
            old(self).model().wf(),
            old(self).model().state == PipelineState::Draining,
            i < old(self).model().ring_size(),
            old(self).model().slots[i as int].phase == SlotPhase::Submitted,
            old(self).model().slots[i as int].complete_at(observed_fence as int),
            old(self).model().slots[i as int].reclaims < u64::MAX,
        ensures
            final(self).model() == old(self).model().reclaim_at(i as int),
            final(self).model().wf(),
            final(self).model().state == PipelineState::Draining,
            r.0@ == old(self).model().slots[i as int].views,
            r.1@ == old(self).model().slots[i as int].cmd_bufs,
    {
        let slot = self.slots.remove(i);
        let cleared = FrameSlot {
            phase: SlotPhase::Ready,
            expected_value: slot.expected_value,
            retired_views: Vec::new(),
            retired_cmd_bufs: Vec::new(),
            frames_recorded: 0,
            reclaims: slot.reclaims + 1,
        };
        self.slots.insert(i, cleared);
        proof {
            assert(self.model().slots =~= old(self).model().reclaim_at(i as int).slots);
            assert(self.model() =~= old(self).model().reclaim_at(i as int));
        }
        (slot.retired_views, slot.retired_cmd_bufs)
    }

    /// Destroy slot `i`'s recording context and fence. Only a drained slot
    /// — cleared, with nothing retired — can be destroyed, so a slot with
    /// outstanding GPU work can never reach this point.
    pub fn destroy_slot(&mut self, i: usize)
        requires
            old(self).model().wf(),
            old(self).model().state == PipelineState::Draining,
            i < old(self).model().ring_size(),
            old(self).model().slots[i as int].drained(),
        ensures
            final(self).model() == old(self).model().destroy_step(i as int),
            final(self).model().wf(),
            final(self).model().state == PipelineState::Draining,
    {
        let mut slot = self.slots.remove(i);
        slot.phase = SlotPhase::Destroyed;
        self.slots.insert(i, slot);
        proof {
            assert(self.model().slots =~= old(self).model().destroy_step(i as int).slots);
            assert(self.model() =~= old(self).model().destroy_step(i as int));
        }
    }

    /// Close the pipeline once every slot is destroyed, returning the
    /// device-chain actions the caller must now perform, in exactly the
    /// required order: unconfigure the surface, release the device with
    /// its queue, destroy the surface handle, release the adapter.
    pub fn finish_teardown(&mut self) -> (r: Vec<TeardownAction>)
        requires
            old(self).model().wf(),
            old(self).model().state == PipelineState::Draining,
            forall|i: int|
                0 <= i < old(self).model().ring_size() ==> (#[trigger] old(self).model().slots[i]).phase
                    == SlotPhase::Destroyed,
        ensures
            final(self).model() == old(self).model().close_step(),
            final(self).model().state == PipelineState::Destroyed,
            r@ == teardown_order(),
    {
        self.state = PipelineState::Destroyed;
        let mut actions: Vec<TeardownAction> = Vec::new();
        actions.push(TeardownAction::UnconfigureSurface);
        actions.push(TeardownAction::ReleaseDevice);
        actions.push(TeardownAction::DestroySurface);
        actions.push(TeardownAction::ReleaseAdapter);
        proof {
            assert(self.model() =~= old(self).model().close_step());
            assert(actions@ =~= teardown_order());
        }
        actions
    }
}

} // verus!

