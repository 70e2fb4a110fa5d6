//! The frame sequencer: which kernels run each frame, and which field buffer each one
//! reads and writes.

use vstd::prelude::*;
use crate::dispatch::{Bridge, DispatchDims};

verus! {

/// Longest simulated step, in nanoseconds: a sixth of a second keeps the explicit
/// diffusion integration stable.
pub const MAX_TIMESTEP_NANOS: u64 = 166_666_666;

/// One of the two equally sized field buffers.
#[derive(Debug, Copy, Clone, PartialEq, Eq, Structural)]
pub enum FieldBuffer {
    A,
    B,
}

/// Lifecycle of a session: the first frame seeds the field, every later one steps it.
#[derive(Debug, Copy, Clone, PartialEq, Eq, Structural)]
pub enum Phase {
    Priming,
    Steady,
}

/// The kernel that produces this frame's field.
#[derive(Debug, Copy, Clone, PartialEq, Eq)]
pub enum FieldPass {
    /// One-time initialisation from `seed`, writing `write`.
    Seed { seed: u32, write: FieldBuffer, groups: DispatchDims },
    /// One diffusion step of `timestep_nanos`, reading `read` and writing `write`.
    Diffusion { read: FieldBuffer, write: FieldBuffer, groups: DispatchDims, timestep_nanos: u64 },
}

/// The compute work of one frame, in order: the field pass, then a raymarch reading
/// `raymarch_read`. `read_is_buffer_a` is the flag handed to the kernels.
#[derive(Debug, Copy, Clone, PartialEq, Eq)]
pub struct FramePlan {
    pub field: FieldPass,
    pub raymarch_read: FieldBuffer,
    pub raymarch_groups: DispatchDims,
    pub read_is_buffer_a: bool,
}

/// The state carried from frame to frame.
#[derive(Debug, Copy, Clone, PartialEq, Eq, Structural)]
pub struct FrameSequencer {
    pub phase: Phase,
    /// Whether buffer A holds the freshest field, the one the raymarch reads.
    pub read_is_buffer_a: bool,
}

/// The buffer that a read flag names.
pub open spec fn buffer_of(read_is_buffer_a: bool) -> FieldBuffer {
    if read_is_buffer_a {
        FieldBuffer::A
    } else {
        FieldBuffer::B
    }
}

/// The state after one frame: priming ends for good, and each steady frame swaps the
/// buffers' roles.
pub open spec fn next_state(s: FrameSequencer) -> FrameSequencer {
    match s.phase {
        Phase::Priming => FrameSequencer {
            phase: Phase::Steady,
            read_is_buffer_a: s.read_is_buffer_a,
        },
        Phase::Steady => FrameSequencer {
            phase: Phase::Steady,
            read_is_buffer_a: !s.read_is_buffer_a,
        },
    }
}

/// The timestep of a steady frame after `elapsed_nanos` of wall-clock time.
pub open spec fn clamped_timestep(elapsed_nanos: u64) -> u64 {
    if elapsed_nanos < MAX_TIMESTEP_NANOS {
        elapsed_nanos
    } else {
        MAX_TIMESTEP_NANOS
    }
}

/// The work of the frame that starts in state `s`.
pub open spec fn planned(s: FrameSequencer, bridge: Bridge, elapsed_nanos: u64) -> FramePlan {
    let n = next_state(s);
    match s.phase {
        Phase::Priming => FramePlan {
            field: FieldPass::Seed {
                seed: bridge.rand_seed,
                write: FieldBuffer::A,
                groups: bridge.init_dispatch,
            },
            raymarch_read: FieldBuffer::A,
            raymarch_groups: bridge.raymarch_dispatch,
            read_is_buffer_a: n.read_is_buffer_a,
        },
        Phase::Steady => FramePlan {
            field: FieldPass::Diffusion {
                read: buffer_of(s.read_is_buffer_a),
                write: buffer_of(n.read_is_buffer_a),
                groups: bridge.laplacian_dispatch,
                timestep_nanos: clamped_timestep(elapsed_nanos),
            },
            raymarch_read: buffer_of(n.read_is_buffer_a),
            raymarch_groups: bridge.raymarch_dispatch,
            read_is_buffer_a: n.read_is_buffer_a,
        },
    }
}

impl FrameSequencer {
    /// While priming, buffer A is the one to be seeded and read.
    pub open spec fn wf(self) -> bool {
        self.phase == Phase::Priming ==> self.read_is_buffer_a
    }

    /// The state a session starts in.
    pub open spec fn initial() -> FrameSequencer {
        FrameSequencer { phase: Phase::Priming, read_is_buffer_a: true }
    }

    pub fn new() -> (r: FrameSequencer)
        ensures
            r == FrameSequencer::initial(),
            r.wf(),
    {
        FrameSequencer { phase: Phase::Priming, read_is_buffer_a: true }
    }

    /// Whether the field has been seeded.
    pub fn is_primed(&self) -> (r: bool)
        ensures
            r == (self.phase == Phase::Steady),
    {
        match self.phase {
            Phase::Priming => false,
            Phase::Steady => true,
        }
    }

    /// Decides the compute work of the next frame and moves to the state after it.
    /// `elapsed_nanos` is the wall-clock time since the previous frame.
    pub fn advance(&mut self, bridge: &Bridge, elapsed_nanos: u64) -> (plan: FramePlan)
        requires
            old(self).wf(),
        ensures
            *final(self) == next_state(*old(self)),
            final(self).wf(),
            plan == planned(*old(self), *bridge, elapsed_nanos),
    {
        match self.phase {
            Phase::Priming => {
                self.phase = Phase::Steady;
                FramePlan {
                    field: FieldPass::Seed {
                        seed: bridge.rand_seed,
                        write: FieldBuffer::A,
                        groups: bridge.init_dispatch,
                    },
                    raymarch_read: FieldBuffer::A,
                    raymarch_groups: bridge.raymarch_dispatch,
                    read_is_buffer_a: self.read_is_buffer_a,
                }
            },
            Phase::Steady => {
                let read = if self.read_is_buffer_a {
                    FieldBuffer::A
                } else {
                    FieldBuffer::B
                };
                self.read_is_buffer_a = !self.read_is_buffer_a;
                let write = if self.read_is_buffer_a {
                    FieldBuffer::A
                } else {
                    FieldBuffer::B
                };
                let timestep_nanos: u64 = if elapsed_nanos < MAX_TIMESTEP_NANOS {
                    elapsed_nanos
                } else {
                    MAX_TIMESTEP_NANOS
                };
                FramePlan {
                    field: FieldPass::Diffusion {
                        read,
                        write,
                        groups: bridge.laplacian_dispatch,
                        timestep_nanos,
                    },
                    raymarch_read: write,
                    raymarch_groups: bridge.raymarch_dispatch,
                    read_is_buffer_a: self.read_is_buffer_a,
                }
            },
        }
    }
}

/// The state after `n` frames from `s`.
pub open spec fn run(s: FrameSequencer, n: nat) -> FrameSequencer
    decreases n,
{
    if n == 0 {
        s
    } else {
        next_state(run(s, (n - 1) as nat))
    }
}

/// Whether a plan seeds the field.
pub open spec fn seeds(plan: FramePlan) -> bool {
    plan.field is Seed
}

/// How many of the first `n` frames from `s` seed the field, where frame `k` follows
/// `elapsed(k)` nanoseconds of wall-clock time.
pub open spec fn seed_frames(
    s: FrameSequencer,
    bridge: Bridge,
    elapsed: spec_fn(nat) -> u64,
    n: nat,
) -> nat
    decreases n,
{
    if n == 0 {
        0
    } else {
        let k = (n - 1) as nat;
        seed_frames(s, bridge, elapsed, k) + if seeds(planned(run(s, k), bridge, elapsed(k))) {
            1nat
        } else {
            0nat
        }
    }
}

/// After the first frame a session is steady for good.
pub proof fn lemma_steady_after_first_frame(s: FrameSequencer, k: nat)
    requires
        k >= 1,
    ensures
        run(s, k).phase == Phase::Steady,
    decreases k,
{
    if k > 1 {
        lemma_steady_after_first_frame(s, (k - 1) as nat);
    }
}

/// Over a session of any length from the initial state, exactly one frame seeds the field.
pub proof fn lemma_seeded_once(bridge: Bridge, elapsed: spec_fn(nat) -> u64, n: nat)
    requires
        n >= 1,
    ensures
        seed_frames(FrameSequencer::initial(), bridge, elapsed, n) == 1,
    decreases n,
{
    let s = FrameSequencer::initial();
    assert(run(s, 0) == s);
    if n > 1 {
        let k = (n - 1) as nat;
        lemma_seeded_once(bridge, elapsed, k);
        lemma_steady_after_first_frame(s, k);
        assert(!seeds(planned(run(s, k), bridge, elapsed(k))));
    } else {
        assert(seed_frames(s, bridge, elapsed, 0) == 0);
        assert(seeds(planned(run(s, 0), bridge, elapsed(0))));
    }
}

/// The priming frame leaves the read flag as it was; each frame after it flips the flag.
pub proof fn lemma_read_flag_flips(k: nat)
    ensures
        run(FrameSequencer::initial(), 1).read_is_buffer_a
            == FrameSequencer::initial().read_is_buffer_a,
        k >= 1 ==> run(FrameSequencer::initial(), k + 1).read_is_buffer_a != run(
            FrameSequencer::initial(),
            k,
        ).read_is_buffer_a,
{
    assert(run(FrameSequencer::initial(), 0) == FrameSequencer::initial());
    if k >= 1 {
        lemma_steady_after_first_frame(FrameSequencer::initial(), k);
    }
}

/// In steady state no frame's diffusion reads the buffer it writes, and two consecutive
/// frames alternate: the second reads what the first wrote and writes what it read. Each
/// frame's raymarch reads the buffer its diffusion has just written.
pub proof fn lemma_steady_frames_alternate(s: FrameSequencer, bridge: Bridge, e1: u64, e2: u64)
    requires
        s.phase == Phase::Steady,
    ensures
        ({
            let p1 = planned(s, bridge, e1);
            let p2 = planned(next_state(s), bridge, e2);
            match (p1.field, p2.field) {
                (
                    FieldPass::Diffusion { read: r1, write: w1, .. },
                    FieldPass::Diffusion { read: r2, write: w2, .. },
                ) => {
                    &&& r1 != w1
                    &&& r2 != w2
                    &&& r2 == w1
                    &&& w2 == r1
                    &&& p1.raymarch_read == w1
                    &&& p2.raymarch_read == w2
                },
                _ => false,
            }
        }),
{
}

} // verus!
