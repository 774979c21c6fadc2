use vstd::prelude::*;

verus! {

/// Renders an image as `n_spp` full passes, each adding one sample to every pixel;
/// `delegate` computes the radiance carried by a single camera ray.
#[derive(Debug, Clone)]
pub struct SampleIntegrator<D> {
    pub n_spp: u32,
    pub delegate: D,
}

impl<D: Default> Default for SampleIntegrator<D> {
    /// One sample per pixel.
    fn default() -> (r: Self)
        ensures
            r.n_spp == 1,
    {
        SampleIntegrator { n_spp: 1, delegate: D::default() }
    }
}

impl<D> SampleIntegrator<D> {
    /// The pass schedule of a fresh render with this integrator's sample count.
    pub fn start_render(&self) -> (r: RenderProgress)
        ensures
            r.wf(),
            r.total() == self.n_spp,
            r.done() == 0,
    {
        RenderProgress::new(self.n_spp)
    }
}

/// Progress of one render: how many of its sample passes are complete.
///
/// Passes run in order; pass `k` blends the `k + 1`-th sample into the running mean of each
/// pixel. A render stops early when a termination request is seen between passes.
#[derive(Debug, Clone, Copy)]
pub struct RenderProgress {
    n_spp: u32,
    done: u32,
}

impl RenderProgress {
    /// The number of passes the render is asked for.
    pub closed spec fn total(&self) -> nat {
        self.n_spp as nat
    }

    /// The number of passes completed so far.
    pub closed spec fn done(&self) -> nat {
        self.done as nat
    }

    pub open spec fn wf(&self) -> bool {
        self.done() <= self.total()
    }

    /// The completed share of the render in thousandths, rounded down; a render of no pass
    /// stays at zero.
    pub open spec fn share(&self) -> nat {
        if self.total() == 0 {
            0
        } else {
            self.done() * 1000 / self.total()
        }
    }

    /// The pass to run next: none once all are done or when termination is requested.
    pub open spec fn next_pass(&self, terminate_request: bool) -> Option<nat> {
        if terminate_request || self.done() >= self.total() {
            None
        } else {
            Some(self.done())
        }
    }

    /// A render of `n_spp` passes, none of them done.
    pub fn new(n_spp: u32) -> (r: Self)
        ensures
            r.wf(),
            r.total() == n_spp,
            r.done() == 0,
    {
        RenderProgress { n_spp, done: 0 }
    }

    /// Polls the termination request before a pass: the index of the pass to run, if any.
    pub fn begin_pass(&self, terminate_request: bool) -> (r: Option<u32>)
        requires
            self.wf(),
        ensures
            r matches Some(k) ==> self.next_pass(terminate_request) == Some(k as nat),
            r is None ==> self.next_pass(terminate_request) is None,
    {
        if terminate_request || self.done >= self.n_spp {
            None
        } else {
            Some(self.done)
        }
    }

    /// Records that the current pass has finished.
    pub fn complete_pass(&mut self)
        requires
            old(self).done() < old(self).total(),
        ensures
            final(self).wf(),
            final(self).total() == old(self).total(),
            final(self).done() == old(self).done() + 1,
    {
        self.done = self.done + 1;
    }

    /// The number of passes asked for.
    pub fn n_spp(&self) -> (r: u32)
        ensures
            r == self.total(),
    {
        self.n_spp
    }

    /// The number of passes completed.
    pub fn passes_done(&self) -> (r: u32)
        ensures
            r == self.done(),
    {
        self.done
    }

    /// The completed share of the render in thousandths, rounded down.
    pub fn per_mille(&self) -> (r: u64)
        requires
            self.wf(),
        ensures
            r == self.share(),
            r <= 1000,
    {
        if self.n_spp == 0 {
            0
        } else {
            let r = (self.done as u64) * 1000 / (self.n_spp as u64);
            proof {
                let d = self.done() as int;
                let t = self.total() as int;
                assert(d * 1000 <= t * 1000) by (nonlinear_arith)
                    requires
                        0 <= d <= t,
                ;
                vstd::arithmetic::div_mod::lemma_div_is_ordered(d * 1000, t * 1000, t);
                vstd::arithmetic::div_mod::lemma_div_multiples_vanish(1000, t);
                assert(t * 1000 == 1000 * t) by (nonlinear_arith);
            }
            r
        }
    }

    /// Whether every pass has completed.
    pub fn is_complete(&self) -> (r: bool)
        ensures
            r == (self.done() >= self.total()),
    {
        self.done >= self.n_spp
    }
}

/// Progress only grows: completing a pass never lowers the completed share, and the share
/// is whole exactly when every pass is done.
pub proof fn lemma_progress_grows(p: RenderProgress, q: RenderProgress)
    requires
        p.wf(),
        p.done() < p.total(),
        q.total() == p.total(),
        q.done() == p.done() + 1,
    ensures
        q.wf(),
        p.share() <= q.share(),
        p.share() < 1000,
        q.share() == 1000 <==> q.done() == q.total(),
{
    let d = p.done() as int;
    let t = p.total() as int;
    assert(d * 1000 <= (d + 1) * 1000) by (nonlinear_arith);
    vstd::arithmetic::div_mod::lemma_div_is_ordered(d * 1000, (d + 1) * 1000, t);
    assert(d * 1000 < t * 1000) by (nonlinear_arith)
        requires
            0 <= d < t,
    ;
    vstd::arithmetic::div_mod::lemma_div_multiples_vanish(1000, t);
    assert(t * 1000 == 1000 * t) by (nonlinear_arith);
    vstd::arithmetic::div_mod::lemma_div_is_ordered(d * 1000, t * 1000 - 1, t);
    assert(t * 1000 - 1 == 999 * t + (t - 1)) by (nonlinear_arith);
    vstd::arithmetic::div_mod::lemma_fundamental_div_mod_converse(t * 1000 - 1, t, 999, t - 1);
    if q.done() < q.total() {
        assert((d + 1) * 1000 <= t * 1000 - 1) by (nonlinear_arith)
            requires
                0 <= d + 1 < t,
        ;
        vstd::arithmetic::div_mod::lemma_div_is_ordered((d + 1) * 1000, t * 1000 - 1, t);
    }
}

/// Path tracing in the style of smallpt, with Russian roulette.
#[derive(Debug, Clone, Copy)]
pub struct SmallPT {
    /// The bounce depth from which Russian roulette is always applied.
    pub rr_depth: u32,
}

impl Default for SmallPT {
    /// Russian roulette from the fourth bounce on.
    fn default() -> (r: Self)
        ensures
            r.rr_depth == 4,
    {
        SmallPT { rr_depth: 4 }
    }
}

impl SmallPT {
    /// Whether a path at bounce `depth` is put to Russian roulette: when its throughput has
    /// fallen below the threshold, or once the depth reaches `rr_depth`.
    pub fn roulette_applies(&self, depth: u32, below_threshold: bool) -> (r: bool)
        ensures
            r == (below_threshold || depth >= self.rr_depth),
    {
        below_threshold || depth >= self.rr_depth
    }
}

/// Path tracing with a bounded depth.
#[derive(Debug, Clone, Copy)]
pub struct PathTracing {
    pub max_depth: u32,
    pub max_depth_rr: u32,
}

/// Shows the flat colour of the surface first hit.
#[derive(Debug, Clone, Copy, Default)]
pub struct Albedo;

/// Shows the normal at the first hit, mapped from `[-1, 1]` to `[0, 1]`.
#[derive(Debug, Clone, Copy, Default)]
pub struct Normal;

/// Shows the position of the first hit.
#[derive(Debug, Clone, Copy, Default)]
pub struct Position;

/// Flat shading from a fixed light direction.
#[derive(Debug, Clone, Copy, Default)]
pub struct Shader;

} // verus!
