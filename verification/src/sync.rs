//! A model of chained GPU work.
//!
//! The backend schedules work asynchronously and hands back composable
//! futures: "signal when this image is ready", "this submission runs after
//! that one".  Here a future is a finite tree of such nodes.  Identifiers
//! for signals, submissions and fences are chosen by the caller; the crate
//! only ever composes and prunes them.
//!
//! Pruning mirrors the backend's cleanup of finished work: given the set of
//! identifiers the caller knows to have completed, every fully completed
//! subtree collapses to `Now`, while unfinished work is kept.

use vstd::prelude::*;

verus! {

/// Possibly-incomplete GPU work, composable via join/then combinators.
#[derive(Debug, PartialEq, Eq)]
pub enum GpuFuture {
    /// No pending work.
    Now,
    /// An externally signalled event, such as a swapchain image becoming
    /// ready, identified by the caller's id.
    Signal(u64),
    /// Two pieces of work that must both complete.
    Join(Box<GpuFuture>, Box<GpuFuture>),
    /// A command-buffer submission, scheduled after the inner work.
    Execute(Box<GpuFuture>, u64),
    /// Presentation of the swapchain image with the given index, scheduled
    /// after the inner work.
    Present(Box<GpuFuture>, usize),
    /// A fence signalled once the inner work completes, identified by the
    /// caller's id.
    Fence(Box<GpuFuture>, u64),
}

impl GpuFuture {
    /// All signal, submission and fence identifiers the future waits on.
    pub open spec fn ids(self) -> Set<u64>
        decreases self,
    {
        match self {
            GpuFuture::Now => Set::empty(),
            GpuFuture::Signal(id) => Set::empty().insert(id),
            GpuFuture::Join(a, b) => a.ids().union(b.ids()),
            GpuFuture::Execute(a, id) => a.ids().insert(id),
            GpuFuture::Present(a, _) => a.ids(),
            GpuFuture::Fence(a, id) => a.ids().insert(id),
        }
    }

    /// Whether every piece of the future's work is among the completed ids.
    pub open spec fn spec_finished(self, done: Seq<u64>) -> bool
        decreases self,
    {
        match self {
            GpuFuture::Now => true,
            GpuFuture::Signal(id) => done.contains(id),
            GpuFuture::Join(a, b) => a.spec_finished(done) && b.spec_finished(done),
            GpuFuture::Execute(a, id) => a.spec_finished(done) && done.contains(id),
            GpuFuture::Present(a, _) => a.spec_finished(done),
            GpuFuture::Fence(a, id) => a.spec_finished(done) && done.contains(id),
        }
    }

    /// The future with every fully completed subtree collapsed to `Now`.
    pub open spec fn spec_cleanup(self, done: Seq<u64>) -> GpuFuture
        decreases self,
    {
        if self.spec_finished(done) {
            GpuFuture::Now
        } else {
            match self {
                GpuFuture::Join(a, b) => GpuFuture::Join(
                    Box::new(a.spec_cleanup(done)),
                    Box::new(b.spec_cleanup(done)),
                ),
                GpuFuture::Execute(a, id) => GpuFuture::Execute(
                    Box::new(a.spec_cleanup(done)),
                    id,
                ),
                GpuFuture::Present(a, i) => GpuFuture::Present(
                    Box::new(a.spec_cleanup(done)),
                    i,
                ),
                GpuFuture::Fence(a, id) => GpuFuture::Fence(Box::new(a.spec_cleanup(done)), id),
                _ => self,
            }
        }
    }

    /// Whether `g` is work that `self` is scheduled strictly after: `g` is a
    /// proper subtree of `self`, so `self` cannot complete before `g` does.
    pub open spec fn comes_after(self, g: GpuFuture) -> bool
        decreases self,
    {
        match self {
            GpuFuture::Now => false,
            GpuFuture::Signal(_) => false,
            GpuFuture::Join(a, b) => *a == g || *b == g || a.comes_after(g) || b.comes_after(g),
            GpuFuture::Execute(a, _) => *a == g || a.comes_after(g),
            GpuFuture::Present(a, _) => *a == g || a.comes_after(g),
            GpuFuture::Fence(a, _) => *a == g || a.comes_after(g),
        }
    }

    /// Work with nothing pending.
    pub fn now() -> (r: GpuFuture)
        ensures
            r == GpuFuture::Now,
    {
        GpuFuture::Now
    }

    /// An externally signalled event with the given identifier.
    pub fn signal(id: u64) -> (r: GpuFuture)
        ensures
            r == GpuFuture::Signal(id),
    {
        GpuFuture::Signal(id)
    }

    /// Work pending until both `self` and `other` complete.
    pub fn join(self, other: GpuFuture) -> (r: GpuFuture)
        ensures
            r == GpuFuture::Join(Box::new(self), Box::new(other)),
    {
        GpuFuture::Join(Box::new(self), Box::new(other))
    }

    /// The submission with the given identifier, scheduled after `self`.
    pub fn then_execute(self, submission: u64) -> (r: GpuFuture)
        ensures
            r == GpuFuture::Execute(Box::new(self), submission),
    {
        GpuFuture::Execute(Box::new(self), submission)
    }

    /// Presentation of the image with the given index, scheduled after
    /// `self`.
    pub fn then_swapchain_present(self, image_index: usize) -> (r: GpuFuture)
        ensures
            r == GpuFuture::Present(Box::new(self), image_index),
    {
        GpuFuture::Present(Box::new(self), image_index)
    }

    /// A fence with the given identifier, signalled once `self` completes.
    pub fn then_signal_fence(self, fence: u64) -> (r: GpuFuture)
        ensures
            r == GpuFuture::Fence(Box::new(self), fence),
    {
        GpuFuture::Fence(Box::new(self), fence)
    }

    /// Whether every piece of this future's work is among `done`.
    pub fn is_finished(&self, done: &Vec<u64>) -> (r: bool)
        ensures
            r == self.spec_finished(done@),
        decreases *self,
    {
        match self {
            GpuFuture::Now => true,
            GpuFuture::Signal(id) => contains_id(done, *id),
            GpuFuture::Join(a, b) => {
                let fa = a.is_finished(done);
                fa && b.is_finished(done)
            },
            GpuFuture::Execute(a, id) => {
                let fa = a.is_finished(done);
                fa && contains_id(done, *id)
            },
            GpuFuture::Present(a, _) => a.is_finished(done),
            GpuFuture::Fence(a, id) => {
                let fa = a.is_finished(done);
                fa && contains_id(done, *id)
            },
        }
    }

    /// Drop completed work: every subtree all of whose identifiers are in
    /// `done` collapses to `Now`; unfinished work is kept unchanged.
    pub fn cleanup_finished(self, done: &Vec<u64>) -> (r: GpuFuture)
        ensures
            r == self.spec_cleanup(done@),
        decreases self,
    {
        if self.is_finished(done) {
            GpuFuture::Now
        } else {
            match self {
                GpuFuture::Join(a, b) => GpuFuture::Join(
                    Box::new((*a).cleanup_finished(done)),
                    Box::new((*b).cleanup_finished(done)),
                ),
                GpuFuture::Execute(a, id) => GpuFuture::Execute(
                    Box::new((*a).cleanup_finished(done)),
                    id,
                ),
                GpuFuture::Present(a, i) => GpuFuture::Present(
                    Box::new((*a).cleanup_finished(done)),
                    i,
                ),
                GpuFuture::Fence(a, id) => GpuFuture::Fence(
                    Box::new((*a).cleanup_finished(done)),
                    id,
                ),
                other => other,
            }
        }
    }
}

/// Whether `id` occurs in `ids`.
fn contains_id(ids: &Vec<u64>, id: u64) -> (r: bool)
    ensures
        r == ids@.contains(id),
{
    let mut i: usize = 0;
    while i < ids.len()
        invariant
            i <= ids@.len(),
            forall|j: int| 0 <= j < i ==> ids@[j] != id,
        decreases ids@.len() - i,
    {
        if ids[i] == id {
            return true;
        }
        i = i + 1;
    }
    false
}

/// Pruning never invents work: the pruned future waits only on identifiers
/// the original waited on.
pub proof fn lemma_cleanup_no_new_work(f: GpuFuture, done: Seq<u64>)
    ensures
        f.spec_cleanup(done).ids().subset_of(f.ids()),
    decreases f,
{
    if !f.spec_finished(done) {
        match f {
            GpuFuture::Join(a, b) => {
                lemma_cleanup_no_new_work(*a, done);
                lemma_cleanup_no_new_work(*b, done);
            },
            GpuFuture::Execute(a, _) => lemma_cleanup_no_new_work(*a, done),
            GpuFuture::Present(a, _) => lemma_cleanup_no_new_work(*a, done),
            GpuFuture::Fence(a, _) => lemma_cleanup_no_new_work(*a, done),
            _ => {},
        }
    }
}

/// Pruning never loses unfinished work: an identifier of the original that
/// is not completed is still waited on after pruning.
pub proof fn lemma_cleanup_keeps_unfinished(f: GpuFuture, done: Seq<u64>, id: u64)
    requires
        f.ids().contains(id),
        !done.contains(id),
    ensures
        f.spec_cleanup(done).ids().contains(id),
    decreases f,
{
    if f.spec_finished(done) {
        lemma_finished_ids_done(f, done);
    } else {
        match f {
            GpuFuture::Join(a, b) => {
                if a.ids().contains(id) {
                    lemma_cleanup_keeps_unfinished(*a, done, id);
                } else {
                    lemma_cleanup_keeps_unfinished(*b, done, id);
                }
            },
            GpuFuture::Execute(a, x) => {
                if id != x {
                    lemma_cleanup_keeps_unfinished(*a, done, id);
                }
            },
            GpuFuture::Present(a, _) => lemma_cleanup_keeps_unfinished(*a, done, id),
            GpuFuture::Fence(a, x) => {
                if id != x {
                    lemma_cleanup_keeps_unfinished(*a, done, id);
                }
            },
            _ => {},
        }
    }
}

/// Every identifier of a finished future is among the completed ids.
pub proof fn lemma_finished_ids_done(f: GpuFuture, done: Seq<u64>)
    requires
        f.spec_finished(done),
    ensures
        forall|id: u64| f.ids().contains(id) ==> done.contains(id),
    decreases f,
{
    match f {
        GpuFuture::Join(a, b) => {
            lemma_finished_ids_done(*a, done);
            lemma_finished_ids_done(*b, done);
        },
        GpuFuture::Execute(a, _) => lemma_finished_ids_done(*a, done),
        GpuFuture::Present(a, _) => lemma_finished_ids_done(*a, done),
        GpuFuture::Fence(a, _) => lemma_finished_ids_done(*a, done),
        _ => {},
    }
}

/// Scheduling order is transitive: work ordered after some future is
/// ordered after everything that future is ordered after.
pub proof fn lemma_comes_after_transitive(f: GpuFuture, g: GpuFuture, h: GpuFuture)
    requires
        f.comes_after(g),
        g.comes_after(h),
    ensures
        f.comes_after(h),
    decreases f,
{
    match f {
        GpuFuture::Join(a, b) => {
            if *a == g || *b == g {
            } else if a.comes_after(g) {
                lemma_comes_after_transitive(*a, g, h);
            } else {
                lemma_comes_after_transitive(*b, g, h);
            }
        },
        GpuFuture::Execute(a, _) => {
            if *a != g {
                lemma_comes_after_transitive(*a, g, h);
            }
        },
        GpuFuture::Present(a, _) => {
            if *a != g {
                lemma_comes_after_transitive(*a, g, h);
            }
        },
        GpuFuture::Fence(a, _) => {
            if *a != g {
                lemma_comes_after_transitive(*a, g, h);
            }
        },
        _ => {},
    }
}

/// Beginning a frame prunes completed work first and schedules everything
/// after both the prior work and the newly acquired image's signal: the
/// future a frame starts from is the join of the pruned prior future with
/// the acquire signal, so it comes strictly after each of them, and it
/// waits on exactly the prior future's unfinished work plus that signal.
pub proof fn lemma_begin_frame_ordering(prior: GpuFuture, done: Seq<u64>, signal: u64)
    ensures
        ({
            let pruned = prior.spec_cleanup(done);
            let started = GpuFuture::Join(Box::new(pruned), Box::new(GpuFuture::Signal(signal)));
            &&& started.comes_after(pruned)
            &&& started.comes_after(GpuFuture::Signal(signal))
            &&& started.ids().subset_of(prior.ids().insert(signal))
            &&& forall|id: u64|
                prior.ids().contains(id) && !done.contains(id) ==> #[trigger] started.ids().contains(
                    id,
                )
            &&& started.ids().contains(signal)
        }),
{
    let pruned = prior.spec_cleanup(done);
    let started = GpuFuture::Join(Box::new(pruned), Box::new(GpuFuture::Signal(signal)));
    lemma_cleanup_no_new_work(prior, done);
    assert forall|id: u64| started.ids().contains(id) implies prior.ids().insert(signal).contains(
        id,
    ) by {
        assert(started.ids() == pruned.ids().union(GpuFuture::Signal(signal).ids()));
    }
    assert forall|id: u64|
        prior.ids().contains(id) && !done.contains(id) implies #[trigger] started.ids().contains(
        id,
    ) by {
        lemma_cleanup_keeps_unfinished(prior, done, id);
    }
    assert(started.ids().contains(signal)) by {
        assert(GpuFuture::Signal(signal).ids().contains(signal));
    }
}

} // verus!
