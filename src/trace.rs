use vstd::prelude::*;

verus! {

/// How a traced path ends.
#[derive(Debug, Clone, Copy, PartialEq, Eq, Structural)]
pub enum PathEnd {
    /// The bounce budget ran out before the path escaped: it gathers no
    /// light, and its colour is black.
    Absorbed,
    /// The path escaped to the sky after `bounces` diffuse bounces. Its
    /// colour is the sky gradient in the escaping ray's direction, halved
    /// once per bounce.
    Sky { bounces: u32 },
}

/// What the integrator does next.
#[derive(Debug, Clone, Copy, PartialEq, Eq, Structural)]
pub enum Step {
    /// Intersect the current ray with the scene and report whether it hit.
    Trace,
    /// The path is finished.
    Finish(PathEnd),
}

/// The control state of one recursive colour estimate: how many more
/// bounces the depth budget allows, and how many were taken so far.
///
/// The two always add up to the budget the walk started with, so a walk
/// asks for at most that many scene queries that hit before it ends.
#[derive(Debug, Clone, Copy)]
pub struct PathWalk {
    depth: u32,
    bounces: u32,
}

impl PathWalk {
    #[verifier::type_invariant]
    spec fn budget_fits(self) -> bool {
        self.depth + self.bounces <= u32::MAX
    }

    /// Bounces the budget still allows.
    pub closed spec fn spec_depth(&self) -> u32 {
        self.depth
    }

    /// Diffuse bounces taken so far.
    pub closed spec fn spec_bounces(&self) -> u32 {
        self.bounces
    }

    /// The depth budget the walk started with.
    pub open spec fn budget(self) -> nat {
        (self.spec_depth() + self.spec_bounces()) as nat
    }

    /// The step that a walk in this state takes next.
    pub open spec fn step_of(self) -> Step {
        if self.spec_depth() == 0 {
            Step::Finish(PathEnd::Absorbed)
        } else {
            Step::Trace
        }
    }

    /// A fresh walk for a ray traced with `max_depth` bounces allowed.
    pub fn new(max_depth: u32) -> (w: PathWalk)
        ensures
            w.spec_depth() == max_depth,
            w.spec_bounces() == 0,
    {
        PathWalk { depth: max_depth, bounces: 0 }
    }

    /// Bounces the budget still allows.
    #[verifier::when_used_as_spec(spec_depth)]
    pub fn depth(&self) -> (r: u32)
        ensures
            r == self.spec_depth(),
    {
        self.depth
    }

    /// Diffuse bounces taken so far.
    #[verifier::when_used_as_spec(spec_bounces)]
    pub fn bounces(&self) -> (r: u32)
        ensures
            r == self.spec_bounces(),
    {
        self.bounces
    }

    /// The next step: with the budget spent the path is absorbed, whatever
    /// the ray and the scene; otherwise the ray is traced.
    pub fn next_step(&self) -> (s: Step)
        ensures
            s == self.step_of(),
            self.spec_depth() == 0 ==> s == Step::Finish(PathEnd::Absorbed),
            self.spec_depth() > 0 ==> s == Step::Trace,
    {
        if self.depth == 0 {
            Step::Finish(PathEnd::Absorbed)
        } else {
            Step::Trace
        }
    }

    /// Takes in the outcome of a scene query made on `Step::Trace`.
    ///
    /// A hit spends one unit of the budget on a diffuse bounce, and the walk
    /// goes on with its next step. A miss ends the path in the sky after the
    /// bounces taken so far, and leaves the walk as it was.
    pub fn advance(&mut self, hit: bool) -> (s: Step)
        requires
            old(self).spec_depth() > 0,
        ensures
            final(self).budget() == old(self).budget(),
            hit ==> final(self).spec_depth() == old(self).spec_depth() - 1,
            hit ==> final(self).spec_bounces() == old(self).spec_bounces() + 1,
            hit ==> s == final(self).step_of(),
            !hit ==> *final(self) == *old(self),
            !hit ==> s == Step::Finish(PathEnd::Sky { bounces: old(self).spec_bounces() }),
    {
        proof {
            use_type_invariant(&*self);
        }
        if hit {
            self.depth = self.depth - 1;
            self.bounces = self.bounces + 1;
            self.next_step()
        } else {
            Step::Finish(PathEnd::Sky { bounces: self.bounces })
        }
    }
}

/// A walk whose budget is spent finishes absorbed, black, whatever the ray and
/// the scene: in particular one started with a depth budget of zero.
pub proof fn spent_budget_is_absorbed(w: PathWalk)
    requires
        w.spec_depth() == 0,
    ensures
        w.step_of() == Step::Finish(PathEnd::Absorbed),
{
}

} // verus!
