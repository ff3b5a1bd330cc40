//! The trial-and-error heart of automounting: one attempt per candidate
//! driver, in order, stopping at the first success.
use crate::error::MountError;
use crate::mount::Mount;
use crate::supported::views_of;
use vstd::prelude::*;

verus! {

/// The state of one automount run over a fixed candidate list: how many
/// attempts have failed so far, and what the last failure reported.
///
/// The shell around the library performs one mount call per attempt: it
/// asks [`Trial::current`] for the driver to use, reports each failure
/// through [`Trial::fail`], and stops at the first success. The state
/// walks the candidate list in order and can neither skip nor reorder:
/// the attempted drivers are always a prefix of the candidates.
pub struct Trial {
    candidates: Vec<String>,
    attempted: usize,
    last_error: Option<MountError>,
    history: Ghost<Seq<Seq<char>>>,
}

impl Trial {
    /// The candidate drivers, in trial order.
    pub closed spec fn spec_candidates(&self) -> Seq<Seq<char>> {
        views_of(self.candidates@)
    }

    /// How many attempts have failed so far.
    pub closed spec fn spec_attempted(&self) -> int {
        self.attempted as int
    }

    /// What the most recent failed attempt reported, if any attempt
    /// failed yet.
    pub closed spec fn spec_last_error(&self) -> Option<MountError> {
        self.last_error
    }

    /// The drivers attempted so far, in the order they were tried.
    pub closed spec fn spec_history(&self) -> Seq<Seq<char>> {
        self.history@
    }

    /// Validity of a trial state, which every reachable state has: the
    /// attempt count never passes the candidates, the attempted drivers
    /// are exactly the first attempted-count candidates, and an error is
    /// on record exactly when something was attempted. `new` establishes
    /// it and `fail` preserves it.
    pub closed spec fn wf(&self) -> bool {
        &&& self.attempted <= self.candidates@.len()
        &&& self.history@ == views_of(self.candidates@).take(self.attempted as int)
        &&& (self.last_error is Some <==> self.attempted > 0)
    }

    /// Start a run over these candidates, nothing attempted yet.
    pub fn new(candidates: Vec<String>) -> (r: Trial)
        ensures
            r.wf(),
            r.spec_candidates() == views_of(candidates@),
            r.spec_attempted() == 0,
            r.spec_last_error() is None,
            r.spec_history() == Seq::<Seq<char>>::empty(),
    {
        let r = Trial {
            candidates,
            attempted: 0,
            last_error: None,
            history: Ghost(Seq::empty()),
        };
        proof {
            assert(views_of(r.candidates@).take(0) =~= Seq::<Seq<char>>::empty());
        }
        r
    }

    /// The driver the next attempt must use: the candidate at the
    /// position equal to the number of failures so far; nothing once the
    /// candidates are exhausted.
    pub fn current(&self) -> (r: Option<String>)
        requires
            self.wf(),
        ensures
            self.spec_attempted() < self.spec_candidates().len() ==> r is Some
                && r->Some_0@ == self.spec_candidates()[self.spec_attempted()],
            self.spec_attempted() >= self.spec_candidates().len() ==> r is None,
    {
        if self.attempted < self.candidates.len() {
            Some(self.candidates[self.attempted].clone())
        } else {
            None
        }
    }

    /// Record that the attempt with the current driver failed with `err`,
    /// and move on to the next candidate.
    pub fn fail(&mut self, err: MountError)
        requires
            old(self).wf(),
            old(self).spec_attempted() < old(self).spec_candidates().len(),
        ensures
            final(self).wf(),
            final(self).spec_candidates() == old(self).spec_candidates(),
            final(self).spec_attempted() == old(self).spec_attempted() + 1,
            final(self).spec_last_error() == Some(err),
            final(self).spec_history() == old(self).spec_history().push(
                old(self).spec_candidates()[old(self).spec_attempted()],
            ),
    {
        let n = self.candidates.len();
        proof {
            assert(self.attempted < n);
        }
        self.last_error = Some(err);
        self.history = Ghost(self.history@.push(self.candidates@[self.attempted as int]@));
        self.attempted = self.attempted + 1;
        proof {
            assert(views_of(self.candidates@).take(self.attempted as int) =~= views_of(
                self.candidates@,
            ).take(self.attempted - 1).push(views_of(self.candidates@)[self.attempted - 1]));
        }
    }

    /// The handle a success with the current driver yields: it reports
    /// the driver that actually succeeded, not the first candidate, and
    /// carries the loopback device path the plan attached, if any.
    pub fn finish_success(&self, target: &str, loop_path: Option<String>) -> (r: Mount)
        requires
            self.wf(),
            self.spec_attempted() < self.spec_candidates().len(),
        ensures
            r.spec_target() == target@,
            r.spec_fstype() == self.spec_candidates()[self.spec_attempted()],
            (match loop_path {
                Option::Some(p) => r.spec_loop_path() == Some(p@),
                Option::None => r.spec_loop_path() is None,
            }),
    {
        let m = Mount::from_target_and_fstype(
            target.to_owned(),
            self.candidates[self.attempted].clone(),
        );
        match loop_path {
            Option::Some(p) => m.with_loop_device(p),
            Option::None => m,
        }
    }

    /// The error a run that exhausted its candidates reports: the most
    /// recent concrete failure; or, when there was no candidate to try at
    /// all, the not-found condition.
    pub fn finish_failure(&self) -> (r: MountError)
        requires
            self.wf(),
            self.spec_attempted() == self.spec_candidates().len(),
        ensures
            self.spec_last_error() is Some ==> r == self.spec_last_error()->Some_0,
            self.spec_last_error() is None ==> r == MountError::NoSupportedFilesystem,
            self.spec_candidates().len() == 0 ==> r == MountError::NoSupportedFilesystem,
    {
        match self.last_error {
            Option::Some(e) => e,
            Option::None => MountError::NoSupportedFilesystem,
        }
    }
}

/// Law: the automount trial follows the candidate list exactly. At every
/// reachable state, the drivers attempted so far are the first
/// attempted-count candidates, in candidate order: none skipped, none
/// reordered, and the run stops as soon as an attempt is not reported
/// failed.
pub proof fn lemma_trial_order(t: &Trial)
    requires
        t.wf(),
    ensures
        t.spec_history() == t.spec_candidates().take(t.spec_attempted()),
        0 <= t.spec_attempted() <= t.spec_candidates().len(),
{
}

} // verus!
