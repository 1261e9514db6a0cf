//! Dispatch: try the resolved candidates in priority order.
//!
//! The caller owns the actual process execution.  It repeatedly asks for
//! the next invocation to run, runs it, and reports what happened; the
//! machine here decides — per the family's continuation policy — whether
//! that settles the outcome or the next candidate is tried.  A process
//! that failed to start counts as "not available" and never as an error;
//! a process that ran and failed ends dispatch with its error message
//! exactly where the candidate is marked terminal on failure.

use vstd::prelude::*;
use vstd::string::*;

use crate::format::{
    cands_view, cands_wf, resolution_wf, Candidate, CandidateView, FormatResult, Invocation,
    Resolution, ResolutionView,
};

verus! {

/// What the caller observed of one process invocation: it could not be
/// started at all, or it ran and exited with success or failure, the
/// captured standard-error text alongside.
pub enum ExecOutcome {
    SpawnFailed,
    Exited { success: bool, stderr: String },
}

/// Clone one invocation so the caller can run it.
fn clone_string_vec(v: &Vec<String>) -> (r: Vec<String>)
    ensures
        r.deep_view() == v.deep_view(),
{
    let mut r: Vec<String> = Vec::new();
    let n = v.len();
    let mut i: usize = 0;
    while i < n
        invariant
            n == v@.len(),
            i <= n,
            r@.len() == i,
            forall|j: int| 0 <= j < i ==> r@[j]@ == v@[j]@,
        decreases n - i,
    {
        r.push(v[i].clone());
        i = i + 1;
    }
    proof {
        assert(r.deep_view() =~= v.deep_view());
    }
    r
}

/// Clone an invocation.
fn clone_invocation(inv: &Invocation) -> (r: Invocation)
    ensures
        r@ == inv@,
{
    Invocation {
        program: inv.program.clone(),
        args: clone_string_vec(&inv.args),
        cwd: crate::format::clone_opt(&inv.cwd),
    }
}

/// The dispatch state: the candidate list still being worked through, the
/// current candidate and invocation within it, and the settled outcome
/// once there is one.
pub struct Dispatcher {
    pub family: String,
    pub candidates: Vec<Candidate>,
    pub idx: usize,
    pub sub: usize,
    pub finished: Option<FormatResult>,
}

impl Dispatcher {
    /// Dispatch is over: an outcome is settled or the candidates ran out.
    pub open spec fn done(&self) -> bool {
        self.finished is Some || self.idx >= self.candidates@.len()
    }

    /// Positions stay inside the candidate list.
    pub open spec fn wf(&self) -> bool {
        &&& cands_wf(cands_view(self.candidates@))
        &&& self.idx <= self.candidates@.len()
        &&& (self.idx < self.candidates@.len() ==> self.sub < cands_view(
            self.candidates@,
        )[self.idx as int].invocations.len())
    }

    /// Start dispatch for a resolution.  A skipped manifest and an
    /// unsupported extension settle immediately; a candidate list starts
    /// at its highest-priority entry.
    pub fn new(r: Resolution) -> (d: Dispatcher)
        requires
            resolution_wf(r@),
        ensures
            d.wf(),
            match r@ {
                ResolutionView::Skipped => d.done() && (d.finished matches Some(res)
                    && res.formatted == false && (res.formatter matches Option::<String>::None)
                    && res.message@ == "Skipped package.json"@),
                ResolutionView::Unsupported { ext } => d.done() && (d.finished matches Some(res)
                    && res.formatted == false && (res.formatter matches Option::<String>::None)
                    && res.message@ == "Unsupported file extension: "@ + ext),
                ResolutionView::Candidates { family, list } => d.finished matches Option::<
                    FormatResult,
                >::None && d.family@ == family && cands_view(d.candidates@) == list && d.idx == 0
                    && d.sub == 0,
            },
    {
        match r {
            Resolution::Skipped => {
                let d = Dispatcher {
                    family: String::new(),
                    candidates: Vec::new(),
                    idx: 0,
                    sub: 0,
                    finished: Some(
                        FormatResult {
                            formatted: false,
                            formatter: None,
                            message: String::from_str("Skipped package.json"),
                        },
                    ),
                };
                proof {
                    assert(cands_view(d.candidates@) =~= Seq::<CandidateView>::empty());
                }
                d
            },
            Resolution::Unsupported { ext } => {
                let d = Dispatcher {
                    family: String::new(),
                    candidates: Vec::new(),
                    idx: 0,
                    sub: 0,
                    finished: Some(FormatResult::unsupported(ext.as_str())),
                };
                proof {
                    assert(cands_view(d.candidates@) =~= Seq::<CandidateView>::empty());
                }
                d
            },
            Resolution::Candidates { family, list } => Dispatcher {
                family,
                candidates: list,
                idx: 0,
                sub: 0,
                finished: None,
            },
        }
    }

    /// The invocation the caller should run next, if dispatch is not over.
    pub fn next_invocation(&self) -> (r: Option<Invocation>)
        requires
            self.wf(),
        ensures
            match r {
                Some(inv) => !self.done() && inv@
                    == self.candidates@[self.idx as int]@.invocations[self.sub as int],
                None => self.done(),
            },
    {
        if self.finished.is_some() {
            return None;
        }
        if self.idx >= self.candidates.len() {
            return None;
        }
        let c = &self.candidates[self.idx];
        Some(clone_invocation(&c.invocations[self.sub]))
    }

    /// Feed back what running the current invocation did, and move the
    /// machine: spawn failure tries the next candidate; success either
    /// advances to the candidate's next invocation or settles success
    /// under the candidate's name; a failing exit settles that error for
    /// a terminal candidate and otherwise tries the next candidate.
    pub fn step(&mut self, outcome: &ExecOutcome)
        requires
            old(self).wf(),
            !old(self).done(),
        ensures
            final(self).wf(),
            final(self).family@ == old(self).family@,
            final(self).candidates@ == old(self).candidates@,
            ({
                let c = old(self).candidates@[old(self).idx as int]@;
                match outcome {
                    ExecOutcome::SpawnFailed => (final(self).finished matches Option::<
                        FormatResult,
                    >::None) && final(self).idx == old(self).idx + 1 && final(self).sub == 0,
                    ExecOutcome::Exited { success, stderr } => {
                        if *success {
                            if old(self).sub + 1 < c.invocations.len() {
                                (final(self).finished matches Option::<FormatResult>::None)
                                    && final(self).idx == old(self).idx && final(self).sub == old(
                                    self,
                                ).sub + 1
                            } else {
                                final(self).finished matches Some(res) && res.formatted == true
                                    && (res.formatter matches Some(f) && f@ == c.name)
                                    && res.message@ == "Formatted with "@ + c.name
                            }
                        } else {
                            if c.terminal_on_failure {
                                final(self).finished matches Some(res) && res.formatted == false
                                    && (res.formatter matches Some(f) && f@ == c.name)
                                    && res.message@ == c.name + " error: "@ + stderr@
                            } else {
                                (final(self).finished matches Option::<FormatResult>::None)
                                    && final(self).idx == old(self).idx + 1 && final(self).sub
                                    == 0
                            }
                        }
                    },
                }
            }),
    {
        // Bind the length so the position arithmetic below is visibly in
        // range: the current index is strictly below it while running.
        let n = self.candidates.len();
        proof {
            assert(self.idx < n);
        }
        match outcome {
            ExecOutcome::SpawnFailed => {
                self.idx = self.idx + 1;
                self.sub = 0;
            },
            ExecOutcome::Exited { success, stderr } => {
                if *success {
                    let m = self.candidates[self.idx].invocations.len();
                    if self.sub + 1 < m {
                        self.sub = self.sub + 1;
                    } else {
                        let name = self.candidates[self.idx].name.clone();
                        self.finished = Some(FormatResult::success(name.as_str()));
                    }
                } else {
                    if self.candidates[self.idx].terminal_on_failure {
                        let name = self.candidates[self.idx].name.clone();
                        self.finished = Some(FormatResult::error(name.as_str(), stderr.as_str()));
                    } else {
                        self.idx = self.idx + 1;
                        self.sub = 0;
                    }
                }
            },
        }
    }

    /// The settled outcome; when the candidates ran out without one, no
    /// formatter was found for the family.
    pub fn into_result(self) -> (r: FormatResult)
        requires
            self.wf(),
            self.done(),
        ensures
            match self.finished {
                Some(res) => r == res,
                None => r.formatted == false && (r.formatter matches Option::<String>::None)
                    && r.message@ == "No formatter found for "@ + self.family@,
            },
    {
        match self.finished {
            Some(res) => res,
            None => FormatResult::no_formatter(self.family.as_str()),
        }
    }
}

} // verus!
