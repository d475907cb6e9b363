use vstd::prelude::*;
use crate::json::Json;
use crate::record::{PrRecord, PrRecordV};
use crate::resolve::{
    head_sha, head_sha_spec, pull_path, pull_path_spec, report_line, report_line_spec,
    status_path, status_path_spec, status_state, status_state_spec,
};

verus! {

/// Where the pipeline stands on the pull request it is working on.
pub enum Phase {
    /// The head commit is not resolved yet.
    Head,
    /// The head commit is `sha`; its CI status is not resolved yet.
    Status { sha: String },
}

/// Mathematical value of a [`Phase`].
pub enum PhaseV {
    Head,
    Status { sha: Seq<char> },
}

impl View for Phase {
    type V = PhaseV;

    open spec fn view(&self) -> PhaseV {
        match self {
            Phase::Head => PhaseV::Head,
            Phase::Status { sha } => PhaseV::Status { sha: sha@ },
        }
    }
}

/// The three-stage resolution pipeline, driven from outside: the caller
/// fetches whatever [`Pipeline::next_request`] names, feeds the parsed
/// response to [`Pipeline::on_response`], and prints any line returned.
/// One response resolves either a pull request's head commit or that
/// commit's CI status; an absent field skips just that pull request,
/// while a transport failure aborts the whole run.
pub struct Pipeline {
    /// The records the search stage discovered, in its order.
    pub prs: Vec<PrRecord>,
    /// How many records are fully dealt with.
    pub idx: usize,
    pub phase: Phase,
    /// Set once a transport failure has been reported; final.
    pub aborted: bool,
}

/// Mathematical value of a [`Pipeline`].
#[verifier::ext_equal]
pub struct PipelineV {
    pub prs: Seq<PrRecordV>,
    pub idx: int,
    pub phase: PhaseV,
    pub aborted: bool,
}

impl View for Pipeline {
    type V = PipelineV;

    open spec fn view(&self) -> PipelineV {
        PipelineV {
            prs: self.prs@.map_values(|r: PrRecord| r@),
            idx: self.idx as int,
            phase: self.phase@,
            aborted: self.aborted,
        }
    }
}

impl PipelineV {
    pub open spec fn wf(self) -> bool {
        &&& 0 <= self.idx <= self.prs.len()
        &&& forall|i: int| 0 <= i < self.prs.len() ==> (#[trigger] self.prs[i]).wf()
        &&& (self.phase is Status ==> self.idx < self.prs.len())
    }

    /// The API path the pipeline wants fetched next; `None` when every
    /// record is dealt with or the run is aborted.
    pub open spec fn spec_next(self) -> Option<Seq<char>> {
        if self.aborted || self.idx >= self.prs.len() {
            None
        } else {
            match self.phase {
                PhaseV::Head => Some(pull_path_spec(self.prs[self.idx])),
                PhaseV::Status { sha } => Some(status_path_spec(self.prs[self.idx], sha)),
            }
        }
    }

    /// A transport failure aborts the run and changes nothing else.
    pub open spec fn spec_fail(self) -> PipelineV {
        PipelineV { aborted: true, ..self }
    }

    /// Consuming a head-resolution outcome: an absent SHA skips the pull
    /// request, a present one moves it to the status phase. No line is
    /// emitted either way.
    pub open spec fn spec_step_head(self, sha: Option<Seq<char>>) -> PipelineV {
        match sha {
            None => PipelineV { idx: self.idx + 1, ..self },
            Some(s) => PipelineV { phase: PhaseV::Status { sha: s }, ..self },
        }
    }

    /// Consuming a status-resolution outcome: the pull request is dealt
    /// with either way; a present state yields one report line.
    pub open spec fn spec_step_status(self, state: Option<Seq<char>>) -> (PipelineV, Option<
        Seq<char>,
    >) {
        let stepped = PipelineV { idx: self.idx + 1, phase: PhaseV::Head, ..self };
        match (self.phase, state) {
            (PhaseV::Status { sha }, Some(st)) => (
                stepped,
                Some(report_line_spec(self.prs[self.idx], sha, st)),
            ),
            _ => (stepped, None),
        }
    }

    /// One response consumed, in whichever phase the pipeline is in.
    pub open spec fn spec_step(self, resp: Json) -> (PipelineV, Option<Seq<char>>) {
        match self.phase {
            PhaseV::Head => (self.spec_step_head(head_sha_spec(resp)), None),
            PhaseV::Status { sha } => self.spec_step_status(status_state_spec(resp)),
        }
    }

    /// How many responses the run can still consume: at most two per
    /// remaining pull request.
    pub open spec fn remaining(self) -> int {
        2 * (self.prs.len() - self.idx) - (if self.phase is Status {
            1int
        } else {
            0int
        })
    }
}

impl Pipeline {
    /// Starts a run over the records the search stage produced.
    pub fn new(prs: Vec<PrRecord>) -> (p: Pipeline)
        requires
            forall|i: int| 0 <= i < prs@.len() ==> (#[trigger] prs@[i]).wf(),
        ensures
            p@.wf(),
            p@.prs == prs@.map_values(|r: PrRecord| r@),
            p@.idx == 0,
            p@.phase is Head,
            !p@.aborted,
    {
        Pipeline { prs, idx: 0, phase: Phase::Head, aborted: false }
    }

    /// The API path to fetch next, or `None` when the run is over.
    pub fn next_request(&self) -> (r: Option<String>)
        ensures
            match r {
                Some(path) => self@.spec_next() == Some(path@),
                None => self@.spec_next() is None,
            },
    {
        if self.aborted || self.idx >= self.prs.len() {
            None
        } else {
            match &self.phase {
                Phase::Head => Some(pull_path(&self.prs[self.idx])),
                Phase::Status { sha } => Some(status_path(&self.prs[self.idx], sha.as_str())),
            }
        }
    }

    /// Consumes the response to the request named by `next_request`.
    /// Returns the report line to print, if this response completed a
    /// pull request's resolution.
    pub fn on_response(&mut self, resp: &Json) -> (line: Option<String>)
        requires
            old(self)@.wf(),
            old(self)@.spec_next() is Some,
        ensures
            final(self)@.wf(),
            final(self)@ == old(self)@.spec_step(*resp).0,
            match line {
                Some(l) => old(self)@.spec_step(*resp).1 == Some(l@),
                None => old(self)@.spec_step(*resp).1 is None,
            },
    {
        let ghost pre = self@;
        let n = self.prs.len();
        proof {
            assert(pre.prs.len() == n as int);
            assert(pre.idx < n as int);
        }
        match &self.phase {
            Phase::Head => {
                match head_sha(resp) {
                    None => {
                        self.idx = self.idx + 1;
                        proof {
                            assert(self@ =~= pre.spec_step(*resp).0);
                        }
                        None
                    },
                    Some(sha) => {
                        self.phase = Phase::Status { sha };
                        proof {
                            assert(self@ =~= pre.spec_step(*resp).0);
                        }
                        None
                    },
                }
            },
            Phase::Status { sha } => {
                let state = status_state(resp);
                let line = match state {
                    Some(st) => Some(
                        report_line(&self.prs[self.idx], sha.as_str(), st.as_str()),
                    ),
                    None => None,
                };
                self.idx = self.idx + 1;
                self.phase = Phase::Head;
                proof {
                    assert(self@ =~= pre.spec_step(*resp).0);
                }
                line
            },
        }
    }

    /// Records a transport failure: the run is over, nothing further will
    /// be requested.
    pub fn on_transport_failure(&mut self)
        ensures
            final(self)@ == old(self)@.spec_fail(),
            old(self)@.wf() ==> final(self)@.wf(),
            final(self)@.spec_next() is None,
    {
        self.aborted = true;
        proof {
            assert(self@ =~= old(self)@.spec_fail());
        }
    }
}

/// A pull request whose head-resolution response lacks a usable
/// `head.sha` is skipped: the step emits no line, moves on to the next
/// record, and leaves the rest of the run untouched.
pub proof fn lemma_missing_head_skips(p: PipelineV, resp: Json)
    requires
        p.wf(),
        p.phase is Head,
        p.idx < p.prs.len(),
        head_sha_spec(resp) is None,
    ensures
        p.spec_step(resp).1 is None,
        p.spec_step(resp).0.idx == p.idx + 1,
        p.spec_step(resp).0.phase is Head,
        p.spec_step(resp).0.prs == p.prs,
        p.spec_step(resp).0.aborted == p.aborted,
        p.spec_step(resp).0.wf(),
{
}

/// A pull request whose status-resolution response lacks a usable
/// `state` is skipped the same way.
pub proof fn lemma_missing_status_skips(p: PipelineV, resp: Json)
    requires
        p.wf(),
        p.phase is Status,
        p.idx < p.prs.len(),
        status_state_spec(resp) is None,
    ensures
        p.spec_step(resp).1 is None,
        p.spec_step(resp).0.idx == p.idx + 1,
        p.spec_step(resp).0.phase is Head,
        p.spec_step(resp).0.prs == p.prs,
        p.spec_step(resp).0.aborted == p.aborted,
        p.spec_step(resp).0.wf(),
{
}

/// Every consumed response brings the run strictly closer to its end: a
/// run over the discovered records asks for at most two responses per
/// record and then terminates.
pub proof fn lemma_step_makes_progress(p: PipelineV, resp: Json)
    requires
        p.wf(),
        p.spec_next() is Some,
    ensures
        0 <= p.spec_step(resp).0.remaining() < p.remaining(),
{
}

/// A transport failure at any stage ends the run: the aborted pipeline
/// requests nothing further, whatever state it was in.
pub proof fn lemma_failure_ends_run(p: PipelineV)
    ensures
        p.spec_fail().aborted,
        p.spec_fail().spec_next() is None,
        p.spec_fail().prs == p.prs,
        p.spec_fail().idx == p.idx,
{
}

} // verus!
