//! The presentation state machine: what to show for each fragment, and when
//! the stream has ended or failed.
use vstd::prelude::*;
use crate::decoder::{Fragment, RespUsage};

verus! {

#[derive(Clone, Copy, Debug, PartialEq, Eq, Structural)]
pub enum Phase {
    Initial,
    ReasoningActive,
    ContentActive,
    Done,
}

/// Something to put on the terminal; the caller chooses the styling.
#[derive(Debug, PartialEq, Eq)]
pub enum Emission {
    /// The one-time note that a reasoning-capable model answers.
    ReasoningNotice,
    /// Reasoning text, shown distinctly from the answer.
    Reasoning(String),
    /// The break between shown reasoning and the answer.
    Separator,
    /// Answer text, shown verbatim.
    Content(String),
    /// The token counts that close the stream.
    Usage(RespUsage),
}

/// A fatal end of the stream.
#[derive(Debug, PartialEq, Eq)]
pub enum RenderError {
    /// The model stopped for a reason other than `"stop"`.
    AbnormalFinish(String),
    /// A payload or the transport failed.
    Decode(String),
}

pub open spec fn stop_reason() -> Seq<char> {
    "stop"@
}

/// The phase after a fragment.
pub open spec fn next_phase(phase: Phase, frag: Fragment) -> Phase {
    if phase == Phase::Done {
        Phase::Done
    } else {
        match frag {
            Fragment::FinishSignal(r) => if r@ == stop_reason() {
                phase
            } else {
                Phase::Done
            },
            Fragment::DecodeError(_) => Phase::Done,
            Fragment::UsageSummary(_) => Phase::Done,
            Fragment::ReasoningDelta(t) => if phase == Phase::Initial && t@.len() > 0 {
                Phase::ReasoningActive
            } else {
                phase
            },
            Fragment::ContentDelta(_) => Phase::ContentActive,
        }
    }
}

/// What a fragment shows, or the failure it reports.
pub open spec fn step_outcome(phase: Phase, show_reasoning: bool, frag: Fragment) -> Result<
    Seq<Emission>,
    RenderError,
> {
    if phase == Phase::Done {
        Ok(Seq::empty())
    } else {
        match frag {
            Fragment::FinishSignal(r) => if r@ == stop_reason() {
                Ok(Seq::empty())
            } else {
                Err(RenderError::AbnormalFinish(r))
            },
            Fragment::DecodeError(cause) => Err(RenderError::Decode(cause)),
            Fragment::UsageSummary(u) => Ok(seq![Emission::Usage(u)]),
            Fragment::ReasoningDelta(t) => if phase == Phase::Initial && t@.len() > 0 {
                if show_reasoning {
                    Ok(seq![Emission::ReasoningNotice, Emission::Reasoning(t)])
                } else {
                    Ok(seq![Emission::ReasoningNotice])
                }
            } else if phase == Phase::ReasoningActive && show_reasoning {
                Ok(seq![Emission::Reasoning(t)])
            } else {
                Ok(Seq::empty())
            },
            Fragment::ContentDelta(t) => if phase == Phase::ReasoningActive && show_reasoning {
                Ok(seq![Emission::Separator, Emission::Content(t)])
            } else {
                Ok(seq![Emission::Content(t)])
            },
        }
    }
}

/// The renderer's state across one stream of fragments.
pub struct RenderState {
    phase: Phase,
    show_reasoning: bool,
}

impl RenderState {
    pub closed spec fn phase_spec(&self) -> Phase {
        self.phase
    }

    pub closed spec fn shows_reasoning(&self) -> bool {
        self.show_reasoning
    }

    pub fn new(show_reasoning: bool) -> (r: RenderState)
        ensures
            r.phase_spec() == Phase::Initial,
            r.shows_reasoning() == show_reasoning,
    {
        RenderState { phase: Phase::Initial, show_reasoning }
    }

    pub fn phase(&self) -> (r: Phase)
        ensures
            r == self.phase_spec(),
    {
        self.phase
    }

    pub fn show_reasoning(&self) -> (r: bool)
        ensures
            r == self.shows_reasoning(),
    {
        self.show_reasoning
    }

    pub fn is_done(&self) -> (r: bool)
        ensures
            r == (self.phase_spec() == Phase::Done),
    {
        self.phase == Phase::Done
    }

    /// The stream ran out: nothing more is shown.
    pub fn end_of_stream(&mut self)
        ensures
            final(self).phase_spec() == Phase::Done,
            final(self).shows_reasoning() == old(self).shows_reasoning(),
    {
        self.phase = Phase::Done;
    }

    /// Handles one fragment: moves to `next_phase` and returns what
    /// `step_outcome` gives.
    pub fn step(&mut self, frag: Fragment) -> (r: Result<Vec<Emission>, RenderError>)
        ensures
            final(self).phase_spec() == next_phase(old(self).phase_spec(), frag),
            final(self).shows_reasoning() == old(self).shows_reasoning(),
            match r {
                Ok(v) => step_outcome(old(self).phase_spec(), old(self).shows_reasoning(), frag)
                    == Ok::<Seq<Emission>, RenderError>(v@),
                Err(e) => step_outcome(old(self).phase_spec(), old(self).shows_reasoning(), frag)
                    == Err::<Seq<Emission>, RenderError>(e),
            },
    {
        let mut out: Vec<Emission> = Vec::new();
        if self.phase == Phase::Done {
            return Ok(out);
        }
        match frag {
            Fragment::FinishSignal(r) => {
                let stop = "stop".to_owned();
                if r == stop {
                    Ok(out)
                } else {
                    self.phase = Phase::Done;
                    Err(RenderError::AbnormalFinish(r))
                }
            },
            Fragment::DecodeError(cause) => {
                self.phase = Phase::Done;
                Err(RenderError::Decode(cause))
            },
            Fragment::UsageSummary(u) => {
                self.phase = Phase::Done;
                out.push(Emission::Usage(u));
                Ok(out)
            },
            Fragment::ReasoningDelta(t) => {
                if self.phase == Phase::Initial && !t.as_str().is_empty() {
                    self.phase = Phase::ReasoningActive;
                    out.push(Emission::ReasoningNotice);
                    if self.show_reasoning {
                        out.push(Emission::Reasoning(t));
                    }
                } else if self.phase == Phase::ReasoningActive && self.show_reasoning {
                    out.push(Emission::Reasoning(t));
                }
                proof {
                    assert(out@ =~= step_outcome(old(self).phase, self.show_reasoning, frag)->Ok_0);
                }
                Ok(out)
            },
            Fragment::ContentDelta(t) => {
                if self.phase == Phase::ReasoningActive && self.show_reasoning {
                    out.push(Emission::Separator);
                }
                self.phase = Phase::ContentActive;
                out.push(Emission::Content(t));
                proof {
                    assert(out@ =~= step_outcome(old(self).phase, self.show_reasoning, frag)->Ok_0);
                }
                Ok(out)
            },
        }
    }
}

} // verus!
