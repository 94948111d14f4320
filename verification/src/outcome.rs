use vstd::prelude::*;

verus! {

/// The stage at which a run failed. `Compatibility` is raised before any
/// pipeline stage begins; the other four are the pipeline's stages.
#[derive(Clone, Copy, PartialEq, Eq, Structural, Debug)]
pub enum Stage {
    Compatibility,
    Configuration,
    Compilation,
    WitnessBuild,
    WitnessVerify,
}

/// The layered outcome of one pipeline run: either a success, carrying a
/// short summary and the textual artifact, or the single most specific
/// failure, carrying its stage and a display-ready message.
pub enum CompileResult {
    Success { summary: String, artifact: String },
    Failure { stage: Stage, message: String },
}

pub ghost enum ResultView {
    Success { summary: Seq<char>, artifact: Seq<char> },
    Failure { stage: Stage, message: Seq<char> },
}

impl View for CompileResult {
    type V = ResultView;

    open spec fn view(&self) -> ResultView {
        match self {
            CompileResult::Success { summary, artifact } => ResultView::Success {
                summary: summary@,
                artifact: artifact@,
            },
            CompileResult::Failure { stage, message } => ResultView::Failure {
                stage: *stage,
                message: message@,
            },
        }
    }
}

/// The status line a result presents: the success summary, or the
/// failure message.
pub open spec fn spec_status(r: ResultView) -> Seq<char> {
    match r {
        ResultView::Success { summary, .. } => summary,
        ResultView::Failure { message, .. } => message,
    }
}

/// The artifact body a result presents: the compiled listing on success,
/// empty on failure.
pub open spec fn spec_artifact(r: ResultView) -> Seq<char> {
    match r {
        ResultView::Success { artifact, .. } => artifact,
        ResultView::Failure { .. } => Seq::empty(),
    }
}

/// Pure data sink for the latest result: receives one `CompileResult`
/// per pipeline run and exposes it for display, split into a short
/// status line and a (possibly large) artifact body.
pub struct Presenter {
    latest: CompileResult,
}

impl View for Presenter {
    type V = ResultView;

    closed spec fn view(&self) -> ResultView {
        self.latest@
    }
}

impl Presenter {
    /// A presenter holding an empty success: nothing has been compiled
    /// yet, so both the status line and the artifact body are empty.
    pub fn empty() -> (r: Presenter)
        ensures
            r@ == (ResultView::Success { summary: Seq::<char>::empty(), artifact: Seq::<char>::empty() }),
    {
        Presenter {
            latest: CompileResult::Success { summary: String::new(), artifact: String::new() },
        }
    }

    /// Replace the held result wholesale; it is never partially updated.
    pub fn publish(&mut self, r: CompileResult)
        ensures
            final(self)@ == r@,
    {
        self.latest = r;
    }

    /// The status line of the latest result.
    pub fn status(&self) -> (r: String)
        ensures
            r@ == spec_status(self@),
    {
        match &self.latest {
            CompileResult::Success { summary, .. } => summary.clone(),
            CompileResult::Failure { message, .. } => message.clone(),
        }
    }

    /// The artifact body of the latest result.
    pub fn artifact(&self) -> (r: String)
        ensures
            r@ == spec_artifact(self@),
    {
        match &self.latest {
            CompileResult::Success { artifact, .. } => artifact.clone(),
            CompileResult::Failure { .. } => String::new(),
        }
    }
}

} // verus!
