use vstd::prelude::*;
use vstd::string::StringExecFns;
use crate::fields::{field_name, spec_field_name};
use crate::outcome::{CompileResult, ResultView, Stage};
use crate::sanitize::{strip_ansi, stripped_of};
use crate::selection::{
    extension_priorities, spec_extension_priorities, spec_target_str, target_str, Field, Target,
};

verus! {

/// The configuration handed to the external compiler: target and field
/// identifiers, the fixed entry function name, the target's extension
/// preference list, and — in this interactive mode — no include paths and
/// no public or secret inputs.
pub struct CompilerConfig {
    pub target: String,
    pub field: String,
    pub entry_fn: String,
    pub extension_priorities: Vec<String>,
    pub include_paths: Vec<String>,
    pub inputs: Vec<String>,
    pub secret_inputs: Vec<String>,
    pub verbosity: u8,
}

#[verifier::ext_equal]
pub ghost struct ConfigView {
    pub target: Seq<char>,
    pub field: Seq<char>,
    pub entry_fn: Seq<char>,
    pub extension_priorities: Seq<Seq<char>>,
    pub include_paths: Seq<Seq<char>>,
    pub inputs: Seq<Seq<char>>,
    pub secret_inputs: Seq<Seq<char>>,
    pub verbosity: u8,
}

impl View for CompilerConfig {
    type V = ConfigView;

    open spec fn view(&self) -> ConfigView {
        ConfigView {
            target: self.target@,
            field: self.field@,
            entry_fn: self.entry_fn@,
            extension_priorities: self.extension_priorities@.map_values(|s: String| s@),
            include_paths: self.include_paths@.map_values(|s: String| s@),
            inputs: self.inputs@.map_values(|s: String| s@),
            secret_inputs: self.secret_inputs@.map_values(|s: String| s@),
            verbosity: self.verbosity,
        }
    }
}

/// The configuration a (target, field) selection determines: the entry
/// function is fixed to the well-known identifier "entry", and the
/// interactive mode passes no include paths and no inputs.
pub open spec fn spec_config(t: Target, f: Field) -> ConfigView {
    ConfigView {
        target: spec_target_str(t),
        field: spec_field_name(f),
        entry_fn: "entry"@,
        extension_priorities: spec_extension_priorities(t),
        include_paths: Seq::empty(),
        inputs: Seq::empty(),
        secret_inputs: Seq::empty(),
        verbosity: 0,
    }
}

pub fn make_config(t: Target, f: Field) -> (c: CompilerConfig)
    ensures
        c@ == spec_config(t, f),
{
    let c = CompilerConfig {
        target: target_str(t).to_owned(),
        field: field_name(f),
        entry_fn: "entry".to_owned(),
        extension_priorities: extension_priorities(t),
        include_paths: Vec::new(),
        inputs: Vec::new(),
        secret_inputs: Vec::new(),
        verbosity: 0,
    };
    proof {
        assert(c.extension_priorities@.map_values(|s: String| s@) =~= spec_extension_priorities(
            t,
        ));
        assert(c.include_paths@.map_values(|s: String| s@) =~= Seq::<Seq<char>>::empty());
        assert(c.inputs@.map_values(|s: String| s@) =~= Seq::<Seq<char>>::empty());
        assert(c.secret_inputs@.map_values(|s: String| s@) =~= Seq::<Seq<char>>::empty());
        assert(c@ =~= spec_config(t, f));
    }
    c
}

/// The pipeline's state between collaborator calls. A run starts in
/// `Configuring`; every failure is terminal for the run, and `Done` holds
/// the result the presenter receives.
pub enum PipelineState {
    Configuring { config: CompilerConfig },
    Compiling,
    BuildingWitness { artifact: String },
    Verifying { artifact: String },
    Done { result: CompileResult },
}

#[verifier::ext_equal]
pub ghost enum StateView {
    Configuring { config: ConfigView },
    Compiling,
    BuildingWitness { artifact: Seq<char> },
    Verifying { artifact: Seq<char> },
    Done { result: ResultView },
}

impl View for PipelineState {
    type V = StateView;

    open spec fn view(&self) -> StateView {
        match self {
            PipelineState::Configuring { config } => StateView::Configuring { config: config@ },
            PipelineState::Compiling => StateView::Compiling,
            PipelineState::BuildingWitness { artifact } => StateView::BuildingWitness {
                artifact: artifact@,
            },
            PipelineState::Verifying { artifact } => StateView::Verifying { artifact: artifact@ },
            PipelineState::Done { result } => StateView::Done { result: result@ },
        }
    }
}

/// What the external collaborator reported for the stage the pipeline is
/// waiting on. `Compiled`'s success value is the compiled program's
/// textual rendering; every error value is the collaborator's diagnostic
/// text.
pub enum PipelineEvent {
    Configured(Result<(), String>),
    Compiled(Result<String, String>),
    WitnessBuilt(Result<(), String>),
    WitnessVerified(Result<(), String>),
}

#[verifier::ext_equal]
pub ghost enum EventView {
    Configured(Result<(), Seq<char>>),
    Compiled(Result<Seq<char>, Seq<char>>),
    WitnessBuilt(Result<(), Seq<char>>),
    WitnessVerified(Result<(), Seq<char>>),
}

impl View for PipelineEvent {
    type V = EventView;

    open spec fn view(&self) -> EventView {
        match self {
            PipelineEvent::Configured(r) => EventView::Configured(
                match r {
                    Ok(u) => Ok(*u),
                    Err(e) => Err(e@),
                },
            ),
            PipelineEvent::Compiled(r) => EventView::Compiled(
                match r {
                    Ok(a) => Ok(a@),
                    Err(e) => Err(e@),
                },
            ),
            PipelineEvent::WitnessBuilt(r) => EventView::WitnessBuilt(
                match r {
                    Ok(u) => Ok(*u),
                    Err(e) => Err(e@),
                },
            ),
            PipelineEvent::WitnessVerified(r) => EventView::WitnessVerified(
                match r {
                    Ok(u) => Ok(*u),
                    Err(e) => Err(e@),
                },
            ),
        }
    }
}

/// One pipeline run: the target and field it was started for, and its
/// current state. The run always reflects the selection committed when it
/// started; a new run starts over from `Configuring`.
pub struct PipelineRun {
    pub target: Target,
    pub field: Field,
    pub state: PipelineState,
}

#[verifier::ext_equal]
pub ghost struct RunView {
    pub target: Target,
    pub field: Field,
    pub state: StateView,
}

impl View for PipelineRun {
    type V = RunView;

    open spec fn view(&self) -> RunView {
        RunView { target: self.target, field: self.field, state: self.state@ }
    }
}

pub open spec fn spec_config_failure_message(e: Seq<char>) -> Seq<char> {
    "Failed to create compiler: "@ + e
}

pub open spec fn spec_compile_failure_message(t: Target, diag: Seq<char>) -> Seq<char> {
    "Failed to compile to "@ + spec_target_str(t) + ": "@ + stripped_of(diag)
}

pub open spec fn spec_witness_build_failure_message(e: Seq<char>) -> Seq<char> {
    "Failed to build witness: "@ + e
}

pub open spec fn spec_witness_verify_failure_message(e: Seq<char>) -> Seq<char> {
    "Failed to solve r1cs: "@ + e
}

pub open spec fn spec_assembly_success_summary(f: Field) -> Seq<char> {
    "Compiled program to tasm source for field "@ + spec_field_name(f)
}

pub open spec fn spec_r1cs_success_summary(f: Field) -> Seq<char> {
    "Compiling for field "@ + spec_field_name(f) + "...\nR1CS: built and validated witness ✅"@
}

fn config_failure_message(e: &String) -> (r: String)
    ensures
        r@ == spec_config_failure_message(e@),
{
    let mut m = "Failed to create compiler: ".to_owned();
    m.append(e.as_str());
    m
}

/// The one message built from raw external diagnostic text: the
/// compiler's diagnostic is sanitized before display.
fn compile_failure_message(t: Target, diag: &String) -> (r: String)
    ensures
        r@ == spec_compile_failure_message(t, diag@),
{
    let mut m = "Failed to compile to ".to_owned();
    m.append(target_str(t));
    m.append(": ");
    let stripped = strip_ansi(diag.as_str());
    m.append(stripped.as_str());
    m
}

fn witness_build_failure_message(e: &String) -> (r: String)
    ensures
        r@ == spec_witness_build_failure_message(e@),
{
    let mut m = "Failed to build witness: ".to_owned();
    m.append(e.as_str());
    m
}

fn witness_verify_failure_message(e: &String) -> (r: String)
    ensures
        r@ == spec_witness_verify_failure_message(e@),
{
    let mut m = "Failed to solve r1cs: ".to_owned();
    m.append(e.as_str());
    m
}

fn assembly_success_summary(f: Field) -> (r: String)
    ensures
        r@ == spec_assembly_success_summary(f),
{
    let mut m = "Compiled program to tasm source for field ".to_owned();
    let n = field_name(f);
    m.append(n.as_str());
    m
}

fn r1cs_success_summary(f: Field) -> (r: String)
    ensures
        r@ == spec_r1cs_success_summary(f),
{
    let mut m = "Compiling for field ".to_owned();
    let n = field_name(f);
    m.append(n.as_str());
    m.append("...\nR1CS: built and validated witness ✅");
    m
}

/// The fresh run a validated (target, field) selection starts.
pub open spec fn spec_initial_run(t: Target, f: Field) -> RunView {
    RunView { target: t, field: f, state: StateView::Configuring { config: spec_config(t, f) } }
}

pub fn start_run(t: Target, f: Field) -> (r: PipelineRun)
    ensures
        r@ == spec_initial_run(t, f),
{
    PipelineRun { target: t, field: f, state: PipelineState::Configuring { config: make_config(t, f) } }
}

/// Whether an event reports on the stage the run is waiting for.
pub open spec fn event_fits(state: StateView, ev: EventView) -> bool {
    match (state, ev) {
        (StateView::Configuring { .. }, EventView::Configured(_)) => true,
        (StateView::Compiling, EventView::Compiled(_)) => true,
        (StateView::BuildingWitness { .. }, EventView::WitnessBuilt(_)) => true,
        (StateView::Verifying { .. }, EventView::WitnessVerified(_)) => true,
        _ => false,
    }
}

/// The pipeline's transition relation, one stage outcome at a time.
///
/// - A configured compiler advances the run to `Compiling`; a
///   configuration error is terminal at the `Configuration` stage.
/// - A compiled program advances a constraint-system run to witness
///   building, and completes an assembly run with the rendered listing
///   under a summary naming the compiled-for field; a
///   compiler diagnostic is terminal at the `Compilation` stage, with the
///   diagnostic sanitized.
/// - A built witness advances to verification; failures of building and
///   verifying are terminal at their stages.
/// - A verified witness completes the run with a summary naming the field
///   and the witness validation.
/// - A `Done` run is terminal: no event changes it.
pub open spec fn spec_step(run: RunView, ev: EventView) -> RunView {
    let state = match (run.state, ev) {
        (StateView::Configuring { .. }, EventView::Configured(Ok(_))) => StateView::Compiling,
        (StateView::Configuring { .. }, EventView::Configured(Err(e))) => StateView::Done {
            result: ResultView::Failure {
                stage: Stage::Configuration,
                message: spec_config_failure_message(e),
            },
        },
        (StateView::Compiling, EventView::Compiled(Ok(art))) => if run.target is ConstraintSystem {
            StateView::BuildingWitness { artifact: art }
        } else {
            StateView::Done {
                result: ResultView::Success {
                    summary: spec_assembly_success_summary(run.field),
                    artifact: art,
                },
            }
        },
        (StateView::Compiling, EventView::Compiled(Err(d))) => StateView::Done {
            result: ResultView::Failure {
                stage: Stage::Compilation,
                message: spec_compile_failure_message(run.target, d),
            },
        },
        (StateView::BuildingWitness { artifact }, EventView::WitnessBuilt(Ok(_))) => StateView::Verifying {
            artifact,
        },
        (StateView::BuildingWitness { .. }, EventView::WitnessBuilt(Err(e))) => StateView::Done {
            result: ResultView::Failure {
                stage: Stage::WitnessBuild,
                message: spec_witness_build_failure_message(e),
            },
        },
        (StateView::Verifying { artifact }, EventView::WitnessVerified(Ok(_))) => StateView::Done {
            result: ResultView::Success {
                summary: spec_r1cs_success_summary(run.field),
                artifact,
            },
        },
        (StateView::Verifying { .. }, EventView::WitnessVerified(Err(e))) => StateView::Done {
            result: ResultView::Failure {
                stage: Stage::WitnessVerify,
                message: spec_witness_verify_failure_message(e),
            },
        },
        _ => run.state,
    };
    RunView { target: run.target, field: run.field, state }
}

/// Advance a run by the outcome the collaborator reported for the stage
/// the run is waiting on.
pub fn pipeline_step(run: PipelineRun, event: PipelineEvent) -> (r: PipelineRun)
    requires
        event_fits(run@.state, event@),
    ensures
        r@ == spec_step(run@, event@),
{
    let PipelineRun { target, field, state } = run;
    let next = match (state, event) {
        (PipelineState::Configuring { .. }, PipelineEvent::Configured(Ok(_))) => {
            PipelineState::Compiling
        },
        (PipelineState::Configuring { .. }, PipelineEvent::Configured(Err(e))) => {
            PipelineState::Done {
                result: CompileResult::Failure {
                    stage: Stage::Configuration,
                    message: config_failure_message(&e),
                },
            }
        },
        (PipelineState::Compiling, PipelineEvent::Compiled(Ok(art))) => {
            match target {
                Target::ConstraintSystem => PipelineState::BuildingWitness { artifact: art },
                Target::Assembly => PipelineState::Done {
                    result: CompileResult::Success {
                        summary: assembly_success_summary(field),
                        artifact: art,
                    },
                },
            }
        },
        (PipelineState::Compiling, PipelineEvent::Compiled(Err(d))) => {
            PipelineState::Done {
                result: CompileResult::Failure {
                    stage: Stage::Compilation,
                    message: compile_failure_message(target, &d),
                },
            }
        },
        (PipelineState::BuildingWitness { artifact }, PipelineEvent::WitnessBuilt(Ok(_))) => {
            PipelineState::Verifying { artifact }
        },
        (PipelineState::BuildingWitness { .. }, PipelineEvent::WitnessBuilt(Err(e))) => {
            PipelineState::Done {
                result: CompileResult::Failure {
                    stage: Stage::WitnessBuild,
                    message: witness_build_failure_message(&e),
                },
            }
        },
        (PipelineState::Verifying { artifact }, PipelineEvent::WitnessVerified(Ok(_))) => {
            PipelineState::Done {
                result: CompileResult::Success {
                    summary: r1cs_success_summary(field),
                    artifact,
                },
            }
        },
        (PipelineState::Verifying { .. }, PipelineEvent::WitnessVerified(Err(e))) => {
            PipelineState::Done {
                result: CompileResult::Failure {
                    stage: Stage::WitnessVerify,
                    message: witness_verify_failure_message(&e),
                },
            }
        },
        _ => {
            proof {
                assert(false);
            }
            vstd::pervasive::unreached()
        },
    };
    PipelineRun { target, field, state: next }
}

/// The run that a sequence of stage outcomes, applied in order, leads to.
pub open spec fn spec_drive(run: RunView, events: Seq<EventView>) -> RunView
    decreases events.len(),
{
    if events.len() == 0 {
        run
    } else {
        spec_drive(spec_step(run, events[0]), events.drop_first())
    }
}

/// Every failure and every success is terminal for its run: once a run is
/// done, no further stage outcome changes its result.
pub proof fn lemma_done_is_terminal(run: RunView, events: Seq<EventView>)
    requires
        run.state is Done,
    ensures
        spec_drive(run, events) == run,
    decreases events.len(),
{
    if events.len() > 0 {
        assert(spec_step(run, events[0]) =~= run);
        lemma_done_is_terminal(run, events.drop_first());
    }
}

/// For the constraint-system target a run succeeds only through witness
/// verification: if the outcomes drive an unfinished run to a successful
/// result, the external verifier reported success on the built witness.
pub proof fn lemma_success_implies_witness_verified(run: RunView, events: Seq<EventView>)
    requires
        run.target is ConstraintSystem,
        !(run.state is Done),
        spec_drive(run, events).state matches StateView::Done {
            result: ResultView::Success { .. },
        },
    ensures
        exists|i: int|
            0 <= i < events.len() && (#[trigger] events[i]) matches EventView::WitnessVerified(
                Ok(_),
            ),
    decreases events.len(),
{
    if events.len() == 0 {
        assert(spec_drive(run, events) == run);
    } else {
        let s1 = spec_step(run, events[0]);
        if s1.state is Done {
            lemma_done_is_terminal(s1, events.drop_first());
            assert(s1.state matches StateView::Done { result: ResultView::Success { .. } });
            assert(events[0] matches EventView::WitnessVerified(Ok(_)));
        } else {
            lemma_success_implies_witness_verified(s1, events.drop_first());
            let i = choose|i: int|
                0 <= i < events.drop_first().len() && (#[trigger] events.drop_first()[i]) matches
                    EventView::WitnessVerified(Ok(_));
            assert(events[i + 1] matches EventView::WitnessVerified(Ok(_)));
        }
    }
}

/// A successful constraint-system run implies the witness was both built
/// and verified: driving a fresh run to a successful result takes a
/// successful outcome from the external witness builder and one from the
/// external verifier.
pub proof fn lemma_success_built_and_verified(t: Target, f: Field, events: Seq<EventView>)
    requires
        t is ConstraintSystem,
        spec_drive(spec_initial_run(t, f), events).state matches StateView::Done {
            result: ResultView::Success { .. },
        },
    ensures
        exists|i: int|
            0 <= i < events.len() && (#[trigger] events[i]) matches EventView::WitnessBuilt(
                Ok(_),
            ),
        exists|i: int|
            0 <= i < events.len() && (#[trigger] events[i]) matches EventView::WitnessVerified(
                Ok(_),
            ),
{
    lemma_success_implies_witness_built(spec_initial_run(t, f), events);
    lemma_success_implies_witness_verified(spec_initial_run(t, f), events);
}

/// No failure is silently swallowed: every failure a run can end in
/// carries a non-empty message. (The compatibility failure raised before
/// a run starts carries its fixed, non-empty reason.)
pub proof fn lemma_failure_message_nonempty(run: RunView, events: Seq<EventView>)
    requires
        !(run.state is Done),
    ensures
        spec_drive(run, events).state matches StateView::Done {
            result: ResultView::Failure { message, .. },
        } ==> message.len() > 0,
    decreases events.len(),
{
    reveal_strlit("Failed to create compiler: ");
    reveal_strlit("Failed to compile to ");
    reveal_strlit("Failed to build witness: ");
    reveal_strlit("Failed to solve r1cs: ");
    if events.len() == 0 {
        assert(spec_drive(run, events) == run);
    } else {
        let s1 = spec_step(run, events[0]);
        if s1.state is Done {
            lemma_done_is_terminal(s1, events.drop_first());
        } else {
            lemma_failure_message_nonempty(s1, events.drop_first());
        }
    }
}

/// For the constraint-system target a successful run also passed through
/// witness building: if the outcomes drive a run that has not yet built a
/// witness to a successful result, the external witness builder reported
/// success.
pub proof fn lemma_success_implies_witness_built(run: RunView, events: Seq<EventView>)
    requires
        run.target is ConstraintSystem,
        run.state is Configuring || run.state is Compiling || run.state is BuildingWitness,
        spec_drive(run, events).state matches StateView::Done {
            result: ResultView::Success { .. },
        },
    ensures
        exists|i: int|
            0 <= i < events.len() && (#[trigger] events[i]) matches EventView::WitnessBuilt(
                Ok(_),
            ),
    decreases events.len(),
{
    if events.len() == 0 {
        assert(spec_drive(run, events) == run);
    } else {
        let s1 = spec_step(run, events[0]);
        if s1.state is Done {
            lemma_done_is_terminal(s1, events.drop_first());
            assert(false);
        } else if s1.state is Verifying {
            assert(events[0] matches EventView::WitnessBuilt(Ok(_)));
        } else {
            lemma_success_implies_witness_built(s1, events.drop_first());
            let i = choose|i: int|
                0 <= i < events.drop_first().len() && (#[trigger] events.drop_first()[i]) matches
                    EventView::WitnessBuilt(Ok(_));
            assert(events[i + 1] matches EventView::WitnessBuilt(Ok(_)));
        }
    }
}

} // verus!
