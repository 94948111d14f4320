use vstd::prelude::*;
use crate::fs::{init, spec_initial_files, ENTRY_FILE_NAME, ENTRY_TEXT};
use crate::outcome::{
    spec_artifact, spec_status, CompileResult, Presenter, ResultView, Stage,
};
use crate::pipeline::{
    spec_drive, spec_initial_run, start_run, EventView, PipelineRun, PipelineState, StateView,
};
use crate::selection::{compatible, incompatible_reason, validate, Field, Selection, Target};
use crate::workspace::Workspace;

verus! {

/// One interactive session: the workspace being edited, the current
/// selection, the editor's buffer for the active file, and the presenter
/// holding the latest result. The session is the single owner of all of
/// them; every operation takes it by reference.
pub struct IDE {
    workspace: Workspace,
    selection: Selection,
    source: String,
    presenter: Presenter,
}

#[verifier::ext_equal]
pub ghost struct IdeView {
    pub workspace: Map<Seq<char>, Seq<char>>,
    pub active_file: Seq<char>,
    pub target: Target,
    pub field: Field,
    pub source: Seq<char>,
    pub latest: ResultView,
}

impl View for IDE {
    type V = IdeView;

    closed spec fn view(&self) -> IdeView {
        IdeView {
            workspace: self.workspace@,
            active_file: self.selection.active_file@,
            target: self.selection.target,
            field: self.selection.field,
            source: self.source@,
            latest: self.presenter@,
        }
    }
}

/// The state a fresh session starts in: the seeded workspace, the entry
/// file active and loaded into the editor's buffer, the constraint-system
/// target over the oxfoi field, and nothing presented yet.
pub open spec fn spec_fresh_session() -> IdeView {
    IdeView {
        workspace: spec_initial_files(),
        active_file: ENTRY_FILE_NAME@,
        target: Target::ConstraintSystem,
        field: Field::Oxfoi,
        source: ENTRY_TEXT@,
        latest: ResultView::Success {
            summary: Seq::<char>::empty(),
            artifact: Seq::<char>::empty(),
        },
    }
}

/// The session state a recompilation trigger commits before any stage
/// runs: the editor's buffer becomes the stored text of the active file,
/// so the compiler's view of the workspace matches the editor exactly.
pub open spec fn spec_commit(s: IdeView) -> IdeView {
    IdeView { workspace: s.workspace.insert(s.active_file, s.source), ..s }
}

/// The result one full recompilation publishes for a committed session
/// state, given the outcomes the external collaborators report: the
/// compatibility failure before any stage runs, the result of the run the
/// outcomes drive to completion, or — if they do not complete it — the
/// result already presented.
pub open spec fn spec_run_result(s: IdeView, events: Seq<EventView>) -> ResultView {
    if !compatible(s.target, s.field) {
        ResultView::Failure { stage: Stage::Compatibility, message: incompatible_reason() }
    } else {
        let end = spec_drive(spec_initial_run(s.target, s.field), events);
        match end.state {
            StateView::Done { result } => result,
            _ => s.latest,
        }
    }
}

impl IDE {
    /// Well-formedness: the workspace's file names are unique and the
    /// active file is one of them.
    pub closed spec fn wf(&self) -> bool {
        self.workspace.wf() && self.workspace@.contains_key(self.selection.active_file@)
    }

    /// Start a session on the seeded workspace.
    pub fn new() -> (r: IDE)
        ensures
            r.wf(),
            r@ == spec_fresh_session(),
    {
        let workspace = init();
        let active_file: String = ENTRY_FILE_NAME.to_owned();
        let source = match workspace.get(&active_file) {
            Some(text) => text,
            None => String::new(),
        };
        let r = IDE {
            workspace,
            selection: Selection {
                active_file,
                target: Target::ConstraintSystem,
                field: Field::Oxfoi,
            },
            source,
            presenter: Presenter::empty(),
        };
        proof {
            assert(spec_initial_files()[ENTRY_FILE_NAME@] == ENTRY_TEXT@);
            assert(r@ =~= spec_fresh_session());
        }
        r
    }

    /// The name of the file being edited.
    pub fn active_file(&self) -> (r: &String)
        ensures
            r@ == self@.active_file,
    {
        &self.selection.active_file
    }

    /// The selected compilation target.
    pub fn target(&self) -> (r: Target)
        ensures
            r == self@.target,
    {
        self.selection.target
    }

    /// The selected field algebra.
    pub fn field(&self) -> (r: Field)
        ensures
            r == self@.field,
    {
        self.selection.field
    }

    /// The editor's current buffer for the active file.
    pub fn source(&self) -> (r: &String)
        ensures
            r@ == self@.source,
    {
        &self.source
    }

    /// The status line of the latest result.
    pub fn status(&self) -> (r: String)
        ensures
            r@ == spec_status(self@.latest),
    {
        self.presenter.status()
    }

    /// The artifact body of the latest result.
    pub fn artifact(&self) -> (r: String)
        ensures
            r@ == spec_artifact(self@.latest),
    {
        self.presenter.artifact()
    }

    /// The names of the workspace's files, each exactly once.
    pub fn file_names(&self) -> (r: Vec<String>)
        requires
            self.wf(),
        ensures
            forall|i: int| 0 <= i < r@.len() ==> self@.workspace.contains_key(#[trigger] r@[i]@),
            forall|k: Seq<char>|
                #[trigger] self@.workspace.contains_key(k) ==> exists|i: int|
                    0 <= i < r@.len() && r@[i]@ == k,
            forall|i: int, j: int| 0 <= i < j < r@.len() ==> r@[i]@ != r@[j]@,
    {
        self.workspace.names()
    }

    /// The stored text of a file, or nothing if the workspace holds no
    /// file of that name.
    pub fn file_text(&self, name: &String) -> (r: Option<String>)
        requires
            self.wf(),
        ensures
            r is Some <==> self@.workspace.contains_key(name@),
            r matches Some(t) ==> t@ == self@.workspace[name@],
    {
        self.workspace.get(name)
    }

    /// Replace the editor's buffer after an edit to the active file's
    /// text. The workspace is not touched until the next recompilation
    /// commits the buffer.
    pub fn set_source(&mut self, text: String)
        requires
            old(self).wf(),
        ensures
            final(self).wf(),
            final(self)@ == (IdeView { source: text@, ..old(self)@ }),
    {
        self.source = text;
    }

    /// Switch the active file. Selecting a name the workspace does not
    /// hold changes nothing; otherwise the stored text of the newly
    /// active file is loaded into the editor's buffer.
    pub fn select_file(&mut self, name: &String) -> (r: bool)
        requires
            old(self).wf(),
        ensures
            final(self).wf(),
            r == old(self)@.workspace.contains_key(name@),
            r ==> final(self)@ == (IdeView {
                active_file: name@,
                source: old(self)@.workspace[name@],
                ..old(self)@
            }),
            !r ==> final(self)@ == old(self)@,
    {
        match self.workspace.get(name) {
            Some(text) => {
                self.selection.active_file = name.clone();
                self.source = text;
                true
            },
            None => false,
        }
    }

    /// Add an auxiliary file, or replace the stored text of an existing
    /// one: the presentation layer's write access to the workspace beside
    /// the active file's buffer. The selection and the editor's buffer
    /// are untouched.
    pub fn add_file(&mut self, name: &String, text: String)
        requires
            old(self).wf(),
        ensures
            final(self).wf(),
            final(self)@ == (IdeView {
                workspace: old(self)@.workspace.insert(name@, text@),
                ..old(self)@
            }),
    {
        self.workspace.set(name, text);
        proof {
            assert(self@ =~= (IdeView {
                workspace: old(self)@.workspace.insert(name@, text@),
                ..old(self)@
            }));
        }
    }

    /// Select the compilation target.
    pub fn set_target(&mut self, t: Target)
        requires
            old(self).wf(),
        ensures
            final(self).wf(),
            final(self)@ == (IdeView { target: t, ..old(self)@ }),
    {
        self.selection.target = t;
    }

    /// Select the field algebra.
    pub fn set_field(&mut self, f: Field)
        requires
            old(self).wf(),
        ensures
            final(self).wf(),
            final(self)@ == (IdeView { field: f, ..old(self)@ }),
    {
        self.selection.field = f;
    }

    /// Begin a recompilation, as the presentation layer does on every text
    /// edit and every selection change. The editor's buffer is committed
    /// to the workspace first, so the run sees exactly the text the last
    /// edit produced. An illegal (target, field) selection publishes its
    /// failure at once and starts nothing — the external compiler is never
    /// reached; a legal one hands back a fresh run for the driver to carry
    /// through the collaborator's stages.
    pub fn trigger_recompile(&mut self) -> (r: Option<PipelineRun>)
        requires
            old(self).wf(),
        ensures
            final(self).wf(),
            !compatible(old(self)@.target, old(self)@.field) ==> r is None && final(self)@
                == (IdeView {
                latest: ResultView::Failure {
                    stage: Stage::Compatibility,
                    message: incompatible_reason(),
                },
                ..spec_commit(old(self)@)
            }),
            compatible(old(self)@.target, old(self)@.field) ==> final(self)@ == spec_commit(
                old(self)@,
            ) && (r matches Some(run) && run@ == spec_initial_run(
                old(self)@.target,
                old(self)@.field,
            )),
    {
        let name = self.selection.active_file.clone();
        let text = self.source.clone();
        self.workspace.set(&name, text);
        proof {
            assert(self.workspace@.contains_key(self.selection.active_file@));
        }
        match validate(self.selection.target, self.selection.field) {
            Err(message) => {
                self.presenter.publish(
                    CompileResult::Failure { stage: Stage::Compatibility, message },
                );
                proof {
                    assert(self@ =~= (IdeView {
                        latest: ResultView::Failure {
                            stage: Stage::Compatibility,
                            message: incompatible_reason(),
                        },
                        ..spec_commit(old(self)@)
                    }));
                }
                None
            },
            Ok(_) => {
                proof {
                    assert(self@ =~= spec_commit(old(self)@));
                }
                Some(start_run(self.selection.target, self.selection.field))
            },
        }
    }

    /// Publish the result of a completed run; the presenter receives it
    /// wholesale.
    pub fn finish_run(&mut self, run: PipelineRun)
        requires
            old(self).wf(),
            run@.state is Done,
        ensures
            final(self).wf(),
            run@.state matches StateView::Done { result } ==> final(self)@ == (IdeView {
                latest: result,
                ..old(self)@
            }),
    {
        match run.state {
            PipelineState::Done { result } => {
                self.presenter.publish(result);
            },
            _ => {},
        }
    }
}

impl Default for IDE {
    /// A fresh session on the seeded workspace, as `new` builds it.
    fn default() -> (r: IDE)
        ensures
            r.wf(),
            r@ == spec_fresh_session(),
    {
        IDE::new()
    }
}

/// Idempotence of recompilation: a second trigger with no intervening
/// change to workspace or selection commits exactly the same session
/// state, and — the external collaborators reporting the same outcomes
/// for that same committed state — publishes a structurally identical
/// result.
pub proof fn lemma_recompile_idempotent(s: IdeView, events: Seq<EventView>)
    ensures
        spec_commit(spec_commit(s)) == spec_commit(s),
        spec_run_result(spec_commit(spec_commit(s)), events) == spec_run_result(
            spec_commit(s),
            events,
        ),
{
    assert(spec_commit(spec_commit(s)).workspace =~= spec_commit(s).workspace);
    assert(spec_commit(spec_commit(s)) =~= spec_commit(s));
}

} // verus!
