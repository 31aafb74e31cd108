//! The shader program build pipeline, modelled as a state machine: the
//! render driver performs one graphics-context call per step — compile a
//! stage, link, release the stage objects — and reports what the context
//! said; the machine decides what happens next. A stage or link step whose
//! info log is non-empty ends the attempt with a structured diagnostic, and
//! the stage objects are released on every exit path before the outcome is
//! handed out.

use vstd::prelude::*;
use vstd::string::StrSliceExecFns;

verus! {

/// The two pipeline roles a shader stage can fill. The vertex stage is
/// always compiled and checked before the fragment stage.
#[derive(Clone, Copy, Debug, PartialEq, Eq, Structural)]
pub enum ShaderStageKind {
    Vertex,
    Fragment,
}

/// A successfully linked program, ready to bind: the graphics context's
/// identifier for it. Ownership passes to the caller, who is responsible for
/// its eventual release.
#[derive(Clone, Copy, Debug, PartialEq, Eq, Structural)]
pub struct ShaderProgram {
    pub handle: u32,
}

/// A diagnostic reported by the compiler or linker: which stage it concerns
/// — `None` for the link step — and the verbatim log text, which may be of
/// any length and may contain newlines.
#[derive(Debug)]
pub struct BuildDiagnostic {
    pub stage: Option<ShaderStageKind>,
    pub message: String,
}

/// The mathematical value of a [`BuildDiagnostic`].
pub ghost struct SpecBuildDiagnostic {
    pub stage: Option<ShaderStageKind>,
    pub message: Seq<char>,
}

impl View for BuildDiagnostic {
    type V = SpecBuildDiagnostic;

    open spec fn view(&self) -> SpecBuildDiagnostic {
        SpecBuildDiagnostic { stage: self.stage, message: self.message@ }
    }
}

/// Why a build attempt failed.
#[derive(Debug)]
pub enum BuildError {
    /// A stage's source could not be read. The builder itself never reports
    /// this: it is constructed by the caller that reads the source files,
    /// before a build attempt starts.
    Io { stage: ShaderStageKind, cause: String },
    /// A stage produced a non-empty compile log; the diagnostic names the
    /// stage and carries the log verbatim.
    Compile(BuildDiagnostic),
    /// Linking produced a non-empty log; the diagnostic names no stage.
    Link(BuildDiagnostic),
}

/// The mathematical value of a [`BuildError`].
pub ghost enum SpecBuildError {
    Io { stage: ShaderStageKind, cause: Seq<char> },
    Compile(SpecBuildDiagnostic),
    Link(SpecBuildDiagnostic),
}

impl View for BuildError {
    type V = SpecBuildError;

    open spec fn view(&self) -> SpecBuildError {
        match self {
            BuildError::Io { stage, cause } => SpecBuildError::Io {
                stage: *stage,
                cause: cause@,
            },
            BuildError::Compile(d) => SpecBuildError::Compile(d@),
            BuildError::Link(d) => SpecBuildError::Link(d@),
        }
    }
}

/// The error a stage whose compile log is `log` ends the attempt with.
pub open spec fn compile_failure(kind: ShaderStageKind, log: Seq<char>) -> SpecBuildError {
    SpecBuildError::Compile(SpecBuildDiagnostic { stage: Some(kind), message: log })
}

/// The error a link step whose log is `log` ends the attempt with.
pub open spec fn link_failure(log: Seq<char>) -> SpecBuildError {
    SpecBuildError::Link(SpecBuildDiagnostic { stage: None, message: log })
}

/// What the driver must do next with the graphics context.
#[derive(Clone, Copy, Debug)]
pub enum BuildAction {
    /// Create a vertex stage object, submit the vertex source, compile it,
    /// and report the object's handle together with its info log.
    CompileVertex,
    /// The same for the fragment stage.
    CompileFragment,
    /// Create a program object, attach the two stage objects, link, and
    /// report the program's handle together with its info log.
    Link { vertex: u32, fragment: u32 },
    /// Detach the listed stage objects from `program` where one exists, then
    /// delete them, and report that they are gone.
    ReleaseStages { program: Option<u32>, vertex: u32, fragment: Option<u32> },
    /// The attempt is decided and cleaned up; collect the outcome.
    Finish,
}

/// Where a build attempt stands. The phases form a line: both compiles and
/// the link step must report a clean log to move forward, and every exit —
/// success or failure — passes through `Releasing`, so the stage objects are
/// released no matter how the attempt ends.
enum BuildPhase {
    /// The vertex stage is about to be compiled.
    VertexPending,
    /// The vertex stage compiled cleanly; the fragment stage is next.
    FragmentPending { vertex: u32 },
    /// Both stages compiled cleanly; linking is next.
    LinkPending { vertex: u32, fragment: u32 },
    /// The attempt is decided; the stage objects must still be released.
    /// `program` is the program object's handle where linking was attempted.
    Releasing {
        vertex: u32,
        fragment: Option<u32>,
        program: Option<u32>,
        outcome: Result<ShaderProgram, BuildError>,
    },
    /// Everything is released; the outcome is ready to hand out.
    Finished { outcome: Result<ShaderProgram, BuildError> },
}

/// The mathematical value of a build phase.
pub ghost enum SpecBuildPhase {
    VertexPending,
    FragmentPending { vertex: u32 },
    LinkPending { vertex: u32, fragment: u32 },
    Releasing {
        vertex: u32,
        fragment: Option<u32>,
        program: Option<u32>,
        outcome: Result<ShaderProgram, SpecBuildError>,
    },
    Finished { outcome: Result<ShaderProgram, SpecBuildError> },
}

/// The view of a build outcome, error kinds kept as they are.
pub open spec fn outcome_view(r: Result<ShaderProgram, BuildError>) -> Result<
    ShaderProgram,
    SpecBuildError,
> {
    match r {
        Ok(p) => Ok(p),
        Err(e) => Err(e@),
    }
}

impl View for BuildPhase {
    type V = SpecBuildPhase;

    closed spec fn view(&self) -> SpecBuildPhase {
        match self {
            BuildPhase::VertexPending => SpecBuildPhase::VertexPending,
            BuildPhase::FragmentPending { vertex } => SpecBuildPhase::FragmentPending {
                vertex: *vertex,
            },
            BuildPhase::LinkPending { vertex, fragment } => SpecBuildPhase::LinkPending {
                vertex: *vertex,
                fragment: *fragment,
            },
            BuildPhase::Releasing { vertex, fragment, program, outcome } => {
                SpecBuildPhase::Releasing {
                    vertex: *vertex,
                    fragment: *fragment,
                    program: *program,
                    outcome: outcome_view(*outcome),
                }
            },
            BuildPhase::Finished { outcome } => SpecBuildPhase::Finished {
                outcome: outcome_view(*outcome),
            },
        }
    }
}

/// One report from the graphics context: what was done, the handle of the
/// object it produced, and — for compiles and links — the info log.
pub ghost enum SpecBuildEvent {
    VertexCompiled { handle: u32, log: Seq<char> },
    FragmentCompiled { handle: u32, log: Seq<char> },
    Linked { handle: u32, log: Seq<char> },
    StagesReleased,
}

/// How a build attempt moves from phase to phase on one report. A non-empty
/// log — a failed status or mere warnings alike — ends the attempt at once
/// with the corresponding diagnostic; a report that does not answer the
/// pending action changes nothing.
pub open spec fn spec_step(phase: SpecBuildPhase, event: SpecBuildEvent) -> SpecBuildPhase {
    match (phase, event) {
        (
            SpecBuildPhase::VertexPending,
            SpecBuildEvent::VertexCompiled { handle, log },
        ) => {
            if log.len() == 0 {
                SpecBuildPhase::FragmentPending { vertex: handle }
            } else {
                SpecBuildPhase::Releasing {
                    vertex: handle,
                    fragment: None,
                    program: None,
                    outcome: Err(compile_failure(ShaderStageKind::Vertex, log)),
                }
            }
        },
        (
            SpecBuildPhase::FragmentPending { vertex },
            SpecBuildEvent::FragmentCompiled { handle, log },
        ) => {
            if log.len() == 0 {
                SpecBuildPhase::LinkPending { vertex, fragment: handle }
            } else {
                SpecBuildPhase::Releasing {
                    vertex,
                    fragment: Some(handle),
                    program: None,
                    outcome: Err(compile_failure(ShaderStageKind::Fragment, log)),
                }
            }
        },
        (
            SpecBuildPhase::LinkPending { vertex, fragment },
            SpecBuildEvent::Linked { handle, log },
        ) => {
            if log.len() == 0 {
                SpecBuildPhase::Releasing {
                    vertex,
                    fragment: Some(fragment),
                    program: Some(handle),
                    outcome: Ok(ShaderProgram { handle }),
                }
            } else {
                SpecBuildPhase::Releasing {
                    vertex,
                    fragment: Some(fragment),
                    program: Some(handle),
                    outcome: Err(link_failure(log)),
                }
            }
        },
        (
            SpecBuildPhase::Releasing { outcome, .. },
            SpecBuildEvent::StagesReleased,
        ) => SpecBuildPhase::Finished { outcome },
        (p, _) => p,
    }
}

/// The action a phase leaves pending.
pub open spec fn spec_pending(phase: SpecBuildPhase) -> BuildAction {
    match phase {
        SpecBuildPhase::VertexPending => BuildAction::CompileVertex,
        SpecBuildPhase::FragmentPending { .. } => BuildAction::CompileFragment,
        SpecBuildPhase::LinkPending { vertex, fragment } => BuildAction::Link { vertex, fragment },
        SpecBuildPhase::Releasing { vertex, fragment, program, .. } => BuildAction::ReleaseStages {
            program,
            vertex,
            fragment,
        },
        SpecBuildPhase::Finished { .. } => BuildAction::Finish,
    }
}

/// The phase a build attempt is in after a whole sequence of reports,
/// starting from `phase` and applying them in order.
pub open spec fn spec_run(phase: SpecBuildPhase, events: Seq<SpecBuildEvent>) -> SpecBuildPhase
    decreases events.len(),
{
    if events.len() == 0 {
        phase
    } else {
        spec_run(spec_step(phase, events[0]), events.drop_first())
    }
}

/// Whether a phase is decided against, with `err` as the error: either the
/// stage objects are still being released, or the attempt has finished.
pub open spec fn failure_locked(phase: SpecBuildPhase, err: SpecBuildError) -> bool {
    ||| (phase matches SpecBuildPhase::Releasing { outcome, .. } && outcome == Err::<
        ShaderProgram,
        SpecBuildError,
    >(err))
    ||| (phase matches SpecBuildPhase::Finished { outcome } && outcome == Err::<
        ShaderProgram,
        SpecBuildError,
    >(err))
}

/// A failure is final: once an attempt is decided against, no sequence of
/// further reports can revive it or change the error it carries, and none of
/// the phases it passes through asks the driver to link.
pub proof fn lemma_failure_is_final(
    phase: SpecBuildPhase,
    err: SpecBuildError,
    events: Seq<SpecBuildEvent>,
)
    requires
        failure_locked(phase, err),
    ensures
        failure_locked(spec_run(phase, events), err),
        !(spec_pending(spec_run(phase, events)) is Link),
    decreases events.len(),
{
    if events.len() > 0 {
        lemma_failure_is_final(spec_step(phase, events[0]), err, events.drop_first());
    }
}

/// A clean build succeeds: when both stages and the link step report empty
/// logs, the attempt first demands that both stage objects be detached from
/// the program and deleted, and only then hands out the linked program's
/// handle — so the stages never outlive the attempt that created them.
pub proof fn lemma_clean_build_succeeds(vertex: u32, fragment: u32, program: u32)
    ensures
        ({
            let p1 = spec_step(
                SpecBuildPhase::VertexPending,
                SpecBuildEvent::VertexCompiled { handle: vertex, log: Seq::empty() },
            );
            let p2 = spec_step(
                p1,
                SpecBuildEvent::FragmentCompiled { handle: fragment, log: Seq::empty() },
            );
            let p3 = spec_step(p2, SpecBuildEvent::Linked { handle: program, log: Seq::empty() });
            let p4 = spec_step(p3, SpecBuildEvent::StagesReleased);
            &&& spec_pending(p1) == BuildAction::CompileFragment
            &&& spec_pending(p2) == (BuildAction::Link { vertex, fragment })
            &&& spec_pending(p3) == (BuildAction::ReleaseStages {
                program: Some(program),
                vertex,
                fragment: Some(fragment),
            })
            &&& p4 == (SpecBuildPhase::Finished { outcome: Ok(ShaderProgram { handle: program }) })
        }),
{
}

/// A vertex stage whose compile log is non-empty ends the attempt at once:
/// whatever the driver reports afterwards, every phase the attempt can reach
/// still carries exactly that stage's diagnostic, and none of those phases
/// asks the driver to link — the fragment stage's result, compiled or not,
/// is never linked.
pub proof fn lemma_vertex_failure_never_links(
    handle: u32,
    log: Seq<char>,
    events: Seq<SpecBuildEvent>,
)
    requires
        log.len() > 0,
    ensures
        ({
            let failed = spec_step(
                SpecBuildPhase::VertexPending,
                SpecBuildEvent::VertexCompiled { handle, log },
            );
            let reached = spec_run(failed, events);
            &&& failure_locked(reached, compile_failure(ShaderStageKind::Vertex, log))
            &&& !(spec_pending(reached) is Link)
        }),
{
    let failed = spec_step(
        SpecBuildPhase::VertexPending,
        SpecBuildEvent::VertexCompiled { handle, log },
    );
    lemma_failure_is_final(failed, compile_failure(ShaderStageKind::Vertex, log), events);
}

/// Two individually clean stages whose link log is non-empty yield a link
/// failure: the diagnostic names no stage and carries the log verbatim, and
/// both stage objects are still released before the attempt finishes.
pub proof fn lemma_link_failure_reported(vertex: u32, fragment: u32, program: u32, log: Seq<char>)
    requires
        log.len() > 0,
    ensures
        ({
            let p1 = spec_step(
                SpecBuildPhase::VertexPending,
                SpecBuildEvent::VertexCompiled { handle: vertex, log: Seq::empty() },
            );
            let p2 = spec_step(
                p1,
                SpecBuildEvent::FragmentCompiled { handle: fragment, log: Seq::empty() },
            );
            let p3 = spec_step(p2, SpecBuildEvent::Linked { handle: program, log });
            let p4 = spec_step(p3, SpecBuildEvent::StagesReleased);
            &&& spec_pending(p3) == (BuildAction::ReleaseStages {
                program: Some(program),
                vertex,
                fragment: Some(fragment),
            })
            &&& p4 == (SpecBuildPhase::Finished { outcome: Err(link_failure(log)) })
            &&& link_failure(log) matches SpecBuildError::Link(d) && d.stage is None && d.message
                == log
        }),
{
}

/// One build attempt over a fixed pair of stage sources. The driver asks
/// [`ShaderBuild::pending`] what to do, performs that one graphics-context
/// call, and reports what came back; the machine alone decides whether the
/// attempt goes on, fails, or succeeds.
pub struct ShaderBuild {
    vertex_source: String,
    fragment_source: String,
    phase: BuildPhase,
}

/// The mathematical value of a [`ShaderBuild`].
pub ghost struct SpecShaderBuild {
    pub vertex_source: Seq<char>,
    pub fragment_source: Seq<char>,
    pub phase: SpecBuildPhase,
}

impl View for ShaderBuild {
    type V = SpecShaderBuild;

    closed spec fn view(&self) -> SpecShaderBuild {
        SpecShaderBuild {
            vertex_source: self.vertex_source@,
            fragment_source: self.fragment_source@,
            phase: self.phase@,
        }
    }
}

impl ShaderBuild {
    /// Start a build attempt over the two stage sources, read in full before
    /// compilation begins. The vertex stage is compiled first.
    pub fn new(vertex_source: String, fragment_source: String) -> (b: ShaderBuild)
        ensures
            b@.vertex_source == vertex_source@,
            b@.fragment_source == fragment_source@,
            b@.phase == SpecBuildPhase::VertexPending,
    {
        ShaderBuild { vertex_source, fragment_source, phase: BuildPhase::VertexPending }
    }

    /// The source text a pending vertex compile must submit.
    pub fn vertex_source(&self) -> (s: &String)
        ensures
            s@ == self@.vertex_source,
    {
        &self.vertex_source
    }

    /// The source text a pending fragment compile must submit.
    pub fn fragment_source(&self) -> (s: &String)
        ensures
            s@ == self@.fragment_source,
    {
        &self.fragment_source
    }

    /// What the driver must do next.
    pub fn pending(&self) -> (a: BuildAction)
        ensures
            a == spec_pending(self@.phase),
    {
        match &self.phase {
            BuildPhase::VertexPending => BuildAction::CompileVertex,
            BuildPhase::FragmentPending { .. } => BuildAction::CompileFragment,
            BuildPhase::LinkPending { vertex, fragment } => BuildAction::Link {
                vertex: *vertex,
                fragment: *fragment,
            },
            BuildPhase::Releasing { vertex, fragment, program, .. } => BuildAction::ReleaseStages {
                program: *program,
                vertex: *vertex,
                fragment: *fragment,
            },
            BuildPhase::Finished { .. } => BuildAction::Finish,
        }
    }

    /// Record the result of compiling the vertex stage: the stage object's
    /// handle and its info log. An empty log moves the attempt on to the
    /// fragment stage; any other log ends it with that stage's diagnostic.
    pub fn vertex_compiled(&mut self, handle: u32, log: String)
        requires
            old(self)@.phase is VertexPending,
        ensures
            final(self)@.vertex_source == old(self)@.vertex_source,
            final(self)@.fragment_source == old(self)@.fragment_source,
            final(self)@.phase == spec_step(
                old(self)@.phase,
                SpecBuildEvent::VertexCompiled { handle, log: log@ },
            ),
    {
        if log.as_str().unicode_len() == 0 {
            self.phase = BuildPhase::FragmentPending { vertex: handle };
        } else {
            self.phase = BuildPhase::Releasing {
                vertex: handle,
                fragment: None,
                program: None,
                outcome: Err(
                    BuildError::Compile(
                        BuildDiagnostic { stage: Some(ShaderStageKind::Vertex), message: log },
                    ),
                ),
            };
        }
    }

    /// Record the result of compiling the fragment stage, checked under the
    /// same policy as the vertex stage.
    pub fn fragment_compiled(&mut self, handle: u32, log: String)
        requires
            old(self)@.phase is FragmentPending,
        ensures
            final(self)@.vertex_source == old(self)@.vertex_source,
            final(self)@.fragment_source == old(self)@.fragment_source,
            final(self)@.phase == spec_step(
                old(self)@.phase,
                SpecBuildEvent::FragmentCompiled { handle, log: log@ },
            ),
    {
        let vertex = match &self.phase {
            BuildPhase::FragmentPending { vertex } => *vertex,
            _ => unreached(),
        };
        if log.as_str().unicode_len() == 0 {
            self.phase = BuildPhase::LinkPending { vertex, fragment: handle };
        } else {
            self.phase = BuildPhase::Releasing {
                vertex,
                fragment: Some(handle),
                program: None,
                outcome: Err(
                    BuildError::Compile(
                        BuildDiagnostic { stage: Some(ShaderStageKind::Fragment), message: log },
                    ),
                ),
            };
        }
    }

    /// Record the result of linking: the program object's handle and its
    /// info log. An empty log decides the attempt in favour of that program;
    /// any other log ends it with a link diagnostic that names no stage.
    /// Either way the stage objects remain to be released.
    pub fn linked(&mut self, handle: u32, log: String)
        requires
            old(self)@.phase is LinkPending,
        ensures
            final(self)@.vertex_source == old(self)@.vertex_source,
            final(self)@.fragment_source == old(self)@.fragment_source,
            final(self)@.phase == spec_step(
                old(self)@.phase,
                SpecBuildEvent::Linked { handle, log: log@ },
            ),
    {
        let (vertex, fragment) = match &self.phase {
            BuildPhase::LinkPending { vertex, fragment } => (*vertex, *fragment),
            _ => unreached(),
        };
        if log.as_str().unicode_len() == 0 {
            self.phase = BuildPhase::Releasing {
                vertex,
                fragment: Some(fragment),
                program: Some(handle),
                outcome: Ok(ShaderProgram { handle }),
            };
        } else {
            self.phase = BuildPhase::Releasing {
                vertex,
                fragment: Some(fragment),
                program: Some(handle),
                outcome: Err(
                    BuildError::Link(BuildDiagnostic { stage: None, message: log }),
                ),
            };
        }
    }

    /// Record that the stage objects listed by the pending release action
    /// were detached and deleted. Only now does the attempt finish.
    pub fn stages_released(&mut self)
        requires
            old(self)@.phase is Releasing,
        ensures
            final(self)@.vertex_source == old(self)@.vertex_source,
            final(self)@.fragment_source == old(self)@.fragment_source,
            final(self)@.phase == spec_step(old(self)@.phase, SpecBuildEvent::StagesReleased),
    {
        let mut taken = BuildPhase::VertexPending;
        core::mem::swap(&mut taken, &mut self.phase);
        match taken {
            BuildPhase::Releasing { outcome, .. } => {
                self.phase = BuildPhase::Finished { outcome };
            },
            _ => {
                unreached::<()>();
            },
        }
    }

    /// The finished attempt's result: the linked program, whose handle is
    /// returned only when both stages and the link step reported clean logs,
    /// or the structured error that ended the attempt.
    pub fn into_outcome(self) -> (r: Result<ShaderProgram, BuildError>)
        requires
            self@.phase is Finished,
        ensures
            self@.phase == (SpecBuildPhase::Finished { outcome: outcome_view(r) }),
    {
        match self.phase {
            BuildPhase::Finished { outcome } => outcome,
            _ => unreached(),
        }
    }
}

} // verus!

