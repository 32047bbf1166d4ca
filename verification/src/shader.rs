//! The shader build pipeline: two stages are compiled, linked into one
//! program and released, with the driver's diagnostics kept on failure.

use vstd::prelude::*;

verus! {

/// Size of the buffer a driver log is read into, terminator included.
pub const LOG_CAPACITY: usize = 512;

/// Longest diagnostic that is kept, in bytes.
pub const LOG_TEXT_MAX: usize = 511;

/// The status value with which the driver reports success.
pub const STATUS_OK: i32 = 1;

/// The two programmable stages of the pipeline.
#[derive(Clone, Copy, Debug, PartialEq, Eq)]
pub enum StageKind {
    Vertex,
    Fragment,
}

/// Where the text of a driver log ends when scanning from `from`: at the
/// first terminator, at the end of the log, or at `LOG_TEXT_MAX` bytes.
pub open spec fn text_end(log: Seq<u8>, from: int) -> int
    decreases log.len() - from,
{
    if from >= log.len() || from >= LOG_TEXT_MAX || log[from] == 0 {
        from
    } else {
        text_end(log, from + 1)
    }
}

/// The diagnostic text carried by a driver log.
pub open spec fn diagnostic(log: Seq<u8>) -> Seq<u8> {
    log.take(text_end(log, 0))
}

/// The end of the text is the first position that stops the scan.
pub proof fn lemma_text_end(log: Seq<u8>, from: int)
    requires
        0 <= from <= log.len(),
        from <= LOG_TEXT_MAX,
    ensures
        from <= text_end(log, from) <= log.len(),
        text_end(log, from) <= LOG_TEXT_MAX,
        forall|i: int| from <= i < text_end(log, from) ==> log[i] != 0,
        text_end(log, from) == log.len() || text_end(log, from) == LOG_TEXT_MAX || log[text_end(
            log,
            from,
        )] == 0,
    decreases log.len() - from,
{
    if from >= log.len() || from >= LOG_TEXT_MAX || log[from] == 0 {
    } else {
        lemma_text_end(log, from + 1);
    }
}

/// A diagnostic is the longest prefix of the log that holds no terminator
/// and no more than `LOG_TEXT_MAX` bytes.
pub proof fn lemma_diagnostic_is_longest_text(log: Seq<u8>)
    ensures
        diagnostic(log).is_prefix_of(log),
        diagnostic(log).len() <= LOG_TEXT_MAX,
        forall|i: int| 0 <= i < diagnostic(log).len() ==> diagnostic(log)[i] != 0,
        diagnostic(log).len() == log.len() || diagnostic(log).len() == LOG_TEXT_MAX
            || log[diagnostic(log).len() as int] == 0,
{
    lemma_text_end(log, 0);
}

/// Cuts a driver log down to its diagnostic text.
pub fn diagnostic_text(log: &[u8]) -> (text: Vec<u8>)
    ensures
        text@ == diagnostic(log@),
{
    let mut text: Vec<u8> = Vec::new();
    let mut i: usize = 0;
    while i < log.len() && i < LOG_TEXT_MAX && log[i] != 0
        invariant
            0 <= i <= log.len(),
            i <= LOG_TEXT_MAX,
            text@ == log@.take(i as int),
            text_end(log@, 0) == text_end(log@, i as int),
        decreases log.len() - i,
    {
        text.push(log[i]);
        i += 1;
        assert(text@ =~= log@.take(i as int));
    }
    text
}

/// A linked program, named by the handle the driver gave it.
#[derive(Clone, Copy, Debug, PartialEq, Eq)]
pub struct ShaderProgram {
    pub id: u32,
}

/// Why a build ended without a program. Each variant carries the
/// diagnostic text of the driver, at most `LOG_TEXT_MAX` bytes of it.
#[derive(Debug, PartialEq, Eq)]
pub enum BuildError {
    VertexCompile(Vec<u8>),
    FragmentCompile(Vec<u8>),
    Link(Vec<u8>),
}

pub enum BuildErrorView {
    VertexCompile(Seq<u8>),
    FragmentCompile(Seq<u8>),
    Link(Seq<u8>),
}

impl View for BuildError {
    type V = BuildErrorView;

    open spec fn view(&self) -> BuildErrorView {
        match *self {
            BuildError::VertexCompile(text) => BuildErrorView::VertexCompile(text@),
            BuildError::FragmentCompile(text) => BuildErrorView::FragmentCompile(text@),
            BuildError::Link(text) => BuildErrorView::Link(text@),
        }
    }
}

/// What the caller is to ask of the driver.
#[derive(Debug, PartialEq, Eq)]
pub enum DriverCall {
    /// Create a stage of this kind from the source, compile it, and
    /// answer with `DriverReply::StageCompiled`.
    CompileStage { kind: StageKind, source: String },
    /// Create a program, attach both stages, link it, and answer with
    /// `DriverReply::ProgramLinked`.
    LinkProgram { vertex: u32, fragment: u32 },
    /// Release a stage. No answer is expected.
    DeleteStage { stage: u32 },
    /// Make the program current for the draw calls that follow. No
    /// answer is expected.
    UseProgram { program: u32 },
}

pub enum DriverCallView {
    CompileStage { kind: StageKind, source: Seq<char> },
    LinkProgram { vertex: u32, fragment: u32 },
    DeleteStage { stage: u32 },
    UseProgram { program: u32 },
}

impl View for DriverCall {
    type V = DriverCallView;

    open spec fn view(&self) -> DriverCallView {
        match *self {
            DriverCall::CompileStage { kind, source } => DriverCallView::CompileStage {
                kind,
                source: source@,
            },
            DriverCall::LinkProgram { vertex, fragment } => DriverCallView::LinkProgram {
                vertex,
                fragment,
            },
            DriverCall::DeleteStage { stage } => DriverCallView::DeleteStage { stage },
            DriverCall::UseProgram { program } => DriverCallView::UseProgram { program },
        }
    }
}

/// The views of a list of calls, in order.
pub open spec fn call_views(calls: Seq<DriverCall>) -> Seq<DriverCallView> {
    calls.map_values(|call: DriverCall| call@)
}

/// What the driver answered: the handle it made, the status it reports
/// for it, and its log (empty where it kept none).
#[derive(Debug, PartialEq, Eq)]
pub enum DriverReply {
    StageCompiled { stage: u32, status: i32, log: Vec<u8> },
    ProgramLinked { program: u32, status: i32, log: Vec<u8> },
}

pub enum DriverReplyView {
    StageCompiled { stage: u32, status: i32, log: Seq<u8> },
    ProgramLinked { program: u32, status: i32, log: Seq<u8> },
}

impl View for DriverReply {
    type V = DriverReplyView;

    open spec fn view(&self) -> DriverReplyView {
        match *self {
            DriverReply::StageCompiled { stage, status, log } => DriverReplyView::StageCompiled {
                stage,
                status,
                log: log@,
            },
            DriverReply::ProgramLinked { program, status, log } => DriverReplyView::ProgramLinked {
                program,
                status,
                log: log@,
            },
        }
    }
}

/// A build in progress or at its end.
#[derive(Debug, PartialEq, Eq)]
pub enum ShaderBuild {
    /// The vertex stage was sent to the driver.
    CompilingVertex { fragment_source: String },
    /// The vertex stage compiled; the fragment stage was sent.
    CompilingFragment { vertex: u32 },
    /// Both stages compiled; the link was requested.
    Linking { vertex: u32, fragment: u32 },
    /// The program is linked and owns no stage.
    Built(ShaderProgram),
    /// The build failed and owns no stage.
    Failed(BuildError),
}

pub enum ShaderBuildView {
    CompilingVertex { fragment_source: Seq<char> },
    CompilingFragment { vertex: u32 },
    Linking { vertex: u32, fragment: u32 },
    Built(ShaderProgram),
    Failed(BuildErrorView),
}

impl View for ShaderBuild {
    type V = ShaderBuildView;

    open spec fn view(&self) -> ShaderBuildView {
        match *self {
            ShaderBuild::CompilingVertex { fragment_source } => ShaderBuildView::CompilingVertex {
                fragment_source: fragment_source@,
            },
            ShaderBuild::CompilingFragment { vertex } => ShaderBuildView::CompilingFragment {
                vertex,
            },
            ShaderBuild::Linking { vertex, fragment } => ShaderBuildView::Linking {
                vertex,
                fragment,
            },
            ShaderBuild::Built(program) => ShaderBuildView::Built(program),
            ShaderBuild::Failed(error) => ShaderBuildView::Failed(error@),
        }
    }
}

/// The state a build starts in, once its vertex stage was sent.
pub open spec fn start(fragment_source: Seq<char>) -> ShaderBuildView {
    ShaderBuildView::CompilingVertex { fragment_source }
}

/// The first call of a build.
pub open spec fn first_call(vertex_source: Seq<char>) -> DriverCallView {
    DriverCallView::CompileStage { kind: StageKind::Vertex, source: vertex_source }
}

/// The transition of a build on one answer of the driver: the state that
/// follows and the calls to make, in order. An answer that the state does
/// not wait for changes nothing.
pub open spec fn step_spec(state: ShaderBuildView, reply: DriverReplyView) -> (
    ShaderBuildView,
    Seq<DriverCallView>,
) {
    match (state, reply) {
        (
            ShaderBuildView::CompilingVertex { fragment_source },
            DriverReplyView::StageCompiled { stage, status, log },
        ) => if status == STATUS_OK {
            (
                ShaderBuildView::CompilingFragment { vertex: stage },
                seq![
                    DriverCallView::CompileStage {
                        kind: StageKind::Fragment,
                        source: fragment_source,
                    },
                ],
            )
        } else {
            (
                ShaderBuildView::Failed(BuildErrorView::VertexCompile(diagnostic(log))),
                seq![DriverCallView::DeleteStage { stage }],
            )
        },
        (
            ShaderBuildView::CompilingFragment { vertex },
            DriverReplyView::StageCompiled { stage, status, log },
        ) => if status == STATUS_OK {
            (
                ShaderBuildView::Linking { vertex, fragment: stage },
                seq![DriverCallView::LinkProgram { vertex, fragment: stage }],
            )
        } else {
            (
                ShaderBuildView::Failed(BuildErrorView::FragmentCompile(diagnostic(log))),
                seq![
                    DriverCallView::DeleteStage { stage: vertex },
                    DriverCallView::DeleteStage { stage },
                ],
            )
        },
        (
            ShaderBuildView::Linking { vertex, fragment },
            DriverReplyView::ProgramLinked { program, status, log },
        ) => (
            if status == STATUS_OK {
                ShaderBuildView::Built(ShaderProgram { id: program })
            } else {
                ShaderBuildView::Failed(BuildErrorView::Link(diagnostic(log)))
            },
            seq![
                DriverCallView::DeleteStage { stage: vertex },
                DriverCallView::DeleteStage { stage: fragment },
            ],
        ),
        _ => (state, Seq::empty()),
    }
}

/// A build that has ended waits for no answer.
pub open spec fn finished(state: ShaderBuildView) -> bool {
    state is Built || state is Failed
}

/// What a build has come to: nothing yet, a program, or an error.
pub open spec fn outcome(state: ShaderBuildView) -> Option<Result<ShaderProgram, BuildErrorView>> {
    match state {
        ShaderBuildView::Built(program) => Some(Ok(program)),
        ShaderBuildView::Failed(error) => Some(Err(error)),
        _ => None,
    }
}

/// The view of an outcome.
pub open spec fn outcome_view(result: Option<Result<ShaderProgram, BuildError>>) -> Option<
    Result<ShaderProgram, BuildErrorView>,
> {
    match result {
        Some(Ok(program)) => Some(Ok(program)),
        Some(Err(error)) => Some(Err(error@)),
        None => None,
    }
}

/// Judges the status of a compiled stage: success, or the diagnostic
/// text of the log that came with it.
pub fn get_shader_compile_status(status: i32, log: &[u8]) -> (r: Result<(), Vec<u8>>)
    ensures
        r is Ok <==> status == STATUS_OK,
        r matches Err(text) ==> text@ == diagnostic(log@),
{
    if status == STATUS_OK {
        Ok(())
    } else {
        Err(diagnostic_text(log))
    }
}

/// Judges the driver's answer for a stage: its handle where it compiled,
/// the diagnostic text where it did not.
pub fn build_shader(shader_id: u32, status: i32, log: &[u8]) -> (r: Result<u32, Vec<u8>>)
    ensures
        r is Ok <==> status == STATUS_OK,
        r matches Ok(id) ==> id == shader_id,
        r matches Err(text) ==> text@ == diagnostic(log@),
{
    match get_shader_compile_status(status, log) {
        Ok(_) => Ok(shader_id),
        Err(text) => Err(text),
    }
}

/// Judges the driver's answer for a program: its handle where it linked,
/// the diagnostic text where it did not.
pub fn build_program(program_id: u32, status: i32, log: &[u8]) -> (r: Result<u32, Vec<u8>>)
    ensures
        r is Ok <==> status == STATUS_OK,
        r matches Ok(id) ==> id == program_id,
        r matches Err(text) ==> text@ == diagnostic(log@),
{
    if status == STATUS_OK {
        Ok(program_id)
    } else {
        Err(diagnostic_text(log))
    }
}

/// The call that releases a stage.
pub fn clean_shader(shader_id: u32) -> (call: DriverCall)
    ensures
        call@ == (DriverCallView::DeleteStage { stage: shader_id }),
{
    DriverCall::DeleteStage { stage: shader_id }
}

impl ShaderProgram {
    /// Begins the build of a program from two sources: the state to keep
    /// and the first call to make.
    pub fn with_shaders(vertex_shader_src: &str, fragment_shader_src: &str) -> (r: (
        ShaderBuild,
        DriverCall,
    ))
        ensures
            r.0@ == start(fragment_shader_src@),
            r.1@ == first_call(vertex_shader_src@),
    {
        (
            ShaderBuild::CompilingVertex { fragment_source: fragment_shader_src.to_owned() },
            DriverCall::CompileStage {
                kind: StageKind::Vertex,
                source: vertex_shader_src.to_owned(),
            },
        )
    }

    /// The call that makes this program current.
    pub fn use_program(&self) -> (call: DriverCall)
        ensures
            call@ == (DriverCallView::UseProgram { program: self.id }),
    {
        DriverCall::UseProgram { program: self.id }
    }
}

impl ShaderBuild {
    /// Takes one answer of the driver: the state that follows and the
    /// calls to make, in order.
    pub fn step(self, reply: DriverReply) -> (r: (ShaderBuild, Vec<DriverCall>))
        ensures
            (r.0@, call_views(r.1@)) == step_spec(self@, reply@),
    {
        match (self, reply) {
            (
                ShaderBuild::CompilingVertex { fragment_source },
                DriverReply::StageCompiled { stage, status, log },
            ) => match build_shader(stage, status, log.as_slice()) {
                Ok(vertex) => {
                    let calls = vec![
                        DriverCall::CompileStage {
                            kind: StageKind::Fragment,
                            source: fragment_source,
                        },
                    ];
                    assert(call_views(calls@) =~= seq![
                        DriverCallView::CompileStage {
                            kind: StageKind::Fragment,
                            source: fragment_source@,
                        },
                    ]);
                    (ShaderBuild::CompilingFragment { vertex }, calls)
                },
                Err(text) => {
                    let calls = vec![clean_shader(stage)];
                    assert(call_views(calls@) =~= seq![DriverCallView::DeleteStage { stage }]);
                    (ShaderBuild::Failed(BuildError::VertexCompile(text)), calls)
                },
            },
            (
                ShaderBuild::CompilingFragment { vertex },
                DriverReply::StageCompiled { stage, status, log },
            ) => match build_shader(stage, status, log.as_slice()) {
                Ok(fragment) => {
                    let calls = vec![DriverCall::LinkProgram { vertex, fragment }];
                    assert(call_views(calls@) =~= seq![
                        DriverCallView::LinkProgram { vertex, fragment },
                    ]);
                    (ShaderBuild::Linking { vertex, fragment }, calls)
                },
                Err(text) => {
                    let calls = vec![clean_shader(vertex), clean_shader(stage)];
                    assert(call_views(calls@) =~= seq![
                        DriverCallView::DeleteStage { stage: vertex },
                        DriverCallView::DeleteStage { stage },
                    ]);
                    (ShaderBuild::Failed(BuildError::FragmentCompile(text)), calls)
                },
            },
            (
                ShaderBuild::Linking { vertex, fragment },
                DriverReply::ProgramLinked { program, status, log },
            ) => {
                let calls = vec![clean_shader(vertex), clean_shader(fragment)];
                assert(call_views(calls@) =~= seq![
                    DriverCallView::DeleteStage { stage: vertex },
                    DriverCallView::DeleteStage { stage: fragment },
                ]);
                match build_program(program, status, log.as_slice()) {
                    Ok(id) => (ShaderBuild::Built(ShaderProgram { id }), calls),
                    Err(text) => (ShaderBuild::Failed(BuildError::Link(text)), calls),
                }
            },
            (state, _) => {
                let calls: Vec<DriverCall> = Vec::new();
                assert(call_views(calls@) =~= Seq::<DriverCallView>::empty());
                (state, calls)
            },
        }
    }

    /// Whether the build has ended.
    pub fn is_finished(&self) -> (r: bool)
        ensures
            r == finished(self@),
    {
        match self {
            ShaderBuild::Built(_) => true,
            ShaderBuild::Failed(_) => true,
            _ => false,
        }
    }

    /// What the build has come to: `None` while it waits for the driver,
    /// then the program or the error.
    pub fn finish(self) -> (r: Option<Result<ShaderProgram, BuildError>>)
        ensures
            outcome_view(r) == outcome(self@),
    {
        match self {
            ShaderBuild::Built(program) => Some(Ok(program)),
            ShaderBuild::Failed(error) => Some(Err(error)),
            _ => None,
        }
    }
}

} // verus!
