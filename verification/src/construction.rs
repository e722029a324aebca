//! Construction of a shader program, one answer of the graphics context at
//! a time.
//!
//! The caller performs each [`Request`] and hands the context's [`Reply`] to
//! [`Build::step`], which decides what happens next. The whole decision is
//! the function [`step_model`]; what it means for complete runs is stated
//! and proved in [`crate::laws`].

use vstd::prelude::*;
use vstd::utf8::encode_utf8;
use vstd::slice::slice_to_vec;
use crate::shader::{ErrorModel, Shader, ShaderError, Stage};
use crate::text::{
    decimal, find_nul, is_nul_free, lemma_first_nul_unique, nul_position, push_decimal,
};

verus! {

/// Number of bytes offered to the context for a diagnostic log.
pub const INFO_LOG_CAPACITY: u32 = 512;

/// The status value with which the context reports success.
pub const STATUS_OK: i32 = 1;

/// What the caller is asked to do next.
#[derive(Debug, PartialEq, Eq)]
pub enum Request {
    /// Read the file at `path` as UTF-8 text.
    ReadSource { path: String },
    /// Create a shader object for `stage`, give it `source` and compile it.
    Compile { stage: Stage, source: Vec<u8> },
    /// Fetch up to `capacity` bytes of the diagnostic log of `shader`.
    ShaderLog { shader: u32, capacity: u32 },
    /// Create a program, attach both stage objects and link it.
    Link { vertex: u32, fragment: u32 },
    /// Fetch up to `capacity` bytes of the diagnostic log of `program`.
    ProgramLog { program: u32, capacity: u32 },
    /// Delete both stage objects.
    Release { vertex: u32, fragment: u32 },
    /// Construction is over, with this result.
    Finish(Result<Shader, ShaderError>),
}

/// What the context answered.
#[derive(Debug, PartialEq, Eq)]
pub enum Reply {
    /// The text of the file, or why it could not be read.
    Source(Result<String, String>),
    /// The new shader object and its compile status.
    Compiled { shader: u32, status: i32 },
    /// The new program object and its link status.
    Linked { program: u32, status: i32 },
    /// The diagnostic log that was asked for.
    Log(String),
    /// The stage objects are deleted.
    Released,
}

/// Where a construction stands: what it waits for, and what it keeps.
#[derive(Debug, PartialEq, Eq)]
pub enum Build {
    ReadingVertex { fragment_path: String },
    ReadingFragment { vertex_source: String },
    CompilingVertex { fragment_source: Vec<u8> },
    CompilingFragment { vertex: u32 },
    ReadingCompileLog { stage: Stage },
    Linking { vertex: u32, fragment: u32 },
    ReadingLinkLog { vertex: u32, fragment: u32 },
    Releasing { outcome: Result<Shader, String> },
    Finished,
}

/// Mathematical value of a [`Request`]; a finished program is its handle.
pub enum RequestModel {
    ReadSource { path: Seq<char> },
    Compile { stage: Stage, source: Seq<u8> },
    ShaderLog { shader: u32, capacity: u32 },
    Link { vertex: u32, fragment: u32 },
    ProgramLog { program: u32, capacity: u32 },
    Release { vertex: u32, fragment: u32 },
    Finish(Result<u32, ErrorModel>),
}

/// Mathematical value of a [`Reply`].
pub enum ReplyModel {
    Source(Result<Seq<char>, Seq<char>>),
    Compiled { shader: u32, status: i32 },
    Linked { program: u32, status: i32 },
    Log(Seq<char>),
    Released,
}

/// Mathematical value of a [`Build`].
pub enum BuildModel {
    ReadingVertex { fragment_path: Seq<char> },
    ReadingFragment { vertex_source: Seq<char> },
    CompilingVertex { fragment_source: Seq<u8> },
    CompilingFragment { vertex: u32 },
    ReadingCompileLog { stage: Stage },
    Linking { vertex: u32, fragment: u32 },
    ReadingLinkLog { vertex: u32, fragment: u32 },
    Releasing { outcome: Result<u32, Seq<char>> },
    Finished,
}

impl View for Request {
    type V = RequestModel;

    open spec fn view(&self) -> RequestModel {
        match self {
            Request::ReadSource { path } => RequestModel::ReadSource { path: path@ },
            Request::Compile { stage, source } => RequestModel::Compile {
                stage: *stage,
                source: source@,
            },
            Request::ShaderLog { shader, capacity } => RequestModel::ShaderLog {
                shader: *shader,
                capacity: *capacity,
            },
            Request::Link { vertex, fragment } => RequestModel::Link {
                vertex: *vertex,
                fragment: *fragment,
            },
            Request::ProgramLog { program, capacity } => RequestModel::ProgramLog {
                program: *program,
                capacity: *capacity,
            },
            Request::Release { vertex, fragment } => RequestModel::Release {
                vertex: *vertex,
                fragment: *fragment,
            },
            Request::Finish(Ok(shader)) => RequestModel::Finish(Ok(shader.handle())),
            Request::Finish(Err(error)) => RequestModel::Finish(Err(error@)),
        }
    }
}

impl View for Reply {
    type V = ReplyModel;

    open spec fn view(&self) -> ReplyModel {
        match self {
            Reply::Source(Ok(text)) => ReplyModel::Source(Ok(text@)),
            Reply::Source(Err(message)) => ReplyModel::Source(Err(message@)),
            Reply::Compiled { shader, status } => ReplyModel::Compiled {
                shader: *shader,
                status: *status,
            },
            Reply::Linked { program, status } => ReplyModel::Linked {
                program: *program,
                status: *status,
            },
            Reply::Log(log) => ReplyModel::Log(log@),
            Reply::Released => ReplyModel::Released,
        }
    }
}

impl View for Build {
    type V = BuildModel;

    open spec fn view(&self) -> BuildModel {
        match self {
            Build::ReadingVertex { fragment_path } => BuildModel::ReadingVertex {
                fragment_path: fragment_path@,
            },
            Build::ReadingFragment { vertex_source } => BuildModel::ReadingFragment {
                vertex_source: vertex_source@,
            },
            Build::CompilingVertex { fragment_source } => BuildModel::CompilingVertex {
                fragment_source: fragment_source@,
            },
            Build::CompilingFragment { vertex } => BuildModel::CompilingFragment {
                vertex: *vertex,
            },
            Build::ReadingCompileLog { stage } => BuildModel::ReadingCompileLog { stage: *stage },
            Build::Linking { vertex, fragment } => BuildModel::Linking {
                vertex: *vertex,
                fragment: *fragment,
            },
            Build::ReadingLinkLog { vertex, fragment } => BuildModel::ReadingLinkLog {
                vertex: *vertex,
                fragment: *fragment,
            },
            Build::Releasing { outcome: Ok(shader) } => BuildModel::Releasing {
                outcome: Ok(shader.handle()),
            },
            Build::Releasing { outcome: Err(log) } => BuildModel::Releasing { outcome: Err(log@) },
            Build::Finished => BuildModel::Finished,
        }
    }
}

/// The text that reports a zero byte at `position` of a source.
pub open spec fn nul_message(position: int) -> Seq<char> {
    "nul byte found in provided data at position: "@ + decimal(position as nat)
}

/// A construction that ends at once with `error`.
pub open spec fn failed(error: ErrorModel) -> (BuildModel, RequestModel) {
    (BuildModel::Finished, RequestModel::Finish(Err(error)))
}

/// What follows once both source texts are read: a source that holds a zero
/// byte cannot be handed to the compiler, the vertex source being looked at
/// first; otherwise the vertex stage is compiled.
pub open spec fn after_sources(vertex: Seq<u8>, fragment: Seq<u8>) -> (BuildModel, RequestModel) {
    if !is_nul_free(vertex) {
        failed(ErrorModel::Io { message: nul_message(nul_position(vertex)) })
    } else if !is_nul_free(fragment) {
        failed(ErrorModel::Io { message: nul_message(nul_position(fragment)) })
    } else {
        (
            BuildModel::CompilingVertex { fragment_source: fragment },
            RequestModel::Compile { stage: Stage::Vertex, source: vertex },
        )
    }
}

/// The next state and the request that goes with it, for a state and a
/// reply that it waits for; nothing for any other reply.
pub open spec fn step_model(state: BuildModel, reply: ReplyModel) -> Option<
    (BuildModel, RequestModel),
> {
    match (state, reply) {
        (BuildModel::ReadingVertex { fragment_path }, ReplyModel::Source(Ok(text))) => Some(
            (
                BuildModel::ReadingFragment { vertex_source: text },
                RequestModel::ReadSource { path: fragment_path },
            ),
        ),
        (BuildModel::ReadingVertex { .. }, ReplyModel::Source(Err(message))) => Some(
            failed(ErrorModel::Io { message }),
        ),
        (BuildModel::ReadingFragment { vertex_source }, ReplyModel::Source(Ok(text))) => Some(
            after_sources(encode_utf8(vertex_source), encode_utf8(text)),
        ),
        (BuildModel::ReadingFragment { .. }, ReplyModel::Source(Err(message))) => Some(
            failed(ErrorModel::Io { message }),
        ),
        (BuildModel::CompilingVertex { fragment_source }, ReplyModel::Compiled { shader, status }) =>
            if status == STATUS_OK {
                Some(
                    (
                        BuildModel::CompilingFragment { vertex: shader },
                        RequestModel::Compile { stage: Stage::Fragment, source: fragment_source },
                    ),
                )
            } else {
                Some(
                    (
                        BuildModel::ReadingCompileLog { stage: Stage::Vertex },
                        RequestModel::ShaderLog { shader, capacity: INFO_LOG_CAPACITY },
                    ),
                )
            },
        (BuildModel::CompilingFragment { vertex }, ReplyModel::Compiled { shader, status }) =>
            if status == STATUS_OK {
                Some(
                    (
                        BuildModel::Linking { vertex, fragment: shader },
                        RequestModel::Link { vertex, fragment: shader },
                    ),
                )
            } else {
                Some(
                    (
                        BuildModel::ReadingCompileLog { stage: Stage::Fragment },
                        RequestModel::ShaderLog { shader, capacity: INFO_LOG_CAPACITY },
                    ),
                )
            },
        (BuildModel::ReadingCompileLog { stage }, ReplyModel::Log(log)) => Some(
            failed(ErrorModel::Compile { stage, log }),
        ),
        (BuildModel::Linking { vertex, fragment }, ReplyModel::Linked { program, status }) =>
            if status == STATUS_OK && program != 0 {
                Some(
                    (
                        BuildModel::Releasing { outcome: Ok(program) },
                        RequestModel::Release { vertex, fragment },
                    ),
                )
            } else {
                Some(
                    (
                        BuildModel::ReadingLinkLog { vertex, fragment },
                        RequestModel::ProgramLog { program, capacity: INFO_LOG_CAPACITY },
                    ),
                )
            },
        (BuildModel::ReadingLinkLog { vertex, fragment }, ReplyModel::Log(log)) => Some(
            (
                BuildModel::Releasing { outcome: Err(log) },
                RequestModel::Release { vertex, fragment },
            ),
        ),
        (BuildModel::Releasing { outcome: Ok(program) }, ReplyModel::Released) => Some(
            (BuildModel::Finished, RequestModel::Finish(Ok(program))),
        ),
        (BuildModel::Releasing { outcome: Err(log) }, ReplyModel::Released) => Some(
            failed(ErrorModel::Link { log }),
        ),
        _ => None,
    }
}

/// What holds of every state that a construction reaches: a source that
/// waits to be compiled holds no zero byte, and a program that waits to be
/// handed out has a handle other than zero.
pub open spec fn sound(state: BuildModel) -> bool {
    match state {
        BuildModel::CompilingVertex { fragment_source } => is_nul_free(fragment_source),
        BuildModel::Releasing { outcome: Ok(program) } => program != 0,
        _ => true,
    }
}

/// What holds of every request that a construction makes: a source to
/// compile holds no zero byte, so it can be handed over as a C string, and a
/// program that is handed out has a handle other than zero.
pub open spec fn performable(request: RequestModel) -> bool {
    match request {
        RequestModel::Compile { source, .. } => is_nul_free(source),
        RequestModel::Finish(Ok(program)) => program != 0,
        _ => true,
    }
}

/// One step keeps a state sound and makes a request that can be performed.
pub proof fn lemma_step_keeps_sound(state: BuildModel, reply: ReplyModel)
    requires
        sound(state),
    ensures
        step_model(state, reply) matches Some((next, request)) ==> sound(next) && performable(
            request,
        ),
{
}

/// The status with which the context reports success.
///
/// Trusted: the constant `gl::TRUE`, which the bindings generate from the
/// registry entry `GL_TRUE` with the value 1; it is widened to the integer
/// type in which a status is reported.
#[verifier::external_body]
fn status_true() -> (status: i32)
    ensures
        status == STATUS_OK,
{
    gl::TRUE as i32
}

/// An error that ends the construction.
fn fail(error: ShaderError) -> (next: (Build, Request))
    ensures
        (next.0@, next.1@) == failed(error@),
{
    (Build::Finished, Request::Finish(Err(error)))
}

/// The error for a source with a zero byte at `position`.
fn nul_error(position: usize) -> (error: ShaderError)
    ensures
        error@ == (ErrorModel::Io { message: nul_message(position as int) }),
{
    let mut message = String::from_str("nul byte found in provided data at position: ");
    push_decimal(&mut message, position);
    ShaderError::Io { message }
}

/// Decides what follows once both source texts are read.
pub(crate) fn check_sources(vertex: &[u8], fragment: &[u8]) -> (next: (Build, Request))
    ensures
        (next.0@, next.1@) == after_sources(vertex@, fragment@),
{
    match find_nul(vertex) {
        Some(position) => {
            proof {
                assert(!is_nul_free(vertex@));
                lemma_first_nul_unique(vertex@, position as int, nul_position(vertex@));
            }
            fail(nul_error(position))
        },
        None => match find_nul(fragment) {
            Some(position) => {
                proof {
                    assert(!is_nul_free(fragment@));
                    lemma_first_nul_unique(fragment@, position as int, nul_position(fragment@));
                }
                fail(nul_error(position))
            },
            None => (
                Build::CompilingVertex { fragment_source: slice_to_vec(fragment) },
                Request::Compile { stage: Stage::Vertex, source: slice_to_vec(vertex) },
            ),
        },
    }
}

impl Build {
    /// Takes the context's reply and decides what happens next. A reply
    /// that this state does not wait for is not taken: it comes back, with
    /// the state as it was. A sound state stays sound, and what it asks for
    /// can be performed.
    pub fn step(self, reply: Reply) -> (next: Result<(Build, Request), (Build, Reply)>)
        ensures
            match next {
                Ok((state, request)) => {
                    &&& step_model(self@, reply@) == Some((state@, request@))
                    &&& sound(self@) ==> sound(state@) && performable(request@)
                },
                Err((state, untaken)) => {
                    &&& step_model(self@, reply@) is None
                    &&& state@ == self@
                    &&& untaken@ == reply@
                },
            },
    {
        proof {
            if sound(self@) {
                lemma_step_keeps_sound(self@, reply@);
            }
        }
        match (self, reply) {
            (Build::ReadingVertex { fragment_path }, Reply::Source(Ok(text))) => Ok(
                (
                    Build::ReadingFragment { vertex_source: text },
                    Request::ReadSource { path: fragment_path },
                ),
            ),
            (Build::ReadingVertex { .. }, Reply::Source(Err(message))) => Ok(
                fail(ShaderError::Io { message }),
            ),
            (Build::ReadingFragment { vertex_source }, Reply::Source(Ok(text))) => Ok(
                check_sources(vertex_source.as_str().as_bytes(), text.as_str().as_bytes()),
            ),
            (Build::ReadingFragment { .. }, Reply::Source(Err(message))) => Ok(
                fail(ShaderError::Io { message }),
            ),
            (Build::CompilingVertex { fragment_source }, Reply::Compiled { shader, status }) => {
                if status == status_true() {
                    Ok(
                        (
                            Build::CompilingFragment { vertex: shader },
                            Request::Compile { stage: Stage::Fragment, source: fragment_source },
                        ),
                    )
                } else {
                    Ok(
                        (
                            Build::ReadingCompileLog { stage: Stage::Vertex },
                            Request::ShaderLog { shader, capacity: INFO_LOG_CAPACITY },
                        ),
                    )
                }
            },
            (Build::CompilingFragment { vertex }, Reply::Compiled { shader, status }) => {
                if status == status_true() {
                    Ok(
                        (
                            Build::Linking { vertex, fragment: shader },
                            Request::Link { vertex, fragment: shader },
                        ),
                    )
                } else {
                    Ok(
                        (
                            Build::ReadingCompileLog { stage: Stage::Fragment },
                            Request::ShaderLog { shader, capacity: INFO_LOG_CAPACITY },
                        ),
                    )
                }
            },
            (Build::ReadingCompileLog { stage }, Reply::Log(log)) => Ok(
                fail(ShaderError::Compile { stage, log }),
            ),
            (Build::Linking { vertex, fragment }, Reply::Linked { program, status }) => {
                if status == status_true() && program != 0 {
                    Ok(
                        (
                            Build::Releasing { outcome: Ok(Shader::from_linked(program)) },
                            Request::Release { vertex, fragment },
                        ),
                    )
                } else {
                    Ok(
                        (
                            Build::ReadingLinkLog { vertex, fragment },
                            Request::ProgramLog { program, capacity: INFO_LOG_CAPACITY },
                        ),
                    )
                }
            },
            (Build::ReadingLinkLog { vertex, fragment }, Reply::Log(log)) => Ok(
                (Build::Releasing { outcome: Err(log) }, Request::Release { vertex, fragment }),
            ),
            (Build::Releasing { outcome: Ok(shader) }, Reply::Released) => Ok(
                (Build::Finished, Request::Finish(Ok(shader))),
            ),
            (Build::Releasing { outcome: Err(log) }, Reply::Released) => Ok(
                fail(ShaderError::Link { log }),
            ),
            (state, untaken) => Err((state, untaken)),
        }
    }
}

} // verus!
