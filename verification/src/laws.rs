//! What the construction protocol guarantees over complete runs.

use vstd::prelude::*;
use vstd::utf8::encode_utf8;
use crate::construction::{
    after_sources, lemma_step_keeps_sound, performable, sound, step_model, BuildModel, ReplyModel,
    RequestModel, INFO_LOG_CAPACITY, STATUS_OK,
};
use crate::shader::{ErrorModel, Stage};
use crate::text::is_nul_free;

verus! {

/// The state reached from `start` once the first `n` of `replies` are taken.
pub open spec fn state_after(start: BuildModel, replies: Seq<ReplyModel>, n: nat) -> BuildModel
    decreases n,
{
    if n == 0 {
        start
    } else {
        let before = state_after(start, replies, (n - 1) as nat);
        match step_model(before, replies[n - 1]) {
            Some((state, _)) => state,
            None => before,
        }
    }
}

/// The request made in answer to the `n`-th of `replies`, counted from 1,
/// where that reply is taken.
pub open spec fn request_after(start: BuildModel, replies: Seq<ReplyModel>, n: nat) -> Option<
    RequestModel,
>
    recommends
        n >= 1,
{
    match step_model(state_after(start, replies, (n - 1) as nat), replies[n - 1]) {
        Some((_, request)) => Some(request),
        None => None,
    }
}

/// The state in which a construction from two files begins.
pub open spec fn initial(fragment_path: Seq<char>) -> BuildModel {
    BuildModel::ReadingVertex { fragment_path }
}

/// Two readable sources that compile and link give a program: the fragment
/// file is read, the vertex stage is compiled, then the fragment stage, the
/// two are linked and released, and the construction ends with the handle
/// that the context gave, which is not zero.
pub proof fn law_valid_sources_give_program(
    fragment_path: Seq<char>,
    vertex_text: Seq<char>,
    fragment_text: Seq<char>,
    vertex: u32,
    fragment: u32,
    program: u32,
)
    requires
        is_nul_free(encode_utf8(vertex_text)),
        is_nul_free(encode_utf8(fragment_text)),
        program != 0,
    ensures
        ({
            let start = initial(fragment_path);
            let replies = seq![
                ReplyModel::Source(Ok(vertex_text)),
                ReplyModel::Source(Ok(fragment_text)),
                ReplyModel::Compiled { shader: vertex, status: STATUS_OK },
                ReplyModel::Compiled { shader: fragment, status: STATUS_OK },
                ReplyModel::Linked { program, status: STATUS_OK },
                ReplyModel::Released,
            ];
            &&& request_after(start, replies, 1) == Some(RequestModel::ReadSource {
                path: fragment_path,
            })
            &&& request_after(start, replies, 2) == Some(RequestModel::Compile {
                stage: Stage::Vertex,
                source: encode_utf8(vertex_text),
            })
            &&& request_after(start, replies, 3) == Some(RequestModel::Compile {
                stage: Stage::Fragment,
                source: encode_utf8(fragment_text),
            })
            &&& request_after(start, replies, 4) == Some(RequestModel::Link { vertex, fragment })
            &&& request_after(start, replies, 5) == Some(RequestModel::Release { vertex, fragment })
            &&& request_after(start, replies, 6) == Some(RequestModel::Finish(Ok(program)))
            &&& state_after(start, replies, 6) == BuildModel::Finished
        }),
{
    reveal_with_fuel(state_after, 7);
}

/// A vertex stage that does not compile ends the construction with a compile
/// error that names the vertex stage and carries the log that the context
/// gave for it, unchanged. Nothing is asked of the fragment stage.
pub proof fn law_vertex_compile_failure(
    fragment_path: Seq<char>,
    vertex_text: Seq<char>,
    fragment_text: Seq<char>,
    vertex: u32,
    status: i32,
    log: Seq<char>,
)
    requires
        is_nul_free(encode_utf8(vertex_text)),
        is_nul_free(encode_utf8(fragment_text)),
        status != STATUS_OK,
    ensures
        ({
            let start = initial(fragment_path);
            let replies = seq![
                ReplyModel::Source(Ok(vertex_text)),
                ReplyModel::Source(Ok(fragment_text)),
                ReplyModel::Compiled { shader: vertex, status },
                ReplyModel::Log(log),
            ];
            &&& request_after(start, replies, 3) == Some(RequestModel::ShaderLog {
                shader: vertex,
                capacity: INFO_LOG_CAPACITY,
            })
            &&& request_after(start, replies, 4) == Some(
                RequestModel::Finish(Err(ErrorModel::Compile { stage: Stage::Vertex, log })),
            )
            &&& state_after(start, replies, 4) == BuildModel::Finished
        }),
{
    reveal_with_fuel(state_after, 5);
}

/// A fragment stage that does not compile, after a vertex stage that did,
/// ends the construction with a compile error that names the fragment stage
/// and carries its log. Nothing is linked.
pub proof fn law_fragment_compile_failure(
    fragment_path: Seq<char>,
    vertex_text: Seq<char>,
    fragment_text: Seq<char>,
    vertex: u32,
    fragment: u32,
    status: i32,
    log: Seq<char>,
)
    requires
        is_nul_free(encode_utf8(vertex_text)),
        is_nul_free(encode_utf8(fragment_text)),
        status != STATUS_OK,
    ensures
        ({
            let start = initial(fragment_path);
            let replies = seq![
                ReplyModel::Source(Ok(vertex_text)),
                ReplyModel::Source(Ok(fragment_text)),
                ReplyModel::Compiled { shader: vertex, status: STATUS_OK },
                ReplyModel::Compiled { shader: fragment, status },
                ReplyModel::Log(log),
            ];
            &&& request_after(start, replies, 4) == Some(RequestModel::ShaderLog {
                shader: fragment,
                capacity: INFO_LOG_CAPACITY,
            })
            &&& request_after(start, replies, 5) == Some(
                RequestModel::Finish(Err(ErrorModel::Compile { stage: Stage::Fragment, log })),
            )
            &&& state_after(start, replies, 5) == BuildModel::Finished
        }),
{
    reveal_with_fuel(state_after, 6);
}

/// Two stages that compile but do not link end the construction with a link
/// error that carries the program's log, unchanged, once the stage objects
/// are released. No program is handed out. A link that gave no program
/// object, which is the handle zero, counts as one that failed.
pub proof fn law_link_failure(
    fragment_path: Seq<char>,
    vertex_text: Seq<char>,
    fragment_text: Seq<char>,
    vertex: u32,
    fragment: u32,
    program: u32,
    status: i32,
    log: Seq<char>,
)
    requires
        is_nul_free(encode_utf8(vertex_text)),
        is_nul_free(encode_utf8(fragment_text)),
        status != STATUS_OK || program == 0,
    ensures
        ({
            let start = initial(fragment_path);
            let replies = seq![
                ReplyModel::Source(Ok(vertex_text)),
                ReplyModel::Source(Ok(fragment_text)),
                ReplyModel::Compiled { shader: vertex, status: STATUS_OK },
                ReplyModel::Compiled { shader: fragment, status: STATUS_OK },
                ReplyModel::Linked { program, status },
                ReplyModel::Log(log),
                ReplyModel::Released,
            ];
            &&& request_after(start, replies, 5) == Some(RequestModel::ProgramLog {
                program,
                capacity: INFO_LOG_CAPACITY,
            })
            &&& request_after(start, replies, 6) == Some(RequestModel::Release { vertex, fragment })
            &&& request_after(start, replies, 7) == Some(
                RequestModel::Finish(Err(ErrorModel::Link { log })),
            )
            &&& state_after(start, replies, 7) == BuildModel::Finished
        }),
{
    reveal_with_fuel(state_after, 8);
}

/// A file that cannot be read ends the construction with that error, and
/// nothing is compiled: this holds of the vertex file, and of the fragment
/// file after a vertex file that was read.
pub proof fn law_unreadable_file(
    fragment_path: Seq<char>,
    vertex_text: Seq<char>,
    message: Seq<char>,
)
    ensures
        request_after(initial(fragment_path), seq![ReplyModel::Source(Err(message))], 1) == Some(
            RequestModel::Finish(Err(ErrorModel::Io { message })),
        ),
        request_after(
            initial(fragment_path),
            seq![ReplyModel::Source(Ok(vertex_text)), ReplyModel::Source(Err(message))],
            2,
        ) == Some(RequestModel::Finish(Err(ErrorModel::Io { message }))),
{
    reveal_with_fuel(state_after, 3);
}

/// The state waits for a reply of this kind.
pub open spec fn awaits(state: BuildModel, reply: ReplyModel) -> bool {
    match state {
        BuildModel::ReadingVertex { .. } | BuildModel::ReadingFragment { .. } =>
            reply is Source,
        BuildModel::CompilingVertex { .. } | BuildModel::CompilingFragment { .. } =>
            reply is Compiled,
        BuildModel::ReadingCompileLog { .. } | BuildModel::ReadingLinkLog { .. } =>
            reply is Log,
        BuildModel::Linking { .. } => reply is Linked,
        BuildModel::Releasing { .. } => reply is Released,
        BuildModel::Finished => false,
    }
}

/// The reply is of the kind that answers the request.
pub open spec fn answers(request: RequestModel, reply: ReplyModel) -> bool {
    match request {
        RequestModel::ReadSource { .. } => reply is Source,
        RequestModel::Compile { .. } => reply is Compiled,
        RequestModel::ShaderLog { .. } | RequestModel::ProgramLog { .. } => reply is Log,
        RequestModel::Link { .. } => reply is Linked,
        RequestModel::Release { .. } => reply is Released,
        RequestModel::Finish(_) => false,
    }
}

/// The greatest number of replies that a construction in this state can
/// still take.
pub open spec fn steps_left(state: BuildModel) -> nat {
    match state {
        BuildModel::ReadingVertex { .. } => 7,
        BuildModel::ReadingFragment { .. } => 6,
        BuildModel::CompilingVertex { .. } => 5,
        BuildModel::CompilingFragment { .. } => 4,
        BuildModel::Linking { .. } => 3,
        BuildModel::ReadingLinkLog { .. } => 2,
        BuildModel::ReadingCompileLog { .. } => 1,
        BuildModel::Releasing { .. } => 1,
        BuildModel::Finished => 0,
    }
}

/// A reply is taken exactly where the state waits for it. A state waits
/// for exactly the replies that answer the request with which it was
/// reached, so whoever performs each request as it comes can always go on.
/// This holds of the first request too, for files and for texts.
pub proof fn law_states_wait_for_answers(
    state: BuildModel,
    reply: ReplyModel,
    following: ReplyModel,
    path: Seq<char>,
    vertex: Seq<u8>,
    fragment: Seq<u8>,
)
    ensures
        step_model(state, reply) is Some <==> awaits(state, reply),
        step_model(state, reply) matches Some((next, request)) ==> awaits(next, following)
            == answers(request, following),
        awaits(initial(path), following) == answers(RequestModel::ReadSource { path }, following),
        awaits(after_sources(vertex, fragment).0, following) == answers(
            after_sources(vertex, fragment).1,
            following,
        ),
{
}

/// Every reply that is taken brings the end nearer, a construction from two
/// files ends within seven replies, and the request that ends it comes with
/// the last state and with no other.
pub proof fn law_construction_ends(state: BuildModel, reply: ReplyModel, path: Seq<char>)
    ensures
        step_model(state, reply) matches Some((next, request)) ==> {
            &&& steps_left(next) < steps_left(state)
            &&& request is Finish <==> next is Finished
        },
        steps_left(initial(path)) == 7,
        steps_left(state) == 0 <==> state is Finished,
{
}

/// A construction begins in a sound state, from two files and from two
/// texts alike, and its first request can be performed.
pub proof fn law_beginnings_are_sound(path: Seq<char>, vertex: Seq<u8>, fragment: Seq<u8>)
    ensures
        sound(initial(path)),
        performable(RequestModel::ReadSource { path }),
        sound(after_sources(vertex, fragment).0),
        performable(after_sources(vertex, fragment).1),
{
}

/// Whatever the context answers, and however long it goes on, a
/// construction that is in a sound state reaches only sound states and
/// makes only requests that can be performed. So it never asks for a source
/// with a zero byte to be compiled, and never hands out the handle zero.
pub proof fn law_requests_can_be_performed(start: BuildModel, replies: Seq<ReplyModel>, n: nat)
    requires
        sound(start),
    ensures
        sound(state_after(start, replies, n)),
        n >= 1 ==> (request_after(start, replies, n) matches Some(request) ==> performable(
            request,
        )),
    decreases n,
{
    if n >= 1 {
        law_requests_can_be_performed(start, replies, (n - 1) as nat);
        lemma_step_keeps_sound(state_after(start, replies, (n - 1) as nat), replies[n - 1]);
    }
}

} // verus!
