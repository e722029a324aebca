use learn_opengl::construction::{Build, Reply, Request, INFO_LOG_CAPACITY, STATUS_OK};
use learn_opengl::shader::{Shader, ShaderError, Stage};

const PASSTHROUGH_VERTEX: &str =
    "#version 330 core\nlayout (location = 0) in vec3 aPos; void main() { gl_Position = vec4(aPos, 1.0); }\n";
const SOLID_FRAGMENT: &str =
    "#version 330 core\nout vec4 FragColor; void main() { FragColor = vec4(1.0, 0.5, 0.2, 1.0); }\n";
const BROKEN_VERTEX: &str =
    "#version 330 core\nlayout (location = 0) in vec3 aPos; void main() { gl_Position = vec4(aPos, 1.0) }\n";

/// Hands the replies to the construction in order and collects the requests
/// that it makes, the first one included.
fn drive(start: (Build, Request), replies: Vec<Reply>) -> (Build, Vec<Request>) {
    let (mut state, first) = start;
    let mut requests = vec![first];
    for reply in replies {
        let (next, request) = match state.step(reply) {
            Ok(next) => next,
            Err((state, reply)) => panic!("{:?} does not take {:?}", state, reply),
        };
        state = next;
        requests.push(request);
    }
    (state, requests)
}

fn begin() -> (Build, Request) {
    Shader::new("shaders/basic.vert".to_string(), "shaders/basic.frag".to_string())
}

fn read(text: &str) -> Reply {
    Reply::Source(Ok(text.to_string()))
}

fn finished_program(request: &Request) -> &Shader {
    match request {
        Request::Finish(Ok(shader)) => shader,
        other => panic!("no program: {:?}", other),
    }
}

fn finished_error(request: &Request) -> &ShaderError {
    match request {
        Request::Finish(Err(error)) => error,
        other => panic!("no error: {:?}", other),
    }
}

#[test]
fn new_asks_for_the_vertex_file_first() {
    let (state, request) = begin();
    assert_eq!(request, Request::ReadSource { path: "shaders/basic.vert".to_string() });
    assert_eq!(state, Build::ReadingVertex { fragment_path: "shaders/basic.frag".to_string() });
}

#[test]
fn passthrough_and_solid_color_give_a_program() {
    let (state, requests) = drive(
        begin(),
        vec![
            read(PASSTHROUGH_VERTEX),
            read(SOLID_FRAGMENT),
            Reply::Compiled { shader: 1, status: 1 },
            Reply::Compiled { shader: 2, status: 1 },
            Reply::Linked { program: 3, status: 1 },
            Reply::Released,
        ],
    );
    assert_eq!(state, Build::Finished);
    assert_eq!(requests.len(), 7);
    assert_eq!(requests[1], Request::ReadSource { path: "shaders/basic.frag".to_string() });
    assert_eq!(
        requests[2],
        Request::Compile { stage: Stage::Vertex, source: PASSTHROUGH_VERTEX.as_bytes().to_vec() }
    );
    assert_eq!(
        requests[3],
        Request::Compile { stage: Stage::Fragment, source: SOLID_FRAGMENT.as_bytes().to_vec() }
    );
    assert_eq!(requests[4], Request::Link { vertex: 1, fragment: 2 });
    assert_eq!(requests[5], Request::Release { vertex: 1, fragment: 2 });
    let shader = finished_program(&requests[6]);
    assert_eq!(shader.id(), 3);
    assert_ne!(shader.id(), 0);
}

#[test]
fn vertex_shader_without_semicolon_is_a_vertex_compile_error() {
    let log = "0:2(98): error: syntax error, unexpected '}', expecting ';'";
    let (state, requests) = drive(
        begin(),
        vec![
            read(BROKEN_VERTEX),
            read(SOLID_FRAGMENT),
            Reply::Compiled { shader: 1, status: 0 },
            Reply::Log(log.to_string()),
        ],
    );
    assert_eq!(state, Build::Finished);
    assert_eq!(requests.len(), 5);
    assert_eq!(requests[3], Request::ShaderLog { shader: 1, capacity: 512 });
    let error = finished_error(&requests[4]);
    assert_eq!(*error, ShaderError::Compile { stage: Stage::Vertex, log: log.to_string() });
    match error {
        ShaderError::Compile { stage, log } => {
            assert_eq!(*stage, Stage::Vertex);
            assert!(!log.is_empty());
        }
        other => panic!("wrong error: {:?}", other),
    }
}

#[test]
fn fragment_compile_error_names_the_fragment_stage() {
    let (state, requests) = drive(
        begin(),
        vec![
            read(PASSTHROUGH_VERTEX),
            read("void main() {"),
            Reply::Compiled { shader: 4, status: 1 },
            Reply::Compiled { shader: 5, status: 0 },
            Reply::Log("unexpected end of file".to_string()),
        ],
    );
    assert_eq!(state, Build::Finished);
    assert_eq!(requests[4], Request::ShaderLog { shader: 5, capacity: INFO_LOG_CAPACITY });
    assert_eq!(
        requests[5],
        Request::Finish(Err(ShaderError::Compile {
            stage: Stage::Fragment,
            log: "unexpected end of file".to_string(),
        }))
    );
}

#[test]
fn incompatible_stages_are_a_link_error() {
    let log = "error: fragment shader input `color' has no matching output";
    let (state, requests) = drive(
        begin(),
        vec![
            read(PASSTHROUGH_VERTEX),
            read(SOLID_FRAGMENT),
            Reply::Compiled { shader: 1, status: 1 },
            Reply::Compiled { shader: 2, status: 1 },
            Reply::Linked { program: 3, status: 0 },
            Reply::Log(log.to_string()),
            Reply::Released,
        ],
    );
    assert_eq!(state, Build::Finished);
    assert_eq!(requests[5], Request::ProgramLog { program: 3, capacity: 512 });
    assert_eq!(requests[6], Request::Release { vertex: 1, fragment: 2 });
    assert_eq!(requests[7], Request::Finish(Err(ShaderError::Link { log: log.to_string() })));
}

#[test]
fn program_handle_zero_is_never_handed_out() {
    let (_, requests) = drive(
        begin(),
        vec![
            read(PASSTHROUGH_VERTEX),
            read(SOLID_FRAGMENT),
            Reply::Compiled { shader: 1, status: 1 },
            Reply::Compiled { shader: 2, status: 1 },
            Reply::Linked { program: 0, status: 1 },
            Reply::Log(String::new()),
            Reply::Released,
        ],
    );
    assert_eq!(requests[5], Request::ProgramLog { program: 0, capacity: 512 });
    assert_eq!(requests[7], Request::Finish(Err(ShaderError::Link { log: String::new() })));
}

#[test]
fn only_the_status_one_counts_as_success() {
    assert_eq!(STATUS_OK, 1);
    assert_eq!(STATUS_OK, gl::TRUE as i32);
    for status in [0, 2, -1, i32::MAX] {
        let (_, requests) = drive(
            begin(),
            vec![
                read(PASSTHROUGH_VERTEX),
                read(SOLID_FRAGMENT),
                Reply::Compiled { shader: 9, status },
            ],
        );
        assert_eq!(requests[3], Request::ShaderLog { shader: 9, capacity: 512 });
    }
    let (_, requests) = drive(
        begin(),
        vec![
            read(PASSTHROUGH_VERTEX),
            read(SOLID_FRAGMENT),
            Reply::Compiled { shader: 9, status: 1 },
            Reply::Compiled { shader: 8, status: 1 },
            Reply::Linked { program: 7, status: 2 },
        ],
    );
    assert_eq!(requests[5], Request::ProgramLog { program: 7, capacity: 512 });
}

#[test]
fn unreadable_vertex_file_ends_the_construction() {
    let (state, requests) =
        drive(begin(), vec![Reply::Source(Err("No such file or directory (os error 2)".to_string()))]);
    assert_eq!(state, Build::Finished);
    assert_eq!(
        requests[1],
        Request::Finish(Err(ShaderError::Io {
            message: "No such file or directory (os error 2)".to_string()
        }))
    );
}

#[test]
fn unreadable_fragment_file_ends_the_construction() {
    let (state, requests) = drive(
        begin(),
        vec![read(PASSTHROUGH_VERTEX), Reply::Source(Err("Permission denied (os error 13)".to_string()))],
    );
    assert_eq!(state, Build::Finished);
    assert_eq!(requests.len(), 3);
    assert_eq!(
        requests[2],
        Request::Finish(Err(ShaderError::Io { message: "Permission denied (os error 13)".to_string() }))
    );
}

#[test]
fn zero_byte_in_the_vertex_source_is_reported_with_its_position() {
    let (state, requests) = drive(begin(), vec![read("void main()\0 {}"), read(SOLID_FRAGMENT)]);
    assert_eq!(state, Build::Finished);
    assert_eq!(
        requests[2],
        Request::Finish(Err(ShaderError::Io {
            message: "nul byte found in provided data at position: 11".to_string()
        }))
    );
}

#[test]
fn zero_byte_position_counts_bytes_not_characters() {
    let (_, requests) = drive(begin(), vec![read(PASSTHROUGH_VERTEX), read("// é\0")]);
    assert_eq!(
        requests[2],
        Request::Finish(Err(ShaderError::Io {
            message: "nul byte found in provided data at position: 5".to_string()
        }))
    );
}

#[test]
fn vertex_source_is_checked_before_fragment_source() {
    let (_, requests) = drive(begin(), vec![read("ab\0"), read("\0")]);
    assert_eq!(
        requests[2],
        Request::Finish(Err(ShaderError::Io {
            message: "nul byte found in provided data at position: 2".to_string()
        }))
    );
}

#[test]
fn from_sources_starts_with_the_vertex_stage() {
    let (state, request) = Shader::from_sources(PASSTHROUGH_VERTEX, SOLID_FRAGMENT);
    assert_eq!(
        request,
        Request::Compile { stage: Stage::Vertex, source: PASSTHROUGH_VERTEX.as_bytes().to_vec() }
    );
    assert_eq!(
        state,
        Build::CompilingVertex { fragment_source: SOLID_FRAGMENT.as_bytes().to_vec() }
    );
    let (state, requests) = drive(
        (state, request),
        vec![
            Reply::Compiled { shader: 10, status: 1 },
            Reply::Compiled { shader: 11, status: 1 },
            Reply::Linked { program: 12, status: 1 },
            Reply::Released,
        ],
    );
    assert_eq!(state, Build::Finished);
    assert_eq!(finished_program(&requests[4]).id(), 12);
}

#[test]
fn from_sources_rejects_a_zero_byte() {
    let (state, request) = Shader::from_sources("x", "0123456789\0");
    assert_eq!(state, Build::Finished);
    assert_eq!(
        request,
        Request::Finish(Err(ShaderError::Io {
            message: "nul byte found in provided data at position: 10".to_string()
        }))
    );
}

/// The state and the reply as they come back where the reply is not taken.
fn untaken(state: Build, reply: Reply) -> (Build, Reply) {
    match state.step(reply) {
        Ok(next) => panic!("taken: {:?}", next),
        Err(back) => back,
    }
}

#[test]
fn a_reply_that_is_not_awaited_comes_back_with_the_state() {
    let (state, _) = begin();
    let (state, reply) = untaken(state, Reply::Released);
    assert_eq!(state, Build::ReadingVertex { fragment_path: "shaders/basic.frag".to_string() });
    assert_eq!(reply, Reply::Released);
    let (state, reply) = untaken(state, Reply::Compiled { shader: 1, status: 1 });
    assert_eq!(reply, Reply::Compiled { shader: 1, status: 1 });
    let (state, _) = untaken(state, Reply::Log("x".to_string()));
    let (state, _) = untaken(state, Reply::Linked { program: 1, status: 1 });
    let (state, requests) = drive((state, Request::Release { vertex: 0, fragment: 0 }), vec![read("v")]);
    assert_eq!(state, Build::ReadingFragment { vertex_source: "v".to_string() });
    assert_eq!(requests[1], Request::ReadSource { path: "shaders/basic.frag".to_string() });
}

#[test]
fn each_state_takes_only_its_own_kind_of_reply() {
    let (state, _) = Shader::from_sources("v", "f");
    let (state, _) = untaken(state, read("x"));
    let (state, _) = untaken(state, Reply::Source(Err("e".to_string())));
    let (state, _) = untaken(state, Reply::Linked { program: 1, status: 1 });
    let (state, _) = untaken(state, Reply::Log(String::new()));
    let (state, _) = untaken(state, Reply::Released);
    assert_eq!(state, Build::CompilingVertex { fragment_source: b"f".to_vec() });

    let (linking, _) = untaken(Build::Linking { vertex: 1, fragment: 2 }, Reply::Released);
    let (linking, reply) = untaken(linking, Reply::Source(Err("late".to_string())));
    assert_eq!(linking, Build::Linking { vertex: 1, fragment: 2 });
    assert_eq!(reply, Reply::Source(Err("late".to_string())));

    let (log, _) = untaken(Build::ReadingCompileLog { stage: Stage::Vertex }, read("x"));
    let (log, _) = untaken(log, Reply::Compiled { shader: 1, status: 0 });
    assert_eq!(log, Build::ReadingCompileLog { stage: Stage::Vertex });

    let (releasing, _) = untaken(
        Build::Releasing { outcome: Err("log".to_string()) },
        Reply::Log("again".to_string()),
    );
    assert_eq!(releasing, Build::Releasing { outcome: Err("log".to_string()) });
}

#[test]
fn a_finished_construction_takes_nothing() {
    for reply in [
        read("x"),
        Reply::Source(Err("e".to_string())),
        Reply::Compiled { shader: 1, status: 1 },
        Reply::Linked { program: 1, status: 1 },
        Reply::Log(String::new()),
        Reply::Released,
    ] {
        let (state, _) = untaken(Build::Finished, reply);
        assert_eq!(state, Build::Finished);
    }
}
