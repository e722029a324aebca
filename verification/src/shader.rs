//! The shader program handle, its errors, and the commands it issues.

use vstd::prelude::*;
use vstd::utf8::encode_utf8;
use crate::construction::{
    after_sources, check_sources, performable, sound, Build, BuildModel, Request, RequestModel,
};
use crate::text::{find_nul, is_nul_free};

verus! {

/// One of the two shader roles that make up a program.
#[derive(Clone, Copy, PartialEq, Eq, Structural, Debug)]
pub enum Stage {
    Vertex,
    Fragment,
}

/// The object kind under which the context knows a stage.
pub open spec fn kind_of(stage: Stage) -> u32 {
    match stage {
        Stage::Vertex => 0x8B31u32,
        Stage::Fragment => 0x8B30u32,
    }
}

/// The object kind of a vertex shader.
///
/// Trusted: the constant `gl::VERTEX_SHADER`, which the bindings generate
/// from the registry entry `GL_VERTEX_SHADER` with the value 0x8B31.
#[verifier::external_body]
fn vertex_shader_kind() -> (kind: u32)
    ensures
        kind == 0x8B31u32,
{
    gl::VERTEX_SHADER
}

/// The object kind of a fragment shader.
///
/// Trusted: the constant `gl::FRAGMENT_SHADER`, which the bindings generate
/// from the registry entry `GL_FRAGMENT_SHADER` with the value 0x8B30.
#[verifier::external_body]
fn fragment_shader_kind() -> (kind: u32)
    ensures
        kind == 0x8B30u32,
{
    gl::FRAGMENT_SHADER
}

impl Stage {
    /// The object kind to create for this stage.
    pub fn kind(&self) -> (kind: u32)
        ensures
            kind == kind_of(*self),
    {
        match self {
            Stage::Vertex => vertex_shader_kind(),
            Stage::Fragment => fragment_shader_kind(),
        }
    }
}

/// Why a program could not be constructed.
#[derive(Debug, PartialEq, Eq)]
pub enum ShaderError {
    /// A source file could not be used as shader text.
    Io { message: String },
    /// A stage did not compile; `log` is the compiler's diagnostic text.
    Compile { stage: Stage, log: String },
    /// The stages did not link; `log` is the linker's diagnostic text.
    Link { log: String },
}

/// Mathematical value of a [`ShaderError`].
pub enum ErrorModel {
    Io { message: Seq<char> },
    Compile { stage: Stage, log: Seq<char> },
    Link { log: Seq<char> },
}

impl View for ShaderError {
    type V = ErrorModel;

    open spec fn view(&self) -> ErrorModel {
        match self {
            ShaderError::Io { message } => ErrorModel::Io { message: message@ },
            ShaderError::Compile { stage, log } => ErrorModel::Compile { stage: *stage, log: log@ },
            ShaderError::Link { log } => ErrorModel::Link { log: log@ },
        }
    }
}

/// The heading that precedes the diagnostic log in an error's text.
pub open spec fn heading(error: ErrorModel) -> Seq<char> {
    match error {
        ErrorModel::Io { .. } => Seq::empty(),
        ErrorModel::Compile { stage: Stage::Vertex, .. } =>
            "ERROR::SHADER::VERTEX::COMPILATION_FAILED\n"@,
        ErrorModel::Compile { stage: Stage::Fragment, .. } =>
            "ERROR::SHADER::FRAGMENT::COMPILATION_FAILED\n"@,
        ErrorModel::Link { .. } => "ERROR::SHADER::PROGRAM::COMPILATION_FAILED\n"@,
    }
}

/// The text carried by an error: the file error, or the diagnostic log.
pub open spec fn detail(error: ErrorModel) -> Seq<char> {
    match error {
        ErrorModel::Io { message } => message,
        ErrorModel::Compile { log, .. } => log,
        ErrorModel::Link { log } => log,
    }
}

impl ShaderError {
    /// The error as one text: heading, then detail.
    pub fn message(&self) -> (text: String)
        ensures
            text@ == heading(self@) + detail(self@),
    {
        match self {
            ShaderError::Io { message } => {
                let text = message.clone();
                assert(text@ =~= heading(self@) + detail(self@));
                text
            },
            ShaderError::Compile { stage: Stage::Vertex, log } => String::from_str(
                "ERROR::SHADER::VERTEX::COMPILATION_FAILED\n",
            ).concat(log.as_str()),
            ShaderError::Compile { stage: Stage::Fragment, log } => String::from_str(
                "ERROR::SHADER::FRAGMENT::COMPILATION_FAILED\n",
            ).concat(log.as_str()),
            ShaderError::Link { log } => String::from_str(
                "ERROR::SHADER::PROGRAM::COMPILATION_FAILED\n",
            ).concat(log.as_str()),
        }
    }
}

/// The name of a uniform variable: a text without a zero byte, which is
/// what the context can take as a C string.
#[derive(Debug, PartialEq, Eq)]
pub struct UniformName {
    text: String,
}

impl View for UniformName {
    type V = Seq<char>;

    closed spec fn view(&self) -> Seq<char> {
        self.text@
    }
}

impl UniformName {
    #[verifier::type_invariant]
    spec fn holds_no_nul(&self) -> bool {
        is_nul_free(encode_utf8(self.text@))
    }

    /// Takes `text` as a name, unless it holds a zero byte.
    pub fn new(text: &str) -> (name: Option<UniformName>)
        ensures
            name is Some <==> is_nul_free(encode_utf8(text@)),
            name matches Some(made) ==> made@ == text@,
    {
        match find_nul(text.as_bytes()) {
            Some(_) => None,
            None => Some(UniformName { text: text.to_owned() }),
        }
    }

    /// The name as text; it holds no zero byte.
    pub fn as_str(&self) -> (text: &str)
        ensures
            text@ == self@,
            is_nul_free(encode_utf8(text@)),
    {
        proof {
            use_type_invariant(self);
        }
        self.text.as_str()
    }

    /// A second value of the same name.
    pub fn duplicate(&self) -> (copy: UniformName)
        ensures
            copy@ == self@,
    {
        proof {
            use_type_invariant(self);
        }
        UniformName { text: self.text.clone() }
    }
}

/// A scalar that can be stored in a uniform variable.
#[derive(Clone, Copy, PartialEq, Eq, Structural, Debug)]
pub enum UniformValue {
    /// A signed integer; booleans are stored as 0 and 1.
    Int(i32),
    /// A single-precision number, carried as its IEEE 754 bit pattern.
    Float { bits: u32 },
}

/// The location that the context gives for a name that the program does not
/// have.
pub const NOT_FOUND: i32 = -1;

/// A value to be stored at a location of the active program.
#[derive(Clone, Copy, PartialEq, Eq, Structural, Debug)]
pub struct UniformWrite {
    pub location: i32,
    pub value: UniformValue,
}

impl UniformValue {
    /// Decides what is stored once the context has looked a name up: the
    /// value at the location it gave, or nothing at all where the program
    /// has no uniform of that name. That is no error, and no uniform changes.
    pub fn at(self, location: i32) -> (write: Option<UniformWrite>)
        ensures
            location == NOT_FOUND ==> write is None,
            location != NOT_FOUND ==> write == Some(UniformWrite { location, value: self }),
    {
        if location == NOT_FOUND {
            None
        } else {
            Some(UniformWrite { location, value: self })
        }
    }
}

/// Something a linked program asks of the graphics context.
#[derive(Debug, PartialEq, Eq)]
pub enum Command {
    /// Make `program` the one used by the draw calls that follow.
    Activate { program: u32 },
    /// Look `name` up in `program` and store what [`UniformValue::at`] gives
    /// for `value` and the location found.
    SetUniform { program: u32, name: UniformName, value: UniformValue },
}

/// Mathematical value of a [`Command`].
pub enum CommandModel {
    Activate { program: u32 },
    SetUniform { program: u32, name: Seq<char>, value: UniformValue },
}

impl View for Command {
    type V = CommandModel;

    open spec fn view(&self) -> CommandModel {
        match self {
            Command::Activate { program } => CommandModel::Activate { program: *program },
            Command::SetUniform { program, name, value } => CommandModel::SetUniform {
                program: *program,
                name: name@,
                value: *value,
            },
        }
    }
}

/// The integer that stands for a boolean in a uniform.
pub open spec fn bool_value(value: bool) -> i32 {
    if value {
        1i32
    } else {
        0i32
    }
}

/// Handle of a program that compiled and linked.
#[derive(Debug, PartialEq, Eq)]
pub struct Shader {
    program_id: u32,
}

impl Shader {
    #[verifier::type_invariant]
    spec fn linked(&self) -> bool {
        self.program_id != 0
    }

    /// The program handle as a mathematical value.
    pub closed spec fn handle(&self) -> u32 {
        self.program_id
    }

    /// Wraps the handle of a linked program.
    pub(crate) fn from_linked(program: u32) -> (shader: Shader)
        requires
            program != 0,
        ensures
            shader.handle() == program,
    {
        Shader { program_id: program }
    }

    /// Begins constructing a program from two source files: the returned
    /// state waits for the vertex file, which the request asks to be read.
    pub fn new(vertex_path: String, fragment_path: String) -> (start: (Build, Request))
        ensures
            start.0@ == (BuildModel::ReadingVertex { fragment_path: fragment_path@ }),
            start.1@ == (RequestModel::ReadSource { path: vertex_path@ }),
            sound(start.0@),
            performable(start.1@),
    {
        (Build::ReadingVertex { fragment_path }, Request::ReadSource { path: vertex_path })
    }

    /// Begins constructing a program from two source texts that are at
    /// hand: nothing is read, and the first request is the one that follows
    /// the reading of both files.
    pub fn from_sources(vertex: &str, fragment: &str) -> (start: (Build, Request))
        ensures
            (start.0@, start.1@) == after_sources(encode_utf8(vertex@), encode_utf8(fragment@)),
            sound(start.0@),
            performable(start.1@),
    {
        check_sources(vertex.as_bytes(), fragment.as_bytes())
    }

    /// The program handle; never zero.
    pub fn id(&self) -> (id: u32)
        ensures
            id == self.handle(),
            id != 0,
    {
        proof {
            use_type_invariant(self);
        }
        self.program_id
    }

    /// Asks for this program to be the active one.
    pub fn use_program(&self) -> (command: Command)
        ensures
            command@ == (CommandModel::Activate { program: self.handle() }),
    {
        Command::Activate { program: self.program_id }
    }

    /// Asks for the boolean uniform `name` of this program to be set.
    pub fn set_bool(&self, name: &UniformName, value: bool) -> (command: Command)
        ensures
            command@ == (CommandModel::SetUniform {
                program: self.handle(),
                name: name@,
                value: UniformValue::Int(bool_value(value)),
            }),
    {
        let number: i32 = if value {
            1
        } else {
            0
        };
        self.set_int(name, number)
    }

    /// Asks for the integer uniform `name` of this program to be set.
    pub fn set_int(&self, name: &UniformName, value: i32) -> (command: Command)
        ensures
            command@ == (CommandModel::SetUniform {
                program: self.handle(),
                name: name@,
                value: UniformValue::Int(value),
            }),
    {
        Command::SetUniform {
            program: self.program_id,
            name: name.duplicate(),
            value: UniformValue::Int(value),
        }
    }

    /// Asks for the single-precision uniform `name` of this program to be
    /// set to the number whose bit pattern is `bits`.
    pub fn set_float(&self, name: &UniformName, bits: u32) -> (command: Command)
        ensures
            command@ == (CommandModel::SetUniform {
                program: self.handle(),
                name: name@,
                value: UniformValue::Float { bits },
            }),
    {
        Command::SetUniform {
            program: self.program_id,
            name: name.duplicate(),
            value: UniformValue::Float { bits },
        }
    }
}

} // verus!
