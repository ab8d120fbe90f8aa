//! The decisions of the frame loop: the one-time set-up before the first
//! frame, what a key press leads to, and when the draining of device errors
//! ends. The caller owns the window and the device and carries the decisions
//! out.

use vstd::prelude::*;
use crate::gpu::{Buffer, Model, VertexArray};
use crate::shader::{Program, ShaderProgram};

verus! {

/// The code with which the device answers when no error is pending.
pub const NO_ERROR: u32 = 0;

/// The process exit code after a press of the escape key.
pub const ESCAPE_EXIT_CODE: i32 = 0;

/// The key of a key event, as far as the viewer tells keys apart.
#[derive(Clone, Copy, Debug, PartialEq, Eq, Structural)]
pub enum KeyCode {
    Escape,
    Other,
}

/// An input event, as far as the viewer tells events apart.
#[derive(Clone, Copy, Debug, PartialEq, Eq, Structural)]
pub enum Input {
    /// A key went down (`pressed`) or came up.
    Key { code: KeyCode, pressed: bool },
    Other,
}

/// What an input event leads to.
#[derive(Clone, Copy, Debug, PartialEq, Eq, Structural)]
pub enum InputAction {
    /// End the process with this exit code.
    Exit(i32),
    /// Go on.
    Ignore,
}

/// A press of the escape key ends the process; every other input is ignored.
pub open spec fn input_action(input: Input) -> InputAction {
    if input == (Input::Key { code: KeyCode::Escape, pressed: true }) {
        InputAction::Exit(ESCAPE_EXIT_CODE)
    } else {
        InputAction::Ignore
    }
}

/// Decides what an input event leads to.
pub fn default_handle_input(input: Input) -> (action: InputAction)
    ensures
        action == input_action(input),
{
    match input {
        Input::Key { code: KeyCode::Escape, pressed: true } => InputAction::Exit(
            ESCAPE_EXIT_CODE,
        ),
        _ => InputAction::Ignore,
    }
}

/// The input handler of the viewer: the default one.
pub fn handle_input(input: Input) -> (action: InputAction)
    ensures
        action == input_action(input),
{
    default_handle_input(input)
}

/// What to do with the answer to one poll for a pending device error.
#[derive(Clone, Copy, Debug, PartialEq, Eq, Structural)]
pub enum ErrorPoll {
    /// Log this error code and poll again.
    Report(u32),
    /// No error is pending: stop polling.
    Done,
}

/// Decides whether the draining of device errors goes on after the device
/// has answered a poll with `code`.
pub fn report_errors(code: u32) -> (poll: ErrorPoll)
    ensures
        poll == if code == NO_ERROR {
            ErrorPoll::Done
        } else {
            ErrorPoll::Report(code)
        },
{
    if code == NO_ERROR {
        ErrorPoll::Done
    } else {
        ErrorPoll::Report(code)
    }
}

/// What the frame loop keeps from one frame to the next: whether the set-up
/// has been started, the shader program and the model.
pub struct Memory {
    startup: bool,
    model_shader: ShaderProgram,
    model: Model,
}

/// Whether a frame in a state with this flag starts with the set-up.
pub open spec fn needs_setup(started: bool) -> bool {
    !started
}

/// The number of set-ups in `frames` frames in a row, the first of which
/// begins in a state with this flag. Every frame leaves the flag set.
pub open spec fn setups_in(started: bool, frames: nat) -> nat
    decreases frames,
{
    if frames == 0 {
        0
    } else if needs_setup(started) {
        1 + setups_in(true, (frames - 1) as nat)
    } else {
        setups_in(true, (frames - 1) as nat)
    }
}

impl Memory {
    /// Has the set-up been started?
    pub closed spec fn started(&self) -> bool {
        self.startup
    }

    /// The shader program.
    pub closed spec fn shader(&self) -> ShaderProgram {
        self.model_shader
    }

    /// The model.
    pub closed spec fn geometry(&self) -> Model {
        self.model
    }

    /// The state before the first frame: nothing is set up, the program and
    /// the model are the device's null objects.
    pub fn new() -> (memory: Memory)
        ensures
            !memory.started(),
            memory.shader().id() == Program(0),
            memory.shader().uniforms() == Seq::<(Seq<u8>, i32)>::empty(),
            memory.geometry().vertex_array() == VertexArray(0),
            memory.geometry().vertex_buffer() == Buffer(0),
            memory.geometry().index_buffer() == Buffer(0),
            memory.geometry().index_count() == 0,
    {
        Memory {
            startup: false,
            model_shader: ShaderProgram::new(Program(0)),
            model: Model::default(),
        }
    }

    /// Begins a frame, and says whether the caller has to set up the shader
    /// program and the model now. That is so in the first frame and never
    /// again.
    pub fn begin_frame(&mut self) -> (setup: bool)
        ensures
            setup == needs_setup(old(self).started()),
            final(self).started(),
            final(self).shader() == old(self).shader(),
            final(self).geometry() == old(self).geometry(),
    {
        let setup = !self.startup;
        self.startup = true;
        setup
    }

    /// Keeps the shader program and the model that the set-up produced.
    pub fn install(&mut self, shader: ShaderProgram, model: Model)
        ensures
            final(self).started() == old(self).started(),
            final(self).shader() == shader,
            final(self).geometry() == model,
    {
        self.model_shader = shader;
        self.model = model;
    }

    /// The shader program.
    pub fn model_shader(&self) -> (r: &ShaderProgram)
        ensures
            *r == self.shader(),
    {
        &self.model_shader
    }

    /// The model.
    pub fn model(&self) -> (r: &Model)
        ensures
            *r == self.geometry(),
    {
        &self.model
    }
}

impl Default for Memory {
    /// The state before the first frame.
    fn default() -> (memory: Memory)
        ensures
            !memory.started(),
            memory.shader().id() == Program(0),
            memory.shader().uniforms() == Seq::<(Seq<u8>, i32)>::empty(),
            memory.geometry().vertex_array() == VertexArray(0),
            memory.geometry().vertex_buffer() == Buffer(0),
            memory.geometry().index_buffer() == Buffer(0),
            memory.geometry().index_count() == 0,
    {
        Memory::new()
    }
}

/// However many frames run, the set-up happens once if the first of them
/// begins before any set-up, and not at all otherwise.
pub proof fn law_setup_happens_once(started: bool, frames: nat)
    ensures
        setups_in(started, frames) == if started || frames == 0 {
            0nat
        } else {
            1nat
        },
    decreases frames,
{
    if frames > 0 {
        law_setup_happens_once(true, (frames - 1) as nat);
    }
}

} // verus!
