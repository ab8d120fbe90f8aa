//! Building a shader program and finding its uniforms.
//!
//! The device compiles the vertex stage, then the fragment stage, then links
//! both. After each of the three steps it reports a status, and the build
//! goes on only while the status is not zero. The first failure ends the
//! build: the caller fetches the device's diagnostic log for the failed step,
//! shows it, and ends the process. Here stand the decisions; the device calls
//! are the caller's.

use vstd::prelude::*;
use vstd::slice::slice_subrange;
use vstd::string::StringSliceAdditionalSpecFns;

verus! {

/// The identity of a linked shader program on the device.
#[derive(Clone, Copy, Debug, PartialEq, Eq, Structural)]
pub struct Program(pub u32);

/// Where a uniform of a program lives, as the device resolved its name.
pub type UniformLocation = i32;

/// The location of a name that the program does not have. The device takes a
/// write to it and does nothing.
pub const UNIFORM_NOT_FOUND: i32 = -1;

/// The bytes of the buffer that receives a diagnostic log.
pub const INFO_LOG_CAPACITY: usize = 512;

/// The process exit code after a failed build.
pub const BUILD_FAILURE_EXIT_CODE: i32 = 1;

/// A step of the build.
#[derive(Clone, Copy, Debug, PartialEq, Eq, Structural)]
pub enum Step {
    CompileVertex,
    CompileFragment,
    Link,
}

/// How far a build has come.
#[derive(Clone, Copy, Debug, PartialEq, Eq, Structural)]
pub enum BuildState {
    /// The device is at this step, and its status is awaited.
    Running(Step),
    /// This step failed; the build is over.
    Failed(Step),
    /// All three steps succeeded; the program is ready.
    Linked,
}

/// What the caller has to do next.
#[derive(Clone, Copy, Debug, PartialEq, Eq, Structural)]
pub enum BuildAction {
    /// Run this step on the device and report its status.
    Run(Step),
    /// Fetch the diagnostic log of this step, show it, and end the process.
    Abort(Step),
    /// Destroy the two compiled stages; the linked program is the result.
    Finish,
    /// Nothing: the build was over before.
    Nothing,
}

/// The state after the device has reported `status` in state `state`.
pub open spec fn next_state(state: BuildState, status: i32) -> BuildState {
    match state {
        BuildState::Running(step) => if status == 0 {
            BuildState::Failed(step)
        } else {
            match step {
                Step::CompileVertex => BuildState::Running(Step::CompileFragment),
                Step::CompileFragment => BuildState::Running(Step::Link),
                Step::Link => BuildState::Linked,
            }
        },
        _ => state,
    }
}

/// What the caller has to do after the device has reported `status` in state
/// `state`.
pub open spec fn next_action(state: BuildState, status: i32) -> BuildAction {
    match state {
        BuildState::Running(step) => match next_state(state, status) {
            BuildState::Running(next) => BuildAction::Run(next),
            BuildState::Failed(failed) => BuildAction::Abort(failed),
            BuildState::Linked => BuildAction::Finish,
        },
        _ => BuildAction::Nothing,
    }
}

/// The state after the device has reported each status of a sequence in turn.
pub open spec fn state_after(state: BuildState, statuses: Seq<i32>) -> BuildState
    decreases statuses.len(),
{
    if statuses.len() == 0 {
        state
    } else {
        next_state(state_after(state, statuses.drop_last()), statuses.last())
    }
}

/// The build of one shader program.
#[derive(Clone, Copy, Debug, PartialEq, Eq, Structural)]
pub struct ShaderBuild {
    pub state: BuildState,
}

impl ShaderBuild {
    /// A build at its first step, the compilation of the vertex stage, which
    /// the caller runs first.
    pub fn start() -> (r: (ShaderBuild, BuildAction))
        ensures
            r.0.state == BuildState::Running(Step::CompileVertex),
            r.1 == BuildAction::Run(Step::CompileVertex),
    {
        (
            ShaderBuild { state: BuildState::Running(Step::CompileVertex) },
            BuildAction::Run(Step::CompileVertex),
        )
    }

    /// Takes the status that the device reported for the step at hand, and
    /// says what to do next.
    pub fn advance(&mut self, status: i32) -> (action: BuildAction)
        ensures
            final(self).state == next_state(old(self).state, status),
            action == next_action(old(self).state, status),
    {
        match self.state {
            BuildState::Running(step) => {
                if status == 0 {
                    self.state = BuildState::Failed(step);
                    BuildAction::Abort(step)
                } else {
                    match step {
                        Step::CompileVertex => {
                            self.state = BuildState::Running(Step::CompileFragment);
                            BuildAction::Run(Step::CompileFragment)
                        },
                        Step::CompileFragment => {
                            self.state = BuildState::Running(Step::Link);
                            BuildAction::Run(Step::Link)
                        },
                        Step::Link => {
                            self.state = BuildState::Linked;
                            BuildAction::Finish
                        },
                    }
                }
            },
            _ => BuildAction::Nothing,
        }
    }

    /// Is the build over?
    pub fn is_over(&self) -> (r: bool)
        ensures
            r == !(self.state is Running),
    {
        match self.state {
            BuildState::Running(_) => false,
            _ => true,
        }
    }
}

/// A failed build stays failed at the same step, whatever the device reports
/// afterwards.
pub proof fn law_failure_is_final(step: Step, statuses: Seq<i32>)
    ensures
        state_after(BuildState::Failed(step), statuses) == BuildState::Failed(step),
    decreases statuses.len(),
{
    if statuses.len() > 0 {
        law_failure_is_final(step, statuses.drop_last());
    }
}

/// A build that has received three statuses is linked if and only if none of
/// them is zero; otherwise it has failed at the step of the first zero.
pub proof fn law_linked_needs_three_successes(vertex: i32, fragment: i32, link: i32)
    ensures
        ({
            let end = state_after(
                BuildState::Running(Step::CompileVertex),
                seq![vertex, fragment, link],
            );
            &&& end == BuildState::Linked <==> vertex != 0 && fragment != 0 && link != 0
            &&& vertex == 0 ==> end == BuildState::Failed(Step::CompileVertex)
            &&& vertex != 0 && fragment == 0 ==> end == BuildState::Failed(Step::CompileFragment)
            &&& vertex != 0 && fragment != 0 && link == 0 ==> end == BuildState::Failed(Step::Link)
        }),
{
    let s3 = seq![vertex, fragment, link];
    let s2 = seq![vertex, fragment];
    let s1 = seq![vertex];
    assert(s3.drop_last() =~= s2);
    assert(s2.drop_last() =~= s1);
    assert(s1.drop_last() =~= Seq::<i32>::empty());
    let start = BuildState::Running(Step::CompileVertex);
    assert(state_after(start, Seq::<i32>::empty()) == start);
    assert(state_after(start, s1) == next_state(start, vertex));
    assert(state_after(start, s2) == next_state(state_after(start, s1), fragment));
    assert(state_after(start, s3) == next_state(state_after(start, s2), link));
}

/// The heading that is shown above the diagnostic log of a failed step.
pub fn failure_heading(step: Step) -> (r: &'static str)
    ensures
        r@ == match step {
            Step::CompileVertex => "[ERROR] failed to compile vertex shader: "@,
            Step::CompileFragment => "[ERROR] failed to compile fragment shader: "@,
            Step::Link => "[ERROR] failed to link shaders: "@,
        },
{
    match step {
        Step::CompileVertex => "[ERROR] failed to compile vertex shader: ",
        Step::CompileFragment => "[ERROR] failed to compile fragment shader: ",
        Step::Link => "[ERROR] failed to link shaders: ",
    }
}

/// No byte before `end` is zero.
pub open spec fn no_zero_before(buffer: Seq<u8>, end: int) -> bool {
    forall|k: int| 0 <= k < end ==> #[trigger] buffer[k] != 0
}

/// Byte `at` is the first zero byte of the buffer.
pub open spec fn is_first_zero(buffer: Seq<u8>, at: int) -> bool {
    0 <= at < buffer.len() && buffer[at] == 0 && no_zero_before(buffer, at)
}

/// Where the text of a diagnostic log ends: at its first zero byte or, where
/// it has none, one byte before the end of the buffer, whose last byte is
/// kept for the terminator.
pub open spec fn info_log_end(buffer: Seq<u8>) -> int {
    if exists|at: int| is_first_zero(buffer, at) {
        choose|at: int| is_first_zero(buffer, at)
    } else if buffer.len() == 0 {
        0
    } else {
        buffer.len() - 1
    }
}

/// The text of a diagnostic log that the device wrote into `buffer`.
pub fn info_log_text(buffer: &[u8]) -> (text: &[u8])
    ensures
        text@ == buffer@.take(info_log_end(buffer@)),
        text.len() <= buffer.len(),
        buffer.len() > 0 ==> text.len() < buffer.len(),
        no_zero_before(text@, text.len() as int),
{
    let mut end: usize = 0;
    while end < buffer.len() && buffer[end] != 0
        invariant
            end <= buffer.len(),
            no_zero_before(buffer@, end as int),
        decreases buffer.len() - end,
    {
        end = end + 1;
    }
    if end == buffer.len() && end > 0 {
        end = end - 1;
    }
    proof {
        let b = buffer@;
        if exists|at: int| is_first_zero(b, at) {
            let at = choose|at: int| is_first_zero(b, at);
            if at < end {
                assert(b[at] != 0);
            }
            if end < at {
                assert(b[end as int] != 0);
            }
        } else if end < b.len() && b[end as int] == 0 {
            assert(is_first_zero(b, end as int));
        }
    }
    slice_subrange(buffer, 0, end)
}

/// The source of a shader stage as the device's compiler wants it: the text
/// with a zero byte at its end.
pub fn terminated_source(text: &str) -> (source: Vec<u8>)
    ensures
        source@ == text.spec_bytes().push(0),
{
    let bytes = text.as_bytes();
    let mut source: Vec<u8> = Vec::new();
    let mut i: usize = 0;
    while i < bytes.len()
        invariant
            i <= bytes.len(),
            source@ == bytes@.take(i as int),
        decreases bytes.len() - i,
    {
        source.push(bytes[i]);
        assert(source@ =~= bytes@.take(i + 1));
        i = i + 1;
    }
    assert(bytes@.take(bytes.len() as int) =~= bytes@);
    source.push(0);
    source
}

/// Do the two byte strings hold the same bytes?
pub fn same_bytes(a: &[u8], b: &[u8]) -> (r: bool)
    ensures
        r == (a@ == b@),
{
    if a.len() != b.len() {
        return false;
    }
    let mut i: usize = 0;
    while i < a.len()
        invariant
            i <= a.len(),
            a.len() == b.len(),
            forall|k: int| 0 <= k < i ==> a[k] == b[k],
        decreases a.len() - i,
    {
        if a[i] != b[i] {
            return false;
        }
        i = i + 1;
    }
    assert(a@ =~= b@);
    true
}

/// The location that was recorded for `name`: that of the entry for `name`
/// that was recorded last, if there is one.
pub open spec fn recorded(uniforms: Seq<(Seq<u8>, UniformLocation)>, name: Seq<u8>) -> Option<
    UniformLocation,
>
    decreases uniforms.len(),
{
    if uniforms.len() == 0 {
        None
    } else if uniforms.last().0 == name {
        Some(uniforms.last().1)
    } else {
        recorded(uniforms.drop_last(), name)
    }
}

/// The location that a list of recorded uniforms gives for `name`: the one
/// that was recorded for it, or `UNIFORM_NOT_FOUND`.
pub open spec fn resolved(uniforms: Seq<(Seq<u8>, UniformLocation)>, name: Seq<u8>) -> UniformLocation {
    match recorded(uniforms, name) {
        Some(location) => location,
        None => UNIFORM_NOT_FOUND,
    }
}

/// Some entry of the list is for `name`.
pub open spec fn has_uniform(uniforms: Seq<(Seq<u8>, UniformLocation)>, name: Seq<u8>) -> bool {
    exists|k: int| 0 <= k < uniforms.len() && (#[trigger] uniforms[k]).0 == name
}

/// A linked shader program with the locations of its uniforms, which are
/// resolved once and read at every frame.
pub struct ShaderProgram {
    program: Program,
    uniforms: Vec<(Vec<u8>, UniformLocation)>,
}

impl ShaderProgram {
    /// The identity of the program on the device.
    pub closed spec fn id(&self) -> Program {
        self.program
    }

    /// The names that were recorded, each with its location, in the order of
    /// their recording.
    pub closed spec fn uniforms(&self) -> Seq<(Seq<u8>, UniformLocation)> {
        self.uniforms@.map_values(|e: (Vec<u8>, UniformLocation)| (e.0@, e.1))
    }

    /// The location of `name`, or `UNIFORM_NOT_FOUND`.
    pub open spec fn location_of(&self, name: Seq<u8>) -> UniformLocation {
        resolved(self.uniforms(), name)
    }

    /// A program without recorded uniforms.
    pub fn new(program: Program) -> (r: ShaderProgram)
        ensures
            r.id() == program,
            r.uniforms() == Seq::<(Seq<u8>, UniformLocation)>::empty(),
    {
        let r = ShaderProgram { program, uniforms: Vec::new() };
        assert(r.uniforms() =~= Seq::<(Seq<u8>, UniformLocation)>::empty());
        r
    }

    /// The identity of the program on the device.
    pub fn program(&self) -> (r: Program)
        ensures
            r == self.id(),
    {
        self.program
    }

    /// Records the location that the device resolved for `name`.
    pub fn record(&mut self, name: &[u8], location: UniformLocation)
        ensures
            final(self).id() == old(self).id(),
            final(self).uniforms() == old(self).uniforms().push((name@, location)),
            final(self).location_of(name@) == location,
            forall|other: Seq<u8>|
                other != name@ ==> #[trigger] final(self).location_of(other) == old(
                    self,
                ).location_of(other),
    {
        let owned = vstd::slice::slice_to_vec(name);
        self.uniforms.push((owned, location));
        proof {
            assert(self.uniforms() =~= old(self).uniforms().push((name@, location)));
            assert(self.uniforms().drop_last() =~= old(self).uniforms());
        }
    }

    /// The location that was recorded for a name, if one was. For a name
    /// without one, the device has not been asked yet.
    pub fn recorded_location(&self, name: &[u8]) -> (location: Option<UniformLocation>)
        ensures
            location == recorded(self.uniforms(), name@),
            location is Some <==> has_uniform(self.uniforms(), name@),
    {
        proof {
            law_recorded_iff_present(self.uniforms(), name@);
            assert(self.uniforms().take(self.uniforms.len() as int) =~= self.uniforms());
        }
        let mut i: usize = self.uniforms.len();
        while i > 0
            invariant
                i <= self.uniforms.len(),
                recorded(self.uniforms(), name@) == recorded(
                    self.uniforms().take(i as int),
                    name@,
                ),
            decreases i,
        {
            i = i - 1;
            proof {
                assert(self.uniforms().take(i + 1).drop_last() =~= self.uniforms().take(
                    i as int,
                ));
                assert(self.uniforms().take(i + 1).last() == (
                    self.uniforms@[i as int].0@,
                    self.uniforms@[i as int].1,
                ));
            }
            if same_bytes(self.uniforms[i].0.as_slice(), name) {
                return Some(self.uniforms[i].1);
            }
        }
        None
    }

    /// The location of a uniform by its name. A name that was never recorded
    /// has the location `UNIFORM_NOT_FOUND`.
    pub fn uniform_location(&self, name: &[u8]) -> (location: UniformLocation)
        ensures
            location == self.location_of(name@),
            !has_uniform(self.uniforms(), name@) ==> location == UNIFORM_NOT_FOUND,
    {
        match self.recorded_location(name) {
            Some(location) => location,
            None => UNIFORM_NOT_FOUND,
        }
    }
}

/// A location is recorded for a name if and only if some entry is for it.
pub proof fn law_recorded_iff_present(uniforms: Seq<(Seq<u8>, UniformLocation)>, name: Seq<u8>)
    ensures
        recorded(uniforms, name) is Some <==> has_uniform(uniforms, name),
    decreases uniforms.len(),
{
    if uniforms.len() > 0 {
        if uniforms.last().0 == name {
            assert(uniforms[uniforms.len() - 1].0 == name);
        } else {
            law_recorded_iff_present(uniforms.drop_last(), name);
            if has_uniform(uniforms.drop_last(), name) {
                let k = choose|k: int|
                    0 <= k < uniforms.drop_last().len() && (#[trigger] uniforms.drop_last()[k]).0
                        == name;
                assert(uniforms[k].0 == name);
            }
            if has_uniform(uniforms, name) {
                let k = choose|k: int| 0 <= k < uniforms.len() && (#[trigger] uniforms[k]).0 == name;
                assert(uniforms.drop_last()[k].0 == name);
            }
        }
    }
}

/// A name that no recorded entry is for resolves to `UNIFORM_NOT_FOUND`.
pub proof fn law_absent_uniform_is_not_found(
    uniforms: Seq<(Seq<u8>, UniformLocation)>,
    name: Seq<u8>,
)
    ensures
        !has_uniform(uniforms, name) ==> resolved(uniforms, name) == UNIFORM_NOT_FOUND,
{
    law_recorded_iff_present(uniforms, name);
}

/// Does a write to this location reach a uniform? A write to
/// `UNIFORM_NOT_FOUND` is accepted by the device and changes nothing.
pub fn is_found(location: UniformLocation) -> (r: bool)
    ensures
        r == (location != UNIFORM_NOT_FOUND),
{
    location != UNIFORM_NOT_FOUND
}

} // verus!
