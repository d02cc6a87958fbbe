//! A graphics device that lives in memory: it keeps the state that the
//! drawing interface would keep on a GPU (clear color, frame buffer, error
//! flag, shader and program objects), so that the engine can run and be
//! observed without a canvas. Named operations can be made to fail.

use vstd::prelude::*;
use vstd::string::StringExecFns;
use crate::uniforms::Color;
use crate::uniforms::FLOAT_ZERO;

verus! {

/// The value of the error flag when no error is pending.
pub const NO_ERROR: u32 = 0;

/// The error raised when an argument names no object of the device.
pub const INVALID_VALUE: u32 = 0x0501;

/// The error raised when an operation is not allowed in the current state.
pub const INVALID_OPERATION: u32 = 0x0502;

/// The bit of a clear mask that selects the color buffer.
pub const COLOR_BUFFER_BIT: u32 = 0x4000;

/// The diagnostic that the device gives for a stage it refused to compile.
pub const REFUSAL_DIAGNOSTIC: &'static str = "ERROR: the device refused to compile this stage";

/// The diagnostic that the device gives for a program it refused to link.
pub const LINK_DIAGNOSTIC: &'static str = "ERROR: the device refused to link this program";

/// The two stages of a shader program.
#[derive(Clone, Copy, PartialEq, Eq, Structural, Debug)]
pub enum StageKind {
    Vertex,
    Fragment,
}

/// The operations of the device that are made to fail while their switch
/// is on.
#[derive(Clone, Copy, PartialEq, Eq, Structural, Debug)]
pub struct Faults {
    /// Creating a program object yields nothing.
    pub program_alloc: bool,
    /// Creating a vertex stage yields nothing.
    pub vertex_alloc: bool,
    /// Creating a fragment stage yields nothing.
    pub fragment_alloc: bool,
    /// Compiling a vertex stage is refused.
    pub vertex_compile: bool,
    /// Compiling a fragment stage is refused.
    pub fragment_compile: bool,
    /// Linking a program is refused.
    pub link: bool,
}

impl Faults {
    /// No operation is made to fail.
    pub open spec fn spec_none() -> Faults {
        Faults {
            program_alloc: false,
            vertex_alloc: false,
            fragment_alloc: false,
            vertex_compile: false,
            fragment_compile: false,
            link: false,
        }
    }

    #[verifier::when_used_as_spec(spec_none)]
    pub fn none() -> (f: Faults)
        ensures
            f == Faults::spec_none(),
    {
        Faults {
            program_alloc: false,
            vertex_alloc: false,
            fragment_alloc: false,
            vertex_compile: false,
            fragment_compile: false,
            link: false,
        }
    }

    /// Whether creating a stage of `kind` is made to fail.
    pub open spec fn spec_fails_alloc(self, kind: StageKind) -> bool {
        match kind {
            StageKind::Vertex => self.vertex_alloc,
            StageKind::Fragment => self.fragment_alloc,
        }
    }

    #[verifier::when_used_as_spec(spec_fails_alloc)]
    pub fn fails_alloc(self, kind: StageKind) -> (b: bool)
        ensures
            b == self.spec_fails_alloc(kind),
    {
        match kind {
            StageKind::Vertex => self.vertex_alloc,
            StageKind::Fragment => self.fragment_alloc,
        }
    }

    /// Whether compiling a stage of `kind` is made to fail.
    pub open spec fn spec_fails_compile(self, kind: StageKind) -> bool {
        match kind {
            StageKind::Vertex => self.vertex_compile,
            StageKind::Fragment => self.fragment_compile,
        }
    }

    #[verifier::when_used_as_spec(spec_fails_compile)]
    pub fn fails_compile(self, kind: StageKind) -> (b: bool)
        ensures
            b == self.spec_fails_compile(kind),
    {
        match kind {
            StageKind::Vertex => self.vertex_compile,
            StageKind::Fragment => self.fragment_compile,
        }
    }
}

/// The number of entries of `slots` that hold an object.
pub open spec fn count_live<T>(slots: Seq<Option<T>>) -> nat
    decreases slots.len(),
{
    if slots.len() == 0 {
        0
    } else {
        count_live(slots.drop_last()) + if slots.last() is Some {
            1nat
        } else {
            0nat
        }
    }
}

/// A new entry at the end counts if it holds an object.
pub proof fn lemma_count_live_push<T>(slots: Seq<Option<T>>, slot: Option<T>)
    ensures
        count_live(slots.push(slot)) == count_live(slots) + if slot is Some {
            1nat
        } else {
            0nat
        },
{
    assert(slots.push(slot).drop_last() =~= slots);
}

/// What the device holds of one stage object.
#[verifier::ext_equal]
pub struct StageModel {
    pub kind: StageKind,
    /// The source last handed to the stage.
    pub source: Seq<char>,
    /// How the last compilation ended, if there was one.
    pub compiled: Option<bool>,
}

/// What the device holds of one program object.
#[verifier::ext_equal]
pub struct ProgramModel {
    /// The vertex stage attached to the program.
    pub vertex: Option<int>,
    /// The fragment stage attached to the program.
    pub fragment: Option<int>,
    /// The attribute locations bound by name, in the order of binding.
    pub bindings: Seq<(u32, Seq<char>)>,
    /// How the last linking ended, if there was one.
    pub linked: Option<bool>,
}

/// The state of the device. An object's name is its index in `stages` or
/// `programs`; the entry of a deleted object is `None`, and no name is
/// given out twice.
#[verifier::ext_equal]
pub struct DeviceModel {
    pub clear_color: Color,
    /// The color that every pixel of the frame buffer holds.
    pub framebuffer: Color,
    /// The pending error, or `NO_ERROR`.
    pub error: u32,
    pub stages: Seq<Option<StageModel>>,
    pub programs: Seq<Option<ProgramModel>>,
    /// The lines written to the console.
    pub console: Seq<Seq<char>>,
    pub faults: Faults,
}

impl DeviceModel {
    /// A device as it is made: black and transparent, no objects, no error,
    /// no faults.
    pub open spec fn initial() -> DeviceModel {
        DeviceModel {
            clear_color: Color { r: FLOAT_ZERO, g: FLOAT_ZERO, b: FLOAT_ZERO, a: FLOAT_ZERO },
            framebuffer: Color { r: FLOAT_ZERO, g: FLOAT_ZERO, b: FLOAT_ZERO, a: FLOAT_ZERO },
            error: NO_ERROR,
            stages: Seq::empty(),
            programs: Seq::empty(),
            console: Seq::empty(),
            faults: Faults::spec_none(),
        }
    }

    /// The live stage named `id`, if there is one.
    pub open spec fn stage(self, id: int) -> Option<StageModel> {
        if 0 <= id < self.stages.len() {
            self.stages[id]
        } else {
            None
        }
    }

    /// The live program named `id`, if there is one.
    pub open spec fn program(self, id: int) -> Option<ProgramModel> {
        if 0 <= id < self.programs.len() {
            self.programs[id]
        } else {
            None
        }
    }

    /// The number of live stages.
    pub open spec fn live_stages(self) -> nat {
        count_live(self.stages)
    }

    /// The number of live programs.
    pub open spec fn live_programs(self) -> nat {
        count_live(self.programs)
    }

    /// The device with `code` as its pending error: a later error replaces
    /// an earlier one that was not yet polled.
    pub open spec fn raise(self, code: u32) -> DeviceModel {
        DeviceModel { error: code, ..self }
    }

    pub open spec fn with_faults(self, faults: Faults) -> DeviceModel {
        DeviceModel { faults, ..self }
    }

    pub open spec fn with_stage(self, id: int, stage: Option<StageModel>) -> DeviceModel {
        DeviceModel { stages: self.stages.update(id, stage), ..self }
    }

    pub open spec fn with_program(self, id: int, program: Option<ProgramModel>) -> DeviceModel {
        DeviceModel { programs: self.programs.update(id, program), ..self }
    }

    pub open spec fn set_clear_color(self, color: Color) -> DeviceModel {
        DeviceModel { clear_color: color, ..self }
    }

    /// Clearing the buffers that `mask` selects: the color buffer takes the
    /// clear color.
    pub open spec fn clear(self, mask: u32) -> DeviceModel {
        if mask & COLOR_BUFFER_BIT != 0 {
            DeviceModel { framebuffer: self.clear_color, ..self }
        } else {
            self
        }
    }

    /// Polling the error flag resets it.
    pub open spec fn poll_error(self) -> DeviceModel {
        DeviceModel { error: NO_ERROR, ..self }
    }

    pub open spec fn create_program(self) -> DeviceModel {
        if self.faults.program_alloc {
            self
        } else {
            DeviceModel {
                programs: self.programs.push(
                    Some(
                        ProgramModel {
                            vertex: None,
                            fragment: None,
                            bindings: Seq::empty(),
                            linked: None,
                        },
                    ),
                ),
                ..self
            }
        }
    }

    pub open spec fn create_shader(self, kind: StageKind) -> DeviceModel {
        if self.faults.spec_fails_alloc(kind) {
            self
        } else {
            DeviceModel {
                stages: self.stages.push(
                    Some(StageModel { kind, source: Seq::empty(), compiled: None }),
                ),
                ..self
            }
        }
    }

    pub open spec fn shader_source(self, id: int, source: Seq<char>) -> DeviceModel {
        match self.stage(id) {
            Some(stage) => self.with_stage(id, Some(StageModel { source, ..stage })),
            None => self.raise(INVALID_VALUE),
        }
    }

    pub open spec fn compile_shader(self, id: int) -> DeviceModel {
        match self.stage(id) {
            Some(stage) => self.with_stage(
                id,
                Some(
                    StageModel { compiled: Some(!self.faults.spec_fails_compile(stage.kind)), ..stage },
                ),
            ),
            None => self.raise(INVALID_VALUE),
        }
    }

    /// The state after a query that names the stage `id`.
    pub open spec fn query_shader(self, id: int) -> DeviceModel {
        match self.stage(id) {
            Some(_) => self,
            None => self.raise(INVALID_VALUE),
        }
    }

    /// The state after a query that names the program `id`.
    pub open spec fn query_program(self, id: int) -> DeviceModel {
        match self.program(id) {
            Some(_) => self,
            None => self.raise(INVALID_VALUE),
        }
    }

    /// The diagnostic of the stage `id`: empty unless its last compilation
    /// was refused.
    pub open spec fn shader_info_log(self, id: int) -> Option<Seq<char>> {
        match self.stage(id) {
            Some(stage) => Some(
                if stage.compiled == Some(false) {
                    REFUSAL_DIAGNOSTIC@
                } else {
                    Seq::<char>::empty()
                },
            ),
            None => None,
        }
    }

    /// The diagnostic of the program `id`: empty unless its last linking
    /// was refused.
    pub open spec fn program_info_log(self, id: int) -> Option<Seq<char>> {
        match self.program(id) {
            Some(p) => Some(
                if p.linked == Some(false) {
                    LINK_DIAGNOSTIC@
                } else {
                    Seq::<char>::empty()
                },
            ),
            None => None,
        }
    }

    pub open spec fn console_log(self, line: Seq<char>) -> DeviceModel {
        DeviceModel { console: self.console.push(line), ..self }
    }

    pub open spec fn attach_shader(self, program: int, shader: int) -> DeviceModel {
        match (self.program(program), self.stage(shader)) {
            (Some(p), Some(s)) => match s.kind {
                StageKind::Vertex => if p.vertex is None {
                    self.with_program(program, Some(ProgramModel { vertex: Some(shader), ..p }))
                } else {
                    self.raise(INVALID_OPERATION)
                },
                StageKind::Fragment => if p.fragment is None {
                    self.with_program(program, Some(ProgramModel { fragment: Some(shader), ..p }))
                } else {
                    self.raise(INVALID_OPERATION)
                },
            },
            _ => self.raise(INVALID_VALUE),
        }
    }

    pub open spec fn bind_attrib_location(
        self,
        program: int,
        location: u32,
        name: Seq<char>,
    ) -> DeviceModel {
        match self.program(program) {
            Some(p) => self.with_program(
                program,
                Some(ProgramModel { bindings: p.bindings.push((location, name)), ..p }),
            ),
            None => self.raise(INVALID_VALUE),
        }
    }

    /// Whether the stage `id` is live and its last compilation succeeded.
    pub open spec fn stage_ready(self, id: Option<int>) -> bool {
        id matches Some(i) && self.stage(i) matches Some(s) && s.compiled == Some(true)
    }

    /// Whether linking `p` succeeds: both stages are attached and compiled,
    /// and linking is not made to fail.
    pub open spec fn links(self, p: ProgramModel) -> bool {
        self.stage_ready(p.vertex) && self.stage_ready(p.fragment) && !self.faults.link
    }

    pub open spec fn link_program(self, id: int) -> DeviceModel {
        match self.program(id) {
            Some(p) => self.with_program(
                id,
                Some(ProgramModel { linked: Some(self.links(p)), ..p }),
            ),
            None => self.raise(INVALID_VALUE),
        }
    }

    pub open spec fn delete_shader(self, id: int) -> DeviceModel {
        match self.stage(id) {
            Some(_) => self.with_stage(id, None),
            None => self.raise(INVALID_VALUE),
        }
    }

    pub open spec fn delete_program(self, id: int) -> DeviceModel {
        match self.program(id) {
            Some(_) => self.with_program(id, None),
            None => self.raise(INVALID_VALUE),
        }
    }
}

/// A stage object of the device.
pub struct Stage {
    kind: StageKind,
    source: String,
    compiled: Option<bool>,
}

impl View for Stage {
    type V = StageModel;

    closed spec fn view(&self) -> StageModel {
        StageModel { kind: self.kind, source: self.source@, compiled: self.compiled }
    }
}

/// An attribute location bound to a name.
pub struct Binding {
    location: u32,
    name: String,
}

/// A program object of the device.
pub struct Program {
    vertex: Option<usize>,
    fragment: Option<usize>,
    bindings: Vec<Binding>,
    linked: Option<bool>,
}

impl View for Program {
    type V = ProgramModel;

    closed spec fn view(&self) -> ProgramModel {
        ProgramModel {
            vertex: name_view(self.vertex),
            fragment: name_view(self.fragment),
            bindings: self.bindings@.map_values(|b: Binding| (b.location, b.name@)),
            linked: self.linked,
        }
    }
}

/// An object's name as the integer that the state speaks of.
pub open spec fn name_view(name: Option<usize>) -> Option<int> {
    match name {
        Some(id) => Some(id as int),
        None => None,
    }
}

spec fn stage_slot(slot: Option<Stage>) -> Option<StageModel> {
    match slot {
        Some(stage) => Some(stage@),
        None => None,
    }
}

spec fn program_slot(slot: Option<Program>) -> Option<ProgramModel> {
    match slot {
        Some(program) => Some(program@),
        None => None,
    }
}

/// The device itself. Its view is the state that the contracts speak of.
pub struct Device {
    clear_color: Color,
    framebuffer: Color,
    error: u32,
    stages: Vec<Option<Stage>>,
    programs: Vec<Option<Program>>,
    console: Vec<String>,
    faults: Faults,
}

impl View for Device {
    type V = DeviceModel;

    closed spec fn view(&self) -> DeviceModel {
        DeviceModel {
            clear_color: self.clear_color,
            framebuffer: self.framebuffer,
            error: self.error,
            stages: self.stages@.map_values(|s: Option<Stage>| stage_slot(s)),
            programs: self.programs@.map_values(|p: Option<Program>| program_slot(p)),
            console: self.console@.map_values(|line: String| line@),
            faults: self.faults,
        }
    }
}

impl Device {
    /// A device with no objects, no pending error and no faults.
    pub fn new() -> (device: Device)
        ensures
            device@ == DeviceModel::initial(),
    {
        let black = Color { r: FLOAT_ZERO, g: FLOAT_ZERO, b: FLOAT_ZERO, a: FLOAT_ZERO };
        let device = Device {
            clear_color: black,
            framebuffer: black,
            error: NO_ERROR,
            stages: Vec::new(),
            programs: Vec::new(),
            console: Vec::new(),
            faults: Faults::none(),
        };
        device
    }

    /// Sets which operations fail from now on.
    pub fn set_faults(&mut self, faults: Faults)
        ensures
            final(self)@ == old(self)@.with_faults(faults),
    {
        self.faults = faults;
    }

    /// Makes `code` the pending error, as a failing operation would.
    pub fn inject_error(&mut self, code: u32)
        ensures
            final(self)@ == old(self)@.raise(code),
    {
        self.error = code;
    }

    pub fn set_clear_color(&mut self, color: Color)
        ensures
            final(self)@ == old(self)@.set_clear_color(color),
    {
        self.clear_color = color;
    }

    pub fn clear(&mut self, mask: u32)
        ensures
            final(self)@ == old(self)@.clear(mask),
    {
        if mask & COLOR_BUFFER_BIT != 0 {
            self.framebuffer = self.clear_color;
        }
    }

    /// Returns the pending error and resets the flag.
    pub fn get_error(&mut self) -> (code: u32)
        ensures
            code == old(self)@.error,
            final(self)@ == old(self)@.poll_error(),
    {
        let code = self.error;
        self.error = NO_ERROR;
        code
    }

    /// Creates a program object and returns its name, or nothing where
    /// that is made to fail.
    pub fn create_program(&mut self) -> (id: Option<usize>)
        ensures
            final(self)@ == old(self)@.create_program(),
            match id {
                Some(name) => !old(self)@.faults.program_alloc && name == old(self)@.programs.len(),
                None => old(self)@.faults.program_alloc,
            },
    {
        if self.faults.program_alloc {
            None
        } else {
            let id = self.programs.len();
            self.programs.push(
                Some(Program { vertex: None, fragment: None, bindings: Vec::new(), linked: None }),
            );
            assert(self.programs@.last()->0@.bindings =~= Seq::empty());
            Some(id)
        }
    }

    /// Creates a stage object of `kind` and returns its name, or nothing
    /// where that is made to fail.
    pub fn create_shader(&mut self, kind: StageKind) -> (id: Option<usize>)
        ensures
            final(self)@ == old(self)@.create_shader(kind),
            match id {
                Some(name) => !old(self)@.faults.spec_fails_alloc(kind) && name == old(
                    self,
                )@.stages.len(),
                None => old(self)@.faults.spec_fails_alloc(kind),
            },
    {
        if self.faults.fails_alloc(kind) {
            None
        } else {
            let id = self.stages.len();
            self.stages.push(Some(Stage { kind, source: String::new(), compiled: None }));
            Some(id)
        }
    }

    /// Whether `id` names a live stage.
    pub fn is_shader(&self, id: usize) -> (live: bool)
        ensures
            live == self@.stage(id as int) is Some,
    {
        id < self.stages.len() && self.stages[id].is_some()
    }

    /// Whether `id` names a live program.
    pub fn is_program(&self, id: usize) -> (live: bool)
        ensures
            live == self@.program(id as int) is Some,
    {
        id < self.programs.len() && self.programs[id].is_some()
    }

    /// Compiles the stage `id`: it succeeds unless compiling a stage of its
    /// kind is made to fail.
    pub fn compile_shader(&mut self, id: usize)
        ensures
            final(self)@ == old(self)@.compile_shader(id as int),
    {
        if self.is_shader(id) {
            let faults = self.faults;
            match &mut self.stages[id] {
                Some(stage) => {
                    stage.compiled = Some(!faults.fails_compile(stage.kind));
                },
                None => {},
            }
        } else {
            self.error = INVALID_VALUE;
        }
    }

    /// Replaces the source of the stage `id`.
    pub fn shader_source(&mut self, id: usize, source: &str)
        ensures
            final(self)@ == old(self)@.shader_source(id as int, source@),
    {
        if self.is_shader(id) {
            match &mut self.stages[id] {
                Some(stage) => {
                    stage.source = String::from_str(source);
                },
                None => {},
            }
        } else {
            self.error = INVALID_VALUE;
        }
    }

    /// Whether the last compilation of the stage `id` succeeded; nothing,
    /// and an error, where `id` names no stage.
    pub fn shader_compiled(&mut self, id: usize) -> (status: Option<bool>)
        ensures
            final(self)@ == old(self)@.query_shader(id as int),
            status == match old(self)@.stage(id as int) {
                Some(stage) => Some(stage.compiled == Some(true)),
                None => None,
            },
    {
        if self.is_shader(id) {
            match &self.stages[id] {
                Some(stage) => Some(stage.compiled == Some(true)),
                None => None,
            }
        } else {
            self.error = INVALID_VALUE;
            None
        }
    }

    /// The diagnostic of the stage `id`; nothing, and an error, where `id`
    /// names no stage.
    pub fn shader_info_log(&mut self, id: usize) -> (text: Option<String>)
        ensures
            final(self)@ == old(self)@.query_shader(id as int),
            text is Some <==> old(self)@.stage(id as int) is Some,
            text matches Some(t) ==> Some(t@) == old(self)@.shader_info_log(id as int),
    {
        if self.is_shader(id) {
            match &self.stages[id] {
                Some(stage) => {
                    if stage.compiled == Some(false) {
                        Some(String::from_str(REFUSAL_DIAGNOSTIC))
                    } else {
                        Some(String::new())
                    }
                },
                None => None,
            }
        } else {
            self.error = INVALID_VALUE;
            None
        }
    }

    /// Writes a line to the console.
    pub fn console_log(&mut self, line: &str)
        ensures
            final(self)@ == old(self)@.console_log(line@),
    {
        self.console.push(String::from_str(line));
    }

    /// Attaches the stage `shader` to the program `program`, in the place
    /// of its kind. A place that is taken is an error.
    pub fn attach_shader(&mut self, program: usize, shader: usize)
        ensures
            final(self)@ == old(self)@.attach_shader(program as int, shader as int),
    {
        if self.is_program(program) && self.is_shader(shader) {
            let kind = match &self.stages[shader] {
                Some(stage) => stage.kind,
                None => StageKind::Vertex,
            };
            let mut taken = false;
            match &mut self.programs[program] {
                Some(p) => {
                    match kind {
                        StageKind::Vertex => {
                            if p.vertex.is_none() {
                                p.vertex = Some(shader);
                            } else {
                                taken = true;
                            }
                        },
                        StageKind::Fragment => {
                            if p.fragment.is_none() {
                                p.fragment = Some(shader);
                            } else {
                                taken = true;
                            }
                        },
                    }
                },
                None => {},
            }
            if taken {
                self.error = INVALID_OPERATION;
            } else {
            }
        } else {
            self.error = INVALID_VALUE;
        }
    }

    /// Binds the attribute `name` of the program `program` to `location`.
    pub fn bind_attrib_location(&mut self, program: usize, location: u32, name: &str)
        ensures
            final(self)@ == old(self)@.bind_attrib_location(program as int, location, name@),
    {
        if self.is_program(program) {
            match &mut self.programs[program] {
                Some(p) => {
                    p.bindings.push(Binding { location, name: String::from_str(name) });
                },
                None => {},
            }
            assert(self@.programs[program as int]->0.bindings =~= old(
                self,
            )@.programs[program as int]->0.bindings.push((location, name@)));
        } else {
            self.error = INVALID_VALUE;
        }
    }

    fn stage_ready(&self, id: Option<usize>) -> (ready: bool)
        ensures
            ready == self@.stage_ready(name_view(id)),
    {
        match id {
            Some(i) => {
                if self.is_shader(i) {
                    match &self.stages[i] {
                        Some(stage) => stage.compiled == Some(true),
                        None => false,
                    }
                } else {
                    false
                }
            },
            None => false,
        }
    }

    /// Links the program `id`: it succeeds where both stages are attached
    /// and compiled, unless linking is made to fail.
    pub fn link_program(&mut self, id: usize)
        ensures
            final(self)@ == old(self)@.link_program(id as int),
    {
        if self.is_program(id) {
            let (vertex, fragment) = match &self.programs[id] {
                Some(p) => (p.vertex, p.fragment),
                None => (None, None),
            };
            let linked = self.stage_ready(vertex) && self.stage_ready(fragment)
                && !self.faults.link;
            match &mut self.programs[id] {
                Some(p) => {
                    p.linked = Some(linked);
                },
                None => {},
            }
        } else {
            self.error = INVALID_VALUE;
        }
    }

    /// Whether the last linking of the program `id` succeeded; nothing, and
    /// an error, where `id` names no program.
    pub fn program_linked(&mut self, id: usize) -> (status: Option<bool>)
        ensures
            final(self)@ == old(self)@.query_program(id as int),
            status == match old(self)@.program(id as int) {
                Some(p) => Some(p.linked == Some(true)),
                None => None,
            },
    {
        if self.is_program(id) {
            match &self.programs[id] {
                Some(p) => Some(p.linked == Some(true)),
                None => None,
            }
        } else {
            self.error = INVALID_VALUE;
            None
        }
    }

    /// The diagnostic of the program `id`; nothing, and an error, where
    /// `id` names no program.
    pub fn program_info_log(&mut self, id: usize) -> (text: Option<String>)
        ensures
            final(self)@ == old(self)@.query_program(id as int),
            text is Some <==> old(self)@.program(id as int) is Some,
            text matches Some(t) ==> Some(t@) == old(self)@.program_info_log(id as int),
    {
        if self.is_program(id) {
            match &self.programs[id] {
                Some(p) => {
                    if p.linked == Some(false) {
                        Some(String::from_str(LINK_DIAGNOSTIC))
                    } else {
                        Some(String::new())
                    }
                },
                None => None,
            }
        } else {
            self.error = INVALID_VALUE;
            None
        }
    }

    /// Deletes the stage `id`; its name stays out of use.
    pub fn delete_shader(&mut self, id: usize)
        ensures
            final(self)@ == old(self)@.delete_shader(id as int),
    {
        if self.is_shader(id) {
            self.stages.set(id, None);
        } else {
            self.error = INVALID_VALUE;
        }
    }

    /// Deletes the program `id`; its name stays out of use.
    pub fn delete_program(&mut self, id: usize)
        ensures
            final(self)@ == old(self)@.delete_program(id as int),
    {
        if self.is_program(id) {
            self.programs.set(id, None);
        } else {
            self.error = INVALID_VALUE;
        }
    }

    /// The color that the frame buffer holds.
    pub fn framebuffer(&self) -> (color: Color)
        ensures
            color == self@.framebuffer,
    {
        self.framebuffer
    }

    /// The color that the next clear writes.
    pub fn clear_color(&self) -> (color: Color)
        ensures
            color == self@.clear_color,
    {
        self.clear_color
    }

    /// The pending error, which stays pending.
    pub fn pending_error(&self) -> (code: u32)
        ensures
            code == self@.error,
    {
        self.error
    }

    /// The operations that are made to fail.
    pub fn faults(&self) -> (faults: Faults)
        ensures
            faults == self@.faults,
    {
        self.faults
    }

    /// The number of live stages.
    pub fn live_shaders(&self) -> (n: usize)
        ensures
            n == self@.live_stages(),
    {
        let mut n: usize = 0;
        let mut i: usize = 0;
        while i < self.stages.len()
            invariant
                i <= self.stages@.len(),
                n <= i,
                n == count_live(self@.stages.subrange(0, i as int)),
            decreases self.stages@.len() - i,
        {
            proof {
                let next = self@.stages.subrange(0, i + 1);
                assert(next.drop_last() =~= self@.stages.subrange(0, i as int));
            }
            if self.stages[i].is_some() {
                n = n + 1;
            }
            i = i + 1;
        }
        assert(self@.stages.subrange(0, i as int) =~= self@.stages);
        n
    }

    /// The number of live programs.
    pub fn live_programs(&self) -> (n: usize)
        ensures
            n == self@.live_programs(),
    {
        let mut n: usize = 0;
        let mut i: usize = 0;
        while i < self.programs.len()
            invariant
                i <= self.programs@.len(),
                n <= i,
                n == count_live(self@.programs.subrange(0, i as int)),
            decreases self.programs@.len() - i,
        {
            proof {
                let next = self@.programs.subrange(0, i + 1);
                assert(next.drop_last() =~= self@.programs.subrange(0, i as int));
            }
            if self.programs[i].is_some() {
                n = n + 1;
            }
            i = i + 1;
        }
        assert(self@.programs.subrange(0, i as int) =~= self@.programs);
        n
    }

    /// The kind of the stage `id`.
    pub fn shader_kind(&self, id: usize) -> (kind: Option<StageKind>)
        ensures
            kind == match self@.stage(id as int) {
                Some(stage) => Some(stage.kind),
                None => None,
            },
    {
        if self.is_shader(id) {
            match &self.stages[id] {
                Some(stage) => Some(stage.kind),
                None => None,
            }
        } else {
            None
        }
    }

    /// A copy of the source of the stage `id`.
    pub fn shader_text(&self, id: usize) -> (text: Option<String>)
        ensures
            text is Some <==> self@.stage(id as int) is Some,
            text matches Some(t) ==> t@ == self@.stage(id as int)->0.source,
    {
        if self.is_shader(id) {
            match &self.stages[id] {
                Some(stage) => Some(stage.source.clone()),
                None => None,
            }
        } else {
            None
        }
    }

    /// The vertex and the fragment stage attached to the program `id`.
    pub fn attached_shaders(&self, id: usize) -> (pair: Option<(Option<usize>, Option<usize>)>)
        ensures
            pair is Some <==> self@.program(id as int) is Some,
            pair matches Some(names) ==> {
                &&& name_view(names.0) == self@.program(id as int)->0.vertex
                &&& name_view(names.1) == self@.program(id as int)->0.fragment
            },
    {
        if self.is_program(id) {
            match &self.programs[id] {
                Some(p) => Some((p.vertex, p.fragment)),
                None => None,
            }
        } else {
            None
        }
    }

    /// The number of bindings made on the program `id`; 0 where there is
    /// no such program.
    pub fn binding_count(&self, id: usize) -> (n: usize)
        ensures
            n == match self@.program(id as int) {
                Some(p) => p.bindings.len(),
                None => 0,
            },
    {
        if self.is_program(id) {
            match &self.programs[id] {
                Some(p) => p.bindings.len(),
                None => 0,
            }
        } else {
            0
        }
    }

    /// The location and the name of the binding `index` of the program `id`.
    pub fn binding(&self, id: usize, index: usize) -> (pair: Option<(u32, String)>)
        ensures
            pair is Some <==> (self@.program(id as int) matches Some(p) && index < p.bindings.len()),
            pair matches Some(b) ==> (b.0, b.1@) == self@.program(id as int)->0.bindings[index as int],
    {
        if self.is_program(id) {
            match &self.programs[id] {
                Some(p) => {
                    if index < p.bindings.len() {
                        let b = &p.bindings[index];
                        Some((b.location, b.name.clone()))
                    } else {
                        None
                    }
                },
                None => None,
            }
        } else {
            None
        }
    }

    /// Whether the program `id` is live and linked.
    pub fn is_linked(&self, id: usize) -> (linked: bool)
        ensures
            linked == (self@.program(id as int) matches Some(p) && p.linked == Some(true)),
    {
        if self.is_program(id) {
            match &self.programs[id] {
                Some(p) => p.linked == Some(true),
                None => false,
            }
        } else {
            false
        }
    }

    /// The number of lines written to the console.
    pub fn console_len(&self) -> (n: usize)
        ensures
            n == self@.console.len(),
    {
        self.console.len()
    }

    /// A copy of the line `index` of the console.
    pub fn console_line(&self, index: usize) -> (line: Option<String>)
        ensures
            line is Some <==> index < self@.console.len(),
            line matches Some(t) ==> t@ == self@.console[index as int],
    {
        if index < self.console.len() {
            Some(self.console[index].clone())
        } else {
            None
        }
    }
}

} // verus!
