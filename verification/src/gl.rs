//! The graphics backend: clearing, error polling, and building a shader
//! program, on a WebGL context or on the device that lives in memory.

use vstd::prelude::*;
use vstd::string::StringExecFns;
use web_sys::WebGlProgram;
use web_sys::WebGlRenderingContext;
use web_sys::WebGlShader;
use crate::device::lemma_count_live_push;
use crate::device::Device;
use crate::device::DeviceModel;
use crate::device::Faults;
use crate::device::ProgramModel;
use crate::device::StageKind;
use crate::device::StageModel;
use crate::device::COLOR_BUFFER_BIT;
use crate::device::LINK_DIAGNOSTIC;
use crate::device::NO_ERROR;
use crate::device::REFUSAL_DIAGNOSTIC;
use crate::error::Error;
use crate::shaders::ATTRIB_TCOORD;
use crate::shaders::ATTRIB_VERTEX;
use crate::uniforms::Color;
use crate::uniforms::FLOAT_ONE;
use crate::webgl::webgl_attach_shader;
use crate::webgl::webgl_bind_attrib_location;
use crate::webgl::webgl_clear;
use crate::webgl::webgl_clear_color;
use crate::webgl::webgl_compile_shader;
use crate::webgl::webgl_console_log;
use crate::webgl::webgl_create_program;
use crate::webgl::webgl_create_shader;
use crate::webgl::webgl_delete_program;
use crate::webgl::webgl_delete_shader;
use crate::webgl::webgl_get_error;
use crate::webgl::webgl_get_program_info_log;
use crate::webgl::webgl_get_program_parameter;
use crate::webgl::webgl_get_shader_info_log;
use crate::webgl::webgl_get_shader_parameter;
use crate::webgl::webgl_link_program;
use crate::webgl::webgl_shader_source;

verus! {

/// The type of a vertex stage, as the drawing interface numbers it.
pub const VERTEX_SHADER: u32 = 0x8B31;

/// The type of a fragment stage, as the drawing interface numbers it.
pub const FRAGMENT_SHADER: u32 = 0x8B30;

/// The parameter of a stage that tells whether it compiled.
pub const COMPILE_STATUS: u32 = 0x8B81;

/// The parameter of a program that tells whether it linked.
pub const LINK_STATUS: u32 = 0x8B82;

/// The attribute location of the vertex position, in every program.
pub const LOCATION_VERTEX: u32 = 0;

/// The attribute location of the texture coordinate, in every program.
pub const LOCATION_TCOORD: u32 = 1;

/// The type of a stage of `kind`, as the drawing interface numbers it.
pub open spec fn spec_shader_type(kind: StageKind) -> u32 {
    match kind {
        StageKind::Vertex => VERTEX_SHADER,
        StageKind::Fragment => FRAGMENT_SHADER,
    }
}

#[verifier::when_used_as_spec(spec_shader_type)]
pub fn shader_type(kind: StageKind) -> (type_: u32)
    ensures
        type_ == spec_shader_type(kind),
{
    match kind {
        StageKind::Vertex => VERTEX_SHADER,
        StageKind::Fragment => FRAGMENT_SHADER,
    }
}

/// What the engine draws on.
pub enum Surface {
    /// The WebGL context of a canvas.
    WebGl(WebGlRenderingContext),
    /// A device in memory.
    Headless(Device),
}

impl Surface {
    /// The state of the device, where the surface is one in memory. Of a
    /// WebGL context nothing is known.
    pub open spec fn device(&self) -> Option<DeviceModel> {
        match self {
            Surface::WebGl(_) => None,
            Surface::Headless(device) => Some(device@),
        }
    }
}

/// A program object of a surface.
pub enum ProgramHandle {
    WebGl(WebGlProgram),
    Headless(usize),
}

impl ProgramHandle {
    /// The name of the object on a device in memory; -1, which names
    /// nothing, for an object of a WebGL context.
    pub open spec fn name(&self) -> int {
        match self {
            ProgramHandle::WebGl(_) => -1,
            ProgramHandle::Headless(id) => *id as int,
        }
    }
}

/// A stage object of a surface.
pub enum ShaderHandle {
    WebGl(WebGlShader),
    Headless(usize),
}

impl ShaderHandle {
    /// The name of the object on a device in memory; -1, which names
    /// nothing, for an object of a WebGL context.
    pub open spec fn name(&self) -> int {
        match self {
            ShaderHandle::WebGl(_) => -1,
            ShaderHandle::Headless(id) => *id as int,
        }
    }
}

/// A linked program with its two stages. The three are made together and
/// released together.
pub struct Shader {
    pub program: ProgramHandle,
    pub vertex: ShaderHandle,
    pub fragment: ShaderHandle,
}

impl Shader {
    /// Whether the three objects are of a device in memory (`true`) or all
    /// of a WebGL context (`false`).
    pub open spec fn on_device(&self, headless: bool) -> bool {
        &&& self.program is Headless <==> headless
        &&& self.vertex is Headless <==> headless
        &&& self.fragment is Headless <==> headless
    }
}

/// The steps of building a program that can fail, in the order in which
/// they are taken.
#[derive(Clone, Copy, PartialEq, Eq, Structural, Debug)]
pub enum BuildStep {
    AllocProgram,
    AllocVertex,
    AllocFragment,
    CompileVertex,
    CompileFragment,
    Link,
}

impl BuildStep {
    /// The label of the error that a failure of this step gives.
    pub open spec fn spec_label(self) -> Seq<char> {
        match self {
            BuildStep::AllocProgram => "failed to allocate shader program"@,
            BuildStep::AllocVertex => "failed to allocate vertex shader"@,
            BuildStep::AllocFragment => "failed to allocate fragment shader"@,
            BuildStep::CompileVertex => "failed to compile vertex shader"@,
            BuildStep::CompileFragment => "failed to compile fragment shader"@,
            BuildStep::Link => "failed to link shader program"@,
        }
    }

    pub fn label(self) -> (text: &'static str)
        ensures
            text@ == self.spec_label(),
    {
        match self {
            BuildStep::AllocProgram => "failed to allocate shader program",
            BuildStep::AllocVertex => "failed to allocate vertex shader",
            BuildStep::AllocFragment => "failed to allocate fragment shader",
            BuildStep::CompileVertex => "failed to compile vertex shader",
            BuildStep::CompileFragment => "failed to compile fragment shader",
            BuildStep::Link => "failed to link shader program",
        }
    }

    /// The program objects that exist when this step fails.
    pub open spec fn programs_made(self) -> nat {
        match self {
            BuildStep::AllocProgram => 0,
            _ => 1,
        }
    }

    /// The stage objects that exist when this step fails.
    pub open spec fn stages_made(self) -> nat {
        match self {
            BuildStep::AllocProgram => 0,
            BuildStep::AllocVertex => 0,
            BuildStep::AllocFragment => 1,
            _ => 2,
        }
    }

    /// The diagnostic that a device in memory gives when this step fails,
    /// if it gives one.
    pub open spec fn diagnostic(self) -> Option<Seq<char>> {
        match self {
            BuildStep::CompileVertex => Some(REFUSAL_DIAGNOSTIC@),
            BuildStep::CompileFragment => Some(REFUSAL_DIAGNOSTIC@),
            BuildStep::Link => Some(LINK_DIAGNOSTIC@),
            _ => None,
        }
    }
}

/// The first step of a build that the faults of a device make fail.
pub open spec fn first_fault(faults: Faults) -> Option<BuildStep> {
    if faults.program_alloc {
        Some(BuildStep::AllocProgram)
    } else if faults.vertex_alloc {
        Some(BuildStep::AllocVertex)
    } else if faults.fragment_alloc {
        Some(BuildStep::AllocFragment)
    } else if faults.vertex_compile {
        Some(BuildStep::CompileVertex)
    } else if faults.fragment_compile {
        Some(BuildStep::CompileFragment)
    } else if faults.link {
        Some(BuildStep::Link)
    } else {
        None
    }
}

/// The device after a build that succeeded: two new stages, each holding
/// the header followed by its source and compiled, and one new program
/// that has them attached, the vertex position at location 0 and the texture
/// coordinate at location 1, and is linked. Nothing else changes.
pub open spec fn built(
    d: DeviceModel,
    header: Seq<char>,
    vertex_src: Seq<char>,
    fragment_src: Seq<char>,
) -> DeviceModel {
    let vertex = d.stages.len() as int;
    let fragment = d.stages.len() + 1;
    DeviceModel {
        stages: d.stages.push(
            Some(
                StageModel {
                    kind: StageKind::Vertex,
                    source: header + vertex_src,
                    compiled: Some(true),
                },
            ),
        ).push(
            Some(
                StageModel {
                    kind: StageKind::Fragment,
                    source: header + fragment_src,
                    compiled: Some(true),
                },
            ),
        ),
        programs: d.programs.push(
            Some(
                ProgramModel {
                    vertex: Some(vertex),
                    fragment: Some(fragment as int),
                    bindings: seq![
                        (LOCATION_VERTEX, ATTRIB_VERTEX@),
                        (LOCATION_TCOORD, ATTRIB_TCOORD@),
                    ],
                    linked: Some(true),
                },
            ),
        ),
        ..d
    }
}

/// The device after a build that failed at `step`: the error flag was
/// polled, the diagnostic of the stage or program that was refused is on
/// the console, and every object that the build had made is deleted, so
/// that no new name is live.
pub open spec fn abandoned(d: DeviceModel, step: BuildStep) -> DeviceModel {
    DeviceModel {
        error: NO_ERROR,
        stages: d.stages + Seq::new(step.stages_made(), |i: int| None::<StageModel>),
        programs: d.programs + Seq::new(step.programs_made(), |i: int| None::<ProgramModel>),
        console: match step.diagnostic() {
            Some(text) => d.console.push(text),
            None => d.console,
        },
        ..d
    }
}

/// The device after a clear to `color`.
pub open spec fn cleared(d: DeviceModel, color: Color) -> DeviceModel {
    DeviceModel { clear_color: color, framebuffer: color, ..d }
}

/// What a polled error code means for the operation `context`: success
/// where the code is `NO_ERROR`, else the error that carries both.
pub open spec fn spec_error_from_code(code: u32, context: &'static str) -> Result<(), Error> {
    if code == NO_ERROR {
        Ok(())
    } else {
        Err(Error::Gl { code, context })
    }
}

/// What checking for an error of `context` does to a device and returns:
/// the flag is polled, and what it held decides.
pub open spec fn checked(d: DeviceModel, context: &'static str) -> (DeviceModel, Result<(), Error>) {
    (d.poll_error(), spec_error_from_code(d.error, context))
}

/// An error that is raised is reported by the next check, with its code and
/// the label of that check, and by no check after it.
pub proof fn law_error_round_trip(
    d: DeviceModel,
    code: u32,
    context: &'static str,
    next: &'static str,
)
    requires
        code != NO_ERROR,
    ensures
        checked(d.raise(code), context).1 == Err::<(), Error>(Error::Gl { code, context }),
        checked(checked(d.raise(code), context).0, next).1 == Ok::<(), Error>(()),
{
}

/// Of two errors raised without a check between them, the check reports
/// the later one, and the earlier one is lost.
pub proof fn law_last_error_wins(d: DeviceModel, first: u32, last: u32, context: &'static str)
    requires
        last != NO_ERROR,
    ensures
        checked(d.raise(first).raise(last), context).1 == Err::<(), Error>(
            Error::Gl { code: last, context },
        ),
        checked(d.raise(first).raise(last), context).0.error == NO_ERROR,
{
}

/// A build that fails leaves no object behind: every name that it gave out
/// is dead, the objects that were live are as they were, and as many are
/// live as before.
pub proof fn law_failed_build_leaves_nothing(d: DeviceModel, step: BuildStep)
    ensures
        abandoned(d, step).live_stages() == d.live_stages(),
        abandoned(d, step).live_programs() == d.live_programs(),
        forall|id: int| 0 <= id < d.stages.len() ==> abandoned(d, step).stage(id) == d.stage(id),
        forall|id: int| 0 <= id < d.programs.len() ==> abandoned(d, step).program(id) == d.program(id),
        forall|id: int| id >= d.stages.len() ==> abandoned(d, step).stage(id) is None,
        forall|id: int| id >= d.programs.len() ==> abandoned(d, step).program(id) is None,
{
    let none_stage = None::<StageModel>;
    let none_program = None::<ProgramModel>;
    lemma_count_live_push(d.stages, none_stage);
    lemma_count_live_push(d.stages.push(none_stage), none_stage);
    lemma_count_live_push(d.programs, none_program);
    assert(d.stages + Seq::new(1, |i: int| None::<StageModel>) =~= d.stages.push(none_stage));
    assert(d.stages + Seq::new(2, |i: int| None::<StageModel>) =~= d.stages.push(none_stage).push(
        none_stage,
    ));
    assert(d.programs + Seq::new(1, |i: int| None::<ProgramModel>) =~= d.programs.push(
        none_program,
    ));
}

/// A build that succeeds adds exactly three objects, and the program that
/// it adds has the vertex position at location 0 and the texture coordinate
/// at location 1, whatever the sources are.
pub proof fn law_built_program(
    d: DeviceModel,
    header: Seq<char>,
    vertex_src: Seq<char>,
    fragment_src: Seq<char>,
)
    ensures
        ({
            let after = built(d, header, vertex_src, fragment_src);
            let program = after.program(d.programs.len() as int);
            &&& after.live_stages() == d.live_stages() + 2
            &&& after.live_programs() == d.live_programs() + 1
            &&& program matches Some(p) && p.linked == Some(true) && p.bindings[0] == (0u32, "vertex"@)
                && p.bindings[1] == (1u32, "tcoord"@) && p.bindings.len() == 2
            &&& after.stage_ready(program->0.vertex)
            &&& after.stage_ready(program->0.fragment)
            &&& after.error == d.error
        }),
{
    let after = built(d, header, vertex_src, fragment_src);
    let vertex = after.stages[d.stages.len() as int];
    let fragment = after.stages[d.stages.len() as int + 1];
    lemma_count_live_push(d.stages, vertex);
    lemma_count_live_push(d.stages.push(vertex), fragment);
    lemma_count_live_push(d.programs, after.programs[d.programs.len() as int]);
}

#[verifier::when_used_as_spec(spec_error_from_code)]
pub fn error_from_code(code: u32, context: &'static str) -> (r: Result<(), Error>)
    ensures
        r == spec_error_from_code(code, context),
        r is Ok <==> code == NO_ERROR,
        r matches Err(e) ==> e.spec_code() == code && e.spec_context() == context@,
{
    if code == NO_ERROR {
        Ok(())
    } else {
        Err(Error::Gl { code, context })
    }
}

/// Whether a queried status says that the step succeeded: only `true`
/// does, neither `false` nor an answer that is no boolean.
pub open spec fn spec_status_ok(status: Option<bool>) -> bool {
    status == Some(true)
}

#[verifier::when_used_as_spec(spec_status_ok)]
pub fn status_ok(status: Option<bool>) -> (ok: bool)
    ensures
        ok == spec_status_ok(status),
{
    match status {
        Some(value) => value,
        None => false,
    }
}

/// `header` followed by `source`: the text that a stage is given.
pub fn stage_source(header: &str, source: &str) -> (text: String)
    ensures
        text@ == header@ + source@,
{
    let mut text = String::from_str(header);
    text.append(source);
    text
}

/// The graphics backend of one surface.
pub struct Gl {
    surface: Surface,
}

impl Gl {
    /// The state of the device behind this backend, where it is one in
    /// memory; `None` for a WebGL context.
    pub closed spec fn device(&self) -> Option<DeviceModel> {
        self.surface.device()
    }

    /// Whether `shader` was made by a backend of this sort.
    pub open spec fn fits(&self, shader: &Shader) -> bool {
        shader.on_device(self.device() is Some)
    }

    /// Wraps a surface.
    pub fn new(surface: Surface) -> (gl: Gl)
        ensures
            gl.device() == surface.device(),
    {
        Gl { surface }
    }

    /// Gives the surface back.
    pub fn into_surface(self) -> (surface: Surface)
        ensures
            surface.device() == self.device(),
    {
        self.surface
    }

    /// The device in memory, where this backend has one.
    pub fn headless(&self) -> (device: Option<&Device>)
        ensures
            device is Some <==> self.device() is Some,
            device matches Some(d) ==> Some(d@) == self.device(),
    {
        match &self.surface {
            Surface::WebGl(_) => None,
            Surface::Headless(device) => Some(device),
        }
    }

    /// Sets the clear color to the opaque color of the given red, green and
    /// blue, each the bit pattern of a float, and clears the color buffer.
    pub fn clear(&mut self, r: u32, g: u32, b: u32)
        ensures
            final(self).device() == match old(self).device() {
                Some(d) => Some(cleared(d, Color::spec_opaque(r, g, b))),
                None => None,
            },
    {
        match &mut self.surface {
            Surface::WebGl(ctx) => {
                webgl_clear_color(ctx, r, g, b, FLOAT_ONE);
                webgl_clear(ctx, COLOR_BUFFER_BIT);
            },
            Surface::Headless(device) => {
                device.set_clear_color(Color::opaque(r, g, b));
                device.clear(COLOR_BUFFER_BIT);
                assert(COLOR_BUFFER_BIT & COLOR_BUFFER_BIT != 0) by (bit_vector);
            },
        }
    }

    fn poll(&mut self) -> (code: u32)
        ensures
            final(self).device() == match old(self).device() {
                Some(d) => Some(d.poll_error()),
                None => None,
            },
            old(self).device() matches Some(d) ==> code == d.error,
    {
        match &mut self.surface {
            Surface::WebGl(ctx) => webgl_get_error(ctx),
            Surface::Headless(device) => device.get_error(),
        }
    }

    /// Polls the error flag once. An error that is pending is returned with
    /// `context` as its label, and is no longer pending afterwards.
    pub fn check_error(&mut self, context: &'static str) -> (r: Result<(), Error>)
        ensures
            final(self).device() == match old(self).device() {
                Some(d) => Some(checked(d, context).0),
                None => None,
            },
            old(self).device() matches Some(d) ==> r == checked(d, context).1,
            r matches Err(e) ==> e.spec_code() != NO_ERROR && e.spec_context() == context@,
    {
        let code = self.poll();
        error_from_code(code, context)
    }

    /// Polls the error flag and makes the error of the operation `context`
    /// from it, whatever the flag holds.
    pub fn make_error(&mut self, context: &'static str) -> (e: Error)
        ensures
            final(self).device() == match old(self).device() {
                Some(d) => Some(d.poll_error()),
                None => None,
            },
            old(self).device() matches Some(d) ==> e == (Error::Gl { code: d.error, context }),
            e.spec_context() == context@,
    {
        let code = self.poll();
        Error::Gl { code, context }
    }

    fn create_program(&mut self) -> (handle: Option<ProgramHandle>)
        ensures
            match old(self).device() {
                Some(d) => final(self).device() == Some(d.create_program()) && if d.faults.program_alloc {
                    handle is None
                } else {
                    handle matches Some(h) && h is Headless && h.name() == d.programs.len()
                },
                None => final(self).device() is None && (handle matches Some(h) ==> h is WebGl),
            },
    {
        match &mut self.surface {
            Surface::WebGl(ctx) => match webgl_create_program(ctx) {
                Some(program) => Some(ProgramHandle::WebGl(program)),
                None => None,
            },
            Surface::Headless(device) => match device.create_program() {
                Some(id) => Some(ProgramHandle::Headless(id)),
                None => None,
            },
        }
    }

    fn create_stage(&mut self, kind: StageKind) -> (handle: Option<ShaderHandle>)
        ensures
            match old(self).device() {
                Some(d) => final(self).device() == Some(d.create_shader(kind)) && if d.faults.spec_fails_alloc(
                    kind,
                ) {
                    handle is None
                } else {
                    handle matches Some(h) && h is Headless && h.name() == d.stages.len()
                },
                None => final(self).device() is None && (handle matches Some(h) ==> h is WebGl),
            },
    {
        match &mut self.surface {
            Surface::WebGl(ctx) => {
                match webgl_create_shader(ctx, shader_type(kind)) {
                    Some(shader) => Some(ShaderHandle::WebGl(shader)),
                    None => None,
                }
            },
            Surface::Headless(device) => match device.create_shader(kind) {
                Some(id) => Some(ShaderHandle::Headless(id)),
                None => None,
            },
        }
    }

    fn shader_source(&mut self, shader: &ShaderHandle, source: &str)
        requires
            shader is Headless <==> old(self).device() is Some,
        ensures
            final(self).device() == match old(self).device() {
                Some(d) => Some(d.shader_source(shader.name(), source@)),
                None => None,
            },
    {
        match &mut self.surface {
            Surface::WebGl(ctx) => match shader {
                ShaderHandle::WebGl(s) => webgl_shader_source(ctx, s, source),
                ShaderHandle::Headless(_) => {},
            },
            Surface::Headless(device) => match shader {
                ShaderHandle::WebGl(_) => {},
                ShaderHandle::Headless(id) => device.shader_source(*id, source),
            },
        }
    }

    fn compile_shader(&mut self, shader: &ShaderHandle)
        requires
            shader is Headless <==> old(self).device() is Some,
        ensures
            final(self).device() == match old(self).device() {
                Some(d) => Some(d.compile_shader(shader.name())),
                None => None,
            },
    {
        match &mut self.surface {
            Surface::WebGl(ctx) => match shader {
                ShaderHandle::WebGl(s) => webgl_compile_shader(ctx, s),
                ShaderHandle::Headless(_) => {},
            },
            Surface::Headless(device) => match shader {
                ShaderHandle::WebGl(_) => {},
                ShaderHandle::Headless(id) => device.compile_shader(*id),
            },
        }
    }

    fn shader_compiled(&mut self, shader: &ShaderHandle) -> (status: Option<bool>)
        requires
            shader is Headless <==> old(self).device() is Some,
        ensures
            final(self).device() == match old(self).device() {
                Some(d) => Some(d.query_shader(shader.name())),
                None => None,
            },
            old(self).device() matches Some(d) ==> status == match d.stage(shader.name()) {
                Some(stage) => Some(stage.compiled == Some(true)),
                None => None,
            },
    {
        match &mut self.surface {
            Surface::WebGl(ctx) => match shader {
                ShaderHandle::WebGl(s) => webgl_get_shader_parameter(ctx, s, COMPILE_STATUS),
                ShaderHandle::Headless(_) => None,
            },
            Surface::Headless(device) => match shader {
                ShaderHandle::WebGl(_) => None,
                ShaderHandle::Headless(id) => device.shader_compiled(*id),
            },
        }
    }

    /// Writes the diagnostic of `shader`, where it has one, to the console.
    fn log_diagnostic(&mut self, shader: &ShaderHandle)
        requires
            shader is Headless <==> old(self).device() is Some,
        ensures
            final(self).device() == match old(self).device() {
                Some(d) => Some(
                    match d.shader_info_log(shader.name()) {
                        Some(text) => d.console_log(text),
                        None => d.query_shader(shader.name()),
                    },
                ),
                None => None,
            },
    {
        match &mut self.surface {
            Surface::WebGl(ctx) => match shader {
                ShaderHandle::WebGl(s) => match webgl_get_shader_info_log(ctx, s) {
                    Some(text) => webgl_console_log(text.as_str()),
                    None => {},
                },
                ShaderHandle::Headless(_) => {},
            },
            Surface::Headless(device) => match shader {
                ShaderHandle::WebGl(_) => {},
                ShaderHandle::Headless(id) => match device.shader_info_log(*id) {
                    Some(text) => device.console_log(text.as_str()),
                    None => {},
                },
            },
        }
    }

    /// Writes the diagnostic of `program`, where it has one, to the console.
    fn log_program_diagnostic(&mut self, program: &ProgramHandle)
        requires
            program is Headless <==> old(self).device() is Some,
        ensures
            final(self).device() == match old(self).device() {
                Some(d) => Some(
                    match d.program_info_log(program.name()) {
                        Some(text) => d.console_log(text),
                        None => d.query_program(program.name()),
                    },
                ),
                None => None,
            },
    {
        match &mut self.surface {
            Surface::WebGl(ctx) => match program {
                ProgramHandle::WebGl(p) => match webgl_get_program_info_log(ctx, p) {
                    Some(text) => webgl_console_log(text.as_str()),
                    None => {},
                },
                ProgramHandle::Headless(_) => {},
            },
            Surface::Headless(device) => match program {
                ProgramHandle::WebGl(_) => {},
                ProgramHandle::Headless(id) => match device.program_info_log(*id) {
                    Some(text) => device.console_log(text.as_str()),
                    None => {},
                },
            },
        }
    }

    fn attach_shader(&mut self, program: &ProgramHandle, shader: &ShaderHandle)
        requires
            program is Headless <==> old(self).device() is Some,
            shader is Headless <==> old(self).device() is Some,
        ensures
            final(self).device() == match old(self).device() {
                Some(d) => Some(d.attach_shader(program.name(), shader.name())),
                None => None,
            },
    {
        match &mut self.surface {
            Surface::WebGl(ctx) => match (program, shader) {
                (ProgramHandle::WebGl(p), ShaderHandle::WebGl(s)) => webgl_attach_shader(ctx, p, s),
                _ => {},
            },
            Surface::Headless(device) => match (program, shader) {
                (ProgramHandle::Headless(p), ShaderHandle::Headless(s)) => device.attach_shader(
                    *p,
                    *s,
                ),
                _ => {},
            },
        }
    }

    fn bind_attrib_location(&mut self, program: &ProgramHandle, location: u32, name: &str)
        requires
            program is Headless <==> old(self).device() is Some,
        ensures
            final(self).device() == match old(self).device() {
                Some(d) => Some(d.bind_attrib_location(program.name(), location, name@)),
                None => None,
            },
    {
        match &mut self.surface {
            Surface::WebGl(ctx) => match program {
                ProgramHandle::WebGl(p) => webgl_bind_attrib_location(ctx, p, location, name),
                ProgramHandle::Headless(_) => {},
            },
            Surface::Headless(device) => match program {
                ProgramHandle::WebGl(_) => {},
                ProgramHandle::Headless(id) => device.bind_attrib_location(*id, location, name),
            },
        }
    }

    fn link_program(&mut self, program: &ProgramHandle)
        requires
            program is Headless <==> old(self).device() is Some,
        ensures
            final(self).device() == match old(self).device() {
                Some(d) => Some(d.link_program(program.name())),
                None => None,
            },
    {
        match &mut self.surface {
            Surface::WebGl(ctx) => match program {
                ProgramHandle::WebGl(p) => webgl_link_program(ctx, p),
                ProgramHandle::Headless(_) => {},
            },
            Surface::Headless(device) => match program {
                ProgramHandle::WebGl(_) => {},
                ProgramHandle::Headless(id) => device.link_program(*id),
            },
        }
    }

    fn program_linked(&mut self, program: &ProgramHandle) -> (status: Option<bool>)
        requires
            program is Headless <==> old(self).device() is Some,
        ensures
            final(self).device() == match old(self).device() {
                Some(d) => Some(d.query_program(program.name())),
                None => None,
            },
            old(self).device() matches Some(d) ==> status == match d.program(program.name()) {
                Some(p) => Some(p.linked == Some(true)),
                None => None,
            },
    {
        match &mut self.surface {
            Surface::WebGl(ctx) => match program {
                ProgramHandle::WebGl(p) => webgl_get_program_parameter(ctx, p, LINK_STATUS),
                ProgramHandle::Headless(_) => None,
            },
            Surface::Headless(device) => match program {
                ProgramHandle::WebGl(_) => None,
                ProgramHandle::Headless(id) => device.program_linked(*id),
            },
        }
    }

    fn delete_stage(&mut self, shader: ShaderHandle)
        requires
            shader is Headless <==> old(self).device() is Some,
        ensures
            final(self).device() == match old(self).device() {
                Some(d) => Some(d.delete_shader(shader.name())),
                None => None,
            },
    {
        match &mut self.surface {
            Surface::WebGl(ctx) => match &shader {
                ShaderHandle::WebGl(s) => webgl_delete_shader(ctx, s),
                ShaderHandle::Headless(_) => {},
            },
            Surface::Headless(device) => match &shader {
                ShaderHandle::WebGl(_) => {},
                ShaderHandle::Headless(id) => device.delete_shader(*id),
            },
        }
    }

    fn delete_program(&mut self, program: ProgramHandle)
        requires
            program is Headless <==> old(self).device() is Some,
        ensures
            final(self).device() == match old(self).device() {
                Some(d) => Some(d.delete_program(program.name())),
                None => None,
            },
    {
        match &mut self.surface {
            Surface::WebGl(ctx) => match &program {
                ProgramHandle::WebGl(p) => webgl_delete_program(ctx, p),
                ProgramHandle::Headless(_) => {},
            },
            Surface::Headless(device) => match &program {
                ProgramHandle::WebGl(_) => {},
                ProgramHandle::Headless(id) => device.delete_program(*id),
            },
        }
    }

    /// Builds a shader program: makes a program and two stages, gives each
    /// stage `header` followed by its source, compiles both, attaches them,
    /// binds the vertex position to location 0 and the texture coordinate
    /// to location 1, and links. The first step that fails ends the build
    /// with its error; the objects made so far are deleted, and the
    /// diagnostic of a stage that did not compile, or of the program that
    /// did not link, goes to the console.
    pub fn create_shader(&mut self, header: &str, vertex_src: &str, fragment_src: &str) -> (r:
        Result<Shader, Error>)
        ensures
            match old(self).device() {
                Some(d) => match first_fault(d.faults) {
                    None => r matches Ok(shader) && shader.program.name() == d.programs.len()
                        && shader.vertex.name() == d.stages.len() && shader.fragment.name()
                        == d.stages.len() + 1 && final(self).device() == Some(
                        built(d, header@, vertex_src@, fragment_src@),
                    ),
                    Some(step) => r matches Err(e) && e.spec_code() == d.error
                        && e.spec_context() == step.spec_label() && final(self).device() == Some(
                        abandoned(d, step),
                    ),
                },
                None => final(self).device() is None,
            },
            r matches Ok(shader) ==> final(self).fits(&shader),
            r matches Err(e) ==> exists|step: BuildStep| e.spec_context() == step.spec_label(),
    {
        let program = match self.create_program() {
            Some(handle) => handle,
            None => {
                return Err(self.make_error(BuildStep::AllocProgram.label()));
            },
        };
        let vertex = match self.create_stage(StageKind::Vertex) {
            Some(handle) => handle,
            None => {
                let e = self.make_error(BuildStep::AllocVertex.label());
                self.delete_program(program);
                return Err(e);
            },
        };
        let vertex_text = stage_source(header, vertex_src);
        self.shader_source(&vertex, vertex_text.as_str());

        let fragment = match self.create_stage(StageKind::Fragment) {
            Some(handle) => handle,
            None => {
                let e = self.make_error(BuildStep::AllocFragment.label());
                self.delete_stage(vertex);
                self.delete_program(program);
                return Err(e);
            },
        };
        let fragment_text = stage_source(header, fragment_src);
        self.shader_source(&fragment, fragment_text.as_str());

        self.compile_shader(&vertex);
        let vertex_status = self.shader_compiled(&vertex);
        if !status_ok(vertex_status) {
            self.log_diagnostic(&vertex);
            let e = self.make_error(BuildStep::CompileVertex.label());
            self.delete_stage(fragment);
            self.delete_stage(vertex);
            self.delete_program(program);
            return Err(e);
        }
        self.compile_shader(&fragment);
        let fragment_status = self.shader_compiled(&fragment);
        if !status_ok(fragment_status) {
            self.log_diagnostic(&fragment);
            let e = self.make_error(BuildStep::CompileFragment.label());
            self.delete_stage(fragment);
            self.delete_stage(vertex);
            self.delete_program(program);
            return Err(e);
        }
        self.attach_shader(&program, &vertex);
        self.attach_shader(&program, &fragment);
        self.bind_attrib_location(&program, LOCATION_VERTEX, ATTRIB_VERTEX);
        self.bind_attrib_location(&program, LOCATION_TCOORD, ATTRIB_TCOORD);
        assert(Seq::<(u32, Seq<char>)>::empty().push((LOCATION_VERTEX, ATTRIB_VERTEX@)).push(
            (LOCATION_TCOORD, ATTRIB_TCOORD@),
        ) =~= seq![(LOCATION_VERTEX, ATTRIB_VERTEX@), (LOCATION_TCOORD, ATTRIB_TCOORD@)]);

        self.link_program(&program);
        let link_status = self.program_linked(&program);
        if !status_ok(link_status) {
            self.log_program_diagnostic(&program);
            let e = self.make_error(BuildStep::Link.label());
            self.delete_stage(fragment);
            self.delete_stage(vertex);
            self.delete_program(program);
            return Err(e);
        }
        Ok(Shader { program, vertex, fragment })
    }

    /// Deletes the two stages and the program of `shader`. A shader of
    /// another sort of backend is dropped and nothing else happens.
    pub fn delete_shader(&mut self, shader: Shader)
        ensures
            final(self).device() == match old(self).device() {
                Some(d) => Some(
                    if shader.on_device(true) {
                        d.delete_shader(shader.fragment.name()).delete_shader(
                            shader.vertex.name(),
                        ).delete_program(shader.program.name())
                    } else {
                        d
                    },
                ),
                None => None,
            },
    {
        let headless = self.headless().is_some();
        let fits = match (&shader.program, &shader.vertex, &shader.fragment) {
            (ProgramHandle::Headless(_), ShaderHandle::Headless(_), ShaderHandle::Headless(_)) => headless,
            (ProgramHandle::WebGl(_), ShaderHandle::WebGl(_), ShaderHandle::WebGl(_)) => !headless,
            _ => false,
        };
        if fits {
            let Shader { program, vertex, fragment } = shader;
            self.delete_stage(fragment);
            self.delete_stage(vertex);
            self.delete_program(program);
        }
    }
}

} // verus!
