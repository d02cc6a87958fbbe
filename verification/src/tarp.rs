//! The render engine: owns the graphics backend and the shader program, and
//! takes the canvas through one frame at a time.

use vstd::prelude::*;
use crate::device::lemma_count_live_push;
use crate::device::DeviceModel;
use crate::device::ProgramModel;
use crate::device::StageModel;
use crate::error::Error;
use crate::gl::built;
use crate::gl::cleared;
use crate::gl::first_fault;
use crate::gl::BuildStep;
use crate::gl::spec_error_from_code;
use crate::gl::Gl;
use crate::gl::Shader;
use crate::gl::Surface;
use crate::shaders::header_text;
use crate::shaders::shader_header;
use crate::shaders::SHADER_FILL_FRAG;
use crate::shaders::SHADER_FILL_VERT;
use crate::uniforms::Color;
use crate::uniforms::FLOAT_ONE;
use crate::uniforms::FLOAT_ZERO;

verus! {

/// The red, green and blue of the color that a frame starts with unless
/// another is set: cyan.
pub const CYAN: (u32, u32, u32) = (FLOAT_ZERO, FLOAT_ONE, FLOAT_ONE);

/// The label of an error that is found pending when a frame ends.
pub const FRAME_CONTEXT: &'static str = "failed to render frame";

/// What the contracts say of an engine.
#[verifier::ext_equal]
pub struct TarpModel {
    /// The state of the device, where the engine draws on one in memory.
    pub device: Option<DeviceModel>,
    /// Whether a frame was started and not yet ended.
    pub in_frame: bool,
    /// Whether the program was built with edge antialiasing.
    pub antialias: bool,
    /// The red, green and blue of the color that a frame starts with, each
    /// the bit pattern of a float.
    pub clear: (u32, u32, u32),
    /// The names of the program and of its vertex and fragment stage on the
    /// device; -1 each where the program is none of a device in memory.
    pub program: int,
    pub vertex: int,
    pub fragment: int,
}

impl TarpModel {
    /// The color that a frame starts with.
    pub open spec fn clear_color(self) -> Color {
        Color::spec_opaque(self.clear.0, self.clear.1, self.clear.2)
    }

    pub open spec fn set_clear_color(self, r: u32, g: u32, b: u32) -> TarpModel {
        TarpModel { clear: (r, g, b), ..self }
    }

    /// Starting a frame clears the canvas to the clear color.
    pub open spec fn start_frame(self) -> TarpModel {
        TarpModel {
            in_frame: true,
            device: match self.device {
                Some(d) => Some(cleared(d, self.clear_color())),
                None => None,
            },
            ..self
        }
    }

    /// Ending a frame polls the error flag.
    pub open spec fn end_frame(self) -> TarpModel {
        TarpModel {
            in_frame: false,
            device: match self.device {
                Some(d) => Some(d.poll_error()),
                None => None,
            },
            ..self
        }
    }

    /// Whether `r` is what making an engine gives on a backend whose device
    /// state is `device`. On a device in memory the program is built unless
    /// a fault stops it: the engine is idle, clears to cyan, and the device
    /// holds the built program; a fault gives the error of the step that it
    /// stops. On a WebGL context the build may end either way; an engine
    /// that is made is idle and clears to cyan.
    pub open spec fn made(
        device: Option<DeviceModel>,
        antialias: bool,
        r: Result<TarpModel, Error>,
    ) -> bool {
        match device {
            Some(d) => match first_fault(d.faults) {
                None => r == Ok::<TarpModel, Error>(
                    TarpModel {
                        device: Some(
                            built(d, header_text(antialias), SHADER_FILL_VERT@, SHADER_FILL_FRAG@),
                        ),
                        in_frame: false,
                        antialias,
                        clear: CYAN,
                        program: d.programs.len() as int,
                        vertex: d.stages.len() as int,
                        fragment: (d.stages.len() + 1) as int,
                    },
                ),
                Some(step) => r matches Err(e) && e.spec_code() == d.error && e.spec_context()
                    == step.spec_label(),
            },
            None => match r {
                Ok(tarp) => tarp == (TarpModel {
                    device: None,
                    in_frame: false,
                    antialias,
                    clear: CYAN,
                    program: -1,
                    vertex: -1,
                    fragment: -1,
                }),
                Err(e) => exists|step: BuildStep| e.spec_context() == step.spec_label(),
            },
        }
    }

    /// The device after the engine was taken apart: the two stages and the
    /// program are deleted.
    pub open spec fn destroy(self) -> Option<DeviceModel> {
        match self.device {
            Some(d) => Some(
                if self.program >= 0 {
                    d.delete_shader(self.fragment).delete_shader(self.vertex).delete_program(
                        self.program,
                    )
                } else {
                    d
                },
            ),
            None => None,
        }
    }
}

/// A frame is open from its start to its end, and only then: starting a
/// frame opens it, ending it closes it, and setting the clear color does
/// neither.
pub proof fn law_frame_states(t: TarpModel, r: u32, g: u32, b: u32)
    ensures
        t.start_frame().in_frame,
        !t.end_frame().in_frame,
        !t.start_frame().end_frame().in_frame,
        t.set_clear_color(r, g, b).in_frame == t.in_frame,
{
}

/// A frame with nothing drawn in it leaves the frame buffer in the clear
/// color, whatever the color and whatever happened in the frames before;
/// it leaves the engine idle, the objects, the console and the faults of
/// the device as they were, and a second such frame changes nothing more.
pub proof fn law_empty_frame_clears(t: TarpModel, r: u32, g: u32, b: u32)
    requires
        t.device is Some,
    ensures
        ({
            let after = t.set_clear_color(r, g, b).start_frame().end_frame();
            &&& after.device is Some
            &&& after.device->0.framebuffer == Color::spec_opaque(r, g, b)
            &&& !after.in_frame
            &&& after.device->0.stages == t.device->0.stages
            &&& after.device->0.programs == t.device->0.programs
            &&& after.device->0.console == t.device->0.console
            &&& after.device->0.faults == t.device->0.faults
            &&& after.start_frame().end_frame() == after
        }),
{
}

/// Taking apart an engine that was made on a device deletes the program
/// and both stages that making it had added: their names are dead, as many
/// objects are live as before the engine was made, and no error is raised.
pub proof fn law_destroy_releases_program(d: DeviceModel, antialias: bool, t: TarpModel)
    requires
        TarpModel::made(Some(d), antialias, Ok(t)),
    ensures
        t.destroy() matches Some(after) && {
            &&& after.program(t.program) is None
            &&& after.stage(t.vertex) is None
            &&& after.stage(t.fragment) is None
            &&& after.live_stages() == d.live_stages()
            &&& after.live_programs() == d.live_programs()
            &&& after.error == d.error
            &&& after.stages == d.stages.push(None).push(None)
            &&& after.programs == d.programs.push(None)
        },
{
    let made = t.device->0;
    let after = t.destroy()->0;
    let none_stage = None::<StageModel>;
    let none_program = None::<ProgramModel>;
    assert(after.stages =~= d.stages.push(none_stage).push(none_stage));
    assert(after.programs =~= d.programs.push(none_program));
    lemma_count_live_push(d.stages, none_stage);
    lemma_count_live_push(d.stages.push(none_stage), none_stage);
    lemma_count_live_push(d.programs, none_program);
}

/// An interface for drawing vector graphics on a surface, frame by frame.
pub struct Tarp {
    gl: Gl,
    shader: Shader,
    in_frame: bool,
    antialias: bool,
    clear: (u32, u32, u32),
}

impl View for Tarp {
    type V = TarpModel;

    closed spec fn view(&self) -> TarpModel {
        TarpModel {
            device: self.gl.device(),
            in_frame: self.in_frame,
            antialias: self.antialias,
            clear: self.clear,
            program: if self.shader.on_device(true) {
                self.shader.program.name()
            } else {
                -1
            },
            vertex: if self.shader.on_device(true) {
                self.shader.vertex.name()
            } else {
                -1
            },
            fragment: if self.shader.on_device(true) {
                self.shader.fragment.name()
            } else {
                -1
            },
        }
    }
}

impl Tarp {
    /// Makes an engine with edge antialiasing on `gl`.
    pub fn new(gl: Gl) -> (r: Result<Tarp, Error>)
        ensures
            match r {
                Ok(tarp) => TarpModel::made(gl.device(), true, Ok(tarp@)),
                Err(e) => TarpModel::made(gl.device(), true, Err(e)),
            },
    {
        Tarp::with_antialias(gl, true)
    }

    /// Makes an engine on `gl`: builds the shader program from the header,
    /// with the antialiasing block if `antialias`, and the two fixed
    /// sources. A failure of the build is the failure of the engine.
    pub fn with_antialias(gl: Gl, antialias: bool) -> (r: Result<Tarp, Error>)
        ensures
            match r {
                Ok(tarp) => TarpModel::made(gl.device(), antialias, Ok(tarp@)),
                Err(e) => TarpModel::made(gl.device(), antialias, Err(e)),
            },
    {
        let mut gl = gl;
        match Tarp::initialize(&mut gl, antialias) {
            Ok(shader) => Ok(Tarp { gl, shader, in_frame: false, antialias, clear: CYAN }),
            Err(e) => Err(e),
        }
    }

    /// Builds the program that every draw uses: the two fixed sources
    /// behind the generated header.
    fn initialize(gl: &mut Gl, antialias: bool) -> (r: Result<Shader, Error>)
        ensures
            match old(gl).device() {
                Some(d) => match first_fault(d.faults) {
                    None => r matches Ok(shader) && shader.on_device(true)
                        && shader.program.name() == d.programs.len() && shader.vertex.name()
                        == d.stages.len() && shader.fragment.name() == d.stages.len() + 1
                        && final(gl).device() == Some(
                        built(d, header_text(antialias), SHADER_FILL_VERT@, SHADER_FILL_FRAG@),
                    ),
                    Some(step) => r matches Err(e) && e.spec_code() == d.error
                        && e.spec_context() == step.spec_label(),
                },
                None => final(gl).device() is None && (r matches Ok(shader) ==> !shader.on_device(
                    true,
                )),
            },
            r matches Err(e) ==> exists|step: BuildStep| e.spec_context() == step.spec_label(),
    {
        let header = shader_header(antialias);
        gl.create_shader(header.as_str(), SHADER_FILL_VERT, SHADER_FILL_FRAG)
    }

    /// Whether a frame was started and not yet ended.
    pub fn is_in_frame(&self) -> (b: bool)
        ensures
            b == self@.in_frame,
    {
        self.in_frame
    }

    /// Whether the program was built with edge antialiasing.
    pub fn is_antialiased(&self) -> (b: bool)
        ensures
            b == self@.antialias,
    {
        self.antialias
    }

    /// The graphics backend.
    pub fn gl(&self) -> (gl: &Gl)
        ensures
            gl.device() == self@.device,
    {
        &self.gl
    }

    /// The shader program.
    pub fn shader(&self) -> (shader: &Shader)
        ensures
            shader.on_device(true) <==> self@.program >= 0,
            shader.on_device(true) ==> {
                &&& shader.program.name() == self@.program
                &&& shader.vertex.name() == self@.vertex
                &&& shader.fragment.name() == self@.fragment
            },
    {
        &self.shader
    }

    /// Sets the color that a frame starts with: its red, green and blue,
    /// each the bit pattern of a float.
    pub fn set_clear_color(&mut self, r: u32, g: u32, b: u32)
        ensures
            final(self)@ == old(self)@.set_clear_color(r, g, b),
    {
        self.clear = (r, g, b);
    }

    /// Starts a frame: clears the canvas. A frame that is started has to be
    /// ended before the next one starts.
    pub fn start_frame(&mut self)
        requires
            !old(self)@.in_frame,
        ensures
            final(self)@ == old(self)@.start_frame(),
    {
        self.gl.clear(self.clear.0, self.clear.1, self.clear.2);
        self.in_frame = true;
    }

    /// Ends the frame, and reports an error that the backend holds pending.
    pub fn end_frame(&mut self) -> (r: Result<(), Error>)
        ensures
            final(self)@ == old(self)@.end_frame(),
            old(self)@.device matches Some(d) ==> r == spec_error_from_code(d.error, FRAME_CONTEXT),
            r matches Err(e) ==> e.spec_code() != crate::device::NO_ERROR && e.spec_context()
                == FRAME_CONTEXT@,
    {
        self.in_frame = false;
        self.gl.check_error(FRAME_CONTEXT)
    }

    /// Takes the engine apart: deletes the two stages and the program, and
    /// gives the surface back.
    pub fn destroy(self) -> (surface: Surface)
        ensures
            surface.device() == self@.destroy(),
    {
        let Tarp { gl, shader, in_frame: _, antialias: _, clear: _ } = self;
        let mut gl = gl;
        gl.delete_shader(shader);
        gl.into_surface()
    }
}

} // verus!
