//! The state of the application: the render engine and what the host tells
//! it each frame.

use vstd::prelude::*;
use crate::device::DeviceModel;
use crate::device::INVALID_OPERATION;
use crate::error::Error;
use crate::gl::spec_error_from_code;
use crate::gl::Gl;
use crate::gl::Surface;
use crate::tarp::Tarp;
use crate::tarp::TarpModel;
use crate::tarp::FRAME_CONTEXT;

verus! {

/// The label of the error for a frame asked for while one is open.
pub const OPEN_FRAME_CONTEXT: &'static str = "frame already started";

/// What the contracts say of the application state.
#[verifier::ext_equal]
pub struct StateModel {
    pub delta: u64,
    pub tarp: TarpModel,
    pub width: u32,
    pub height: u32,
}

impl StateModel {
    /// Whether `r` is what making the state for a canvas of `width` by
    /// `height` gives on a surface whose device state is `device`: the
    /// engine as it is made, no time passed yet, and the size as given.
    pub open spec fn made(
        device: Option<DeviceModel>,
        width: u32,
        height: u32,
        r: Result<StateModel, Error>,
    ) -> bool {
        match r {
            Ok(state) => state.delta == 0 && state.width == width && state.height == height
                && TarpModel::made(device, true, Ok(state.tarp)),
            Err(e) => TarpModel::made(device, true, Err(e)),
        }
    }

    /// The state after drawing: one frame was started and ended, unless a
    /// frame was open, in which case nothing changes.
    pub open spec fn draw(self) -> StateModel {
        if self.tarp.in_frame {
            self
        } else {
            StateModel { tarp: self.tarp.start_frame().end_frame(), ..self }
        }
    }

    /// Whether `r` is what drawing returns in this state: the error of an
    /// open frame; else, on a device in memory, the error that was pending,
    /// if any; on a WebGL context either success or an error of the frame.
    pub open spec fn draws(self, r: Result<(), Error>) -> bool {
        if self.tarp.in_frame {
            r matches Err(e) && e.spec_code() == INVALID_OPERATION && e.spec_context()
                == OPEN_FRAME_CONTEXT@
        } else {
            match self.tarp.device {
                Some(d) => r == spec_error_from_code(d.error, FRAME_CONTEXT),
                None => r matches Err(e) ==> e.spec_code() != crate::device::NO_ERROR
                    && e.spec_context() == FRAME_CONTEXT@,
            }
        }
    }

    /// The state after a tick of the host.
    pub open spec fn step(self, delta: u64, width: u32, height: u32) -> StateModel {
        (StateModel { delta, width, height, ..self }).draw()
    }
}

/// The overall state of the application.
pub struct State {
    /// The time in seconds since the last frame, as the bit pattern of a
    /// 64-bit float.
    pub delta: u64,
    /// The engine that renders to the canvas.
    pub tarp: Tarp,
    /// The current width (in pixels) of the canvas.
    pub width: u32,
    /// The current height (in pixels) of the canvas.
    pub height: u32,
}

impl View for State {
    type V = StateModel;

    open spec fn view(&self) -> StateModel {
        StateModel { delta: self.delta, tarp: self.tarp@, width: self.width, height: self.height }
    }
}

impl State {
    /// Initializes and returns a new application state for a canvas of
    /// `width` by `height` pixels. A failure to build the engine is
    /// returned.
    pub fn new(surface: Surface, width: u32, height: u32) -> (r: Result<State, Error>)
        ensures
            match r {
                Ok(state) => StateModel::made(surface.device(), width, height, Ok(state@)),
                Err(e) => StateModel::made(surface.device(), width, height, Err(e)),
            },
    {
        match Tarp::new(Gl::new(surface)) {
            Ok(tarp) => Ok(State { delta: 0, tarp, width, height }),
            Err(e) => Err(e),
        }
    }

    /// Renders one frame: starts it and ends it. Where a frame is open,
    /// nothing is drawn and an error says so.
    pub fn draw(&mut self) -> (r: Result<(), Error>)
        ensures
            final(self)@ == old(self)@.draw(),
            old(self)@.draws(r),
    {
        if self.tarp.is_in_frame() {
            return Err(Error::Gl { code: INVALID_OPERATION, context: OPEN_FRAME_CONTEXT });
        }
        self.tarp.start_frame();
        self.tarp.end_frame()
    }

    /// Takes a tick of the host: records the time since the last frame and
    /// the size of the canvas, then renders one frame.
    pub fn step(&mut self, delta: u64, width: u32, height: u32) -> (r: Result<(), Error>)
        ensures
            final(self)@ == old(self)@.step(delta, width, height),
            old(self)@.draws(r),
    {
        self.delta = delta;
        self.width = width;
        self.height = height;
        self.draw()
    }

    /// Releases what the engine holds on the surface, and gives the
    /// surface back.
    pub fn destroy(self) -> (surface: Surface)
        ensures
            surface.device() == self@.tarp.destroy(),
    {
        self.tarp.destroy()
    }
}

} // verus!
