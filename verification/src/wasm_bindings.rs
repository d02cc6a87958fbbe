//! What the host calls: make an engine for a surface, step it once per
//! frame, destroy it. The host holds the engine by a handle that outlives
//! the engine; a handle whose engine is destroyed turns every call down.

use vstd::prelude::*;
use crate::device::DeviceModel;
use crate::device::INVALID_OPERATION;
use crate::error::Error;
use crate::gl::Surface;
use crate::state::State;
use crate::state::StateModel;

verus! {

/// The label of the error for a call on a handle whose engine is destroyed.
pub const DESTROYED_CONTEXT: &'static str = "engine handle used after destroy";

/// The state behind a handle after a step: a live engine takes the tick, a
/// destroyed one stays destroyed.
pub open spec fn stepped(
    handle: Option<StateModel>,
    delta: u64,
    width: u32,
    height: u32,
) -> Option<StateModel> {
    match handle {
        Some(state) => Some(state.step(delta, width, height)),
        None => None,
    }
}

/// Whether `r` turns a call down because the engine is destroyed.
pub open spec fn turned_down(r: Result<(), Error>) -> bool {
    r matches Err(e) && e.spec_code() == INVALID_OPERATION && e.spec_context()
        == DESTROYED_CONTEXT@
}

/// Whether `r` is what a step returns on `handle`.
pub open spec fn steps(handle: Option<StateModel>, r: Result<(), Error>) -> bool {
    match handle {
        Some(state) => state.draws(r),
        None => turned_down(r),
    }
}

/// The device that destroying `handle` gives back, if any.
pub open spec fn released(handle: Option<StateModel>) -> Option<DeviceModel> {
    match handle {
        Some(state) => state.tarp.destroy(),
        None => None,
    }
}

/// Once the engine behind a handle is destroyed, every call on the handle
/// is turned down: a step returns the error of a destroyed handle and
/// changes nothing, and destroying again releases nothing.
pub proof fn law_destroyed_handle_turns_down(
    handle: Option<StateModel>,
    delta: u64,
    width: u32,
    height: u32,
    r: Result<(), Error>,
)
    requires
        handle is None,
        steps(handle, r),
    ensures
        r is Err,
        turned_down(r),
        stepped(handle, delta, width, height) is None,
        released(handle) is None,
{
}

/// The host's handle to the application state.
pub struct StatePtr {
    state: Option<State>,
}

impl View for StatePtr {
    type V = Option<StateModel>;

    closed spec fn view(&self) -> Option<StateModel> {
        match self.state {
            Some(state) => Some(state@),
            None => None,
        }
    }
}

impl StatePtr {
    /// A handle to `state`.
    pub fn make(state: State) -> (handle: StatePtr)
        ensures
            handle@ == Some(state@),
    {
        StatePtr { state: Some(state) }
    }

    /// The state, while the engine is not destroyed.
    pub fn state(&self) -> (state: Option<&State>)
        ensures
            state is Some <==> self@ is Some,
            state matches Some(s) ==> Some(s@) == self@,
    {
        self.state.as_ref()
    }

    /// Whether the engine is not destroyed.
    pub fn is_live(&self) -> (live: bool)
        ensures
            live == self@ is Some,
    {
        self.state.is_some()
    }
}

/// Initializes the application state for a canvas of `width` by `height`
/// pixels and returns a handle to it, or the error that stopped it.
pub fn new_state(surface: Surface, width: u32, height: u32) -> (r: Result<StatePtr, Error>)
    ensures
        match r {
            Ok(handle) => handle@ matches Some(state) && StateModel::made(
                surface.device(),
                width,
                height,
                Ok(state),
            ),
            Err(e) => StateModel::made(surface.device(), width, height, Err(e)),
        },
{
    match State::new(surface, width, height) {
        Ok(state) => Ok(StatePtr::make(state)),
        Err(e) => Err(e),
    }
}

/// Steps and renders a frame of the application: `delta` is the time in
/// seconds since the previous frame, as the bit pattern of a 64-bit float,
/// `width` and `height` the size of the canvas in pixels.
pub fn step(state: &mut StatePtr, delta: u64, width: u32, height: u32) -> (r: Result<(), Error>)
    ensures
        final(state)@ == stepped(old(state)@, delta, width, height),
        steps(old(state)@, r),
{
    match &mut state.state {
        Some(live) => live.step(delta, width, height),
        None => Err(Error::Gl { code: INVALID_OPERATION, context: DESTROYED_CONTEXT }),
    }
}

/// Destroys the engine behind the handle, and gives back the surface that
/// it drew on. On a handle whose engine is destroyed nothing happens.
pub fn destroy(state: &mut StatePtr) -> (surface: Option<Surface>)
    ensures
        final(state)@ is None,
        surface is Some <==> old(state)@ is Some,
        surface matches Some(s) ==> s.device() == released(old(state)@),
{
    match state.state.take() {
        Some(live) => Some(live.destroy()),
        None => None,
    }
}

} // verus!
