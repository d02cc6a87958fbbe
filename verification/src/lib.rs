//! A renderer of 2D vector graphics on WebGL, in the manner of NanoVG and
//! of the HTML5 canvas: the layout of the paint parameters that host and
//! shader share, the text of the shader program, the graphics backend that
//! builds the program and polls for errors, the engine that takes the canvas
//! through its frames, and the state that the host steps once per tick.

pub mod decimal;
pub mod device;
pub mod error;
pub mod gl;
pub mod shaders;
pub mod state;
pub mod tarp;
pub mod uniforms;
pub mod wasm_bindings;
pub mod webgl;
