//! The calls into the browser's WebGL interface. Nothing in this file is
//! proved: each function hands its arguments to one method of `web_sys`, and
//! none claims anything of what comes back, since that depends on the
//! browser and the GPU.
//!
//! `web_sys` has these methods only where the program runs as WebAssembly
//! in a browser. Built for another target every one of them panics, so
//! there the engine is run on a device in memory.

use vstd::prelude::*;
use wasm_bindgen::JsValue;
use web_sys::js_sys::Float32Array;
use web_sys::js_sys::Uint32Array;
use web_sys::WebGlProgram;
use web_sys::WebGlRenderingContext;
use web_sys::WebGlShader;

verus! {

/// `web_sys::WebGlRenderingContext`: a reference to a canvas's WebGL
/// context. Nothing is known of its state.
#[verifier::external_type_specification]
#[verifier::external_body]
pub struct ExWebGlRenderingContext(WebGlRenderingContext);

/// `web_sys::WebGlProgram`: a reference to a program object.
#[verifier::external_type_specification]
#[verifier::external_body]
pub struct ExWebGlProgram(WebGlProgram);

/// `web_sys::WebGlShader`: a reference to a shader object.
#[verifier::external_type_specification]
#[verifier::external_body]
pub struct ExWebGlShader(WebGlShader);

/// Calls `WebGlRenderingContext::clear_color` with the four floats whose
/// bit patterns are `r`, `g`, `b` and `a`. The patterns become floats on the
/// JavaScript side: they are copied into a `Uint32Array`, and a
/// `Float32Array` over the same buffer reads them back.
#[verifier::external_body]
pub(crate) fn webgl_clear_color(ctx: &WebGlRenderingContext, r: u32, g: u32, b: u32, a: u32) {
    let bits = Uint32Array::new_from_slice(&[r, g, b, a]);
    let floats = Float32Array::new(&bits.buffer());
    ctx.clear_color(
        floats.get_index(0),
        floats.get_index(1),
        floats.get_index(2),
        floats.get_index(3),
    );
}

/// Calls `WebGlRenderingContext::clear`.
#[verifier::external_body]
pub(crate) fn webgl_clear(ctx: &WebGlRenderingContext, mask: u32) {
    ctx.clear(mask);
}

/// Calls `WebGlRenderingContext::get_error`. The code depends on what the
/// context did before, so nothing is claimed of it.
#[verifier::external_body]
pub(crate) fn webgl_get_error(ctx: &WebGlRenderingContext) -> (code: u32) {
    ctx.get_error()
}

/// Calls `WebGlRenderingContext::create_program`.
#[verifier::external_body]
pub(crate) fn webgl_create_program(ctx: &WebGlRenderingContext) -> (program: Option<WebGlProgram>) {
    ctx.create_program()
}

/// Calls `WebGlRenderingContext::create_shader`.
#[verifier::external_body]
pub(crate) fn webgl_create_shader(ctx: &WebGlRenderingContext, type_: u32) -> (shader: Option<
    WebGlShader,
>) {
    ctx.create_shader(type_)
}

/// Calls `WebGlRenderingContext::shader_source`.
#[verifier::external_body]
pub(crate) fn webgl_shader_source(ctx: &WebGlRenderingContext, shader: &WebGlShader, source: &str) {
    ctx.shader_source(shader, source);
}

/// Calls `WebGlRenderingContext::compile_shader`.
#[verifier::external_body]
pub(crate) fn webgl_compile_shader(ctx: &WebGlRenderingContext, shader: &WebGlShader) {
    ctx.compile_shader(shader);
}

/// Calls `WebGlRenderingContext::get_shader_parameter` and reads the answer
/// with `JsValue::as_bool`: `None` where it is no boolean.
#[verifier::external_body]
pub(crate) fn webgl_get_shader_parameter(
    ctx: &WebGlRenderingContext,
    shader: &WebGlShader,
    pname: u32,
) -> (value: Option<bool>) {
    ctx.get_shader_parameter(shader, pname).as_bool()
}

/// Calls `WebGlRenderingContext::get_shader_info_log`.
#[verifier::external_body]
pub(crate) fn webgl_get_shader_info_log(ctx: &WebGlRenderingContext, shader: &WebGlShader) -> (text:
    Option<String>) {
    ctx.get_shader_info_log(shader)
}

/// Calls `WebGlRenderingContext::attach_shader`.
#[verifier::external_body]
pub(crate) fn webgl_attach_shader(
    ctx: &WebGlRenderingContext,
    program: &WebGlProgram,
    shader: &WebGlShader,
) {
    ctx.attach_shader(program, shader);
}

/// Calls `WebGlRenderingContext::bind_attrib_location`.
#[verifier::external_body]
pub(crate) fn webgl_bind_attrib_location(
    ctx: &WebGlRenderingContext,
    program: &WebGlProgram,
    index: u32,
    name: &str,
) {
    ctx.bind_attrib_location(program, index, name);
}

/// Calls `WebGlRenderingContext::link_program`.
#[verifier::external_body]
pub(crate) fn webgl_link_program(ctx: &WebGlRenderingContext, program: &WebGlProgram) {
    ctx.link_program(program);
}

/// Calls `WebGlRenderingContext::get_program_parameter` and reads the
/// answer with `JsValue::as_bool`: `None` where it is no boolean.
#[verifier::external_body]
pub(crate) fn webgl_get_program_parameter(
    ctx: &WebGlRenderingContext,
    program: &WebGlProgram,
    pname: u32,
) -> (value: Option<bool>) {
    ctx.get_program_parameter(program, pname).as_bool()
}

/// Calls `WebGlRenderingContext::get_program_info_log`.
#[verifier::external_body]
pub(crate) fn webgl_get_program_info_log(
    ctx: &WebGlRenderingContext,
    program: &WebGlProgram,
) -> (text: Option<String>) {
    ctx.get_program_info_log(program)
}

/// Calls `WebGlRenderingContext::delete_shader`.
#[verifier::external_body]
pub(crate) fn webgl_delete_shader(ctx: &WebGlRenderingContext, shader: &WebGlShader) {
    ctx.delete_shader(Some(shader));
}

/// Calls `WebGlRenderingContext::delete_program`.
#[verifier::external_body]
pub(crate) fn webgl_delete_program(ctx: &WebGlRenderingContext, program: &WebGlProgram) {
    ctx.delete_program(Some(program));
}

/// Calls `web_sys::console::log_1` with `line` as a JavaScript string.
#[verifier::external_body]
pub(crate) fn webgl_console_log(line: &str) {
    web_sys::console::log_1(&JsValue::from_str(line));
}

} // verus!
