use tarp::device::Device;
use tarp::device::Faults;
use tarp::device::StageKind;
use tarp::device::COLOR_BUFFER_BIT;
use tarp::device::INVALID_OPERATION;
use tarp::device::INVALID_VALUE;
use tarp::device::LINK_DIAGNOSTIC;
use tarp::device::NO_ERROR;
use tarp::device::REFUSAL_DIAGNOSTIC;
use tarp::uniforms::Color;

#[test]
fn new_device_is_empty() {
    let device = Device::new();
    assert_eq!(device.pending_error(), NO_ERROR);
    assert_eq!(device.live_shaders(), 0);
    assert_eq!(device.live_programs(), 0);
    assert_eq!(device.console_len(), 0);
    assert_eq!(device.faults(), Faults::none());
    assert_eq!(device.framebuffer(), Color { r: 0, g: 0, b: 0, a: 0 });
    assert_eq!(device.clear_color(), Color { r: 0, g: 0, b: 0, a: 0 });
}

#[test]
fn clear_writes_the_clear_color_to_the_color_buffer() {
    let mut device = Device::new();
    let color = Color::opaque(1.0f32.to_bits(), 0.0f32.to_bits(), 0.25f32.to_bits());
    device.set_clear_color(color);
    assert_eq!(device.framebuffer(), Color { r: 0, g: 0, b: 0, a: 0 });
    device.clear(COLOR_BUFFER_BIT);
    assert_eq!(device.framebuffer(), color);
}

#[test]
fn clear_of_other_buffers_leaves_the_color_buffer() {
    let mut device = Device::new();
    device.set_clear_color(Color::opaque(1.0f32.to_bits(), 1.0f32.to_bits(), 1.0f32.to_bits()));
    device.clear(0x0100);
    assert_eq!(device.framebuffer(), Color { r: 0, g: 0, b: 0, a: 0 });
    device.clear(0x0100 | COLOR_BUFFER_BIT);
    assert_eq!(device.framebuffer(), Color::opaque(1.0f32.to_bits(), 1.0f32.to_bits(), 1.0f32.to_bits()));
}

#[test]
fn error_flag_is_reset_by_polling() {
    let mut device = Device::new();
    device.inject_error(1285);
    assert_eq!(device.pending_error(), 1285);
    assert_eq!(device.get_error(), 1285);
    assert_eq!(device.pending_error(), NO_ERROR);
    assert_eq!(device.get_error(), NO_ERROR);
}

#[test]
fn later_error_replaces_the_pending_one() {
    let mut device = Device::new();
    device.inject_error(INVALID_VALUE);
    device.inject_error(INVALID_OPERATION);
    assert_eq!(device.get_error(), INVALID_OPERATION);
    assert_eq!(device.get_error(), NO_ERROR);
}

#[test]
fn names_are_given_out_in_order() {
    let mut device = Device::new();
    assert_eq!(device.create_shader(StageKind::Vertex), Some(0));
    assert_eq!(device.create_shader(StageKind::Fragment), Some(1));
    assert_eq!(device.create_program(), Some(0));
    assert_eq!(device.create_program(), Some(1));
    assert_eq!(device.shader_kind(0), Some(StageKind::Vertex));
    assert_eq!(device.shader_kind(1), Some(StageKind::Fragment));
    assert_eq!(device.shader_kind(2), None);
    assert_eq!(device.live_shaders(), 2);
    assert_eq!(device.live_programs(), 2);
    assert!(device.is_shader(1));
    assert!(!device.is_shader(2));
    assert!(device.is_program(1));
    assert!(!device.is_program(2));
}

#[test]
fn allocation_faults_yield_nothing() {
    let mut device = Device::new();
    let mut faults = Faults::none();
    faults.vertex_alloc = true;
    faults.program_alloc = true;
    device.set_faults(faults);
    assert_eq!(device.create_shader(StageKind::Vertex), None);
    assert_eq!(device.create_program(), None);
    assert_eq!(device.create_shader(StageKind::Fragment), Some(0));
    assert_eq!(device.live_shaders(), 1);
    assert_eq!(device.live_programs(), 0);
    assert_eq!(device.pending_error(), NO_ERROR);
}

#[test]
fn a_stage_keeps_its_source_through_compilation() {
    let mut device = Device::new();
    let id = device.create_shader(StageKind::Vertex).unwrap();
    assert_eq!(device.shader_text(id).unwrap(), "");
    assert_eq!(device.shader_compiled(id), Some(false));
    device.shader_source(id, "void main(void) {}");
    device.compile_shader(id);
    assert_eq!(device.shader_text(id).unwrap(), "void main(void) {}");
    assert_eq!(device.shader_compiled(id), Some(true));
    assert_eq!(device.shader_info_log(id).unwrap(), "");
    assert_eq!(device.pending_error(), NO_ERROR);
}

#[test]
fn a_refused_stage_has_a_diagnostic() {
    let mut device = Device::new();
    let mut faults = Faults::none();
    faults.fragment_compile = true;
    device.set_faults(faults);
    let vertex = device.create_shader(StageKind::Vertex).unwrap();
    let fragment = device.create_shader(StageKind::Fragment).unwrap();
    assert_eq!(device.shader_info_log(fragment).unwrap(), "");
    device.compile_shader(vertex);
    device.compile_shader(fragment);
    assert_eq!(device.shader_compiled(vertex), Some(true));
    assert_eq!(device.shader_compiled(fragment), Some(false));
    assert_eq!(device.shader_info_log(vertex).unwrap(), "");
    assert_eq!(device.shader_info_log(fragment).unwrap(), REFUSAL_DIAGNOSTIC);
    assert_eq!(device.pending_error(), NO_ERROR);
}

#[test]
fn operations_on_unknown_names_raise_invalid_value() {
    let mut device = Device::new();
    device.shader_source(3, "x");
    assert_eq!(device.get_error(), INVALID_VALUE);
    device.compile_shader(3);
    assert_eq!(device.get_error(), INVALID_VALUE);
    assert_eq!(device.shader_compiled(3), None);
    assert_eq!(device.get_error(), INVALID_VALUE);
    assert_eq!(device.shader_info_log(3), None);
    assert_eq!(device.get_error(), INVALID_VALUE);
    device.attach_shader(0, 0);
    assert_eq!(device.get_error(), INVALID_VALUE);
    device.bind_attrib_location(0, 0, "vertex");
    assert_eq!(device.get_error(), INVALID_VALUE);
    device.link_program(0);
    assert_eq!(device.get_error(), INVALID_VALUE);
    assert_eq!(device.program_linked(0), None);
    assert_eq!(device.get_error(), INVALID_VALUE);
    device.delete_shader(0);
    assert_eq!(device.get_error(), INVALID_VALUE);
    device.delete_program(0);
    assert_eq!(device.get_error(), INVALID_VALUE);
    assert_eq!(device.get_error(), NO_ERROR);
}

#[test]
fn a_program_takes_one_stage_of_each_kind() {
    let mut device = Device::new();
    let v1 = device.create_shader(StageKind::Vertex).unwrap();
    let v2 = device.create_shader(StageKind::Vertex).unwrap();
    let f = device.create_shader(StageKind::Fragment).unwrap();
    let p = device.create_program().unwrap();
    assert_eq!(device.attached_shaders(p), Some((None, None)));
    device.attach_shader(p, v1);
    device.attach_shader(p, f);
    assert_eq!(device.attached_shaders(p), Some((Some(v1), Some(f))));
    assert_eq!(device.pending_error(), NO_ERROR);
    device.attach_shader(p, v2);
    assert_eq!(device.get_error(), INVALID_OPERATION);
    assert_eq!(device.attached_shaders(p), Some((Some(v1), Some(f))));
}

#[test]
fn bindings_are_kept_in_order() {
    let mut device = Device::new();
    let p = device.create_program().unwrap();
    assert_eq!(device.binding_count(p), 0);
    device.bind_attrib_location(p, 0, "vertex");
    device.bind_attrib_location(p, 1, "tcoord");
    assert_eq!(device.binding_count(p), 2);
    assert_eq!(device.binding(p, 0), Some((0, String::from("vertex"))));
    assert_eq!(device.binding(p, 1), Some((1, String::from("tcoord"))));
    assert_eq!(device.binding(p, 2), None);
    assert_eq!(device.binding(p + 1, 0), None);
    assert_eq!(device.binding_count(p + 1), 0);
}

#[test]
fn linking_needs_both_stages_compiled() {
    let mut device = Device::new();
    let v = device.create_shader(StageKind::Vertex).unwrap();
    let f = device.create_shader(StageKind::Fragment).unwrap();
    let p = device.create_program().unwrap();
    device.link_program(p);
    assert_eq!(device.program_linked(p), Some(false));
    device.attach_shader(p, v);
    device.attach_shader(p, f);
    device.link_program(p);
    assert_eq!(device.program_linked(p), Some(false));
    device.compile_shader(v);
    device.link_program(p);
    assert_eq!(device.program_linked(p), Some(false));
    device.compile_shader(f);
    device.link_program(p);
    assert_eq!(device.program_linked(p), Some(true));
    assert!(device.is_linked(p));
    assert_eq!(device.pending_error(), NO_ERROR);
}

#[test]
fn link_fault_refuses_a_complete_program() {
    let mut device = Device::new();
    let mut faults = Faults::none();
    faults.link = true;
    device.set_faults(faults);
    let v = device.create_shader(StageKind::Vertex).unwrap();
    let f = device.create_shader(StageKind::Fragment).unwrap();
    let p = device.create_program().unwrap();
    device.compile_shader(v);
    device.compile_shader(f);
    device.attach_shader(p, v);
    device.attach_shader(p, f);
    assert_eq!(device.program_info_log(p).unwrap(), "");
    device.link_program(p);
    assert_eq!(device.program_linked(p), Some(false));
    assert!(!device.is_linked(p));
    assert_eq!(device.program_info_log(p).unwrap(), LINK_DIAGNOSTIC);
    assert_eq!(device.program_info_log(p + 1), None);
    assert_eq!(device.get_error(), INVALID_VALUE);
    device.set_faults(Faults::none());
    device.link_program(p);
    assert_eq!(device.program_linked(p), Some(true));
    assert_eq!(device.program_info_log(p).unwrap(), "");
}

#[test]
fn deleted_names_stay_dead() {
    let mut device = Device::new();
    let v = device.create_shader(StageKind::Vertex).unwrap();
    let p = device.create_program().unwrap();
    device.delete_shader(v);
    device.delete_program(p);
    assert_eq!(device.pending_error(), NO_ERROR);
    assert_eq!(device.live_shaders(), 0);
    assert_eq!(device.live_programs(), 0);
    assert!(!device.is_shader(v));
    assert!(!device.is_program(p));
    assert_eq!(device.shader_text(v), None);
    assert_eq!(device.attached_shaders(p), None);
    assert_eq!(device.create_shader(StageKind::Vertex), Some(v + 1));
    assert_eq!(device.create_program(), Some(p + 1));
    device.delete_shader(v);
    assert_eq!(device.get_error(), INVALID_VALUE);
}

#[test]
fn console_keeps_its_lines() {
    let mut device = Device::new();
    device.console_log("first");
    device.console_log("second");
    assert_eq!(device.console_len(), 2);
    assert_eq!(device.console_line(0).unwrap(), "first");
    assert_eq!(device.console_line(1).unwrap(), "second");
    assert_eq!(device.console_line(2), None);
}

#[test]
fn fault_queries_follow_the_switches() {
    let mut faults = Faults::none();
    assert!(!faults.fails_alloc(StageKind::Vertex));
    assert!(!faults.fails_compile(StageKind::Fragment));
    faults.vertex_alloc = true;
    faults.fragment_compile = true;
    assert!(faults.fails_alloc(StageKind::Vertex));
    assert!(!faults.fails_alloc(StageKind::Fragment));
    assert!(!faults.fails_compile(StageKind::Vertex));
    assert!(faults.fails_compile(StageKind::Fragment));
}
