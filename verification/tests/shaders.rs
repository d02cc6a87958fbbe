use tarp::shaders::shader_header;
use tarp::shaders::ATTRIB_TCOORD;
use tarp::shaders::ATTRIB_VERTEX;
use tarp::shaders::SHADER_FILL_FRAG;
use tarp::shaders::SHADER_FILL_VERT;
use tarp::shaders::SHADER_OPT_ANTIALIAS;
use tarp::uniforms::ShaderKind;
use tarp::uniforms::ShaderTextureKind;
use tarp::uniforms::Uniforms;
use tarp::uniforms::UNIFORMS_FLOATS;

#[test]
fn header_without_antialiasing() {
    assert_eq!(shader_header(false), "#version 100\n#define UNIFORMARRAY_SIZE 11\n");
}

#[test]
fn header_with_antialiasing() {
    assert_eq!(
        shader_header(true),
        "#version 100\n#define UNIFORMARRAY_SIZE 11\n#define EDGE_AA 1\n"
    );
    assert!(shader_header(true).ends_with(SHADER_OPT_ANTIALIAS));
}

#[test]
fn header_starts_with_the_version() {
    assert!(shader_header(false).starts_with("#version 100\n"));
    assert!(shader_header(true).starts_with("#version 100\n"));
}

#[test]
fn array_size_in_header_is_a_quarter_of_the_packed_floats() {
    let header = shader_header(false);
    let line = header.lines().find(|l| l.starts_with("#define UNIFORMARRAY_SIZE ")).unwrap();
    let slots: usize = line["#define UNIFORMARRAY_SIZE ".len()..].parse().unwrap();
    let packed = Uniforms::zeroed(ShaderTextureKind::PremultipliedRgba, ShaderKind::FillGradient)
        .pack();
    assert_eq!(slots, 11);
    assert_eq!(4 * slots, packed.len());
    assert_eq!(4 * slots, UNIFORMS_FLOATS);
    assert_eq!(packed.len(), 44);
}

#[test]
fn vertex_source_declares_the_bound_attributes() {
    assert_eq!(ATTRIB_VERTEX, "vertex");
    assert_eq!(ATTRIB_TCOORD, "tcoord");
    assert!(SHADER_FILL_VERT.contains("attribute vec2 vertex;"));
    assert!(SHADER_FILL_VERT.contains("attribute vec2 tcoord;"));
    assert!(SHADER_FILL_VERT.contains("uniform vec2 viewSize;"));
}

#[test]
fn vertex_source_maps_pixels_to_clip_space() {
    assert!(SHADER_FILL_VERT.contains("2.0 * vertex.x / viewSize.x - 1.0"));
    assert!(SHADER_FILL_VERT.contains("1.0 - 2.0 * vertex.y / viewSize.y"));
}

#[test]
fn fragment_source_declares_the_uniforms() {
    assert!(SHADER_FILL_FRAG.contains("uniform vec4 frag[UNIFORMARRAY_SIZE];"));
    assert!(SHADER_FILL_FRAG.contains("uniform sampler2D tex;"));
}

#[test]
fn fragment_source_has_a_branch_for_every_kind() {
    for kind in [
        ShaderKind::FillGradient,
        ShaderKind::FillImage,
        ShaderKind::Simple,
        ShaderKind::Image,
    ] {
        let test = format!("(kind == {})", kind.code());
        assert!(SHADER_FILL_FRAG.contains(&test));
    }
    for kind in [ShaderTextureKind::Rgba, ShaderTextureKind::Alpha] {
        let test = format!("(texKind == {})", kind.code());
        assert!(SHADER_FILL_FRAG.contains(&test));
    }
}

#[test]
fn rounded_rectangle_distance_is_defined_under_the_name_it_is_called_by() {
    assert!(SHADER_FILL_FRAG.contains("float sdroundrect(vec2 pt, vec2 ext, float rad)"));
    assert!(SHADER_FILL_FRAG.contains("vec2 ext2 = ext - vec2(rad, rad);"));
    assert_eq!(SHADER_FILL_FRAG.matches("sdroundrect(").count(), 2);
}

#[test]
fn sources_start_at_the_line_after_the_header() {
    assert!(SHADER_FILL_VERT.starts_with("uniform vec2 viewSize;\n"));
    assert!(SHADER_FILL_FRAG.starts_with("#if defined(GL_FRAGMENT_PRECISION_HIGH)"));
    assert!(SHADER_FILL_VERT.ends_with("}\n"));
    assert!(SHADER_FILL_FRAG.ends_with("}\n"));
}
