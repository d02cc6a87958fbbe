use tarp::uniforms::Color;
use tarp::uniforms::ShaderKind;
use tarp::uniforms::ShaderTextureKind;
use tarp::uniforms::Uniforms;
use tarp::uniforms::F32_SIZE;
use tarp::uniforms::FLOAT_ONE;
use tarp::uniforms::FLOAT_THREE;
use tarp::uniforms::FLOAT_TWO;
use tarp::uniforms::FLOAT_ZERO;
use tarp::uniforms::UNIFORMS_FLOATS;
use tarp::uniforms::UNIFORMS_SIZE;
use tarp::uniforms::UNIFORM_ARRAY_SIZE;
use tarp::uniforms::UNIFORM_SIZE;

fn numbered() -> Uniforms {
    Uniforms {
        scissor_mat: [0, 1, 2, 3, 4, 5, 6, 7, 8, 9, 10, 11],
        paint_mat: [12, 13, 14, 15, 16, 17, 18, 19, 20, 21, 22, 23],
        inner_color: Color { r: 24, g: 25, b: 26, a: 27 },
        outer_color: Color { r: 28, g: 29, b: 30, a: 31 },
        scissor_ext: [32, 33],
        scissor_scale: [34, 35],
        extent: [36, 37],
        radius: 38,
        feather: 39,
        stroke_mult: 40,
        stroke_thr: 41,
        texture_kind: ShaderTextureKind::Alpha,
        kind: ShaderKind::Image,
    }
}

#[test]
fn layout_is_eleven_slots_of_four_floats() {
    assert_eq!(UNIFORM_ARRAY_SIZE, 11);
    assert_eq!(UNIFORM_SIZE, 4);
    assert_eq!(F32_SIZE, 4);
    assert_eq!(UNIFORMS_FLOATS, 44);
    assert_eq!(UNIFORMS_SIZE, 176);
    assert_eq!(UNIFORMS_SIZE, 11 * UNIFORM_SIZE * F32_SIZE);
}

#[test]
fn packed_record_has_forty_four_floats() {
    let packed = numbered().pack();
    assert_eq!(packed.len(), 44);
    assert_eq!(packed.len(), 4 * UNIFORM_ARRAY_SIZE);
    assert_eq!(packed.len() * std::mem::size_of::<f32>(), 176);
}

#[test]
fn packed_record_keeps_the_order_of_the_fields() {
    let packed = numbered().pack();
    for i in 0..42 {
        assert_eq!(packed[i], i as u32);
    }
    assert_eq!(packed[42], 2.0f32.to_bits());
    assert_eq!(packed[43], 3.0f32.to_bits());
}

#[test]
fn packed_slots_are_where_the_shader_reads_them() {
    let packed = numbered().pack();
    // innerCol is frag[6], outerCol frag[7].
    assert_eq!(&packed[6 * 4..7 * 4], &[24, 25, 26, 27]);
    assert_eq!(&packed[7 * 4..8 * 4], &[28, 29, 30, 31]);
    // scissorExt is frag[8].xy, scissorScale frag[8].zw.
    assert_eq!(&packed[8 * 4..9 * 4], &[32, 33, 34, 35]);
    // extent is frag[9].xy, radius frag[9].z, feather frag[9].w.
    assert_eq!(&packed[9 * 4..10 * 4], &[36, 37, 38, 39]);
    // strokeMult, strokeThr, texKind, kind are frag[10].
    assert_eq!(&packed[10 * 4..11 * 4], &[40, 41, FLOAT_TWO, FLOAT_THREE]);
}

#[test]
fn zeroed_record_holds_only_the_selectors() {
    let u = Uniforms::zeroed(ShaderTextureKind::Rgba, ShaderKind::Simple);
    let packed = u.pack();
    assert_eq!(packed.len(), 44);
    for i in 0..42 {
        assert_eq!(f32::from_bits(packed[i]), 0.0);
    }
    assert_eq!(f32::from_bits(packed[42]), 1.0);
    assert_eq!(f32::from_bits(packed[43]), 2.0);
}

#[test]
fn float_constants_are_the_bits_of_the_floats() {
    assert_eq!(FLOAT_ZERO, 0.0f32.to_bits());
    assert_eq!(FLOAT_ONE, 1.0f32.to_bits());
    assert_eq!(FLOAT_TWO, 2.0f32.to_bits());
    assert_eq!(FLOAT_THREE, 3.0f32.to_bits());
}

#[test]
fn shader_kind_codes_are_stable() {
    assert_eq!(ShaderKind::FillGradient.code(), 0);
    assert_eq!(ShaderKind::FillImage.code(), 1);
    assert_eq!(ShaderKind::Simple.code(), 2);
    assert_eq!(ShaderKind::Image.code(), 3);
}

#[test]
fn texture_kind_codes_are_stable() {
    assert_eq!(ShaderTextureKind::PremultipliedRgba.code(), 0);
    assert_eq!(ShaderTextureKind::Rgba.code(), 1);
    assert_eq!(ShaderTextureKind::Alpha.code(), 2);
}

#[test]
fn shader_kind_travels_as_the_float_of_its_code() {
    for code in 0..4u32 {
        let kind = ShaderKind::from_code(code).unwrap();
        assert_eq!(kind.code(), code);
        assert_eq!(kind.float_bits(), (code as f32).to_bits());
        assert_eq!(f32::from_bits(kind.float_bits()) as i32, code as i32);
    }
}

#[test]
fn texture_kind_travels_as_the_float_of_its_code() {
    for code in 0..3u32 {
        let kind = ShaderTextureKind::from_code(code).unwrap();
        assert_eq!(kind.code(), code);
        assert_eq!(kind.float_bits(), (code as f32).to_bits());
    }
}

#[test]
fn codes_out_of_range_name_no_kind() {
    assert_eq!(ShaderKind::from_code(4), None);
    assert_eq!(ShaderKind::from_code(u32::MAX), None);
    assert_eq!(ShaderTextureKind::from_code(3), None);
    assert_eq!(ShaderTextureKind::from_code(u32::MAX), None);
}

#[test]
fn opaque_color_has_full_alpha() {
    let cyan = Color::opaque(0.0f32.to_bits(), 1.0f32.to_bits(), 1.0f32.to_bits());
    assert_eq!(f32::from_bits(cyan.r), 0.0);
    assert_eq!(f32::from_bits(cyan.g), 1.0);
    assert_eq!(f32::from_bits(cyan.b), 1.0);
    assert_eq!(f32::from_bits(cyan.a), 1.0);
    let grey = Color::opaque(0.5f32.to_bits(), 0.5f32.to_bits(), 0.5f32.to_bits());
    assert_eq!(
        grey,
        Color { r: 0.5f32.to_bits(), g: 0.5f32.to_bits(), b: 0.5f32.to_bits(), a: FLOAT_ONE }
    );
}

#[test]
fn color_channels_are_not_clamped() {
    let c = Color::opaque(2.5f32.to_bits(), (-1.0f32).to_bits(), FLOAT_ZERO);
    assert_eq!(f32::from_bits(c.r), 2.5);
    assert_eq!(f32::from_bits(c.g), -1.0);
    assert_eq!(f32::from_bits(c.b), 0.0);
}
