//! The paint parameters of one draw, in the layout that the fragment stage
//! reads as an array of four-component vectors.
//!
//! Every number that the shader reads as a 32-bit float is held here as the
//! bit pattern of that float (IEEE 754 binary32), in a `u32`.

use vstd::prelude::*;

verus! {

/// Bytes in one 32-bit float.
pub const F32_SIZE: usize = 4;

/// Floats in one slot of the uniform array (a four-component vector).
pub const UNIFORM_SIZE: usize = 4;

/// Slots in the uniform array. The shader header and the packed size of
/// [`Uniforms`] are both derived from this one number.
pub const UNIFORM_ARRAY_SIZE: usize = 11;

/// Floats in a packed [`Uniforms`] record.
pub const UNIFORMS_FLOATS: usize = UNIFORM_ARRAY_SIZE * UNIFORM_SIZE;

/// Bytes in a packed [`Uniforms`] record.
pub const UNIFORMS_SIZE: usize = UNIFORMS_FLOATS * F32_SIZE;

/// The bit pattern of the float `0.0`.
pub const FLOAT_ZERO: u32 = 0x0000_0000;

/// The bit pattern of the float `1.0`.
pub const FLOAT_ONE: u32 = 0x3F80_0000;

/// The bit pattern of the float `2.0`.
pub const FLOAT_TWO: u32 = 0x4000_0000;

/// The bit pattern of the float `3.0`.
pub const FLOAT_THREE: u32 = 0x4040_0000;

/// The bit pattern of the float whose value is the selector `code`. This is
/// the one place where an enumeration's integer becomes the float that the
/// shader converts back with `int(..)`.
pub open spec fn selector_float(code: u32) -> u32
    recommends
        code <= 3,
{
    if code == 0 {
        FLOAT_ZERO
    } else if code == 1 {
        FLOAT_ONE
    } else if code == 2 {
        FLOAT_TWO
    } else {
        FLOAT_THREE
    }
}

/// A color of four float channels, each conventionally between 0 and 1.
/// Nothing here clamps a channel: that is left to the caller.
#[derive(Clone, Copy, PartialEq, Eq, Structural, Debug)]
pub struct Color {
    pub r: u32,
    pub g: u32,
    pub b: u32,
    pub a: u32,
}

impl Color {
    /// The four channels in the order in which they are packed.
    pub open spec fn words(self) -> Seq<u32> {
        seq![self.r, self.g, self.b, self.a]
    }

    /// The opaque color of the given red, green and blue: its alpha is `1.0`.
    pub open spec fn spec_opaque(r: u32, g: u32, b: u32) -> Color {
        Color { r, g, b, a: FLOAT_ONE }
    }

    #[verifier::when_used_as_spec(spec_opaque)]
    pub fn opaque(r: u32, g: u32, b: u32) -> (c: Color)
        ensures
            c == Color::spec_opaque(r, g, b),
    {
        Color { r, g, b, a: FLOAT_ONE }
    }
}

/// How a sampled texel is read before it is tinted.
#[derive(Clone, Copy, PartialEq, Eq, Structural, Debug)]
pub enum ShaderTextureKind {
    /// The texel is taken as it is.
    PremultipliedRgba,
    /// The texel's color channels are multiplied by its alpha.
    Rgba,
    /// The texel's first channel is spread over all four.
    Alpha,
}

impl ShaderTextureKind {
    /// The integer that the shader compares `texKind` with.
    pub open spec fn spec_code(self) -> u32 {
        match self {
            ShaderTextureKind::PremultipliedRgba => 0,
            ShaderTextureKind::Rgba => 1,
            ShaderTextureKind::Alpha => 2,
        }
    }

    #[verifier::when_used_as_spec(spec_code)]
    pub fn code(self) -> (c: u32)
        ensures
            c == self.spec_code(),
            c <= 2,
    {
        match self {
            ShaderTextureKind::PremultipliedRgba => 0,
            ShaderTextureKind::Rgba => 1,
            ShaderTextureKind::Alpha => 2,
        }
    }

    /// The kind that `code` stands for, if any.
    pub open spec fn spec_from_code(code: u32) -> Option<ShaderTextureKind> {
        if code == 0 {
            Some(ShaderTextureKind::PremultipliedRgba)
        } else if code == 1 {
            Some(ShaderTextureKind::Rgba)
        } else if code == 2 {
            Some(ShaderTextureKind::Alpha)
        } else {
            None
        }
    }

    #[verifier::when_used_as_spec(spec_from_code)]
    pub fn from_code(code: u32) -> (k: Option<ShaderTextureKind>)
        ensures
            k == ShaderTextureKind::spec_from_code(code),
            k is Some <==> code <= 2,
            k matches Some(kind) ==> kind.spec_code() == code,
    {
        if code == 0 {
            Some(ShaderTextureKind::PremultipliedRgba)
        } else if code == 1 {
            Some(ShaderTextureKind::Rgba)
        } else if code == 2 {
            Some(ShaderTextureKind::Alpha)
        } else {
            None
        }
    }

    /// The float, as its bit pattern, that carries this kind to the shader.
    pub open spec fn spec_float_bits(self) -> u32 {
        selector_float(self.spec_code())
    }

    #[verifier::when_used_as_spec(spec_float_bits)]
    pub fn float_bits(self) -> (bits: u32)
        ensures
            bits == self.spec_float_bits(),
    {
        match self {
            ShaderTextureKind::PremultipliedRgba => FLOAT_ZERO,
            ShaderTextureKind::Rgba => FLOAT_ONE,
            ShaderTextureKind::Alpha => FLOAT_TWO,
        }
    }
}

/// Which branch of the fragment program shades a draw.
#[derive(Clone, Copy, PartialEq, Eq, Structural, Debug)]
pub enum ShaderKind {
    /// A box gradient between the inner and the outer color.
    FillGradient,
    /// A texture mapped through the paint matrix.
    FillImage,
    /// Opaque white, for stencil coverage passes.
    Simple,
    /// A texture sampled at the interpolated texture coordinate.
    Image,
}

impl ShaderKind {
    /// The integer that the shader compares `kind` with.
    pub open spec fn spec_code(self) -> u32 {
        match self {
            ShaderKind::FillGradient => 0,
            ShaderKind::FillImage => 1,
            ShaderKind::Simple => 2,
            ShaderKind::Image => 3,
        }
    }

    #[verifier::when_used_as_spec(spec_code)]
    pub fn code(self) -> (c: u32)
        ensures
            c == self.spec_code(),
            c <= 3,
    {
        match self {
            ShaderKind::FillGradient => 0,
            ShaderKind::FillImage => 1,
            ShaderKind::Simple => 2,
            ShaderKind::Image => 3,
        }
    }

    /// The kind that `code` stands for, if any.
    pub open spec fn spec_from_code(code: u32) -> Option<ShaderKind> {
        if code == 0 {
            Some(ShaderKind::FillGradient)
        } else if code == 1 {
            Some(ShaderKind::FillImage)
        } else if code == 2 {
            Some(ShaderKind::Simple)
        } else if code == 3 {
            Some(ShaderKind::Image)
        } else {
            None
        }
    }

    #[verifier::when_used_as_spec(spec_from_code)]
    pub fn from_code(code: u32) -> (k: Option<ShaderKind>)
        ensures
            k == ShaderKind::spec_from_code(code),
            k is Some <==> code <= 3,
            k matches Some(kind) ==> kind.spec_code() == code,
    {
        if code == 0 {
            Some(ShaderKind::FillGradient)
        } else if code == 1 {
            Some(ShaderKind::FillImage)
        } else if code == 2 {
            Some(ShaderKind::Simple)
        } else if code == 3 {
            Some(ShaderKind::Image)
        } else {
            None
        }
    }

    /// The float, as its bit pattern, that carries this kind to the shader.
    pub open spec fn spec_float_bits(self) -> u32 {
        selector_float(self.spec_code())
    }

    #[verifier::when_used_as_spec(spec_float_bits)]
    pub fn float_bits(self) -> (bits: u32)
        ensures
            bits == self.spec_float_bits(),
    {
        match self {
            ShaderKind::FillGradient => FLOAT_ZERO,
            ShaderKind::FillImage => FLOAT_ONE,
            ShaderKind::Simple => FLOAT_TWO,
            ShaderKind::Image => FLOAT_THREE,
        }
    }
}

/// The two selectors are numbered without gaps from 0, each kind is found
/// again from its number, and no two kinds travel as the same float.
pub proof fn law_selectors_are_stable(kind: ShaderKind, texture_kind: ShaderTextureKind)
    ensures
        kind.spec_code() <= 3,
        texture_kind.spec_code() <= 2,
        ShaderKind::spec_from_code(kind.spec_code()) == Some(kind),
        ShaderTextureKind::spec_from_code(texture_kind.spec_code()) == Some(texture_kind),
        forall|other: ShaderKind| other.spec_float_bits() == kind.spec_float_bits() ==> other == kind,
        forall|other: ShaderTextureKind|
            other.spec_float_bits() == texture_kind.spec_float_bits() ==> other == texture_kind,
        forall|code: u32| code <= 3 ==> (#[trigger] ShaderKind::spec_from_code(code)) is Some,
        forall|code: u32| code <= 2 ==> (#[trigger] ShaderTextureKind::spec_from_code(code)) is Some,
{
}

/// The paint parameters of one draw. The two matrices are 3×3, each column
/// held in a slot of four floats of which the last is unused.
#[derive(Clone, Copy, Debug)]
pub struct Uniforms {
    pub scissor_mat: [u32; 12],
    pub paint_mat: [u32; 12],
    pub inner_color: Color,
    pub outer_color: Color,
    pub scissor_ext: [u32; 2],
    pub scissor_scale: [u32; 2],
    pub extent: [u32; 2],
    pub radius: u32,
    pub feather: u32,
    pub stroke_mult: u32,
    pub stroke_thr: u32,
    pub texture_kind: ShaderTextureKind,
    pub kind: ShaderKind,
}

impl Uniforms {
    /// The record as the flat array of floats that the shader declares as
    /// `frag`: the fields one after another in the order of their
    /// declaration, the two selectors as floats.
    pub open spec fn packed(self) -> Seq<u32> {
        self.scissor_mat@ + self.paint_mat@ + self.inner_color.words()
            + self.outer_color.words() + self.scissor_ext@ + self.scissor_scale@ + self.extent@
            + seq![
            self.radius,
            self.feather,
            self.stroke_mult,
            self.stroke_thr,
            self.texture_kind.spec_float_bits(),
            self.kind.spec_float_bits(),
        ]
    }

    /// The slot `index` of the packed record: what the shader reads as
    /// `frag[index]`.
    pub open spec fn slot(self, index: int) -> Seq<u32>
        recommends
            0 <= index < UNIFORM_ARRAY_SIZE,
    {
        self.packed().subrange(UNIFORM_SIZE * index, UNIFORM_SIZE * index + UNIFORM_SIZE)
    }

    /// Every field is in the slot, and at the component, where the fragment
    /// stage reads it: the columns of the scissor matrix in slots 0 to 2,
    /// those of the paint matrix in 3 to 5, the inner color in 6, the outer
    /// color in 7, the scissor extent and scale in 8, the extent, radius
    /// and feather in 9, and the stroke multiplier, the stroke threshold
    /// and the two selectors in 10.
    pub proof fn law_slots_match_shader(self)
        ensures
            self.slot(0) + self.slot(1) + self.slot(2) == self.scissor_mat@,
            self.slot(3) + self.slot(4) + self.slot(5) == self.paint_mat@,
            self.slot(6) == self.inner_color.words(),
            self.slot(7) == self.outer_color.words(),
            self.slot(8) == self.scissor_ext@ + self.scissor_scale@,
            self.slot(9) == self.extent@ + seq![self.radius, self.feather],
            self.slot(10) == seq![
                self.stroke_mult,
                self.stroke_thr,
                self.texture_kind.spec_float_bits(),
                self.kind.spec_float_bits(),
            ],
    {
        broadcast use vstd::array::array_len_matches_n;

        self.lemma_packed_len();
    }

    /// A record of the given kinds with every float `0.0`.
    pub fn zeroed(texture_kind: ShaderTextureKind, kind: ShaderKind) -> (u: Uniforms)
        ensures
            u.texture_kind == texture_kind,
            u.kind == kind,
            u.packed() == Seq::new(42, |i: int| FLOAT_ZERO) + seq![
                texture_kind.spec_float_bits(),
                kind.spec_float_bits(),
            ],
    {
        let black = Color { r: FLOAT_ZERO, g: FLOAT_ZERO, b: FLOAT_ZERO, a: FLOAT_ZERO };
        let u = Uniforms {
            scissor_mat: [FLOAT_ZERO; 12],
            paint_mat: [FLOAT_ZERO; 12],
            inner_color: black,
            outer_color: black,
            scissor_ext: [FLOAT_ZERO; 2],
            scissor_scale: [FLOAT_ZERO; 2],
            extent: [FLOAT_ZERO; 2],
            radius: FLOAT_ZERO,
            feather: FLOAT_ZERO,
            stroke_mult: FLOAT_ZERO,
            stroke_thr: FLOAT_ZERO,
            texture_kind,
            kind,
        };
        proof {
            u.lemma_packed_len();
        }
        u
    }

    /// Packs the record into the flat array that is handed to the shader.
    pub fn pack(&self) -> (out: Vec<u32>)
        ensures
            out@ == self.packed(),
            out@.len() == UNIFORMS_FLOATS,
    {
        let mut out: Vec<u32> = Vec::new();
        push_words(&mut out, self.scissor_mat.as_slice());
        push_words(&mut out, self.paint_mat.as_slice());
        push_color(&mut out, self.inner_color);
        push_color(&mut out, self.outer_color);
        push_words(&mut out, self.scissor_ext.as_slice());
        push_words(&mut out, self.scissor_scale.as_slice());
        push_words(&mut out, self.extent.as_slice());
        out.push(self.radius);
        out.push(self.feather);
        out.push(self.stroke_mult);
        out.push(self.stroke_thr);
        out.push(self.texture_kind.float_bits());
        out.push(self.kind.float_bits());
        proof {
            self.lemma_packed_len();
        }
        out
    }

    /// The packed record fills the uniform array exactly: 44 floats, which
    /// are 11 slots of 4 floats and 176 bytes.
    pub proof fn lemma_packed_len(self)
        ensures
            self.packed().len() == UNIFORMS_FLOATS,
            self.packed().len() == 44,
            self.packed().len() == UNIFORM_ARRAY_SIZE * UNIFORM_SIZE,
            self.packed().len() * F32_SIZE == UNIFORMS_SIZE,
            UNIFORMS_SIZE == 176,
    {
        broadcast use vstd::array::array_len_matches_n;
    }
}

/// Appends `words` to `out`.
fn push_words(out: &mut Vec<u32>, words: &[u32])
    ensures
        final(out)@ == old(out)@ + words@,
{
    let mut i: usize = 0;
    while i < words.len()
        invariant
            i <= words@.len(),
            out@ == old(out)@ + words@.subrange(0, i as int),
        decreases words@.len() - i,
    {
        out.push(words[i]);
        i = i + 1;
    }
}

/// Appends the four channels of `color` to `out`.
fn push_color(out: &mut Vec<u32>, color: Color)
    ensures
        final(out)@ == old(out)@ + color.words(),
{
    out.push(color.r);
    out.push(color.g);
    out.push(color.b);
    out.push(color.a);
}

} // verus!
