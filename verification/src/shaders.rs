//! The text of the shader program: a generated header, an optional block
//! that switches edge antialiasing on, and the fixed sources of the two
//! stages.

use vstd::prelude::*;
use vstd::string::StringExecFns;
use crate::decimal::decimal;
use crate::decimal::digit_char;
use crate::decimal::push_decimal;
use crate::uniforms::Uniforms;
use crate::uniforms::UNIFORM_ARRAY_SIZE;
use crate::uniforms::UNIFORM_SIZE;

verus! {

/// The first line of every source: the language version.
pub const SHADER_VERSION: &'static str = "#version 100\n";

/// What stands before the number of uniform slots in the header.
pub const SHADER_ARRAY_SIZE_DEFINE: &'static str = "#define UNIFORMARRAY_SIZE ";

/// The block that switches edge antialiasing on.
pub const SHADER_OPT_ANTIALIAS: &'static str = "#define EDGE_AA 1\n";

/// The name of the vertex-position attribute, bound to location 0.
pub const ATTRIB_VERTEX: &'static str = "vertex";

/// The name of the texture-coordinate attribute, bound to location 1.
pub const ATTRIB_TCOORD: &'static str = "tcoord";

/// The vertex stage: takes a position in pixels to clip space by the size
/// of the view, and hands the texture coordinate on.
pub const SHADER_FILL_VERT: &'static str = "uniform vec2 viewSize;
attribute vec2 vertex;
attribute vec2 tcoord;
varying vec2 ftcoord;
varying vec2 fpos;
void main(void) {
    ftcoord = tcoord;
    fpos = vertex;
    gl_Position = vec4(
        2.0 * vertex.x / viewSize.x - 1.0,
        1.0 - 2.0 * vertex.y / viewSize.y,
        0,
        1
    );
}
";

/// The fragment stage: one branch for each kind of shading, each masked by
/// the scissor rectangle and, with edge antialiasing, by the stroke mask.
pub const SHADER_FILL_FRAG: &'static str = "#if defined(GL_FRAGMENT_PRECISION_HIGH) || defined(NANOVG_GL3)
precision highp float;
#else
precision mediump float;
#endif

uniform vec4 frag[UNIFORMARRAY_SIZE];
uniform sampler2D tex;
varying vec2 ftcoord;
varying vec2 fpos;

#define scissorMat mat3(frag[0].xyz, frag[1].xyz, frag[2].xyz)
#define paintMat mat3(frag[3].xyz, frag[4].xyz, frag[5].xyz)
#define innerCol frag[6]
#define outerCol frag[7]
#define scissorExt frag[8].xy
#define scissorScale frag[8].zw
#define extent frag[9].xy
#define radius frag[9].z
#define feather frag[9].w
#define strokeMult frag[10].x
#define strokeThr frag[10].y
#define texKind int(frag[10].z)
#define kind int(frag[10].w)

// Signed distance from pt to the rectangle of half-extent ext whose
// corners are rounded with radius rad.
float sdroundrect(vec2 pt, vec2 ext, float rad) {
    vec2 ext2 = ext - vec2(rad, rad);
    vec2 d = abs(pt) - ext2;
    return min(max(d.x, d.y), 0.0) + length(max(d, 0.0)) - rad;
}

// Scissoring
float scissorMask(vec2 p) {
    vec2 sc = (abs((scissorMat * vec3(p, 1.0)).xy) - scissorExt);
    sc = vec2(0.5, 0.5) - sc * scissorScale;
    return clamp(sc.x, 0.0, 1.0) * clamp(sc.y, 0.0, 1.0);
}

#ifdef EDGE_AA
// Stroke - from [0..1] to clipped pyramid, where the slope is 1px.
float strokeMask() {
    return min(1.0, (1.0 - abs(ftcoord.x * 2.0 - 1.0)) * strokeMult) * min(1.0, ftcoord.y);
}
#endif

void main(void) {
    vec4 result;
    float scissor = scissorMask(fpos);

    #ifdef EDGE_AA
    float strokeAlpha = strokeMask();
    if (strokeAlpha < strokeThr) discard;
    #else
    float strokeAlpha = 1.0;
    #endif

    if (kind == 0) { // Gradient
        // Calculate gradient color using box gradient.
        vec2 pt = (paintMat * vec3(fpos, 1.0)).xy;
        float d = clamp((sdroundrect(pt, extent, radius) + feather * 0.5) / feather, 0.0, 1.0);
        vec4 color = mix(innerCol, outerCol, d);
        color *= strokeAlpha * scissor;
        result = color;
    } else if (kind == 1) { // Image
        // Calculate color from texture.
        vec2 pt = (paintMat * vec3(fpos, 1.0)).xy / extent;
        vec4 color = texture2D(tex, pt);
        if (texKind == 1) color = vec4(color.xyz * color.w, color.w);
        if (texKind == 2) color = vec4(color.x);
        // Apply color tint and alpha:
        color *= innerCol;
        // Combine alpha:
        color *= strokeAlpha * scissor;
        result = color;
    } else if (kind == 2) { // Stencil fill
        result = vec4(1, 1, 1, 1);
    } else if (kind == 3) { // Textured tris
        vec4 color = texture2D(tex, ftcoord);
        if (texKind == 1) color = vec4(color.xyz * color.w, color.w);
        if (texKind == 2) color = vec4(color.x);
        color *= scissor;
        result = color * innerCol;
    }

    gl_FragColor = result;
}
";

/// The header that stands before the source of each stage: the version
/// line, the number of uniform slots as a macro, and, with `antialias`, the
/// block that switches edge antialiasing on.
pub open spec fn header_text(antialias: bool) -> Seq<char> {
    SHADER_VERSION@ + SHADER_ARRAY_SIZE_DEFINE@ + decimal(UNIFORM_ARRAY_SIZE as nat) + "\n"@ + (
    if antialias {
        SHADER_OPT_ANTIALIAS@
    } else {
        Seq::<char>::empty()
    })
}

/// Writes the header for the two stages.
pub fn shader_header(antialias: bool) -> (header: String)
    ensures
        header@ == header_text(antialias),
{
    let mut header = String::from_str(SHADER_VERSION);
    header.append(SHADER_ARRAY_SIZE_DEFINE);
    push_decimal(&mut header, UNIFORM_ARRAY_SIZE as u32);
    header.append("\n");
    if antialias {
        header.append(SHADER_OPT_ANTIALIAS);
    }
    header
}

/// The number that the header gives the shader for the length of its
/// uniform array is the number of four-float slots that a packed record
/// fills: the record is 44 floats, the macro is written as `11`, and four
/// times the one is the other.
pub proof fn law_header_matches_layout(u: Uniforms, antialias: bool)
    ensures
        u.packed().len() == 44,
        u.packed().len() == UNIFORM_SIZE * UNIFORM_ARRAY_SIZE,
        decimal((u.packed().len() / UNIFORM_SIZE as nat) as nat) == seq!['1', '1'],
        header_text(antialias) == SHADER_VERSION@ + SHADER_ARRAY_SIZE_DEFINE@ + decimal(
            (u.packed().len() / UNIFORM_SIZE as nat) as nat,
        ) + "\n"@ + (if antialias {
            SHADER_OPT_ANTIALIAS@
        } else {
            Seq::<char>::empty()
        }),
        header_text(false) == "#version 100\n#define UNIFORMARRAY_SIZE 11\n"@,
        header_text(true) == "#version 100\n#define UNIFORMARRAY_SIZE 11\n#define EDGE_AA 1\n"@,
{
    u.lemma_packed_len();
    assert(decimal(11) =~= seq!['1', '1']) by {
        assert(decimal(11) == decimal(1).push(digit_char(1)));
    }
    reveal_strlit("#version 100\n");
    reveal_strlit("#define UNIFORMARRAY_SIZE ");
    reveal_strlit("\n");
    reveal_strlit("#define EDGE_AA 1\n");
    reveal_strlit("#version 100\n#define UNIFORMARRAY_SIZE 11\n");
    reveal_strlit("#version 100\n#define UNIFORMARRAY_SIZE 11\n#define EDGE_AA 1\n");
}

} // verus!
