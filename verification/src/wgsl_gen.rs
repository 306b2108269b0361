//! The WGSL generator: the scene tree becomes the expression of the shader's
//! `map` function, wrapped with the fragment entry point that the
//! supersampling level asks for.
use vstd::prelude::*;
use crate::code::{ChunkView, Code, txt, num, rad};
use crate::float_bits::{f32_gt, f32_neg, spec_f32_gt, spec_f32_neg, POINT_NINE_BITS, ZERO_BITS};
use crate::sdf_ast::{SdfNode, SdfOp, SsaaLevel};
use crate::text::{decimal, decimal_string, interleave, replace_marker, split_pieces};

verus! {

/// Colour given to every primitive, closing its `SdfResult`.
pub const PRIMITIVE_TAIL: &'static str = "), vec3<f32>(0.2, 0.55, 1.0))";

/// The comment in the shader template that the generated code replaces.
pub const TEMPLATE_MARKER: &'static str = "// {{GENERATED_CODE_HERE}}";

/// Name of the point variable of the `map` function.
pub const POINT_VAR: &'static str = "p_in";

/// Fragment entry point taking one sample per pixel.
pub const FS_MAIN_SINGLE: &'static str = "@fragment\n                fn fs_main(in: VertexOutput) -> @location(0) vec4<f32> {\n                    let pixel_pos = in.clip_position.xy;\n                    let rect_min = uniforms.rect_data.xy;\n                    let rect_size = uniforms.rect_data.zw;\n                    let aspect = rect_size.x / rect_size.y;\n                    let uv = (((pixel_pos - rect_min) / rect_size) * 2.0 - 1.0) * vec2<f32>(aspect, -1.0);\n                    return vec4<f32>(render_scene(uv), 1.0);\n                }";

/// Fragment entry point with an `n` by `n` supersampling loop: the text
/// before the first `n`.
pub const FS_MAIN_MULTI_0: &'static str = "@fragment\n                fn fs_main(in: VertexOutput) -> @location(0) vec4<f32> {\n                    let pixel_pos = in.clip_position.xy;\n                    let rect_min = uniforms.rect_data.xy;\n                    let rect_size = uniforms.rect_data.zw;\n                    let aspect = rect_size.x / rect_size.y;\n                    var total_color = vec3<f32>(0.0);\n                    let n: f32 = ";

/// Between the first and the second `n`.
pub const FS_MAIN_MULTI_1: &'static str = ".0;\n                    for (var iy: i32 = 0; iy < ";

/// Between the second and the third `n`.
pub const FS_MAIN_MULTI_2: &'static str = "; iy = iy + 1) {\n                        for (var ix: i32 = 0; ix < ";

/// After the third `n`.
pub const FS_MAIN_MULTI_3: &'static str = "; ix = ix + 1) {\n                            let offset = (vec2<f32>(f32(ix), f32(iy)) + 0.5) / n - 0.5;\n                            let uv = (((pixel_pos + offset - rect_min) / rect_size) * 2.0 - 1.0) * vec2<f32>(aspect, -1.0);\n                            total_color += render_scene(uv);\n                        }\n                    }\n                    return vec4<f32>(total_color / (n * n), 1.0);\n                }";

/// Shader text before the scene expression.
pub const SHADER_HEAD: &'static str = "struct SdfResult {\n                dist: f32,\n                color: vec3<f32>,\n            }\n\n            fn map(p_in: vec3<f32>) -> SdfResult {\n                return ";

/// Between the scene expression and the fragment entry point.
pub const SHADER_MID: &'static str = ";\n            }\n            \n            ";

/// After the fragment entry point.
pub const SHADER_TAIL: &'static str = "\n            ";

/// The rotation helper that an axis picks: the first component above 0.9
/// names it, `z` when neither x nor y is.
pub open spec fn rotate_call(axis: [u32; 3]) -> Seq<char> {
    if spec_f32_gt(axis[0], POINT_NINE_BITS) {
        "rotate_x("@
    } else if spec_f32_gt(axis[1], POINT_NINE_BITS) {
        "rotate_y("@
    } else {
        "rotate_z("@
    }
}

/// One coordinate of a mirrored point: `p.c`, or `abs(p.c)` when the axis
/// component exceeds 0.9.
pub open spec fn mirror_part(p: Seq<ChunkView>, component: Seq<char>, mirrored: bool) -> Seq<
    ChunkView,
> {
    if mirrored {
        txt("abs("@) + p + txt(component) + txt(")"@)
    } else {
        p + txt(component)
    }
}

/// The point expression seen by the child of a translation by `offset`.
pub open spec fn translated_point(p: Seq<ChunkView>, offset: [u32; 3]) -> Seq<ChunkView> {
    txt("("@) + p + txt(" - vec3<f32>("@) + num(offset[0]) + txt(", "@) + num(offset[1]) + txt(
        ", "@,
    ) + num(offset[2]) + txt("))"@)
}

/// The point expression seen by the child of a rotation by `angle_deg`
/// degrees: the point turned back by the angle, in radians.
pub open spec fn rotated_point(p: Seq<ChunkView>, axis: [u32; 3], angle_deg: u32) -> Seq<
    ChunkView,
> {
    txt(rotate_call(axis)) + p + txt(", "@) + rad(spec_f32_neg(angle_deg)) + txt(")"@)
}

/// The point expression seen by the child of a mirror.
pub open spec fn mirrored_point(p: Seq<ChunkView>, axis: [u32; 3]) -> Seq<ChunkView> {
    txt("vec3<f32>("@) + mirror_part(p, ".x"@, spec_f32_gt(axis[0], POINT_NINE_BITS)) + txt(
        ", "@,
    ) + mirror_part(p, ".y"@, spec_f32_gt(axis[1], POINT_NINE_BITS)) + txt(", "@) + mirror_part(
        p,
        ".z"@,
        spec_f32_gt(axis[2], POINT_NINE_BITS),
    ) + txt(")"@)
}

/// A call `name(r1, r2)`, or `name(r1, r2, k)` when a blend radius is given.
pub open spec fn binary_call(name: Seq<char>, r1: Seq<ChunkView>, r2: Seq<ChunkView>) -> Seq<
    ChunkView,
> {
    txt(name) + r1 + txt(", "@) + r2 + txt(")"@)
}

pub open spec fn smooth_call(
    name: Seq<char>,
    r1: Seq<ChunkView>,
    r2: Seq<ChunkView>,
    k: u32,
) -> Seq<ChunkView> {
    txt(name) + r1 + txt(", "@) + r2 + txt(", "@) + num(k) + txt(")"@)
}

/// The WGSL expression of type `SdfResult` for `node`, evaluated at the
/// point expression `p`.
pub open spec fn emit(node: SdfNode, p: Seq<ChunkView>) -> Seq<ChunkView>
    decreases node,
{
    match node.op {
        SdfOp::Sphere { radius } => txt("SdfResult(sd_sphere("@) + p + txt(", "@) + num(radius)
            + txt(PRIMITIVE_TAIL@),
        SdfOp::Box { size } => txt("SdfResult(sd_box("@) + p + txt(", vec3<f32>("@) + num(size[0])
            + txt(", "@) + num(size[1]) + txt(", "@) + num(size[2]) + txt(")"@) + txt(
            PRIMITIVE_TAIL@,
        ),
        SdfOp::Cylinder { radius, height } => txt("SdfResult(sd_cylinder("@) + p + txt(", "@)
            + num(radius) + txt(", "@) + num(height) + txt(PRIMITIVE_TAIL@),
        SdfOp::Torus { major_radius, minor_radius } => txt("SdfResult(sd_torus("@) + p + txt(
            ", vec2<f32>("@,
        ) + num(major_radius) + txt(", "@) + num(minor_radius) + txt(")"@) + txt(PRIMITIVE_TAIL@),
        SdfOp::Union { a, b, smooth } => if spec_f32_gt(smooth, ZERO_BITS) {
            smooth_call("op_union_smooth("@, emit(*a, p), emit(*b, p), smooth)
        } else {
            binary_call("op_union("@, emit(*a, p), emit(*b, p))
        },
        SdfOp::Subtract { a, b, smooth } => if spec_f32_gt(smooth, ZERO_BITS) {
            smooth_call("op_subtract_smooth("@, emit(*a, p), emit(*b, p), smooth)
        } else {
            binary_call("op_subtract("@, emit(*a, p), emit(*b, p))
        },
        SdfOp::Intersect { a, b, smooth } => binary_call("op_intersect("@, emit(*a, p), emit(*b, p)),
        SdfOp::Translate { target, offset } => emit(*target, translated_point(p, offset)),
        SdfOp::Rotate { target, axis, angle_deg } => emit(*target, rotated_point(p, axis, angle_deg)),
        SdfOp::Mirror { target, axis } => emit(*target, mirrored_point(p, axis)),
        SdfOp::Color { target, color } => txt("set_color("@) + emit(*target, p) + txt(
            ", vec3<f32>("@,
        ) + num(color[0]) + txt(", "@) + num(color[1]) + txt(", "@) + num(color[2]) + txt("))"@),
    }
}

/// The fragment entry point for `n` samples per pixel axis: one sample for
/// `n <= 1`, else an `n` by `n` grid of samples averaged.
pub open spec fn fs_main(n: u32) -> Seq<ChunkView> {
    if n <= 1 {
        txt(FS_MAIN_SINGLE@)
    } else {
        txt(FS_MAIN_MULTI_0@) + txt(decimal(n as nat)) + txt(FS_MAIN_MULTI_1@) + txt(
            decimal(n as nat),
        ) + txt(FS_MAIN_MULTI_2@) + txt(decimal(n as nat)) + txt(FS_MAIN_MULTI_3@)
    }
}

/// The generated shader code for the scene `root` at supersampling `ssaa`.
pub open spec fn shader(root: SdfNode, ssaa: SsaaLevel) -> Seq<ChunkView> {
    txt(SHADER_HEAD@) + emit(root, txt(POINT_VAR@)) + txt(SHADER_MID@) + fs_main(
        ssaa.samples_per_axis(),
    ) + txt(SHADER_TAIL@)
}

/// The full shader: `template` with every marker comment replaced by the
/// generated code.
pub open spec fn full_shader(template: Seq<char>, root: SdfNode, ssaa: SsaaLevel) -> Seq<
    ChunkView,
> {
    interleave(split_pieces(template, TEMPLATE_MARKER@), shader(root, ssaa))
}

/// Generator of WGSL code for a scene.
pub struct WgslGenerator;

impl WgslGenerator {
    pub fn new() -> (r: Self)
        ensures
            r == WgslGenerator,
    {
        WgslGenerator
    }

    /// The shader code for `root` with the fragment entry point of `ssaa`.
    pub fn generate(&mut self, root: &SdfNode, ssaa: SsaaLevel) -> (r: Code)
        ensures
            *final(self) == *old(self),
            r@ == shader(*root, ssaa),
    {
        let p = Code::from_text(POINT_VAR);
        let map_expr = self.emit_expression(root, &p);
        let n = ssaa.to_u32();
        let fs = fs_main_code(n);
        let mut out = Code::from_text(SHADER_HEAD);
        out.append(map_expr);
        out.push_text(SHADER_MID);
        out.append(fs);
        out.push_text(SHADER_TAIL);
        out
    }

    /// The expression for `node` at the point expression `p_var`.
    pub fn emit_expression(&self, node: &SdfNode, p_var: &Code) -> (r: Code)
        ensures
            r@ == emit(*node, p_var@),
        decreases node,
    {
        match &node.op {
            SdfOp::Sphere { radius } => {
                let mut r = Code::from_text("SdfResult(sd_sphere(");
                r.append_copy(p_var);
                r.push_text(", ");
                r.push_number(*radius);
                r.push_text(PRIMITIVE_TAIL);
                r
            },
            SdfOp::Box { size } => {
                let mut r = Code::from_text("SdfResult(sd_box(");
                r.append_copy(p_var);
                r.push_text(", vec3<f32>(");
                r.push_number(size[0]);
                r.push_text(", ");
                r.push_number(size[1]);
                r.push_text(", ");
                r.push_number(size[2]);
                r.push_text(")");
                r.push_text(PRIMITIVE_TAIL);
                r
            },
            SdfOp::Cylinder { radius, height } => {
                let mut r = Code::from_text("SdfResult(sd_cylinder(");
                r.append_copy(p_var);
                r.push_text(", ");
                r.push_number(*radius);
                r.push_text(", ");
                r.push_number(*height);
                r.push_text(PRIMITIVE_TAIL);
                r
            },
            SdfOp::Torus { major_radius, minor_radius } => {
                let mut r = Code::from_text("SdfResult(sd_torus(");
                r.append_copy(p_var);
                r.push_text(", vec2<f32>(");
                r.push_number(*major_radius);
                r.push_text(", ");
                r.push_number(*minor_radius);
                r.push_text(")");
                r.push_text(PRIMITIVE_TAIL);
                r
            },
            SdfOp::Union { a, b, smooth } => {
                let res1 = self.emit_expression(a, p_var);
                let res2 = self.emit_expression(b, p_var);
                if f32_gt(*smooth, ZERO_BITS) {
                    smooth_call_code("op_union_smooth(", res1, res2, *smooth)
                } else {
                    binary_call_code("op_union(", res1, res2)
                }
            },
            SdfOp::Subtract { a, b, smooth } => {
                let res1 = self.emit_expression(a, p_var);
                let res2 = self.emit_expression(b, p_var);
                if f32_gt(*smooth, ZERO_BITS) {
                    smooth_call_code("op_subtract_smooth(", res1, res2, *smooth)
                } else {
                    binary_call_code("op_subtract(", res1, res2)
                }
            },
            SdfOp::Intersect { a, b, smooth: _ } => {
                let res1 = self.emit_expression(a, p_var);
                let res2 = self.emit_expression(b, p_var);
                binary_call_code("op_intersect(", res1, res2)
            },
            SdfOp::Translate { target, offset } => {
                let mut new_p = Code::from_text("(");
                new_p.append_copy(p_var);
                new_p.push_text(" - vec3<f32>(");
                new_p.push_number(offset[0]);
                new_p.push_text(", ");
                new_p.push_number(offset[1]);
                new_p.push_text(", ");
                new_p.push_number(offset[2]);
                new_p.push_text("))");
                self.emit_expression(target, &new_p)
            },
            SdfOp::Rotate { target, axis, angle_deg } => {
                let rad_bits = f32_neg(*angle_deg);
                let call = if f32_gt(axis[0], POINT_NINE_BITS) {
                    "rotate_x("
                } else if f32_gt(axis[1], POINT_NINE_BITS) {
                    "rotate_y("
                } else {
                    "rotate_z("
                };
                let mut new_p = Code::from_text(call);
                new_p.append_copy(p_var);
                new_p.push_text(", ");
                new_p.push_radians(rad_bits);
                new_p.push_text(")");
                self.emit_expression(target, &new_p)
            },
            SdfOp::Mirror { target, axis } => {
                let mut new_p = Code::from_text("vec3<f32>(");
                push_mirror_part(&mut new_p, p_var, ".x", f32_gt(axis[0], POINT_NINE_BITS));
                new_p.push_text(", ");
                push_mirror_part(&mut new_p, p_var, ".y", f32_gt(axis[1], POINT_NINE_BITS));
                new_p.push_text(", ");
                push_mirror_part(&mut new_p, p_var, ".z", f32_gt(axis[2], POINT_NINE_BITS));
                new_p.push_text(")");
                proof {
                    assert(new_p@ =~= mirrored_point(p_var@, *axis));
                }
                self.emit_expression(target, &new_p)
            },
            SdfOp::Color { target, color } => {
                let res = self.emit_expression(target, p_var);
                let mut r = Code::from_text("set_color(");
                r.append(res);
                r.push_text(", vec3<f32>(");
                r.push_number(color[0]);
                r.push_text(", ");
                r.push_number(color[1]);
                r.push_text(", ");
                r.push_number(color[2]);
                r.push_text("))");
                r
            },
        }
    }
}

fn binary_call_code(name: &str, r1: Code, r2: Code) -> (r: Code)
    ensures
        r@ == binary_call(name@, r1@, r2@),
{
    let mut r = Code::from_text(name);
    r.append(r1);
    r.push_text(", ");
    r.append(r2);
    r.push_text(")");
    r
}

fn smooth_call_code(name: &str, r1: Code, r2: Code, k: u32) -> (r: Code)
    ensures
        r@ == smooth_call(name@, r1@, r2@, k),
{
    let mut r = Code::from_text(name);
    r.append(r1);
    r.push_text(", ");
    r.append(r2);
    r.push_text(", ");
    r.push_number(k);
    r.push_text(")");
    r
}

fn push_mirror_part(out: &mut Code, p: &Code, component: &str, mirrored: bool)
    ensures
        final(out)@ == old(out)@ + mirror_part(p@, component@, mirrored),
{
    if mirrored {
        out.push_text("abs(");
        out.append_copy(p);
        out.push_text(component);
        out.push_text(")");
    } else {
        out.append_copy(p);
        out.push_text(component);
    }
    assert(out@ =~= old(out)@ + mirror_part(p@, component@, mirrored));
}

/// The code of the fragment entry point for `n` samples per pixel axis.
fn fs_main_code(n: u32) -> (r: Code)
    ensures
        r@ == fs_main(n),
{
    if n <= 1 {
        Code::from_text(FS_MAIN_SINGLE)
    } else {
        let mut r = Code::from_text(FS_MAIN_MULTI_0);
        r.push_string(decimal_string(n));
        r.push_text(FS_MAIN_MULTI_1);
        r.push_string(decimal_string(n));
        r.push_text(FS_MAIN_MULTI_2);
        r.push_string(decimal_string(n));
        r.push_text(FS_MAIN_MULTI_3);
        r
    }
}

/// The full shader source: `template` with every occurrence of the marker
/// comment replaced by the code generated for `root` at `ssaa`.
pub fn build_shader(template: &str, root: &SdfNode, ssaa: SsaaLevel) -> (r: Code)
    ensures
        r@ == full_shader(template@, *root, ssaa),
{
    let mut generator = WgslGenerator::new();
    let generated = generator.generate(root, ssaa);
    proof {
        reveal_strlit("// {{GENERATED_CODE_HERE}}");
    }
    replace_marker(template, TEMPLATE_MARKER, &generated)
}

} // verus!
