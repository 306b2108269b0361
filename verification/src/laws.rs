//! Properties of the library that span several functions, proved over the
//! spec functions that their contracts use.
use vstd::prelude::*;
use crate::code::{ChunkView, txt, num, rad};
use crate::float_bits::{
    lemma_order_key_is_f32_order, is_nan, spec_f32_gt, spec_f32_neg, ONE_BITS, POINT_NINE_BITS,
    ZERO_BITS,
};
use crate::sdf_ast::{SdfNode, SdfOp, SsaaLevel, axis_x, axis_y, axis_z};
use crate::tab::TabState;
use crate::text::{
    contains, interleave, join, lemma_split_scan_nonempty, occurs_at, split_pieces, split_scan,
};
use crate::wgsl_gen::{
    binary_call, emit, full_shader, shader, FS_MAIN_MULTI_0, FS_MAIN_MULTI_1, FS_MAIN_MULTI_2,
    FS_MAIN_MULTI_3, FS_MAIN_SINGLE, POINT_VAR, PRIMITIVE_TAIL, SHADER_HEAD, SHADER_MID,
    SHADER_TAIL, TEMPLATE_MARKER,
};

verus! {

/// The components of the unit axes compare with the 0.9 threshold as the
/// real numbers do: `1.0 > 0.9`, `0.0 > 0.9` is false, and `0.0 > 0.0` is false.
pub proof fn lemma_unit_components()
    ensures
        spec_f32_gt(ONE_BITS, POINT_NINE_BITS),
        !spec_f32_gt(ZERO_BITS, POINT_NINE_BITS),
        !spec_f32_gt(ZERO_BITS, ZERO_BITS),
{
    lemma_order_key_is_f32_order(ONE_BITS, POINT_NINE_BITS);
    lemma_order_key_is_f32_order(ZERO_BITS, POINT_NINE_BITS);
    lemma_order_key_is_f32_order(ZERO_BITS, ZERO_BITS);
}

/// The float comparison is a strict order: never `a > a`, never both
/// `a > b` and `b > a`, and `a > b > c` gives `a > c`.
pub proof fn law_f32_gt_strict_order(a: u32, b: u32, c: u32)
    ensures
        !spec_f32_gt(a, a),
        spec_f32_gt(a, b) ==> !spec_f32_gt(b, a),
        spec_f32_gt(a, b) && spec_f32_gt(b, c) ==> spec_f32_gt(a, c),
{
    if !is_nan(a) {
        lemma_order_key_is_f32_order(a, a);
    }
    if !is_nan(a) && !is_nan(b) {
        lemma_order_key_is_f32_order(a, b);
        lemma_order_key_is_f32_order(b, a);
    }
    if !is_nan(a) && !is_nan(b) && !is_nan(c) {
        lemma_order_key_is_f32_order(b, c);
        lemma_order_key_is_f32_order(a, c);
    }
}

/// Negating twice gives back the same bits.
pub proof fn law_f32_neg_involution(b: u32)
    ensures
        spec_f32_neg(spec_f32_neg(b)) == b,
{
}

/// A rotation built about a named axis makes its child read the point through
/// the rotation helper of that axis, turned back by the angle.
pub proof fn law_rotation_axis(n: SdfNode, deg: u32, p: Seq<ChunkView>)
    ensures
        emit(SdfNode { op: SdfOp::Rotate { target: Box::new(n), axis: axis_x(), angle_deg: deg } }, p)
            == emit(n, txt("rotate_x("@) + p + txt(", "@) + rad(spec_f32_neg(deg)) + txt(")"@)),
        emit(SdfNode { op: SdfOp::Rotate { target: Box::new(n), axis: axis_y(), angle_deg: deg } }, p)
            == emit(n, txt("rotate_y("@) + p + txt(", "@) + rad(spec_f32_neg(deg)) + txt(")"@)),
        emit(SdfNode { op: SdfOp::Rotate { target: Box::new(n), axis: axis_z(), angle_deg: deg } }, p)
            == emit(n, txt("rotate_z("@) + p + txt(", "@) + rad(spec_f32_neg(deg)) + txt(")"@)),
{
    lemma_unit_components();
}

/// A mirror built across a named plane takes the absolute value of that
/// coordinate only.
pub proof fn law_mirror_axis(n: SdfNode, p: Seq<ChunkView>)
    ensures
        emit(SdfNode { op: SdfOp::Mirror { target: Box::new(n), axis: axis_x() } }, p) == emit(
            n,
            txt("vec3<f32>("@) + (txt("abs("@) + p + txt(".x"@) + txt(")"@)) + txt(", "@) + (p
                + txt(".y"@)) + txt(", "@) + (p + txt(".z"@)) + txt(")"@),
        ),
        emit(SdfNode { op: SdfOp::Mirror { target: Box::new(n), axis: axis_y() } }, p) == emit(
            n,
            txt("vec3<f32>("@) + (p + txt(".x"@)) + txt(", "@) + (txt("abs("@) + p + txt(".y"@)
                + txt(")"@)) + txt(", "@) + (p + txt(".z"@)) + txt(")"@),
        ),
        emit(SdfNode { op: SdfOp::Mirror { target: Box::new(n), axis: axis_z() } }, p) == emit(
            n,
            txt("vec3<f32>("@) + (p + txt(".x"@)) + txt(", "@) + (p + txt(".y"@)) + txt(", "@) + (
            txt("abs("@) + p + txt(".z"@) + txt(")"@)) + txt(")"@),
        ),
{
    lemma_unit_components();
    assert(axis_z()[0] == ZERO_BITS && axis_z()[1] == ZERO_BITS && axis_z()[2] == ONE_BITS);
    assert(axis_y()[0] == ZERO_BITS && axis_y()[1] == ONE_BITS && axis_y()[2] == ZERO_BITS);
    assert(axis_x()[0] == ONE_BITS && axis_x()[1] == ZERO_BITS && axis_x()[2] == ZERO_BITS);
}

/// A blend radius that is not above zero (zero, negative or NaN) gives the
/// same code as the hard operation: `op_union(a, b)` or `op_subtract(a, b)`.
pub proof fn law_blend_not_positive_is_hard(a: SdfNode, b: SdfNode, k: u32, p: Seq<ChunkView>)
    requires
        !spec_f32_gt(k, ZERO_BITS),
    ensures
        emit(SdfNode { op: SdfOp::Union { a: Box::new(a), b: Box::new(b), smooth: k } }, p) == emit(
            SdfNode { op: SdfOp::Union { a: Box::new(a), b: Box::new(b), smooth: ZERO_BITS } },
            p,
        ),
        emit(SdfNode { op: SdfOp::Union { a: Box::new(a), b: Box::new(b), smooth: k } }, p)
            == binary_call("op_union("@, emit(a, p), emit(b, p)),
        emit(SdfNode { op: SdfOp::Subtract { a: Box::new(a), b: Box::new(b), smooth: k } }, p)
            == emit(
            SdfNode { op: SdfOp::Subtract { a: Box::new(a), b: Box::new(b), smooth: ZERO_BITS } },
            p,
        ),
        emit(SdfNode { op: SdfOp::Subtract { a: Box::new(a), b: Box::new(b), smooth: k } }, p)
            == binary_call("op_subtract("@, emit(a, p), emit(b, p)),
{
    lemma_unit_components();
}

/// Each primitive reads the point and its dimensions in the order they were
/// given, whatever their values: `sd_sphere(p, r)`, `sd_box(p, vec3(x, y, z))`,
/// `sd_cylinder(p, r, h)`, `sd_torus(p, vec2(major, minor))`, all with the
/// default primitive colour.
pub proof fn law_primitive_dimensions(
    r: u32,
    h: u32,
    x: u32,
    y: u32,
    z: u32,
    major: u32,
    minor: u32,
    p: Seq<ChunkView>,
)
    ensures
        emit(SdfNode { op: SdfOp::Sphere { radius: r } }, p) == txt("SdfResult(sd_sphere("@) + p
            + txt(", "@) + num(r) + txt(PRIMITIVE_TAIL@),
        emit(SdfNode { op: SdfOp::Box { size: [x, y, z] } }, p) == txt("SdfResult(sd_box("@) + p
            + txt(", vec3<f32>("@) + num(x) + txt(", "@) + num(y) + txt(", "@) + num(z) + txt(")"@)
            + txt(PRIMITIVE_TAIL@),
        emit(SdfNode { op: SdfOp::Cylinder { radius: r, height: h } }, p) == txt(
            "SdfResult(sd_cylinder("@,
        ) + p + txt(", "@) + num(r) + txt(", "@) + num(h) + txt(PRIMITIVE_TAIL@),
        emit(SdfNode { op: SdfOp::Torus { major_radius: major, minor_radius: minor } }, p) == txt(
            "SdfResult(sd_torus("@,
        ) + p + txt(", vec2<f32>("@) + num(major) + txt(", "@) + num(minor) + txt(")"@) + txt(
            PRIMITIVE_TAIL@,
        ),
{
    let b = [x, y, z];
    assert(b[0] == x && b[1] == y && b[2] == z);
}

/// A blend radius above zero gives the smooth operation with that radius:
/// `op_union_smooth(a, b, k)` and `op_subtract_smooth(a, b, k)`, for every
/// positive `k`; a radius that is not above zero gives `op_union(a, b)` and
/// `op_subtract(a, b)`.
pub proof fn law_blend_radius(a: SdfNode, b: SdfNode, k: u32, p: Seq<ChunkView>)
    ensures
        spec_f32_gt(k, ZERO_BITS) ==> emit(
            SdfNode { op: SdfOp::Union { a: Box::new(a), b: Box::new(b), smooth: k } },
            p,
        ) == txt("op_union_smooth("@) + emit(a, p) + txt(", "@) + emit(b, p) + txt(", "@) + num(k)
            + txt(")"@),
        spec_f32_gt(k, ZERO_BITS) ==> emit(
            SdfNode { op: SdfOp::Subtract { a: Box::new(a), b: Box::new(b), smooth: k } },
            p,
        ) == txt("op_subtract_smooth("@) + emit(a, p) + txt(", "@) + emit(b, p) + txt(", "@) + num(
            k,
        ) + txt(")"@),
        !spec_f32_gt(k, ZERO_BITS) ==> emit(
            SdfNode { op: SdfOp::Union { a: Box::new(a), b: Box::new(b), smooth: k } },
            p,
        ) == txt("op_union("@) + emit(a, p) + txt(", "@) + emit(b, p) + txt(")"@),
        !spec_f32_gt(k, ZERO_BITS) ==> emit(
            SdfNode { op: SdfOp::Subtract { a: Box::new(a), b: Box::new(b), smooth: k } },
            p,
        ) == txt("op_subtract("@) + emit(a, p) + txt(", "@) + emit(b, p) + txt(")"@),
        emit(SdfNode { op: SdfOp::Intersect { a: Box::new(a), b: Box::new(b), smooth: k } }, p)
            == txt("op_intersect("@) + emit(a, p) + txt(", "@) + emit(b, p) + txt(")"@),
{
}

/// A translation by `(x, y, z)` makes its child read `(p - vec3(x, y, z))`,
/// the offset components in that order whatever their values.
pub proof fn law_translation_offset(n: SdfNode, x: u32, y: u32, z: u32, p: Seq<ChunkView>)
    ensures
        emit(SdfNode { op: SdfOp::Translate { target: Box::new(n), offset: [x, y, z] } }, p)
            == emit(
            n,
            txt("("@) + p + txt(" - vec3<f32>("@) + num(x) + txt(", "@) + num(y) + txt(", "@) + num(
                z,
            ) + txt("))"@),
        ),
{
    let o = [x, y, z];
    assert(o[0] == x && o[1] == y && o[2] == z);
}

/// A colour node wraps its child's result in `set_color(.., vec3(r, g, b))`,
/// the components in the order given whatever their values.
pub proof fn law_color_components(n: SdfNode, r: u32, g: u32, b: u32, p: Seq<ChunkView>)
    ensures
        emit(SdfNode { op: SdfOp::Color { target: Box::new(n), color: [r, g, b] } }, p) == txt(
            "set_color("@,
        ) + emit(n, p) + txt(", vec3<f32>("@) + num(r) + txt(", "@) + num(g) + txt(", "@) + num(b)
            + txt("))"@),
{
    let c = [r, g, b];
    assert(c[0] == r && c[1] == g && c[2] == b);
}

/// The shader for any scene is the scene expression at `p_in` followed by
/// the fragment entry point of the supersampling level alone, whatever the
/// scene: one sample for `Off`, an `n` by `n` loop for `n` = 2, 4, 8.
pub proof fn law_fragment_entry_follows_ssaa(root: SdfNode)
    ensures
        shader(root, SsaaLevel::Off) == txt(SHADER_HEAD@) + emit(root, txt(POINT_VAR@)) + txt(
            SHADER_MID@,
        ) + txt(FS_MAIN_SINGLE@) + txt(SHADER_TAIL@),
        shader(root, SsaaLevel::Ssaa2x2) == txt(SHADER_HEAD@) + emit(root, txt(POINT_VAR@)) + txt(
            SHADER_MID@,
        ) + (txt(FS_MAIN_MULTI_0@) + txt(seq!['2']) + txt(FS_MAIN_MULTI_1@) + txt(seq!['2']) + txt(
            FS_MAIN_MULTI_2@,
        ) + txt(seq!['2']) + txt(FS_MAIN_MULTI_3@)) + txt(SHADER_TAIL@),
        shader(root, SsaaLevel::Ssaa4x4) == txt(SHADER_HEAD@) + emit(root, txt(POINT_VAR@)) + txt(
            SHADER_MID@,
        ) + (txt(FS_MAIN_MULTI_0@) + txt(seq!['4']) + txt(FS_MAIN_MULTI_1@) + txt(seq!['4']) + txt(
            FS_MAIN_MULTI_2@,
        ) + txt(seq!['4']) + txt(FS_MAIN_MULTI_3@)) + txt(SHADER_TAIL@),
        shader(root, SsaaLevel::Ssaa8x8) == txt(SHADER_HEAD@) + emit(root, txt(POINT_VAR@)) + txt(
            SHADER_MID@,
        ) + (txt(FS_MAIN_MULTI_0@) + txt(seq!['8']) + txt(FS_MAIN_MULTI_1@) + txt(seq!['8']) + txt(
            FS_MAIN_MULTI_2@,
        ) + txt(seq!['8']) + txt(FS_MAIN_MULTI_3@)) + txt(SHADER_TAIL@),
{
    assert(crate::text::decimal(2) == seq!['2']);
    assert(crate::text::decimal(4) == seq!['4']);
    assert(crate::text::decimal(8) == seq!['8']);
}

proof fn lemma_split_scan_join(s: Seq<char>, pat: Seq<char>, start: int, i: int)
    requires
        pat.len() > 0,
        0 <= start <= i <= s.len(),
    ensures
        join(split_scan(s, pat, start, i), pat) == s.subrange(start, s.len() as int),
    decreases s.len() - i,
{
    if i + pat.len() > s.len() {
    } else if occurs_at(s, pat, i) {
        let rest = split_scan(s, pat, i + pat.len(), i + pat.len());
        lemma_split_scan_join(s, pat, i + pat.len(), i + pat.len());
        lemma_split_scan_nonempty(s, pat, i + pat.len(), i + pat.len());
        lemma_join_cons(s.subrange(start, i), rest, pat);
        assert(s.subrange(start, s.len() as int) =~= s.subrange(start, i) + pat + s.subrange(
            i + pat.len(),
            s.len() as int,
        ));
    } else {
        lemma_split_scan_join(s, pat, start, i + 1);
    }
}

proof fn lemma_join_cons(p: Seq<char>, rest: Seq<Seq<char>>, sep: Seq<char>)
    requires
        rest.len() >= 1,
    ensures
        join(seq![p] + rest, sep) == p + sep + join(rest, sep),
    decreases rest.len(),
{
    let all = seq![p] + rest;
    assert(all.last() == rest.last());
    if rest.len() == 1 {
        assert(all.drop_last() =~= seq![p]);
        assert(join(seq![p], sep) == p);
        assert(join(rest, sep) == rest[0]);
    } else {
        assert(all.drop_last() =~= seq![p] + rest.drop_last());
        lemma_join_cons(p, rest.drop_last(), sep);
        let mid = join(rest.drop_last(), sep);
        assert((p + sep + mid) + sep + rest.last() =~= p + sep + (mid + sep + rest.last()));
    }
}

/// Splitting a text at a non-empty marker and joining the pieces with the
/// marker again gives back the text: the replacement keeps every character
/// of the template that is not part of a replaced marker.
pub proof fn law_split_join_roundtrip(s: Seq<char>, pat: Seq<char>)
    requires
        pat.len() > 0,
    ensures
        join(split_pieces(s, pat), pat) == s,
{
    lemma_split_scan_join(s, pat, 0, 0);
    assert(s.subrange(0, s.len() as int) =~= s);
}

proof fn lemma_scan_no_occurrence_from(s: Seq<char>, pat: Seq<char>, start: int, i: int)
    requires
        pat.len() > 0,
        0 <= start <= i,
        forall|j: int| i <= j ==> !occurs_at(s, pat, j),
    ensures
        split_scan(s, pat, start, i) == seq![s.subrange(start, s.len() as int)],
    decreases s.len() - i,
{
    if i + pat.len() > s.len() {
    } else {
        assert(!occurs_at(s, pat, i));
        lemma_scan_no_occurrence_from(s, pat, start, i + 1);
    }
}

proof fn lemma_scan_skip(s: Seq<char>, pat: Seq<char>, start: int, i: int, j: int)
    requires
        pat.len() > 0,
        0 <= start <= i <= j,
        j + pat.len() <= s.len(),
        forall|x: int| i <= x < j ==> !occurs_at(s, pat, x),
    ensures
        split_scan(s, pat, start, i) == split_scan(s, pat, start, j),
    decreases j - i,
{
    if i < j {
        assert(!occurs_at(s, pat, i));
        lemma_scan_skip(s, pat, start, i + 1, j);
    }
}

/// A template without the marker comment is kept whole: the full shader is
/// the template alone, and the generated code does not appear.
pub proof fn law_template_without_marker(template: Seq<char>, root: SdfNode, ssaa: SsaaLevel)
    requires
        !contains(template, TEMPLATE_MARKER@),
    ensures
        full_shader(template, root, ssaa) == txt(template),
{
    reveal_strlit("// {{GENERATED_CODE_HERE}}");
    lemma_scan_no_occurrence_from(template, TEMPLATE_MARKER@, 0, 0);
    assert(template.subrange(0, template.len() as int) =~= template);
    assert(split_pieces(template, TEMPLATE_MARKER@) == seq![template]);
}

/// A template with the marker comment at `k` and nowhere else becomes the
/// text before it, the generated code, and the text after it.
pub proof fn law_template_single_marker(
    template: Seq<char>,
    k: int,
    root: SdfNode,
    ssaa: SsaaLevel,
)
    requires
        occurs_at(template, TEMPLATE_MARKER@, k),
        forall|j: int| j != k ==> !occurs_at(template, TEMPLATE_MARKER@, j),
    ensures
        full_shader(template, root, ssaa) == txt(template.subrange(0, k)) + shader(root, ssaa)
            + txt(template.subrange(k + TEMPLATE_MARKER@.len(), template.len() as int)),
{
    reveal_strlit("// {{GENERATED_CODE_HERE}}");
    let pat = TEMPLATE_MARKER@;
    let m = pat.len() as int;
    let before = template.subrange(0, k);
    let after = template.subrange(k + m, template.len() as int);
    lemma_scan_skip(template, pat, 0, 0, k);
    lemma_scan_no_occurrence_from(template, pat, k + m, k + m);
    let pieces = split_pieces(template, pat);
    assert(pieces == seq![before] + seq![after]);
    assert(pieces =~= seq![before, after]);
    assert(pieces.drop_last() =~= seq![before]);
    let code = shader(root, ssaa);
    assert(interleave(seq![before], code) == txt(before));
}

/// After a compilation recorded at supersampling `level`, the tab asks for
/// no further compilation while the setting stays at `level`.
pub proof fn law_no_recompile_at_applied_level(state: TabState, level: SsaaLevel, has_project: bool)
    requires
        state.last_applied_ssaa == level,
    ensures
        !(level != state.last_applied_ssaa && has_project),
{
}

} // verus!
