//! Parenthesis balance of generated expressions: every scene expression
//! closes each parenthesis that it opens, and never closes one it did not
//! open, provided the point expression it is built around does the same.
//! Only text chunks count; numbers print without parentheses.
use vstd::prelude::*;
use crate::code::{ChunkView, txt, num, rad};
use crate::float_bits::{spec_f32_gt, spec_f32_neg, POINT_NINE_BITS};
use crate::sdf_ast::{SdfNode, SdfOp};
use crate::wgsl_gen::{
    binary_call, emit, mirror_part, mirrored_point, rotate_call, rotated_point, smooth_call,
    translated_point, PRIMITIVE_TAIL, POINT_VAR,
};

verus! {

pub open spec fn paren_delta(c: char) -> int {
    if c == '(' {
        1
    } else if c == ')' {
        -1
    } else {
        0
    }
}

/// Opened minus closed parentheses of `s`.
pub open spec fn depth(s: Seq<char>) -> int
    decreases s.len(),
{
    if s.len() == 0 {
        0
    } else {
        paren_delta(s[0]) + depth(s.drop_first())
    }
}

/// The least nesting depth over all prefixes of `s` (the empty one included).
pub open spec fn min_depth(s: Seq<char>) -> int
    decreases s.len(),
{
    if s.len() == 0 {
        0
    } else {
        let rest = paren_delta(s[0]) + min_depth(s.drop_first());
        if rest < 0 {
            rest
        } else {
            0
        }
    }
}

/// The text of a chunk sequence, leaving out the numbers.
pub open spec fn text_of(cs: Seq<ChunkView>) -> Seq<char>
    decreases cs.len(),
{
    if cs.len() == 0 {
        Seq::<char>::empty()
    } else {
        let head = match cs[0] {
            ChunkView::Text(s) => s,
            _ => Seq::<char>::empty(),
        };
        head + text_of(cs.drop_first())
    }
}

/// The parentheses of the text chunks of `cs` are balanced.
pub open spec fn balanced(cs: Seq<ChunkView>) -> bool {
    d(cs) == 0 && md(cs) >= 0
}

pub open spec fn d(cs: Seq<ChunkView>) -> int {
    depth(text_of(cs))
}

pub open spec fn md(cs: Seq<ChunkView>) -> int {
    min_depth(text_of(cs))
}

proof fn lemma_text_concat(a: Seq<ChunkView>, b: Seq<ChunkView>)
    ensures
        text_of(a + b) == text_of(a) + text_of(b),
    decreases a.len(),
{
    if a.len() == 0 {
        assert(a + b =~= b);
        assert(text_of(a) + text_of(b) =~= text_of(b));
    } else {
        assert((a + b).drop_first() =~= a.drop_first() + b);
        lemma_text_concat(a.drop_first(), b);
        let head = match a[0] {
            ChunkView::Text(s) => s,
            _ => Seq::<char>::empty(),
        };
        assert((a + b)[0] == a[0]);
        assert(head + (text_of(a.drop_first()) + text_of(b)) =~= (head + text_of(a.drop_first()))
            + text_of(b));
    }
}

proof fn lemma_chars_concat(a: Seq<char>, b: Seq<char>)
    ensures
        depth(a + b) == depth(a) + depth(b),
        min_depth(a + b) == (if min_depth(a) < depth(a) + min_depth(b) {
            min_depth(a)
        } else {
            depth(a) + min_depth(b)
        }),
    decreases a.len(),
{
    if a.len() == 0 {
        assert(a + b =~= b);
    } else {
        assert((a + b).drop_first() =~= a.drop_first() + b);
        assert((a + b)[0] == a[0]);
        lemma_chars_concat(a.drop_first(), b);
    }
}

/// Depth of a concatenation.
pub broadcast proof fn lemma_concat_depth(a: Seq<ChunkView>, b: Seq<ChunkView>)
    ensures
        #[trigger] d(a + b) == d(a) + d(b),
{
    lemma_text_concat(a, b);
    lemma_chars_concat(text_of(a), text_of(b));
}

/// Least depth of a concatenation.
pub broadcast proof fn lemma_concat_min_depth(a: Seq<ChunkView>, b: Seq<ChunkView>)
    ensures
        #[trigger] md(a + b) == (if md(a) < d(a) + md(b) {
            md(a)
        } else {
            d(a) + md(b)
        }),
{
    lemma_text_concat(a, b);
    lemma_chars_concat(text_of(a), text_of(b));
}

proof fn lemma_txt(s: Seq<char>)
    ensures
        text_of(txt(s)) == s,
{
    assert(txt(s).drop_first() =~= Seq::<ChunkView>::empty());
    assert(text_of(Seq::<ChunkView>::empty()) == Seq::<char>::empty());
    assert(txt(s)[0] == ChunkView::Text(s));
    assert(text_of(txt(s)) == s + text_of(txt(s).drop_first()));
    assert(s + Seq::<char>::empty() =~= s);
}

/// Numbers contribute no parentheses.
proof fn lemma_numbers(b: u32)
    ensures
        d(num(b)) == 0,
        md(num(b)) == 0,
        d(rad(b)) == 0,
        md(rad(b)) == 0,
{
    assert(num(b).drop_first() =~= Seq::<ChunkView>::empty());
    assert(rad(b).drop_first() =~= Seq::<ChunkView>::empty());
    assert(text_of(Seq::<ChunkView>::empty()) == Seq::<char>::empty());
    assert(text_of(num(b)) == Seq::<char>::empty() + text_of(num(b).drop_first()));
    assert(text_of(rad(b)) == Seq::<char>::empty() + text_of(rad(b).drop_first()));
    assert(text_of(num(b)) =~= Seq::<char>::empty());
    assert(text_of(rad(b)) =~= Seq::<char>::empty());
}

/// Text opening one parenthesis and never going below its start.
pub open spec fn opener(s: Seq<char>) -> bool {
    d(txt(s)) == 1 && md(txt(s)) == 0
}

/// Text without parentheses.
pub open spec fn plain(s: Seq<char>) -> bool {
    d(txt(s)) == 0 && md(txt(s)) == 0
}

proof fn lemma_literals()
    ensures
        d(txt("SdfResult(sd_sphere("@)) == 2 && md(txt("SdfResult(sd_sphere("@)) == 0,
        d(txt("SdfResult(sd_box("@)) == 2 && md(txt("SdfResult(sd_box("@)) == 0,
        d(txt("SdfResult(sd_cylinder("@)) == 2 && md(txt("SdfResult(sd_cylinder("@)) == 0,
        d(txt("SdfResult(sd_torus("@)) == 2 && md(txt("SdfResult(sd_torus("@)) == 0,
        d(txt(PRIMITIVE_TAIL@)) == -2 && md(txt(PRIMITIVE_TAIL@)) == -2,
        d(txt(")"@)) == -1 && md(txt(")"@)) == -1,
        d(txt("))"@)) == -2 && md(txt("))"@)) == -2,
        plain(", "@),
        plain(".x"@),
        plain(".y"@),
        plain(".z"@),
        plain(POINT_VAR@),
        opener(", vec3<f32>("@),
        opener(", vec2<f32>("@),
        opener("op_union_smooth("@),
        opener("op_union("@),
        opener("op_subtract_smooth("@),
        opener("op_subtract("@),
        opener("op_intersect("@),
        opener("("@),
        opener(" - vec3<f32>("@),
        opener("rotate_x("@),
        opener("rotate_y("@),
        opener("rotate_z("@),
        opener("vec3<f32>("@),
        opener("abs("@),
        opener("set_color("@),
{
    reveal_with_fuel(depth, 32);
    reveal_with_fuel(min_depth, 32);
    reveal_strlit("SdfResult(sd_sphere(");
    reveal_strlit("SdfResult(sd_box(");
    reveal_strlit("SdfResult(sd_cylinder(");
    reveal_strlit("SdfResult(sd_torus(");
    reveal_strlit("), vec3<f32>(0.2, 0.55, 1.0))");
    reveal_strlit(")");
    reveal_strlit("))");
    reveal_strlit(", ");
    reveal_strlit(".x");
    reveal_strlit(".y");
    reveal_strlit(".z");
    reveal_strlit("p_in");
    reveal_strlit(", vec3<f32>(");
    reveal_strlit(", vec2<f32>(");
    reveal_strlit("op_union_smooth(");
    reveal_strlit("op_union(");
    reveal_strlit("op_subtract_smooth(");
    reveal_strlit("op_subtract(");
    reveal_strlit("op_intersect(");
    reveal_strlit("(");
    reveal_strlit(" - vec3<f32>(");
    reveal_strlit("rotate_x(");
    reveal_strlit("rotate_y(");
    reveal_strlit("rotate_z(");
    reveal_strlit("vec3<f32>(");
    reveal_strlit("abs(");
    reveal_strlit("set_color(");
    lemma_txt("SdfResult(sd_sphere("@);
    lemma_txt("SdfResult(sd_box("@);
    lemma_txt("SdfResult(sd_cylinder("@);
    lemma_txt("SdfResult(sd_torus("@);
    lemma_txt(PRIMITIVE_TAIL@);
    lemma_txt(")"@);
    lemma_txt("))"@);
    lemma_txt(", "@);
    lemma_txt(".x"@);
    lemma_txt(".y"@);
    lemma_txt(".z"@);
    lemma_txt(POINT_VAR@);
    lemma_txt(", vec3<f32>("@);
    lemma_txt(", vec2<f32>("@);
    lemma_txt("op_union_smooth("@);
    lemma_txt("op_union("@);
    lemma_txt("op_subtract_smooth("@);
    lemma_txt("op_subtract("@);
    lemma_txt("op_intersect("@);
    lemma_txt("("@);
    lemma_txt(" - vec3<f32>("@);
    lemma_txt("rotate_x("@);
    lemma_txt("rotate_y("@);
    lemma_txt("rotate_z("@);
    lemma_txt("vec3<f32>("@);
    lemma_txt("abs("@);
    lemma_txt("set_color("@);
}

proof fn lemma_mirror_part(p: Seq<ChunkView>, component: Seq<char>, mirrored: bool)
    requires
        balanced(p),
        plain(component),
    ensures
        balanced(mirror_part(p, component, mirrored)),
{
    broadcast use {lemma_concat_depth, lemma_concat_min_depth};

    lemma_literals();
}

proof fn lemma_point_exprs(p: Seq<ChunkView>, axis: [u32; 3], offset: [u32; 3], deg: u32)
    requires
        balanced(p),
    ensures
        balanced(translated_point(p, offset)),
        balanced(rotated_point(p, axis, deg)),
        balanced(mirrored_point(p, axis)),
{
    broadcast use {lemma_concat_depth, lemma_concat_min_depth};

    lemma_literals();
    lemma_numbers(offset[0]);
    lemma_numbers(offset[1]);
    lemma_numbers(offset[2]);
    lemma_numbers(spec_f32_neg(deg));
    assert(opener(rotate_call(axis)));
    lemma_mirror_part(p, ".x"@, spec_f32_gt(axis[0], POINT_NINE_BITS));
    lemma_mirror_part(p, ".y"@, spec_f32_gt(axis[1], POINT_NINE_BITS));
    lemma_mirror_part(p, ".z"@, spec_f32_gt(axis[2], POINT_NINE_BITS));
}

proof fn lemma_calls(name: Seq<char>, r1: Seq<ChunkView>, r2: Seq<ChunkView>, k: u32)
    requires
        opener(name),
        balanced(r1),
        balanced(r2),
    ensures
        balanced(binary_call(name, r1, r2)),
        balanced(smooth_call(name, r1, r2, k)),
{
    broadcast use {lemma_concat_depth, lemma_concat_min_depth};

    lemma_literals();
    lemma_numbers(k);
}

/// Around a point expression with balanced parentheses, the expression
/// generated for any scene has balanced parentheses.
pub proof fn law_emit_balanced(node: SdfNode, p: Seq<ChunkView>)
    requires
        balanced(p),
    ensures
        balanced(emit(node, p)),
    decreases node,
{
    broadcast use {lemma_concat_depth, lemma_concat_min_depth};

    lemma_literals();
    match node.op {
        SdfOp::Sphere { radius } => {
            lemma_numbers(radius);
        },
        SdfOp::Box { size } => {
            lemma_numbers(size[0]);
            lemma_numbers(size[1]);
            lemma_numbers(size[2]);
        },
        SdfOp::Cylinder { radius, height } => {
            lemma_numbers(radius);
            lemma_numbers(height);
        },
        SdfOp::Torus { major_radius, minor_radius } => {
            lemma_numbers(major_radius);
            lemma_numbers(minor_radius);
        },
        SdfOp::Union { a, b, smooth } => {
            law_emit_balanced(*a, p);
            law_emit_balanced(*b, p);
            lemma_calls("op_union_smooth("@, emit(*a, p), emit(*b, p), smooth);
            lemma_calls("op_union("@, emit(*a, p), emit(*b, p), smooth);
        },
        SdfOp::Subtract { a, b, smooth } => {
            law_emit_balanced(*a, p);
            law_emit_balanced(*b, p);
            lemma_calls("op_subtract_smooth("@, emit(*a, p), emit(*b, p), smooth);
            lemma_calls("op_subtract("@, emit(*a, p), emit(*b, p), smooth);
        },
        SdfOp::Intersect { a, b, smooth } => {
            law_emit_balanced(*a, p);
            law_emit_balanced(*b, p);
            lemma_calls("op_intersect("@, emit(*a, p), emit(*b, p), smooth);
        },
        SdfOp::Translate { target, offset } => {
            lemma_point_exprs(p, offset, offset, 0);
            law_emit_balanced(*target, translated_point(p, offset));
        },
        SdfOp::Rotate { target, axis, angle_deg } => {
            lemma_point_exprs(p, axis, axis, angle_deg);
            law_emit_balanced(*target, rotated_point(p, axis, angle_deg));
        },
        SdfOp::Mirror { target, axis } => {
            lemma_point_exprs(p, axis, axis, 0);
            law_emit_balanced(*target, mirrored_point(p, axis));
        },
        SdfOp::Color { target, color } => {
            law_emit_balanced(*target, p);
            lemma_numbers(color[0]);
            lemma_numbers(color[1]);
            lemma_numbers(color[2]);
        },
    }
}

/// The scene expression of every generated shader, built around the point
/// variable `p_in`, has balanced parentheses.
pub proof fn law_scene_expression_balanced(root: SdfNode)
    ensures
        balanced(emit(root, txt(POINT_VAR@))),
{
    lemma_literals();
    law_emit_balanced(root, txt(POINT_VAR@));
}

} // verus!
