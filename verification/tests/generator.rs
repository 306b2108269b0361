use sdf_modeler::code::{Chunk, Code};
use sdf_modeler::sdf_ast::{SdfNode, SdfOp, SsaaLevel};
use sdf_modeler::wgsl_gen::{build_shader, WgslGenerator};

fn f(b: u32) -> f32 {
    f32::from_bits(b)
}

fn b(x: f32) -> u32 {
    x.to_bits()
}

/// Prints generated code the way the shader text shows it.
fn render(code: &Code) -> String {
    let mut s = String::new();
    for c in &code.chunks {
        match c {
            Chunk::Text(t) => s.push_str(t),
            Chunk::Number(n) => s.push_str(&format!("{:.4}", f(*n))),
            Chunk::Radians(n) => s.push_str(&format!("{:.4}", f(*n).to_radians())),
        }
    }
    s
}

/// The expected expression text, computed directly on the floats.
fn expected_expr(node: &SdfNode, p_var: &str) -> String {
    match &node.op {
        SdfOp::Sphere { radius } => {
            let radius = f(*radius);
            format!("SdfResult(sd_sphere({p_var}, {radius:.4}), vec3<f32>(0.2, 0.55, 1.0))")
        }
        SdfOp::Box { size } => format!(
            "SdfResult(sd_box({p_var}, vec3<f32>({:.4}, {:.4}, {:.4})), vec3<f32>(0.2, 0.55, 1.0))",
            f(size[0]),
            f(size[1]),
            f(size[2])
        ),
        SdfOp::Cylinder { radius, height } => {
            let (radius, height) = (f(*radius), f(*height));
            format!("SdfResult(sd_cylinder({p_var}, {radius:.4}, {height:.4}), vec3<f32>(0.2, 0.55, 1.0))")
        }
        SdfOp::Torus { major_radius, minor_radius } => {
            let (major_radius, minor_radius) = (f(*major_radius), f(*minor_radius));
            format!("SdfResult(sd_torus({p_var}, vec2<f32>({major_radius:.4}, {minor_radius:.4})), vec3<f32>(0.2, 0.55, 1.0))")
        }
        SdfOp::Union { a, b, smooth } => {
            let res1 = expected_expr(a, p_var);
            let res2 = expected_expr(b, p_var);
            let smooth = f(*smooth);
            if smooth > 0.0 {
                format!("op_union_smooth({res1}, {res2}, {smooth:.4})")
            } else {
                format!("op_union({res1}, {res2})")
            }
        }
        SdfOp::Subtract { a, b, smooth } => {
            let res1 = expected_expr(a, p_var);
            let res2 = expected_expr(b, p_var);
            let smooth = f(*smooth);
            if smooth > 0.0 {
                format!("op_subtract_smooth({res1}, {res2}, {smooth:.4})")
            } else {
                format!("op_subtract({res1}, {res2})")
            }
        }
        SdfOp::Intersect { a, b, .. } => {
            let res1 = expected_expr(a, p_var);
            let res2 = expected_expr(b, p_var);
            format!("op_intersect({res1}, {res2})")
        }
        SdfOp::Translate { target, offset } => {
            let new_p = format!(
                "({p_var} - vec3<f32>({:.4}, {:.4}, {:.4}))",
                f(offset[0]),
                f(offset[1]),
                f(offset[2])
            );
            expected_expr(target, &new_p)
        }
        SdfOp::Rotate { target, axis, angle_deg } => {
            let rad = (-f(*angle_deg)).to_radians();
            let axis_name = if f(axis[0]) > 0.9 {
                "x"
            } else if f(axis[1]) > 0.9 {
                "y"
            } else {
                "z"
            };
            let new_p = format!("rotate_{axis_name}({p_var}, {rad:.4})");
            expected_expr(target, &new_p)
        }
        SdfOp::Mirror { target, axis } => {
            let mut p_parts = [format!("{p_var}.x"), format!("{p_var}.y"), format!("{p_var}.z")];
            if f(axis[0]) > 0.9 {
                p_parts[0] = format!("abs({})", p_parts[0]);
            }
            if f(axis[1]) > 0.9 {
                p_parts[1] = format!("abs({})", p_parts[1]);
            }
            if f(axis[2]) > 0.9 {
                p_parts[2] = format!("abs({})", p_parts[2]);
            }
            let new_p = format!("vec3<f32>({}, {}, {})", p_parts[0], p_parts[1], p_parts[2]);
            expected_expr(target, &new_p)
        }
        SdfOp::Color { target, color } => {
            let res = expected_expr(target, p_var);
            format!(
                "set_color({}, vec3<f32>({:.4}, {:.4}, {:.4}))",
                res,
                f(color[0]),
                f(color[1]),
                f(color[2])
            )
        }
    }
}

fn expected_shader(root: &SdfNode, n: u32) -> String {
    let map_expr = expected_expr(root, "p_in");
    let fs_main = if n <= 1 {
        format!(
            "@fragment
                fn fs_main(in: VertexOutput) -> @location(0) vec4<f32> {{
                    let pixel_pos = in.clip_position.xy;
                    let rect_min = uniforms.rect_data.xy;
                    let rect_size = uniforms.rect_data.zw;
                    let aspect = rect_size.x / rect_size.y;
                    let uv = (((pixel_pos - rect_min) / rect_size) * 2.0 - 1.0) * vec2<f32>(aspect, -1.0);
                    return vec4<f32>(render_scene(uv), 1.0);
                }}"
        )
    } else {
        format!(
            "@fragment
                fn fs_main(in: VertexOutput) -> @location(0) vec4<f32> {{
                    let pixel_pos = in.clip_position.xy;
                    let rect_min = uniforms.rect_data.xy;
                    let rect_size = uniforms.rect_data.zw;
                    let aspect = rect_size.x / rect_size.y;
                    var total_color = vec3<f32>(0.0);
                    let n: f32 = {n}.0;
                    for (var iy: i32 = 0; iy < {n}; iy = iy + 1) {{
                        for (var ix: i32 = 0; ix < {n}; ix = ix + 1) {{
                            let offset = (vec2<f32>(f32(ix), f32(iy)) + 0.5) / n - 0.5;
                            let uv = (((pixel_pos + offset - rect_min) / rect_size) * 2.0 - 1.0) * vec2<f32>(aspect, -1.0);
                            total_color += render_scene(uv);
                        }}
                    }}
                    return vec4<f32>(total_color / (n * n), 1.0);
                }}",
            n = n
        )
    };
    format!(
        "struct SdfResult {{
                dist: f32,
                color: vec3<f32>,
            }}

            fn map(p_in: vec3<f32>) -> SdfResult {{
                return {};
            }}
            
            {}
            ",
        map_expr, fs_main
    )
}

fn emit(node: &SdfNode) -> String {
    let generator = WgslGenerator::new();
    render(&generator.emit_expression(node, &Code::from_text("p_in")))
}

fn sphere(r: f32) -> SdfNode {
    SdfNode::new_sphere(b(r))
}

/// A scene using every kind of node.
fn scenes() -> Vec<SdfNode> {
    let mut s = sphere(1.0);
    let mut bx = SdfNode::new_box(b(0.5), b(1.25), b(-2.0));
    let mut cyl = SdfNode::new_cylinder(b(0.3), b(2.0));
    let mut tor = SdfNode::new_torus(b(1.5), b(0.25));
    let mut u = s.union(bx.translate(b(1.0), b(-2.5), b(0.125)));
    let mut su = cyl.smooth_union(tor.rotate_x(b(45.0)), b(0.2));
    let mut sub = u.subtract(su.mirror_y());
    let mut ssub = sub.smooth_subtract(sphere(0.75).rotate_y(b(-30.0)), b(0.1));
    let inter = SdfNode {
        op: SdfOp::Intersect {
            a: Box::new(ssub.color(b(1.0), b(0.0), b(0.5))),
            b: Box::new(sphere(2.0).mirror_x().mirror_z().rotate_z(b(90.0))),
            smooth: b(0.3),
        },
    };
    let odd_axis = SdfNode {
        op: SdfOp::Rotate { target: Box::new(sphere(1.0)), axis: [b(0.5), b(0.95), b(0.0)], angle_deg: b(10.0) },
    };
    let odd_mirror = SdfNode {
        op: SdfOp::Mirror { target: Box::new(sphere(1.0)), axis: [b(0.95), b(0.95), b(0.91)] },
    };
    let nan_blend = sphere(1.0).smooth_union(sphere(2.0), b(f32::NAN));
    let negative_blend = sphere(1.0).smooth_subtract(sphere(2.0), b(-1.0));
    vec![
        sphere(1.0),
        sphere(-0.0),
        sphere(123.45678),
        inter,
        odd_axis,
        odd_mirror,
        nan_blend,
        negative_blend,
        sphere(f32::INFINITY),
    ]
}

#[test]
fn expressions_match_float_formatting() {
    for scene in scenes() {
        assert_eq!(emit(&scene), expected_expr(&scene, "p_in"));
    }
}

#[test]
fn sphere_expression() {
    assert_eq!(
        emit(&sphere(1.0)),
        "SdfResult(sd_sphere(p_in, 1.0000), vec3<f32>(0.2, 0.55, 1.0))"
    );
}

#[test]
fn translated_box_expression() {
    let node = SdfNode::new_box(b(1.0), b(2.0), b(3.0)).translate(b(0.5), b(0.0), b(-1.0));
    assert_eq!(
        emit(&node),
        "SdfResult(sd_box((p_in - vec3<f32>(0.5000, 0.0000, -1.0000)), vec3<f32>(1.0000, 2.0000, 3.0000)), vec3<f32>(0.2, 0.55, 1.0))"
    );
}

#[test]
fn rotation_uses_negated_radians() {
    let node = sphere(1.0).rotate_x(b(90.0));
    assert_eq!(
        emit(&node),
        "SdfResult(sd_sphere(rotate_x(p_in, -1.5708), 1.0000), vec3<f32>(0.2, 0.55, 1.0))"
    );
}

#[test]
fn mirror_takes_abs_of_named_axis() {
    let node = sphere(1.0).mirror_y();
    assert_eq!(
        emit(&node),
        "SdfResult(sd_sphere(vec3<f32>(p_in.x, abs(p_in.y), p_in.z), 1.0000), vec3<f32>(0.2, 0.55, 1.0))"
    );
}

#[test]
fn union_and_smooth_union() {
    let hard = sphere(1.0).union(sphere(2.0));
    assert_eq!(
        emit(&hard),
        "op_union(SdfResult(sd_sphere(p_in, 1.0000), vec3<f32>(0.2, 0.55, 1.0)), SdfResult(sd_sphere(p_in, 2.0000), vec3<f32>(0.2, 0.55, 1.0)))"
    );
    let smooth = sphere(1.0).smooth_union(sphere(2.0), b(0.25));
    assert_eq!(
        emit(&smooth),
        "op_union_smooth(SdfResult(sd_sphere(p_in, 1.0000), vec3<f32>(0.2, 0.55, 1.0)), SdfResult(sd_sphere(p_in, 2.0000), vec3<f32>(0.2, 0.55, 1.0)), 0.2500)"
    );
    // a blend radius that is not above zero gives the hard union
    let flat = sphere(1.0).smooth_union(sphere(2.0), b(-0.5));
    assert_eq!(emit(&flat), emit(&hard));
}

#[test]
fn colored_cylinder() {
    let node = SdfNode::new_cylinder(b(0.5), b(1.0)).color(b(1.0), b(0.5), b(0.0));
    assert_eq!(
        emit(&node),
        "set_color(SdfResult(sd_cylinder(p_in, 0.5000, 1.0000), vec3<f32>(0.2, 0.55, 1.0)), vec3<f32>(1.0000, 0.5000, 0.0000))"
    );
}

#[test]
fn builders_leave_receiver_unchanged() {
    let mut s = sphere(1.0);
    let before = emit(&s);
    let _ = s.union(sphere(2.0));
    let _ = s.translate(b(1.0), b(1.0), b(1.0));
    let _ = s.rotate_z(b(10.0));
    let _ = s.mirror_x();
    let _ = s.color(b(1.0), b(1.0), b(1.0));
    assert_eq!(emit(&s), before);
}

#[test]
fn clone_generates_same_code() {
    for scene in scenes() {
        assert_eq!(emit(&scene.clone()), emit(&scene));
    }
}

#[test]
fn shaders_match_expected_text() {
    for scene in scenes() {
        for level in [SsaaLevel::Off, SsaaLevel::Ssaa2x2, SsaaLevel::Ssaa4x4, SsaaLevel::Ssaa8x8] {
            let mut generator = WgslGenerator::new();
            let code = generator.generate(&scene, level);
            assert_eq!(render(&code), expected_shader(&scene, level.to_u32()));
        }
    }
}

#[test]
fn supersampling_loop_bounds() {
    let mut generator = WgslGenerator::new();
    let code = render(&generator.generate(&sphere(1.0), SsaaLevel::Ssaa4x4));
    assert!(code.contains("let n: f32 = 4.0;"));
    assert!(code.contains("iy < 4;"));
    assert!(code.contains("ix < 4;"));
    let single = render(&generator.generate(&sphere(1.0), SsaaLevel::Off));
    assert!(!single.contains("total_color"));
}

#[test]
fn ssaa_sample_counts() {
    assert_eq!(SsaaLevel::Off.to_u32(), 1);
    assert_eq!(SsaaLevel::Ssaa2x2.to_u32(), 2);
    assert_eq!(SsaaLevel::Ssaa4x4.to_u32(), 4);
    assert_eq!(SsaaLevel::Ssaa8x8.to_u32(), 8);
}

#[test]
fn full_shader_replaces_marker() {
    let templates = [
        "header\n// {{GENERATED_CODE_HERE}}\nfooter",
        "no marker at all",
        "// {{GENERATED_CODE_HERE}}",
        "a // {{GENERATED_CODE_HERE}} b // {{GENERATED_CODE_HERE}} c",
        "// {{GENERATED_CODE_HERE}}// {{GENERATED_CODE_HERE}}",
        "// {{GENERATED_CODE_HERE",
        "",
        "ünïcode // {{GENERATED_CODE_HERE}} ✓",
    ];
    for scene in scenes() {
        let mut generator = WgslGenerator::new();
        let generated = render(&generator.generate(&scene, SsaaLevel::Ssaa2x2));
        for template in templates {
            let full = render(&build_shader(template, &scene, SsaaLevel::Ssaa2x2));
            assert_eq!(full, template.replace("// {{GENERATED_CODE_HERE}}", &generated));
        }
    }
}

/// Parenthesis depth never drops below zero and ends at zero.
fn parens_balanced(s: &str) -> bool {
    let mut depth: i64 = 0;
    for c in s.chars() {
        if c == '(' {
            depth += 1;
        } else if c == ')' {
            depth -= 1;
            if depth < 0 {
                return false;
            }
        }
    }
    depth == 0
}

#[test]
fn scene_expressions_have_balanced_parentheses() {
    for scene in scenes() {
        assert!(parens_balanced(&emit(&scene)));
    }
    let deep = sphere(1.0)
        .translate(b(1.0), b(2.0), b(3.0))
        .mirror_x()
        .rotate_y(b(12.0))
        .color(b(0.1), b(0.2), b(0.3))
        .union(SdfNode::new_torus(b(1.0), b(0.5)).mirror_z());
    assert!(parens_balanced(&emit(&deep)));
}
