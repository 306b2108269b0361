use sdf_modeler::code::{Chunk, Code};
use sdf_modeler::text::{chars_of, decimal_string, replace_marker};

fn render_text(code: &Code) -> String {
    let mut s = String::new();
    for c in &code.chunks {
        match c {
            Chunk::Text(t) => s.push_str(t),
            Chunk::Number(n) => s.push_str(&format!("<{}>", n)),
            Chunk::Radians(n) => s.push_str(&format!("<r{}>", n)),
        }
    }
    s
}

#[test]
fn decimal_matches_display() {
    for n in [0u32, 1, 7, 9, 10, 11, 99, 100, 4096, 123456789, u32::MAX] {
        assert_eq!(decimal_string(n), n.to_string());
    }
}

#[test]
fn chars_in_order() {
    assert_eq!(chars_of("aé✓"), vec!['a', 'é', '✓']);
    assert!(chars_of("").is_empty());
}

#[test]
fn replace_like_str_replace() {
    let cases = [
        ("xMx", "M"),
        ("aaaa", "aa"),
        ("aaa", "aa"),
        ("abcabc", "abc"),
        ("nothing here", "zz"),
        ("", "ab"),
        ("ab", "ab"),
        ("éaéaé", "é"),
    ];
    for (template, marker) in cases {
        let mut code = Code::from_text("[");
        code.push_number(42);
        code.push_text("]");
        let out = render_text(&replace_marker(template, marker, &code));
        assert_eq!(out, template.replace(marker, "[<42>]"), "{template} / {marker}");
    }
}

#[test]
fn replace_keeps_pieces_as_text_chunks() {
    let code = Code::from_text("X");
    let out = replace_marker("a--b--c", "--", &code);
    assert_eq!(out.chunks.len(), 5);
}

#[test]
fn replacing_marker_by_itself_gives_template_back() {
    for (template, marker) in [("a--b--c", "--"), ("----", "--"), ("x", "--"), ("", "ab"), ("ab ab", "ab")] {
        let out = render_text(&replace_marker(template, marker, &Code::from_text(marker)));
        assert_eq!(out, template);
    }
}
