use cymbal_node::frames::{extract_context, Context, ContextLine, Frame};
use cymbal_node::node::RawNodeFrame;

fn strings(v: &[&str]) -> Vec<String> {
    v.iter().map(|s| s.to_string()).collect()
}

fn render_frame() -> RawNodeFrame {
    RawNodeFrame {
        filename: "app.js".to_string(),
        function: "render".to_string(),
        lineno: Some(10),
        colno: None,
        module: None,
        in_app: false,
        context_line: Some("return x;".to_string()),
        pre_context: strings(&["let x=1;"]),
        post_context: strings(&["}"]),
    }
}

fn numbered(lines: &[ContextLine]) -> Vec<(u32, String)> {
    lines.iter().map(|l| (l.number, l.line.clone())).collect()
}

fn window(c: &Context) -> (Vec<(u32, String)>, (u32, String), Vec<(u32, String)>) {
    (
        numbered(&c.before),
        (c.line.number, c.line.line.clone()),
        numbered(&c.after),
    )
}

#[test]
fn context_of_render_frame() {
    let c = render_frame().get_context().expect("context");
    let (before, line, after) = window(&c);
    assert_eq!(before, vec![(9, "let x=1;".to_string())]);
    assert_eq!(line, (10, "return x;".to_string()));
    assert_eq!(after, vec![(11, "}".to_string())]);
}

#[test]
fn canonical_render_frame() {
    let raw = render_frame();
    let f = raw.to_canonical_frame();
    assert_eq!(f.mangled_name, "render");
    assert_eq!(f.resolved_name, Some("render".to_string()));
    assert!(f.resolved);
    assert_eq!(f.resolve_failure, None);
    assert_eq!(f.source, Some("app.js".to_string()));
    assert_eq!(f.line, Some(10));
    assert_eq!(f.column, None);
    assert_eq!(f.raw_id, "");
    assert_eq!(f.lang, "javascript");
    assert!(!f.in_app);
    assert!(f.junk_drawer.is_none());
    let (before, line, after) = window(f.context.as_ref().expect("context"));
    assert_eq!(before, vec![(9, "let x=1;".to_string())]);
    assert_eq!(line, (10, "return x;".to_string()));
    assert_eq!(after, vec![(11, "}".to_string())]);
}

#[test]
fn from_matches_canonical_frame() {
    let raw = render_frame();
    let f = Frame::from(&raw);
    assert_eq!(f.mangled_name, "render");
    assert_eq!(f.line, Some(10));
    assert_eq!(f.source, Some("app.js".to_string()));
    assert!(f.context.is_some());
}

#[test]
fn canonical_frame_keeps_in_app_and_drops_column() {
    let mut raw = render_frame();
    raw.in_app = true;
    raw.colno = Some(7);
    raw.context_line = None;
    let f = raw.to_canonical_frame();
    assert!(f.in_app);
    assert_eq!(f.column, None);
    assert!(f.context.is_none());
}

#[test]
fn no_context_without_line_text_or_number() {
    let pre = strings(&["a"]);
    let post = strings(&["b"]);
    assert!(extract_context(None, Some(5), &pre, &post).is_none());
    assert!(extract_context(Some("x"), None, &pre, &post).is_none());
    let mut raw = render_frame();
    raw.lineno = None;
    assert!(raw.get_context().is_none());
}

#[test]
fn before_stops_at_line_one() {
    let c = extract_context(Some("x"), Some(1), &strings(&["a", "b"]), &Vec::new()).expect("context");
    assert!(c.before.is_empty());
    assert_eq!((c.line.number, c.line.line.as_str()), (1, "x"));
    assert!(c.after.is_empty());

    let c = extract_context(Some("x"), Some(2), &strings(&["a", "b"]), &Vec::new()).expect("context");
    assert_eq!(numbered(&c.before), vec![(1, "a".to_string())]);
}

#[test]
fn line_zero_has_no_lines_before() {
    let c = extract_context(Some("x"), Some(0), &strings(&["a"]), &strings(&["b"])).expect("context");
    assert!(c.before.is_empty());
    assert_eq!(numbered(&c.after), vec![(1, "b".to_string())]);
}

#[test]
fn after_stops_at_largest_line_number() {
    let c = extract_context(Some("x"), Some(u32::MAX - 1), &Vec::new(), &strings(&["a", "b"]))
        .expect("context");
    assert_eq!(numbered(&c.after), vec![(u32::MAX, "a".to_string())]);
}

#[test]
fn windows_run_away_from_the_line() {
    let c = extract_context(
        Some("x"),
        Some(10),
        &strings(&["p0", "p1", "p2"]),
        &strings(&["q0", "q1"]),
    )
    .expect("context");
    assert_eq!(
        numbered(&c.before),
        vec![(9, "p0".to_string()), (8, "p1".to_string()), (7, "p2".to_string())]
    );
    assert_eq!(numbered(&c.after), vec![(11, "q0".to_string()), (12, "q1".to_string())]);
}

#[test]
fn fingerprint_of_render_frame() {
    assert_eq!(
        render_frame().frame_id(),
        "249b538ea2adfeddc6f2d48dd42426601ccb69ad31dce179b1df75400cad9aab1d42ddf609c37a667f751df4ae10e45d613eaa55cbc04fd8c3b764bae032bed2"
    );
}

#[test]
fn fingerprint_with_absent_fields() {
    let raw = RawNodeFrame {
        filename: "a.js".to_string(),
        function: "f".to_string(),
        lineno: None,
        colno: None,
        module: None,
        in_app: false,
        context_line: None,
        pre_context: Vec::new(),
        post_context: Vec::new(),
    };
    assert_eq!(
        raw.frame_id(),
        "765b6754ede38d1cf28cf2cf6b6dc3f67a25c59a6c9393c0a145413a0c848c2ee5a37a8487c560f441d3bc0153cd98068c5f1baa382b3f95d758b2b9a5fc9ac5"
    );
    let mut zero = raw.clone();
    zero.lineno = Some(0);
    assert_eq!(zero.frame_id(), raw.frame_id());
}

#[test]
fn fingerprint_is_repeatable() {
    let raw = render_frame();
    let id = raw.frame_id();
    assert_eq!(id.len(), 128);
    assert_eq!(raw.frame_id(), id);
    assert_eq!(raw.clone().frame_id(), id);
}

#[test]
fn fingerprint_ignores_in_app_and_colno() {
    let raw = render_frame();
    let mut other = raw.clone();
    other.in_app = true;
    assert_eq!(other.frame_id(), raw.frame_id());
    let mut other = raw.clone();
    other.colno = Some(42);
    assert_eq!(other.frame_id(), raw.frame_id());
}

#[test]
fn fingerprint_follows_context_line() {
    let raw = render_frame();
    let mut other = raw.clone();
    other.context_line = Some("return y;".to_string());
    assert_ne!(other.frame_id(), raw.frame_id());
    other.context_line = None;
    assert_ne!(other.frame_id(), raw.frame_id());
}

#[test]
fn fingerprint_follows_module() {
    let raw = render_frame();
    let mut other = raw.clone();
    other.module = Some("app".to_string());
    assert_ne!(other.frame_id(), raw.frame_id());
}
