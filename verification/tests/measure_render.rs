use svg_metrics::errors::SvgError;
use svg_metrics::geom::Bounds;
use svg_metrics::pipeline::measure;
use svg_metrics::pipeline::render;

use resvg::tiny_skia::Pixmap;

const RECT_ONLY: &str =
    "<svg xmlns=\"http://www.w3.org/2000/svg\" width=\"20\" height=\"20\"><rect x=\"2\" y=\"3\" width=\"4\" height=\"5\"/></svg>";

const RECT_AND_EMPTY_GROUP: &str =
    "<svg xmlns=\"http://www.w3.org/2000/svg\" width=\"20\" height=\"20\"><rect x=\"2\" y=\"3\" width=\"4\" height=\"5\"/><g/></svg>";

const TEN_BY_TEN: &str = "<svg xmlns=\"http://www.w3.org/2000/svg\" width=\"10\" height=\"10\"/>";

fn corners(b: &Bounds) -> (f64, f64, f64, f64) {
    (
        f64::from_bits(b.left.bits),
        f64::from_bits(b.top.bits),
        f64::from_bits(b.right.bits),
        f64::from_bits(b.bottom.bits),
    )
}

#[test]
fn measure_rect_reports_tight_bounds() {
    let (outcomes, result) = measure(RECT_ONLY, None);
    assert!(outcomes.is_empty());
    let report = result.expect("valid markup measures");
    let overall = report.overall.expect("the rectangle bears geometry");
    assert_eq!(corners(&overall), (2.0, 3.0, 6.0, 8.0));
    // The root container and the rectangle's path both bear geometry.
    assert_eq!(report.nodes.len(), 2);
    assert_eq!(report.nodes[0].kind, "group");
    assert_eq!(report.nodes[0].index, 0);
    assert_eq!(report.nodes[1].kind, "path");
    assert_eq!(report.nodes[1].index, 1);
    for node in &report.nodes {
        assert_eq!(corners(&node.bbox), (2.0, 3.0, 6.0, 8.0));
        assert!(node.id.is_none());
    }
}

#[test]
fn measure_skips_the_empty_group() {
    let (_, with_group) = measure(RECT_AND_EMPTY_GROUP, None);
    let (_, without) = measure(RECT_ONLY, None);
    let with_group = with_group.expect("valid markup measures");
    let without = without.expect("valid markup measures");
    // The empty group has no computable geometry and contributes no
    // descriptor: the report is the one of the markup without it.
    assert_eq!(with_group.nodes.len(), without.nodes.len());
    let overall = with_group.overall.expect("the rectangle bears geometry");
    assert_eq!(corners(&overall), (2.0, 3.0, 6.0, 8.0));
    for node in &with_group.nodes {
        assert_eq!(corners(&node.bbox), corners(&overall));
    }
}

#[test]
fn measure_indices_strictly_increase() {
    let (_, result) = measure(RECT_AND_EMPTY_GROUP, None);
    let report = result.expect("valid markup measures");
    for pair in report.nodes.windows(2) {
        assert!(pair[0].index < pair[1].index);
    }
}

#[test]
fn measure_rejects_unparsable_markup() {
    let (_, result) = measure("not xml at all", None);
    match result {
        Err(SvgError::Parse(msg)) => assert!(!msg.is_empty()),
        other => panic!("expected a parse failure, got {:?}", other.map(|r| r.nodes.len())),
    }
}

#[test]
fn measure_is_deterministic() {
    let paths = Some(vec!["/nonexistent/font.ttf".to_string()]);
    let (out_a, a) = measure(RECT_AND_EMPTY_GROUP, paths.clone());
    let (out_b, b) = measure(RECT_AND_EMPTY_GROUP, paths);
    let a = a.expect("valid markup measures");
    let b = b.expect("valid markup measures");
    assert_eq!(out_a.len(), out_b.len());
    assert_eq!(a.nodes.len(), b.nodes.len());
    match (&a.overall, &b.overall) {
        (Some(x), Some(y)) => assert_eq!(corners(x), corners(y)),
        (None, None) => {}
        _ => panic!("the two calls disagree on the overall rectangle"),
    }
    for (x, y) in a.nodes.iter().zip(b.nodes.iter()) {
        assert_eq!(x.index, y.index);
        assert_eq!(x.id, y.id);
        assert_eq!(x.kind, y.kind);
        assert_eq!(corners(&x.bbox), corners(&y.bbox));
    }
}

#[test]
fn render_ten_by_ten_at_unit_scale() {
    let (_, result) = render(TEN_BY_TEN, 1.0f32.to_bits(), None);
    let png = result.expect("valid markup renders");
    let pixmap = Pixmap::decode_png(&png).expect("the buffer is decodable PNG");
    assert_eq!(pixmap.width(), 10);
    assert_eq!(pixmap.height(), 10);
}

#[test]
fn render_scales_pixel_dimensions() {
    let (_, result) = render(TEN_BY_TEN, 3.0f32.to_bits(), None);
    let png = result.expect("valid markup renders");
    let pixmap = Pixmap::decode_png(&png).expect("the buffer is decodable PNG");
    assert_eq!(pixmap.width(), 30);
    assert_eq!(pixmap.height(), 30);
}

#[test]
fn render_rejects_zero_scale() {
    let (outcomes, result) = render(TEN_BY_TEN, 0.0f32.to_bits(), None);
    assert!(outcomes.is_empty());
    match result {
        Err(SvgError::InvalidScale(bits)) => assert_eq!(bits, 0.0f32.to_bits()),
        other => panic!("expected a scale rejection, got {:?}", other.map(|b| b.len())),
    }
}

#[test]
fn render_rejects_negative_scale() {
    let bits = (-2.0f32).to_bits();
    let (outcomes, result) = render(TEN_BY_TEN, bits, Some(vec!["/some/font.ttf".to_string()]));
    // The font files are tried whatever the scale.
    assert_eq!(outcomes.len(), 1);
    assert_eq!(outcomes[0].path, "/some/font.ttf");
    match result {
        Err(SvgError::InvalidScale(got)) => assert_eq!(got, bits),
        other => panic!("expected a scale rejection, got {:?}", other.map(|b| b.len())),
    }
}

#[test]
fn render_parse_failure_wins_over_bad_scale() {
    let (_, result) = render("not xml at all", 0.0f32.to_bits(), None);
    assert!(matches!(result, Err(SvgError::Parse(_))));
}

#[test]
fn render_reports_missing_size_for_nan_scale() {
    let (_, result) = render(TEN_BY_TEN, f32::NAN.to_bits(), None);
    assert!(matches!(result, Err(SvgError::MissingSize)));
}

#[test]
fn render_reports_surface_alloc_for_overlarge_scale() {
    let (_, result) = render(TEN_BY_TEN, 1.0e9f32.to_bits(), None);
    assert!(matches!(result, Err(SvgError::SurfaceAlloc)));
}

#[test]
fn render_survives_a_missing_font_file() {
    let paths = Some(vec!["/nonexistent/font.ttf".to_string()]);
    let (outcomes, result) = render(RECT_ONLY, 1.0f32.to_bits(), paths);
    assert_eq!(outcomes.len(), 1);
    assert_eq!(outcomes[0].path, "/nonexistent/font.ttf");
    assert!(outcomes[0].error.is_some());
    let png = result.expect("a missing font never fails the call");
    assert!(Pixmap::decode_png(&png).is_ok());
}

#[test]
fn font_outcomes_keep_the_given_order() {
    let paths = Some(vec!["/no/such/a.ttf".to_string(), "/no/such/b.ttf".to_string()]);
    let (outcomes, result) = measure(RECT_ONLY, paths);
    assert!(result.is_ok());
    assert_eq!(outcomes.len(), 2);
    assert_eq!(outcomes[0].path, "/no/such/a.ttf");
    assert_eq!(outcomes[1].path, "/no/such/b.ttf");
    assert!(outcomes[0].error.is_some());
    assert!(outcomes[1].error.is_some());
}
