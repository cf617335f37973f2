use svg_metrics::geom::Bounds;
use svg_metrics::geom::Coord;
use svg_metrics::geom::RawRect;
use svg_metrics::report::aggregate;
use svg_metrics::report::NodeRecord;
use svg_metrics::scale::scale_rejected_exec;
use svg_metrics::version;

fn raw(left: f64, top: f64, right: f64, bottom: f64) -> RawRect {
    RawRect {
        left: left.to_bits(),
        top: top.to_bits(),
        right: right.to_bits(),
        bottom: bottom.to_bits(),
    }
}

fn rec(id: &str, kind: &str, bbox: Option<RawRect>) -> NodeRecord {
    NodeRecord { id: id.to_string(), kind: kind.to_string(), bbox }
}

fn val(c: Coord) -> f64 {
    f64::from_bits(c.bits)
}

#[test]
fn coord_order_follows_numeric_order() {
    let a = Coord { bits: (-3.5f64).to_bits() };
    let b = Coord { bits: (-1.0f64).to_bits() };
    let c = Coord { bits: 0.0f64.to_bits() };
    let d = Coord { bits: 2.25f64.to_bits() };
    assert!(a.le_exec(b));
    assert!(b.le_exec(c));
    assert!(c.le_exec(d));
    assert!(!d.le_exec(c));
    assert!(!b.le_exec(a));
    let neg_zero = Coord { bits: (-0.0f64).to_bits() };
    assert!(neg_zero.le_exec(c));
}

#[test]
fn from_raw_orders_swapped_edges() {
    let b = Bounds::from_raw(raw(6.0, 8.0, 2.0, 3.0));
    assert_eq!(val(b.left), 2.0);
    assert_eq!(val(b.top), 3.0);
    assert_eq!(val(b.right), 6.0);
    assert_eq!(val(b.bottom), 8.0);
}

#[test]
fn union_is_coordinate_wise() {
    let a = Bounds::from_raw(raw(1.0, 2.0, 3.0, 4.0));
    let b = Bounds::from_raw(raw(0.5, 5.0, 2.0, 6.0));
    let u = a.union(b);
    assert_eq!(val(u.left), 0.5);
    assert_eq!(val(u.top), 2.0);
    assert_eq!(val(u.right), 3.0);
    assert_eq!(val(u.bottom), 6.0);
}

#[test]
fn aggregate_of_nothing_has_no_overall() {
    let report = aggregate(&Vec::new());
    assert!(report.overall.is_none());
    assert!(report.nodes.is_empty());
}

#[test]
fn aggregate_skips_nodes_without_geometry() {
    let records = vec![
        rec("", "text", None),
        rec("a", "path", Some(raw(1.0, 1.0, 2.0, 2.0))),
        rec("b", "text", None),
        rec("", "path", Some(raw(0.0, 0.5, 1.5, 3.0))),
    ];
    let report = aggregate(&records);
    assert_eq!(report.nodes.len(), 2);
    assert_eq!(report.nodes[0].index, 1);
    assert_eq!(report.nodes[1].index, 3);
    assert!(report.nodes[0].index < report.nodes[1].index);
    let overall = report.overall.expect("two nodes were measured");
    assert_eq!(val(overall.left), 0.0);
    assert_eq!(val(overall.top), 0.5);
    assert_eq!(val(overall.right), 2.0);
    assert_eq!(val(overall.bottom), 3.0);
}

#[test]
fn aggregate_leaves_empty_identifiers_absent() {
    let records = vec![
        rec("", "path", Some(raw(0.0, 0.0, 1.0, 1.0))),
        rec("marker", "path", Some(raw(0.0, 0.0, 1.0, 1.0))),
    ];
    let report = aggregate(&records);
    assert_eq!(report.nodes.len(), 2);
    assert!(report.nodes[0].id.is_none());
    assert_eq!(report.nodes[1].id.as_deref(), Some("marker"));
    assert_eq!(report.nodes[0].kind, "path");
}

#[test]
fn aggregate_overall_is_union_of_all_nodes() {
    let records = vec![
        rec("", "path", Some(raw(-4.0, 1.0, -1.0, 2.0))),
        rec("", "path", Some(raw(0.0, -3.0, 1.0, 0.0))),
        rec("", "path", Some(raw(5.0, 2.0, 9.0, 10.0))),
    ];
    let report = aggregate(&records);
    let overall = report.overall.expect("three nodes were measured");
    assert_eq!(val(overall.left), -4.0);
    assert_eq!(val(overall.top), -3.0);
    assert_eq!(val(overall.right), 9.0);
    assert_eq!(val(overall.bottom), 10.0);
    for node in &report.nodes {
        assert!(overall.left.le_exec(node.bbox.left));
        assert!(overall.top.le_exec(node.bbox.top));
        assert!(node.bbox.right.le_exec(overall.right));
        assert!(node.bbox.bottom.le_exec(overall.bottom));
    }
}

#[test]
fn scale_rejection_matches_comparison_with_zero() {
    assert!(scale_rejected_exec(0.0f32.to_bits()));
    assert!(scale_rejected_exec((-0.0f32).to_bits()));
    assert!(scale_rejected_exec((-2.0f32).to_bits()));
    assert!(scale_rejected_exec(f32::NEG_INFINITY.to_bits()));
    assert!(!scale_rejected_exec(1.0f32.to_bits()));
    assert!(!scale_rejected_exec(0.25f32.to_bits()));
    assert!(!scale_rejected_exec(f32::INFINITY.to_bits()));
    assert!(!scale_rejected_exec(f32::NAN.to_bits()));
    for bits in [0u32, 1, 0x7F80_0000, 0x7FC0_0000, 0x8000_0000, 0xFF80_0000, 0xFFC0_0000] {
        let scale = f32::from_bits(bits);
        assert_eq!(scale_rejected_exec(bits), scale <= 0.0);
    }
}

#[test]
fn version_is_the_package_version() {
    assert_eq!(version(), "0.1.0");
}
