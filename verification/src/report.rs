//! Measurement traversal: folding per-node rectangles into a report.
//!
//! The traversal of a document hands in one [`NodeRecord`] per node, in
//! document order. Aggregation assigns each node its ordinal position,
//! keeps the nodes whose geometry yielded a rectangle, and folds those
//! rectangles into an overall rectangle.

use vstd::prelude::*;

use crate::geom::Bounds;
use crate::geom::RawRect;

verus! {

/// What the document traversal reports for one node: its identifier
/// (possibly empty), the name of its geometric category, and its
/// rectangle, if one was computable.
pub struct NodeRecord {
    pub id: String,
    pub kind: String,
    pub bbox: Option<RawRect>,
}

/// One measured node: its ordinal position over the full traversal
/// (gaps arise where a node had no computable rectangle), its
/// identifier if the source carried a non-empty one, its category
/// name, and its rectangle.
pub struct NodeDescriptor {
    pub index: usize,
    pub id: Option<String>,
    pub kind: String,
    pub bbox: Bounds,
}

/// The mathematical value of a descriptor.
pub ghost struct DescModel {
    pub index: int,
    pub id: Option<Seq<char>>,
    pub kind: Seq<char>,
    pub bbox: Bounds,
}

impl View for NodeDescriptor {
    type V = DescModel;

    open spec fn view(&self) -> DescModel {
        DescModel {
            index: self.index as int,
            id: match self.id {
                Some(s) => Some(s@),
                None => None,
            },
            kind: self.kind@,
            bbox: self.bbox,
        }
    }
}

/// The values of a sequence of descriptors.
pub open spec fn descs_view(s: Seq<NodeDescriptor>) -> Seq<DescModel> {
    s.map_values(|d: NodeDescriptor| d@)
}

/// The descriptor a record yields at traversal position `i`: an empty
/// identifier becomes an absent one, and the raw rectangle is put into
/// edge order.
pub open spec fn desc_of(rec: NodeRecord, i: int) -> DescModel
    recommends
        rec.bbox is Some,
{
    DescModel {
        index: i,
        id: if rec.id@.len() == 0 {
            None
        } else {
            Some(rec.id@)
        },
        kind: rec.kind@,
        bbox: Bounds::spec_from_raw(rec.bbox->Some_0),
    }
}

/// The descriptors of the first `n` records, in traversal order.
pub open spec fn descs_upto(s: Seq<NodeRecord>, n: int) -> Seq<DescModel>
    decreases n,
{
    if n <= 0 {
        Seq::empty()
    } else {
        descs_upto(s, n - 1) + (if s[n - 1].bbox is Some {
            seq![desc_of(s[n - 1], n - 1)]
        } else {
            Seq::<DescModel>::empty()
        })
    }
}

/// The descriptors of a whole traversal.
pub open spec fn all_descs(s: Seq<NodeRecord>) -> Seq<DescModel> {
    descs_upto(s, s.len() as int)
}

/// The fold of a non-empty sequence of rectangles under union.
pub open spec fn union_all(bs: Seq<Bounds>) -> Bounds
    recommends
        bs.len() > 0,
    decreases bs.len(),
{
    if bs.len() <= 1 {
        bs[0]
    } else {
        union_all(bs.drop_last()).spec_union(bs.last())
    }
}

/// The rectangles of a sequence of descriptors.
pub open spec fn desc_boxes(ds: Seq<DescModel>) -> Seq<Bounds> {
    ds.map_values(|d: DescModel| d.bbox)
}

/// The overall rectangle of a sequence of descriptors: absent exactly
/// when there is no descriptor.
pub open spec fn overall_of(ds: Seq<DescModel>) -> Option<Bounds> {
    if ds.len() == 0 {
        None
    } else {
        Some(union_all(desc_boxes(ds)))
    }
}

/// The result of a measurement: the overall rectangle, present exactly
/// when at least one node yielded one, and the measured nodes in
/// document order.
pub struct MeasurementReport {
    pub overall: Option<Bounds>,
    pub nodes: Vec<NodeDescriptor>,
}

impl MeasurementReport {
    /// The report is exactly the aggregation of the given records.
    pub open spec fn matches(self, records: Seq<NodeRecord>) -> bool {
        &&& descs_view(self.nodes@) == all_descs(records)
        &&& self.overall == overall_of(all_descs(records))
    }

    /// Shape every report has: well-formed rectangles, strictly
    /// increasing ordinals, no empty identifier, an overall rectangle
    /// exactly when there are nodes, and that rectangle containing
    /// every node's rectangle.
    pub open spec fn wf(self) -> bool {
        &&& forall|i: int|
            0 <= i < self.nodes@.len() ==> (#[trigger] self.nodes@[i]).bbox.wf()
        &&& forall|i: int, j: int|
            0 <= i < j < self.nodes@.len() ==> (#[trigger] self.nodes@[i]).index < (
            #[trigger] self.nodes@[j]).index
        &&& forall|i: int|
            0 <= i < self.nodes@.len() ==> ((#[trigger] self.nodes@[i]).id matches Some(s)
                ==> s@.len() > 0)
        &&& (self.overall is None <==> self.nodes@.len() == 0)
        &&& (self.overall matches Some(o) ==> o.wf() && forall|i: int|
            0 <= i < self.nodes@.len() ==> o.contains((#[trigger] self.nodes@[i]).bbox))
    }
}

/// Everything the descriptors of a traversal prefix satisfy: ordinals
/// below the prefix length and strictly increasing, rectangles
/// well-formed, identifiers never empty.
pub proof fn lemma_descs_upto_shape(s: Seq<NodeRecord>, n: int)
    requires
        0 <= n <= s.len(),
    ensures
        descs_upto(s, n).len() <= n,
        forall|j: int|
            0 <= j < descs_upto(s, n).len() ==> 0 <= (#[trigger] descs_upto(s, n)[j]).index < n,
        forall|j: int, k: int|
            0 <= j < k < descs_upto(s, n).len() ==> (#[trigger] descs_upto(s, n)[j]).index < (
            #[trigger] descs_upto(s, n)[k]).index,
        forall|j: int| 0 <= j < descs_upto(s, n).len() ==> (#[trigger] descs_upto(s, n)[j]).bbox.wf(),
        forall|j: int|
            0 <= j < descs_upto(s, n).len() ==> ((#[trigger] descs_upto(s, n)[j]).id matches Some(
            sid) ==> sid.len() > 0),
    decreases n,
{
    if n > 0 {
        lemma_descs_upto_shape(s, n - 1);
    }
}

/// The union of well-formed rectangles is well-formed and contains
/// each of them: its left/top edge is at or before every rectangle's,
/// its right/bottom edge at or after.
pub proof fn lemma_union_all_contains(bs: Seq<Bounds>)
    requires
        bs.len() > 0,
        forall|i: int| 0 <= i < bs.len() ==> (#[trigger] bs[i]).wf(),
    ensures
        union_all(bs).wf(),
        forall|i: int| 0 <= i < bs.len() ==> union_all(bs).contains(#[trigger] bs[i]),
    decreases bs.len(),
{
    if bs.len() > 1 {
        lemma_union_all_contains(bs.drop_last());
        let prefix = bs.drop_last();
        let u = union_all(prefix);
        assert(bs[bs.len() - 1].wf());
        assert forall|i: int| 0 <= i < bs.len() implies union_all(bs).contains(
            #[trigger] bs[i],
        ) by {
            if i < bs.len() - 1 {
                assert(prefix[i] == bs[i]);
                assert(u.contains(prefix[i]));
            } else {
                assert(bs[i] == bs.last());
            }
        }
    }
}

/// The union is tight: each of its four edges is one of the folded
/// rectangles' corresponding edges, so it is the coordinate-wise
/// minimum of the left/top edges and maximum of the right/bottom
/// edges.
pub proof fn lemma_union_all_tight(bs: Seq<Bounds>)
    requires
        bs.len() > 0,
    ensures
        exists|i: int| 0 <= i < bs.len() && union_all(bs).left == (#[trigger] bs[i]).left,
        exists|i: int| 0 <= i < bs.len() && union_all(bs).top == (#[trigger] bs[i]).top,
        exists|i: int| 0 <= i < bs.len() && union_all(bs).right == (#[trigger] bs[i]).right,
        exists|i: int| 0 <= i < bs.len() && union_all(bs).bottom == (#[trigger] bs[i]).bottom,
    decreases bs.len(),
{
    if bs.len() <= 1 {
        assert(union_all(bs).left == bs[0].left);
        assert(union_all(bs).top == bs[0].top);
        assert(union_all(bs).right == bs[0].right);
        assert(union_all(bs).bottom == bs[0].bottom);
    } else {
        lemma_union_all_tight(bs.drop_last());
        let prefix = bs.drop_last();
        let u = union_all(prefix);
        let last = bs.last();
        if u.left.le(last.left) {
            let i = choose|i: int| 0 <= i < prefix.len() && u.left == (#[trigger] prefix[i]).left;
            assert(union_all(bs).left == bs[i].left);
        } else {
            assert(union_all(bs).left == bs[bs.len() - 1].left);
        }
        if u.top.le(last.top) {
            let i = choose|i: int| 0 <= i < prefix.len() && u.top == (#[trigger] prefix[i]).top;
            assert(union_all(bs).top == bs[i].top);
        } else {
            assert(union_all(bs).top == bs[bs.len() - 1].top);
        }
        if u.right.le(last.right) {
            assert(union_all(bs).right == bs[bs.len() - 1].right);
        } else {
            let i = choose|i: int| 0 <= i < prefix.len() && u.right == (#[trigger] prefix[i]).right;
            assert(union_all(bs).right == bs[i].right);
        }
        if u.bottom.le(last.bottom) {
            assert(union_all(bs).bottom == bs[bs.len() - 1].bottom);
        } else {
            let i = choose|i: int|
                0 <= i < prefix.len() && u.bottom == (#[trigger] prefix[i]).bottom;
            assert(union_all(bs).bottom == bs[i].bottom);
        }
    }
}

/// Folding one more rectangle unions it onto the fold so far.
pub proof fn lemma_union_all_push(bs: Seq<Bounds>, b: Bounds)
    requires
        bs.len() > 0,
    ensures
        union_all(bs.push(b)) == union_all(bs).spec_union(b),
{
    assert(bs.push(b).drop_last() =~= bs);
    assert(bs.push(b).last() == b);
}

/// The union law at the report: a report with nodes has an overall
/// rectangle, and that rectangle is tight: each of its four edges is
/// the corresponding edge of one of the nodes' rectangles. Together
/// with containment of every node's rectangle it is the
/// coordinate-wise union: minimum of the left/top edges, maximum of
/// the right/bottom edges.
pub proof fn lemma_report_union_tight(r: MeasurementReport, records: Seq<NodeRecord>)
    requires
        r.matches(records),
        r.nodes@.len() > 0,
    ensures
        r.overall is Some,
        exists|i: int|
            0 <= i < r.nodes@.len() && r.overall->Some_0.left == (#[trigger] r.nodes@[i]).bbox.left,
        exists|i: int|
            0 <= i < r.nodes@.len() && r.overall->Some_0.top == (#[trigger] r.nodes@[i]).bbox.top,
        exists|i: int|
            0 <= i < r.nodes@.len() && r.overall->Some_0.right == (
            #[trigger] r.nodes@[i]).bbox.right,
        exists|i: int|
            0 <= i < r.nodes@.len() && r.overall->Some_0.bottom == (
            #[trigger] r.nodes@[i]).bbox.bottom,
{
    let ds = all_descs(records);
    assert(ds.len() == r.nodes@.len());
    let bs = desc_boxes(ds);
    lemma_union_all_tight(bs);
    let o = union_all(bs);
    assert forall|i: int| 0 <= i < ds.len() implies (#[trigger] bs[i]) == (
    #[trigger] r.nodes@[i]).bbox by {
        assert(ds[i] == descs_view(r.nodes@)[i]);
        assert(descs_view(r.nodes@)[i] == r.nodes@[i]@);
    }
    let il = choose|i: int| 0 <= i < bs.len() && o.left == (#[trigger] bs[i]).left;
    assert(o.left == r.nodes@[il].bbox.left);
    let it = choose|i: int| 0 <= i < bs.len() && o.top == (#[trigger] bs[i]).top;
    assert(o.top == r.nodes@[it].bbox.top);
    let ir = choose|i: int| 0 <= i < bs.len() && o.right == (#[trigger] bs[i]).right;
    assert(o.right == r.nodes@[ir].bbox.right);
    let ib = choose|i: int| 0 <= i < bs.len() && o.bottom == (#[trigger] bs[i]).bottom;
    assert(o.bottom == r.nodes@[ib].bbox.bottom);
}

/// Aggregation is deterministic: two reports of the same traversal
/// records hold the same overall rectangle and the same descriptor
/// values.
pub proof fn lemma_aggregate_deterministic(
    a: MeasurementReport,
    b: MeasurementReport,
    records: Seq<NodeRecord>,
)
    requires
        a.matches(records),
        b.matches(records),
    ensures
        a.overall == b.overall,
        descs_view(a.nodes@) == descs_view(b.nodes@),
{
}

/// Aggregates the records of a document traversal into a report.
///
/// Each record is numbered by its position; a record without a
/// rectangle contributes nothing; one with a rectangle contributes a
/// descriptor, and its rectangle is folded into the overall rectangle.
pub fn aggregate(records: &Vec<NodeRecord>) -> (r: MeasurementReport)
    ensures
        r.matches(records@),
        r.wf(),
{
    let mut nodes: Vec<NodeDescriptor> = Vec::new();
    let mut overall: Option<Bounds> = None;
    let mut i: usize = 0;
    while i < records.len()
        invariant
            i <= records@.len(),
            descs_view(nodes@) == descs_upto(records@, i as int),
            overall == overall_of(descs_upto(records@, i as int)),
        decreases records@.len() - i,
    {
        let rec = &records[i];
        match &rec.bbox {
            Some(raw) => {
                let b = Bounds::from_raw(*raw);
                let id = if rec.id.as_str().is_empty() {
                    None
                } else {
                    Some(rec.id.clone())
                };
                let d = NodeDescriptor { index: i, id, kind: rec.kind.clone(), bbox: b };
                proof {
                    assert(d@ == desc_of(records@[i as int], i as int));
                }
                let ghost old_ds = descs_upto(records@, i as int);
                let ghost new_ds = descs_upto(records@, i as int + 1);
                proof {
                    assert(new_ds =~= old_ds.push(d@));
                }
                overall = match overall {
                    None => {
                        proof {
                            assert(desc_boxes(new_ds) =~= seq![d@.bbox]);
                        }
                        Some(b)
                    },
                    Some(cur) => {
                        proof {
                            assert(desc_boxes(new_ds) =~= desc_boxes(old_ds).push(d@.bbox));
                            lemma_union_all_push(desc_boxes(old_ds), d@.bbox);
                        }
                        Some(cur.union(b))
                    },
                };
                nodes.push(d);
                proof {
                    assert(descs_view(nodes@) =~= new_ds);
                }
            },
            None => {
                proof {
                    assert(descs_upto(records@, i as int + 1) =~= descs_upto(
                        records@,
                        i as int,
                    ));
                }
            },
        }
        i = i + 1;
    }
    let r = MeasurementReport { overall, nodes };
    proof {
        lemma_descs_upto_shape(records@, records@.len() as int);
        assert forall|j: int| 0 <= j < r.nodes@.len() implies (#[trigger] r.nodes@[j]).bbox.wf()
            && ((r.nodes@[j]).id matches Some(s) ==> s@.len() > 0) by {
            assert(r.nodes@[j]@ == all_descs(records@)[j]);
        }
        assert forall|j: int, k: int| 0 <= j < k < r.nodes@.len() implies (
        #[trigger] r.nodes@[j]).index < (#[trigger] r.nodes@[k]).index by {
            assert(r.nodes@[j]@ == all_descs(records@)[j]);
            assert(r.nodes@[k]@ == all_descs(records@)[k]);
        }
        if r.nodes@.len() > 0 {
            assert forall|j: int|
                0 <= j < desc_boxes(all_descs(records@)).len() implies (#[trigger] desc_boxes(
                all_descs(records@),
            )[j]).wf() by {
                lemma_descs_upto_shape(records@, records@.len() as int);
            }
            lemma_union_all_contains(desc_boxes(all_descs(records@)));
            assert forall|j: int|
                0 <= j < r.nodes@.len() implies r.overall->Some_0.contains(
                (#[trigger] r.nodes@[j]).bbox,
            ) by {
                assert(r.nodes@[j]@ == all_descs(records@)[j]);
                assert(desc_boxes(all_descs(records@))[j] == r.nodes@[j].bbox);
            }
        }
    }
    r
}

} // verus!
