//! The render pipelines of a GPU context, one per shape kind.
use vstd::prelude::*;

use crate::shape::{get_shape_type, ShapeType, VertexKind};

verus! {

/// Whether no shape kind occurs twice among `entries`.
pub open spec fn distinct_kinds<P>(entries: Seq<(ShapeType, P)>) -> bool {
    forall|i: int, j: int|
        0 <= i < entries.len() && 0 <= j < entries.len() && i != j ==> #[trigger] entries[i].0
            != #[trigger] entries[j].0
}

/// The pipeline registered for each shape kind.
pub open spec fn as_map<P>(entries: Seq<(ShapeType, P)>) -> Map<ShapeType, P> {
    Map::new(
        |k: ShapeType| exists|i: int| 0 <= i < entries.len() && entries[i].0 == k,
        |k: ShapeType|
            entries[choose|i: int| 0 <= i < entries.len() && entries[i].0 == k].1,
    )
}

/// Render pipelines keyed by shape kind; `P` is the pipeline type. A kind
/// keeps the first pipeline that was registered for it.
pub struct PipelineState<P> {
    context: Vec<(ShapeType, P)>,
}

impl<P> PipelineState<P> {
    /// The registered pipelines, in the order of registration.
    pub closed spec fn entries(&self) -> Seq<(ShapeType, P)> {
        self.context@
    }

    /// The pipeline of each registered shape kind.
    pub open spec fn pipelines(&self) -> Map<ShapeType, P> {
        as_map(self.entries())
    }

    /// No shape kind is registered twice.
    pub open spec fn wf(&self) -> bool {
        distinct_kinds(self.entries())
    }

    /// A registry with no pipeline.
    pub fn new() -> (s: Self)
        ensures
            s.wf(),
            s.pipelines() == Map::<ShapeType, P>::empty(),
    {
        let s = PipelineState { context: Vec::new() };
        assert(s.pipelines() =~= Map::<ShapeType, P>::empty());
        s
    }

    /// The registry with the pipelines of the four vertex types, registered
    /// in the order rectangle, circle, point, texture, each under the kind
    /// that its vertex type feeds.
    pub fn default(rect: P, circle: P, point: P, texture: P) -> (s: Self)
        ensures
            s.wf(),
            s.pipelines() == Map::<ShapeType, P>::empty().insert(ShapeType::ROUND, rect).insert(
                ShapeType::Circle,
                circle,
            ).insert(ShapeType::POINT, point).insert(ShapeType::TEXTURE, texture),
    {
        let mut s = Self::new();
        s.set_pipeline(get_shape_type(VertexKind::RectVertex), rect);
        s.set_pipeline(get_shape_type(VertexKind::CircleVertex), circle);
        s.set_pipeline(get_shape_type(VertexKind::PointVertex), point);
        s.set_pipeline(get_shape_type(VertexKind::TextureVertex), texture);
        s
    }

    /// Registers `pipeline` for `shape_type`, unless that kind already has one.
    pub fn set_pipeline(&mut self, shape_type: ShapeType, pipeline: P)
        requires
            old(self).wf(),
        ensures
            final(self).wf(),
            final(self).pipelines() == if old(self).pipelines().dom().contains(shape_type) {
                old(self).pipelines()
            } else {
                old(self).pipelines().insert(shape_type, pipeline)
            },
    {
        if !self.contains(shape_type) {
            let ghost before = self.context@;
            self.context.push((shape_type, pipeline));
            proof {
                let after = self.context@;
                assert(after.len() == before.len() + 1);
                assert forall|i: int, j: int|
                    0 <= i < after.len() && 0 <= j < after.len() && i != j implies #[trigger] after[i].0
                    != #[trigger] after[j].0 by {
                    if i < before.len() && j < before.len() {
                        assert(after[i] == before[i] && after[j] == before[j]);
                    } else if i < before.len() {
                        assert(after[i] == before[i]);
                    } else {
                        assert(after[j] == before[j]);
                    }
                }
                let m = old(self).pipelines().insert(shape_type, pipeline);
                assert forall|k: ShapeType| #[trigger] as_map(after).dom().contains(k) <==> m.dom().contains(k) by {
                    if k != shape_type && m.dom().contains(k) {
                        let i = choose|i: int| 0 <= i < before.len() && before[i].0 == k;
                        assert(after[i] == before[i]);
                    }
                    if as_map(after).dom().contains(k) && k != shape_type {
                        let i = choose|i: int| 0 <= i < after.len() && after[i].0 == k;
                        assert(after[i] == before[i]);
                    }
                    assert(after[before.len() as int].0 == shape_type);
                }
                assert forall|k: ShapeType| #[trigger] m.dom().contains(k) implies as_map(after)[k] == m[k] by {
                    if k == shape_type {
                        let w = before.len() as int;
                        assert(0 <= w < after.len() && after[w].0 == k);
                        let i = choose|i: int| 0 <= i < after.len() && after[i].0 == k;
                        assert(i == w);
                    } else {
                        let i2 = choose|i: int| 0 <= i < before.len() && before[i].0 == k;
                        assert(after[i2] == before[i2]);
                        assert(0 <= i2 < after.len() && after[i2].0 == k);
                        let i = choose|i: int| 0 <= i < after.len() && after[i].0 == k;
                        assert(i == i2);
                    }
                }
                assert(as_map(after) =~= m);
            }
        }
    }

    /// Whether `shape_type` has a pipeline.
    fn contains(&self, shape_type: ShapeType) -> (r: bool)
        ensures
            r == self.pipelines().dom().contains(shape_type),
    {
        let mut i: usize = 0;
        while i < self.context.len()
            invariant
                i <= self.context@.len(),
                forall|j: int| 0 <= j < i ==> self.context@[j].0 != shape_type,
            decreases self.context@.len() - i,
        {
            if self.context[i].0 == shape_type {
                assert(self.context@[i as int].0 == shape_type);
                return true;
            }
            i = i + 1;
        }
        false
    }

    /// The pipeline of `shape_type`, if it has one.
    pub fn get_pipeline(&self, shape_type: ShapeType) -> (p: Option<&P>)
        requires
            self.wf(),
        ensures
            p is Some <==> self.pipelines().dom().contains(shape_type),
            p is Some ==> *p.unwrap() == self.pipelines()[shape_type],
    {
        let mut i: usize = 0;
        while i < self.context.len()
            invariant
                i <= self.context@.len(),
                self.wf(),
                forall|j: int| 0 <= j < i ==> self.context@[j].0 != shape_type,
            decreases self.context@.len() - i,
        {
            if self.context[i].0 == shape_type {
                proof {
                    let e = self.context@;
                    let k = choose|j: int| 0 <= j < e.len() && e[j].0 == shape_type;
                    assert(0 <= k < e.len() && e[k].0 == shape_type);
                    assert(k == i);
                }
                return Some(&self.context[i].1);
            }
            i = i + 1;
        }
        None
    }
}

/// A kind keeps its first pipeline: registering another one for it changes
/// nothing, and registering one for a new kind leaves the other kinds as
/// they were.
pub proof fn lemma_first_registration_wins<P>(m: Map<ShapeType, P>, k: ShapeType, p: P, other: ShapeType)
    requires
        other != k,
    ensures
        ({
            let after = if m.dom().contains(k) {
                m
            } else {
                m.insert(k, p)
            };
            &&& after.dom().contains(k)
            &&& m.dom().contains(k) ==> after[k] == m[k]
            &&& !m.dom().contains(k) ==> after[k] == p
            &&& after.dom().contains(other) == m.dom().contains(other)
            &&& m.dom().contains(other) ==> after[other] == m[other]
        }),
{
}

} // verus!
