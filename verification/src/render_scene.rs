//! The render scene: a tree of scoped render nodes, draw primitives and
//! paint layers, with its summary counts, paint-layer queries, paint-layer
//! content splitting and per-layer cost metrics.
//!
//! Geometry (rectangles, transforms, alpha values, colors) is floating-point
//! data that none of these computations read; the nodes here carry the
//! structure and the plain values that they do read: the number of clip
//! shapes of a clip scope, the border style of a border and the UTF-8 length
//! of a text run.
use vstd::prelude::*;
use vstd::string::StringExecFns;

use crate::text::push_decimal;

verus! {

#[derive(Clone, Copy, Debug, PartialEq, Eq, Structural)]
pub enum BorderStyle {
    Solid,
    Dashed,
    Dotted,
}

#[derive(Clone, Copy, Debug, PartialEq, Eq, Structural)]
pub enum PaintLayerPlacement {
    Fixed,
    ScrollMoving,
}

#[derive(Clone, Copy, Debug, PartialEq, Eq, Structural)]
pub enum PaintLayerPolicy {
    Cacheable,
    DynamicRedraw,
    DirectOnly,
}

#[derive(Clone, Copy, Debug, PartialEq, Eq, Structural)]
pub enum PaintLayerReason {
    Root,
    ScrollContainer,
    StableSubtree,
    Animation,
    Nearby,
}

/// A draw primitive, by kind, with the values that counting and costing read.
#[derive(Clone, Copy, Debug, PartialEq, Eq, Structural)]
pub enum DrawPrimitive {
    Rect,
    RoundedRect,
    Border(BorderStyle),
    BorderCorners(BorderStyle),
    BorderEdges(BorderStyle),
    Shadow,
    InsetShadow,
    /// A text run; `text_bytes` is the UTF-8 length of its text.
    TextWithFont { text_bytes: usize },
    Gradient,
    Image,
    Video,
    ImageLoading,
    ImageFailed,
}

#[derive(Debug, PartialEq)]
pub enum RenderNode {
    ShadowPass { children: Vec<RenderNode> },
    /// A clip scope over `clip_count` clip shapes.
    Clip { clip_count: usize, children: Vec<RenderNode> },
    /// A relaxed clip scope over `clip_count` clip shapes.
    RelaxedClip { clip_count: usize, children: Vec<RenderNode> },
    Transform { children: Vec<RenderNode> },
    Alpha { children: Vec<RenderNode> },
    PaintLayer(RenderPaintLayer),
    Primitive(DrawPrimitive),
}

#[derive(Debug, PartialEq)]
pub struct RenderPaintLayerChildRef {
    pub nodes: Vec<RenderNode>,
}

#[derive(Clone, Copy, Debug, PartialEq, Eq, Structural)]
pub struct RenderPaintLayerMetrics {
    pub own_node_count: u32,
    pub own_primitive_count: u32,
    pub own_primitive_cost: u64,
    pub opaque: bool,
}

#[derive(Debug, PartialEq)]
pub struct RenderPaintLayer {
    pub stable_id: u64,
    pub root_id: u64,
    pub placement: PaintLayerPlacement,
    pub policy: PaintLayerPolicy,
    pub reason: PaintLayerReason,
    pub content_generation: u64,
    pub own_nodes: Vec<RenderNode>,
    pub child_refs: Vec<RenderPaintLayerChildRef>,
    pub metrics: RenderPaintLayerMetrics,
}

#[derive(Debug, PartialEq)]
pub struct RenderScene {
    pub nodes: Vec<RenderNode>,
}

// ============================================================================
// Summary counts
// ============================================================================

#[derive(Clone, Copy, Debug, PartialEq, Eq, Structural)]
pub struct RenderSceneSummary {
    pub nodes: usize,
    pub shadow_passes: usize,
    pub clips: usize,
    pub relaxed_clips: usize,
    pub clip_shapes: usize,
    pub transforms: usize,
    pub alphas: usize,
    pub primitives: usize,
    pub rects: usize,
    pub rounded_rects: usize,
    pub borders: usize,
    pub border_corners: usize,
    pub border_edges: usize,
    pub shadows: usize,
    pub inset_shadows: usize,
    pub texts: usize,
    pub text_bytes: usize,
    pub gradients: usize,
    pub images: usize,
    pub videos: usize,
    pub image_loading: usize,
    pub image_failed: usize,
    pub paint_layers: usize,
    pub cacheable_layers: usize,
    pub dynamic_layers: usize,
    pub moving_layers: usize,
    pub direct_only_layers: usize,
}

/// The counters of a summary as unbounded numbers: what a scene adds to a
/// summary, or a summary's value.
pub ghost struct SummaryCounts {
    pub nodes: nat,
    pub shadow_passes: nat,
    pub clips: nat,
    pub relaxed_clips: nat,
    pub clip_shapes: nat,
    pub transforms: nat,
    pub alphas: nat,
    pub primitives: nat,
    pub rects: nat,
    pub rounded_rects: nat,
    pub borders: nat,
    pub border_corners: nat,
    pub border_edges: nat,
    pub shadows: nat,
    pub inset_shadows: nat,
    pub texts: nat,
    pub text_bytes: nat,
    pub gradients: nat,
    pub images: nat,
    pub videos: nat,
    pub image_loading: nat,
    pub image_failed: nat,
    pub paint_layers: nat,
    pub cacheable_layers: nat,
    pub dynamic_layers: nat,
    pub moving_layers: nat,
    pub direct_only_layers: nat,
}

/// No counts.
pub open spec fn zero_counts() -> SummaryCounts {
    SummaryCounts {
        nodes: 0,
        shadow_passes: 0,
        clips: 0,
        relaxed_clips: 0,
        clip_shapes: 0,
        transforms: 0,
        alphas: 0,
        primitives: 0,
        rects: 0,
        rounded_rects: 0,
        borders: 0,
        border_corners: 0,
        border_edges: 0,
        shadows: 0,
        inset_shadows: 0,
        texts: 0,
        text_bytes: 0,
        gradients: 0,
        images: 0,
        videos: 0,
        image_loading: 0,
        image_failed: 0,
        paint_layers: 0,
        cacheable_layers: 0,
        dynamic_layers: 0,
        moving_layers: 0,
        direct_only_layers: 0,
    }
}

/// Field-wise sum of two count records.
pub open spec fn add_counts(a: SummaryCounts, b: SummaryCounts) -> SummaryCounts {
    SummaryCounts {
        nodes: a.nodes + b.nodes,
        shadow_passes: a.shadow_passes + b.shadow_passes,
        clips: a.clips + b.clips,
        relaxed_clips: a.relaxed_clips + b.relaxed_clips,
        clip_shapes: a.clip_shapes + b.clip_shapes,
        transforms: a.transforms + b.transforms,
        alphas: a.alphas + b.alphas,
        primitives: a.primitives + b.primitives,
        rects: a.rects + b.rects,
        rounded_rects: a.rounded_rects + b.rounded_rects,
        borders: a.borders + b.borders,
        border_corners: a.border_corners + b.border_corners,
        border_edges: a.border_edges + b.border_edges,
        shadows: a.shadows + b.shadows,
        inset_shadows: a.inset_shadows + b.inset_shadows,
        texts: a.texts + b.texts,
        text_bytes: a.text_bytes + b.text_bytes,
        gradients: a.gradients + b.gradients,
        images: a.images + b.images,
        videos: a.videos + b.videos,
        image_loading: a.image_loading + b.image_loading,
        image_failed: a.image_failed + b.image_failed,
        paint_layers: a.paint_layers + b.paint_layers,
        cacheable_layers: a.cacheable_layers + b.cacheable_layers,
        dynamic_layers: a.dynamic_layers + b.dynamic_layers,
        moving_layers: a.moving_layers + b.moving_layers,
        direct_only_layers: a.direct_only_layers + b.direct_only_layers,
    }
}

/// The counters of `s`.
pub open spec fn summary_counts(s: RenderSceneSummary) -> SummaryCounts {
    SummaryCounts {
        nodes: s.nodes as nat,
        shadow_passes: s.shadow_passes as nat,
        clips: s.clips as nat,
        relaxed_clips: s.relaxed_clips as nat,
        clip_shapes: s.clip_shapes as nat,
        transforms: s.transforms as nat,
        alphas: s.alphas as nat,
        primitives: s.primitives as nat,
        rects: s.rects as nat,
        rounded_rects: s.rounded_rects as nat,
        borders: s.borders as nat,
        border_corners: s.border_corners as nat,
        border_edges: s.border_edges as nat,
        shadows: s.shadows as nat,
        inset_shadows: s.inset_shadows as nat,
        texts: s.texts as nat,
        text_bytes: s.text_bytes as nat,
        gradients: s.gradients as nat,
        images: s.images as nat,
        videos: s.videos as nat,
        image_loading: s.image_loading as nat,
        image_failed: s.image_failed as nat,
        paint_layers: s.paint_layers as nat,
        cacheable_layers: s.cacheable_layers as nat,
        dynamic_layers: s.dynamic_layers as nat,
        moving_layers: s.moving_layers as nat,
        direct_only_layers: s.direct_only_layers as nat,
    }
}

/// Every counter of `c` fits in a `usize`.
pub open spec fn counts_fit(c: SummaryCounts) -> bool {
    &&& c.nodes <= usize::MAX
    &&& c.shadow_passes <= usize::MAX
    &&& c.clips <= usize::MAX
    &&& c.relaxed_clips <= usize::MAX
    &&& c.clip_shapes <= usize::MAX
    &&& c.transforms <= usize::MAX
    &&& c.alphas <= usize::MAX
    &&& c.primitives <= usize::MAX
    &&& c.rects <= usize::MAX
    &&& c.rounded_rects <= usize::MAX
    &&& c.borders <= usize::MAX
    &&& c.border_corners <= usize::MAX
    &&& c.border_edges <= usize::MAX
    &&& c.shadows <= usize::MAX
    &&& c.inset_shadows <= usize::MAX
    &&& c.texts <= usize::MAX
    &&& c.text_bytes <= usize::MAX
    &&& c.gradients <= usize::MAX
    &&& c.images <= usize::MAX
    &&& c.videos <= usize::MAX
    &&& c.image_loading <= usize::MAX
    &&& c.image_failed <= usize::MAX
    &&& c.paint_layers <= usize::MAX
    &&& c.cacheable_layers <= usize::MAX
    &&& c.dynamic_layers <= usize::MAX
    &&& c.moving_layers <= usize::MAX
    &&& c.direct_only_layers <= usize::MAX
}

/// What one primitive adds to the counters.
pub open spec fn primitive_counts(p: DrawPrimitive) -> SummaryCounts {
    let z = zero_counts();
    match p {
        DrawPrimitive::Rect => SummaryCounts { primitives: 1, rects: 1, ..z },
        DrawPrimitive::RoundedRect => SummaryCounts { primitives: 1, rounded_rects: 1, ..z },
        DrawPrimitive::Border(_) => SummaryCounts { primitives: 1, borders: 1, ..z },
        DrawPrimitive::BorderCorners(_) => SummaryCounts { primitives: 1, border_corners: 1, ..z },
        DrawPrimitive::BorderEdges(_) => SummaryCounts { primitives: 1, border_edges: 1, ..z },
        DrawPrimitive::Shadow => SummaryCounts { primitives: 1, shadows: 1, ..z },
        DrawPrimitive::InsetShadow => SummaryCounts { primitives: 1, inset_shadows: 1, ..z },
        DrawPrimitive::TextWithFont { text_bytes } => SummaryCounts {
            primitives: 1,
            texts: 1,
            text_bytes: text_bytes as nat,
            ..z
        },
        DrawPrimitive::Gradient => SummaryCounts { primitives: 1, gradients: 1, ..z },
        DrawPrimitive::Image => SummaryCounts { primitives: 1, images: 1, ..z },
        DrawPrimitive::Video => SummaryCounts { primitives: 1, videos: 1, ..z },
        DrawPrimitive::ImageLoading => SummaryCounts { primitives: 1, image_loading: 1, ..z },
        DrawPrimitive::ImageFailed => SummaryCounts { primitives: 1, image_failed: 1, ..z },
    }
}

/// What a paint layer itself (not its content) adds to the counters.
pub open spec fn layer_counts(layer: RenderPaintLayer) -> SummaryCounts {
    SummaryCounts {
        nodes: 1,
        paint_layers: 1,
        cacheable_layers: if layer.policy == PaintLayerPolicy::Cacheable { 1 } else { 0 },
        dynamic_layers: if layer.policy == PaintLayerPolicy::DynamicRedraw { 1 } else { 0 },
        direct_only_layers: if layer.policy == PaintLayerPolicy::DirectOnly { 1 } else { 0 },
        moving_layers: if layer.placement == PaintLayerPlacement::ScrollMoving { 1 } else { 0 },
        ..zero_counts()
    }
}

/// What a node itself (not its children or content) adds to the counters.
pub open spec fn node_own_counts(node: RenderNode) -> SummaryCounts {
    let z = zero_counts();
    match node {
        RenderNode::ShadowPass { .. } => SummaryCounts { nodes: 1, shadow_passes: 1, ..z },
        RenderNode::Clip { clip_count, .. } => SummaryCounts {
            nodes: 1,
            clips: 1,
            clip_shapes: clip_count as nat,
            ..z
        },
        RenderNode::RelaxedClip { clip_count, .. } => SummaryCounts {
            nodes: 1,
            relaxed_clips: 1,
            clip_shapes: clip_count as nat,
            ..z
        },
        RenderNode::Transform { .. } => SummaryCounts { nodes: 1, transforms: 1, ..z },
        RenderNode::Alpha { .. } => SummaryCounts { nodes: 1, alphas: 1, ..z },
        RenderNode::PaintLayer(layer) => layer_counts(layer),
        RenderNode::Primitive(p) => SummaryCounts { nodes: 1, ..primitive_counts(p) },
    }
}

/// The counters of a node sequence: every node, the children of every
/// scope, and the own nodes and child-reference nodes of every paint layer.
pub open spec fn nodes_counts(s: Seq<RenderNode>) -> SummaryCounts
    decreases s,
{
    if s.len() == 0 {
        zero_counts()
    } else {
        add_counts(nodes_counts(s.drop_last()), node_counts(s.last()))
    }
}

/// The counters of one node and everything under it.
pub open spec fn node_counts(node: RenderNode) -> SummaryCounts
    decreases node,
{
    add_counts(
        node_own_counts(node),
        match node {
            RenderNode::ShadowPass { children } => nodes_counts(children@),
            RenderNode::Clip { children, .. } => nodes_counts(children@),
            RenderNode::RelaxedClip { children, .. } => nodes_counts(children@),
            RenderNode::Transform { children } => nodes_counts(children@),
            RenderNode::Alpha { children } => nodes_counts(children@),
            RenderNode::PaintLayer(layer) => add_counts(
                nodes_counts(layer.own_nodes@),
                refs_counts(layer.child_refs@),
            ),
            RenderNode::Primitive(_) => zero_counts(),
        },
    )
}

/// The counters of the nodes of a sequence of child references.
pub open spec fn refs_counts(refs: Seq<RenderPaintLayerChildRef>) -> SummaryCounts
    decreases refs,
{
    if refs.len() == 0 {
        zero_counts()
    } else {
        add_counts(refs_counts(refs.drop_last()), nodes_counts(refs.last().nodes@))
    }
}

/// Every counter of `a` is at most the same counter of `b`.
pub open spec fn counts_le(a: SummaryCounts, b: SummaryCounts) -> bool {
    &&& a.nodes <= b.nodes
    &&& a.shadow_passes <= b.shadow_passes
    &&& a.clips <= b.clips
    &&& a.relaxed_clips <= b.relaxed_clips
    &&& a.clip_shapes <= b.clip_shapes
    &&& a.transforms <= b.transforms
    &&& a.alphas <= b.alphas
    &&& a.primitives <= b.primitives
    &&& a.rects <= b.rects
    &&& a.rounded_rects <= b.rounded_rects
    &&& a.borders <= b.borders
    &&& a.border_corners <= b.border_corners
    &&& a.border_edges <= b.border_edges
    &&& a.shadows <= b.shadows
    &&& a.inset_shadows <= b.inset_shadows
    &&& a.texts <= b.texts
    &&& a.text_bytes <= b.text_bytes
    &&& a.gradients <= b.gradients
    &&& a.images <= b.images
    &&& a.videos <= b.videos
    &&& a.image_loading <= b.image_loading
    &&& a.image_failed <= b.image_failed
    &&& a.paint_layers <= b.paint_layers
    &&& a.cacheable_layers <= b.cacheable_layers
    &&& a.dynamic_layers <= b.dynamic_layers
    &&& a.moving_layers <= b.moving_layers
    &&& a.direct_only_layers <= b.direct_only_layers
}

/// The counters of a prefix of a node sequence are at most those of the
/// whole sequence.
pub proof fn lemma_nodes_counts_prefix(s: Seq<RenderNode>, i: int)
    requires
        0 <= i <= s.len(),
    ensures
        counts_le(nodes_counts(s.take(i)), nodes_counts(s)),
    decreases s.len(),
{
    if i == s.len() {
        assert(s.take(i) =~= s);
    } else {
        lemma_nodes_counts_prefix(s.drop_last(), i);
        assert(s.drop_last().take(i) =~= s.take(i));
    }
}

/// The counters of a prefix of a child-reference sequence are at most those
/// of the whole sequence.
pub proof fn lemma_refs_counts_prefix(s: Seq<RenderPaintLayerChildRef>, i: int)
    requires
        0 <= i <= s.len(),
    ensures
        counts_le(refs_counts(s.take(i)), refs_counts(s)),
    decreases s.len(),
{
    if i == s.len() {
        assert(s.take(i) =~= s);
    } else {
        lemma_refs_counts_prefix(s.drop_last(), i);
        assert(s.drop_last().take(i) =~= s.take(i));
    }
}

impl RenderSceneSummary {
    /// The summary with every counter at zero.
    pub fn empty() -> (s: Self)
        ensures
            summary_counts(s) == zero_counts(),
    {
        RenderSceneSummary {
            nodes: 0,
            shadow_passes: 0,
            clips: 0,
            relaxed_clips: 0,
            clip_shapes: 0,
            transforms: 0,
            alphas: 0,
            primitives: 0,
            rects: 0,
            rounded_rects: 0,
            borders: 0,
            border_corners: 0,
            border_edges: 0,
            shadows: 0,
            inset_shadows: 0,
            texts: 0,
            text_bytes: 0,
            gradients: 0,
            images: 0,
            videos: 0,
            image_loading: 0,
            image_failed: 0,
            paint_layers: 0,
            cacheable_layers: 0,
            dynamic_layers: 0,
            moving_layers: 0,
            direct_only_layers: 0,
        }
    }

    /// Adds one primitive to the counters.
    pub fn record_primitive(&mut self, primitive: &DrawPrimitive)
        requires
            counts_fit(add_counts(summary_counts(*old(self)), primitive_counts(*primitive))),
        ensures
            summary_counts(*final(self)) == add_counts(
                summary_counts(*old(self)),
                primitive_counts(*primitive),
            ),
    {
        self.primitives = self.primitives + 1;
        match primitive {
            DrawPrimitive::Rect => self.rects = self.rects + 1,
            DrawPrimitive::RoundedRect => self.rounded_rects = self.rounded_rects + 1,
            DrawPrimitive::Border(_) => self.borders = self.borders + 1,
            DrawPrimitive::BorderCorners(_) => self.border_corners = self.border_corners + 1,
            DrawPrimitive::BorderEdges(_) => self.border_edges = self.border_edges + 1,
            DrawPrimitive::Shadow => self.shadows = self.shadows + 1,
            DrawPrimitive::InsetShadow => self.inset_shadows = self.inset_shadows + 1,
            DrawPrimitive::TextWithFont { text_bytes } => {
                self.texts = self.texts + 1;
                self.text_bytes = self.text_bytes + *text_bytes;
            },
            DrawPrimitive::Gradient => self.gradients = self.gradients + 1,
            DrawPrimitive::Image => self.images = self.images + 1,
            DrawPrimitive::Video => self.videos = self.videos + 1,
            DrawPrimitive::ImageLoading => self.image_loading = self.image_loading + 1,
            DrawPrimitive::ImageFailed => self.image_failed = self.image_failed + 1,
        }
    }

    /// Adds `nodes` and everything under them to the counters.
    pub fn record_nodes(&mut self, nodes: &[RenderNode])
        requires
            counts_fit(add_counts(summary_counts(*old(self)), nodes_counts(nodes@))),
        ensures
            summary_counts(*final(self)) == add_counts(
                summary_counts(*old(self)),
                nodes_counts(nodes@),
            ),
        decreases nodes@,
    {
        let ghost start = summary_counts(*self);
        let mut i: usize = 0;
        while i < nodes.len()
            invariant
                i <= nodes@.len(),
                counts_fit(add_counts(start, nodes_counts(nodes@))),
                summary_counts(*self) == add_counts(start, nodes_counts(nodes@.take(i as int))),
            decreases nodes@.len() - i,
        {
            proof {
                lemma_nodes_counts_prefix(nodes@, i + 1);
                assert(nodes@.take(i + 1).drop_last() =~= nodes@.take(i as int));
            }
            let node = &nodes[i];
            let ghost base = summary_counts(*self);
            assert(counts_fit(add_counts(base, node_counts(*node))));
            self.record_node(node);
            i = i + 1;
        }
        assert(nodes@.take(nodes@.len() as int) =~= nodes@);
    }

    /// Adds one node and everything under it to the counters.
    pub fn record_node(&mut self, node: &RenderNode)
        requires
            counts_fit(add_counts(summary_counts(*old(self)), node_counts(*node))),
        ensures
            summary_counts(*final(self)) == add_counts(
                summary_counts(*old(self)),
                node_counts(*node),
            ),
        decreases *node,
    {
        if let RenderNode::PaintLayer(layer) = node {
            self.record_paint_layer(layer);
            return;
        }
        self.nodes = self.nodes + 1;
        match node {
            RenderNode::ShadowPass { children } => {
                self.shadow_passes = self.shadow_passes + 1;
                self.record_nodes(children.as_slice());
            },
            RenderNode::Clip { clip_count, children } => {
                self.clips = self.clips + 1;
                self.clip_shapes = self.clip_shapes + *clip_count;
                self.record_nodes(children.as_slice());
            },
            RenderNode::RelaxedClip { clip_count, children } => {
                self.relaxed_clips = self.relaxed_clips + 1;
                self.clip_shapes = self.clip_shapes + *clip_count;
                self.record_nodes(children.as_slice());
            },
            RenderNode::Transform { children } => {
                self.transforms = self.transforms + 1;
                self.record_nodes(children.as_slice());
            },
            RenderNode::Alpha { children } => {
                self.alphas = self.alphas + 1;
                self.record_nodes(children.as_slice());
            },
            RenderNode::PaintLayer(_) => {},
            RenderNode::Primitive(primitive) => self.record_primitive(primitive),
        }
    }

    /// Adds one paint layer, its own nodes and its child-reference nodes to
    /// the counters.
    pub fn record_paint_layer(&mut self, layer: &RenderPaintLayer)
        requires
            counts_fit(
                add_counts(
                    summary_counts(*old(self)),
                    node_counts(RenderNode::PaintLayer(*layer)),
                ),
            ),
        ensures
            summary_counts(*final(self)) == add_counts(
                summary_counts(*old(self)),
                node_counts(RenderNode::PaintLayer(*layer)),
            ),
        decreases *layer,
    {
        self.nodes = self.nodes + 1;
        self.paint_layers = self.paint_layers + 1;
        match layer.policy {
            PaintLayerPolicy::Cacheable => self.cacheable_layers = self.cacheable_layers
                + 1,
            PaintLayerPolicy::DynamicRedraw => self.dynamic_layers = self.dynamic_layers
                + 1,
            PaintLayerPolicy::DirectOnly => self.direct_only_layers =
            self.direct_only_layers + 1,
        }
        if layer.placement == PaintLayerPlacement::ScrollMoving {
            self.moving_layers = self.moving_layers + 1;
        }
        self.record_nodes(layer.own_nodes.as_slice());
        let ghost after_own = summary_counts(*self);
        let mut j: usize = 0;
        while j < layer.child_refs.len()
            invariant
                j <= layer.child_refs@.len(),
                counts_fit(add_counts(after_own, refs_counts(layer.child_refs@))),
                summary_counts(*self) == add_counts(
                    after_own,
                    refs_counts(layer.child_refs@.take(j as int)),
                ),
            decreases layer.child_refs@.len() - j,
        {
            proof {
                lemma_refs_counts_prefix(layer.child_refs@, j + 1);
                assert(layer.child_refs@.take(j + 1).drop_last() =~= layer.child_refs@.take(
                    j as int,
                ));
            }
            self.record_nodes(layer.child_refs[j].nodes.as_slice());
            j = j + 1;
        }
        assert(layer.child_refs@.take(layer.child_refs@.len() as int)
            =~= layer.child_refs@);
    }
}


// ============================================================================
// Paint-layer queries
// ============================================================================

/// Which paint layers a query looks for.
#[derive(Clone, Copy, Debug, PartialEq, Eq, Structural)]
pub enum LayerQuery {
    /// Layers whose policy is `Cacheable`.
    Cacheable,
    /// Layers whose placement is `ScrollMoving`.
    ScrollMoving,
}

/// Whether `layer` itself is one the query looks for.
pub open spec fn layer_selected(layer: RenderPaintLayer, q: LayerQuery) -> bool {
    match q {
        LayerQuery::Cacheable => layer.policy == PaintLayerPolicy::Cacheable,
        LayerQuery::ScrollMoving => layer.placement == PaintLayerPlacement::ScrollMoving,
    }
}

/// Whether a node sequence holds a selected paint layer, looking through
/// scopes and through the child references (not the own nodes) of layers.
pub open spec fn nodes_have_layer(s: Seq<RenderNode>, q: LayerQuery) -> bool
    decreases s,
{
    if s.len() == 0 {
        false
    } else {
        nodes_have_layer(s.drop_last(), q) || node_has_layer(s.last(), q)
    }
}

/// Whether a node is, or holds, a selected paint layer.
pub open spec fn node_has_layer(node: RenderNode, q: LayerQuery) -> bool
    decreases node,
{
    match node {
        RenderNode::ShadowPass { children } => nodes_have_layer(children@, q),
        RenderNode::Clip { children, .. } => nodes_have_layer(children@, q),
        RenderNode::RelaxedClip { children, .. } => nodes_have_layer(children@, q),
        RenderNode::Transform { children } => nodes_have_layer(children@, q),
        RenderNode::Alpha { children } => nodes_have_layer(children@, q),
        RenderNode::PaintLayer(layer) => layer_selected(layer, q) || refs_have_layer(
            layer.child_refs@,
            q,
        ),
        RenderNode::Primitive(_) => false,
    }
}

/// Whether the nodes of some child reference hold a selected paint layer.
pub open spec fn refs_have_layer(refs: Seq<RenderPaintLayerChildRef>, q: LayerQuery) -> bool
    decreases refs,
{
    if refs.len() == 0 {
        false
    } else {
        refs_have_layer(refs.drop_last(), q) || nodes_have_layer(refs.last().nodes@, q)
    }
}

fn layer_matches_query(layer: &RenderPaintLayer, q: LayerQuery) -> (selected: bool)
    ensures
        selected == layer_selected(*layer, q),
{
    match q {
        LayerQuery::Cacheable => layer.policy == PaintLayerPolicy::Cacheable,
        LayerQuery::ScrollMoving => layer.placement == PaintLayerPlacement::ScrollMoving,
    }
}

/// Whether `nodes` hold a paint layer the query selects.
pub fn nodes_have_paint_layer(nodes: &[RenderNode], q: LayerQuery) -> (found: bool)
    ensures
        found == nodes_have_layer(nodes@, q),
    decreases nodes@,
{
    let mut i: usize = 0;
    while i < nodes.len()
        invariant
            i <= nodes@.len(),
            !nodes_have_layer(nodes@.take(i as int), q),
        decreases nodes@.len() - i,
    {
        assert(nodes@.take(i + 1).drop_last() =~= nodes@.take(i as int));
        if node_has_paint_layer(&nodes[i], q) {
            assert(nodes_have_layer(nodes@.take(i + 1), q));
            proof {
                lemma_nodes_have_layer_prefix(nodes@, i + 1, q);
            }
            return true;
        }
        i = i + 1;
    }
    assert(nodes@.take(nodes@.len() as int) =~= nodes@);
    false
}

/// Whether `node` is or holds a paint layer the query selects.
pub fn node_has_paint_layer(node: &RenderNode, q: LayerQuery) -> (found: bool)
    ensures
        found == node_has_layer(*node, q),
    decreases *node,
{
    match node {
        RenderNode::ShadowPass { children }
        | RenderNode::Clip { children, .. }
        | RenderNode::RelaxedClip { children, .. }
        | RenderNode::Transform { children }
        | RenderNode::Alpha { children } => nodes_have_paint_layer(children.as_slice(), q),
        RenderNode::PaintLayer(layer) => layer_has_paint_layer(layer, q),
        RenderNode::Primitive(_) => false,
    }
}


/// Whether `layer` is selected by the query or holds a selected layer in its
/// child references.
pub fn layer_has_paint_layer(layer: &RenderPaintLayer, q: LayerQuery) -> (found: bool)
    ensures
        found == node_has_layer(RenderNode::PaintLayer(*layer), q),
    decreases *layer,
{
        if layer_matches_query(layer, q) {
            return true;
        }
        let mut j: usize = 0;
        while j < layer.child_refs.len()
            invariant
                j <= layer.child_refs@.len(),
                !layer_selected(*layer, q),
                !refs_have_layer(layer.child_refs@.take(j as int), q),
            decreases layer.child_refs@.len() - j,
        {
            assert(layer.child_refs@.take(j + 1).drop_last() =~= layer.child_refs@.take(
                j as int,
            ));
            assert(decreases_to!(*layer => layer.child_refs));
            assert(decreases_to!(layer.child_refs => layer.child_refs@));
            assert(decreases_to!(layer.child_refs@ => layer.child_refs@[j as int]));
            assert(decreases_to!(layer.child_refs@[j as int] => layer.child_refs@[j as int].nodes));
            if nodes_have_paint_layer(layer.child_refs[j].nodes.as_slice(), q) {
                assert(refs_have_layer(layer.child_refs@.take(j + 1), q));
                proof {
                    lemma_refs_have_layer_prefix(layer.child_refs@, j + 1, q);
                }
                return true;
            }
            j = j + 1;
        }
        assert(layer.child_refs@.take(layer.child_refs@.len() as int) =~= layer.child_refs@);
        false
}

/// A prefix holding a selected layer makes the whole sequence hold one.
pub proof fn lemma_nodes_have_layer_prefix(s: Seq<RenderNode>, i: int, q: LayerQuery)
    requires
        0 <= i <= s.len(),
        nodes_have_layer(s.take(i), q),
    ensures
        nodes_have_layer(s, q),
    decreases s.len(),
{
    if i == s.len() {
        assert(s.take(i) =~= s);
    } else {
        assert(s.drop_last().take(i) =~= s.take(i));
        lemma_nodes_have_layer_prefix(s.drop_last(), i, q);
    }
}

/// A prefix holding a selected layer makes the whole sequence hold one.
pub proof fn lemma_refs_have_layer_prefix(s: Seq<RenderPaintLayerChildRef>, i: int, q: LayerQuery)
    requires
        0 <= i <= s.len(),
        refs_have_layer(s.take(i), q),
    ensures
        refs_have_layer(s, q),
    decreases s.len(),
{
    if i == s.len() {
        assert(s.take(i) =~= s);
    } else {
        assert(s.drop_last().take(i) =~= s.take(i));
        lemma_refs_have_layer_prefix(s.drop_last(), i, q);
    }
}

/// A counter rendered after its label.
pub open spec fn labelled(label: Seq<char>, n: usize) -> Seq<char> {
    label + crate::text::decimal(n as nat)
}

/// The one-line text of a summary: every counter after its label, the
/// scope, draw and paint-layer counters grouped in braces.
pub open spec fn spec_summary_text(s: RenderSceneSummary) -> Seq<char> {
    labelled("nodes="@, s.nodes)
        + labelled(" primitives="@, s.primitives)
        + labelled(" scopes={shadow_passes="@, s.shadow_passes)
        + labelled(" clips="@, s.clips)
        + labelled(" relaxed_clips="@, s.relaxed_clips)
        + labelled(" clip_shapes="@, s.clip_shapes)
        + labelled(" transforms="@, s.transforms)
        + labelled(" alphas="@, s.alphas)
        + labelled("} draws={rects="@, s.rects)
        + labelled(" rounded_rects="@, s.rounded_rects)
        + labelled(" borders="@, s.borders)
        + labelled(" border_corners="@, s.border_corners)
        + labelled(" border_edges="@, s.border_edges)
        + labelled(" shadows="@, s.shadows)
        + labelled(" inset_shadows="@, s.inset_shadows)
        + labelled(" texts="@, s.texts)
        + labelled(" text_bytes="@, s.text_bytes)
        + labelled(" gradients="@, s.gradients)
        + labelled(" images="@, s.images)
        + labelled(" videos="@, s.videos)
        + labelled(" image_loading="@, s.image_loading)
        + labelled(" image_failed="@, s.image_failed)
        + labelled("} paint_layers={total="@, s.paint_layers)
        + labelled(" cacheable="@, s.cacheable_layers)
        + labelled(" dynamic="@, s.dynamic_layers)
        + labelled(" moving="@, s.moving_layers)
        + labelled(" direct_only="@, s.direct_only_layers)
        + "}"@
}

/// Appends `label` and then the decimal rendering of `n` to `out`.
fn push_labelled(out: &mut String, label: &str, n: usize)
    ensures
        final(out)@ == old(out)@ + labelled(label@, n),
{
    let ghost start = out@;
    out.append(label);
    push_decimal(out, n);
    assert(out@ =~= start + labelled(label@, n));
}

impl RenderSceneSummary {
    /// The summary as one line of text.
    pub fn to_string(&self) -> (text: String)
        ensures
            text@ == spec_summary_text(*self),
    {
        let mut out = String::new();
        assert(out@ =~= Seq::<char>::empty());
        push_labelled(&mut out, "nodes=", self.nodes);
        assert(out@ =~= labelled("nodes="@, self.nodes));
        push_labelled(&mut out, " primitives=", self.primitives);
        push_labelled(&mut out, " scopes={shadow_passes=", self.shadow_passes);
        push_labelled(&mut out, " clips=", self.clips);
        push_labelled(&mut out, " relaxed_clips=", self.relaxed_clips);
        push_labelled(&mut out, " clip_shapes=", self.clip_shapes);
        push_labelled(&mut out, " transforms=", self.transforms);
        push_labelled(&mut out, " alphas=", self.alphas);
        push_labelled(&mut out, "} draws={rects=", self.rects);
        push_labelled(&mut out, " rounded_rects=", self.rounded_rects);
        push_labelled(&mut out, " borders=", self.borders);
        push_labelled(&mut out, " border_corners=", self.border_corners);
        push_labelled(&mut out, " border_edges=", self.border_edges);
        push_labelled(&mut out, " shadows=", self.shadows);
        push_labelled(&mut out, " inset_shadows=", self.inset_shadows);
        push_labelled(&mut out, " texts=", self.texts);
        push_labelled(&mut out, " text_bytes=", self.text_bytes);
        push_labelled(&mut out, " gradients=", self.gradients);
        push_labelled(&mut out, " images=", self.images);
        push_labelled(&mut out, " videos=", self.videos);
        push_labelled(&mut out, " image_loading=", self.image_loading);
        push_labelled(&mut out, " image_failed=", self.image_failed);
        push_labelled(&mut out, "} paint_layers={total=", self.paint_layers);
        push_labelled(&mut out, " cacheable=", self.cacheable_layers);
        push_labelled(&mut out, " dynamic=", self.dynamic_layers);
        push_labelled(&mut out, " moving=", self.moving_layers);
        push_labelled(&mut out, " direct_only=", self.direct_only_layers);
        out.append("}");
        out
    }
}

/// The counters partition as a summary's counters must: every node is one
/// scope, paint layer or primitive; every primitive is of one kind; every
/// paint layer has one policy; scroll-moving layers are paint layers.
pub open spec fn counts_partition(c: SummaryCounts) -> bool {
    &&& c.nodes == c.shadow_passes + c.clips + c.relaxed_clips + c.transforms + c.alphas
        + c.paint_layers + c.primitives
    &&& c.primitives == c.rects + c.rounded_rects + c.borders + c.border_corners + c.border_edges
        + c.shadows + c.inset_shadows + c.texts + c.gradients + c.images + c.videos + c.image_loading
        + c.image_failed
    &&& c.paint_layers == c.cacheable_layers + c.dynamic_layers + c.direct_only_layers
    &&& c.moving_layers <= c.paint_layers
}

proof fn lemma_partition_nodes(s: Seq<RenderNode>)
    ensures
        counts_partition(nodes_counts(s)),
    decreases s,
{
    if s.len() > 0 {
        lemma_partition_nodes(s.drop_last());
        lemma_partition_node(s.last());
    }
}

proof fn lemma_partition_node(node: RenderNode)
    ensures
        counts_partition(node_counts(node)),
    decreases node,
{
    match node {
        RenderNode::ShadowPass { children } => lemma_partition_nodes(children@),
        RenderNode::Clip { children, .. } => lemma_partition_nodes(children@),
        RenderNode::RelaxedClip { children, .. } => lemma_partition_nodes(children@),
        RenderNode::Transform { children } => lemma_partition_nodes(children@),
        RenderNode::Alpha { children } => lemma_partition_nodes(children@),
        RenderNode::PaintLayer(layer) => {
            lemma_partition_nodes(layer.own_nodes@);
            lemma_partition_refs(layer.child_refs@);
        },
        RenderNode::Primitive(_) => {},
    }
}

proof fn lemma_partition_refs(refs: Seq<RenderPaintLayerChildRef>)
    ensures
        counts_partition(refs_counts(refs)),
    decreases refs,
{
    if refs.len() > 0 {
        lemma_partition_refs(refs.drop_last());
        lemma_partition_nodes(refs.last().nodes@);
    }
}

/// A scene summary counts every node once, as exactly one scope, paint
/// layer or primitive; every primitive as exactly one kind; every paint
/// layer under exactly one policy; and scroll-moving layers among the paint
/// layers. An empty scene has every counter at zero.
pub proof fn law_summary_counts_partition(scene: RenderScene)
    ensures
        counts_partition(nodes_counts(scene.nodes@)),
        scene.nodes@.len() == 0 ==> nodes_counts(scene.nodes@) == zero_counts(),
{
    lemma_partition_nodes(scene.nodes@);
}


impl RenderScene {
    /// The summary counters of the whole scene.
    pub fn summary(&self) -> (summary: RenderSceneSummary)
        requires
            counts_fit(nodes_counts(self.nodes@)),
        ensures
            summary_counts(summary) == nodes_counts(self.nodes@),
            counts_partition(summary_counts(summary)),
    {
        let mut summary = RenderSceneSummary::empty();
        proof {
            lemma_add_zero_left(nodes_counts(self.nodes@));
            lemma_partition_nodes(self.nodes@);
        }
        summary.record_nodes(self.nodes.as_slice());
        summary
    }

    /// Whether the scene holds a paint layer whose policy is `Cacheable`.
    pub fn has_cacheable_paint_layers(&self) -> (found: bool)
        ensures
            found == nodes_have_layer(self.nodes@, LayerQuery::Cacheable),
    {
        nodes_have_paint_layer(self.nodes.as_slice(), LayerQuery::Cacheable)
    }

    /// Whether the scene holds a paint layer whose placement is
    /// `ScrollMoving`.
    pub fn has_scroll_moving_paint_layers(&self) -> (found: bool)
        ensures
            found == nodes_have_layer(self.nodes@, LayerQuery::ScrollMoving),
    {
        nodes_have_paint_layer(self.nodes.as_slice(), LayerQuery::ScrollMoving)
    }
}

/// Adding zero counts on the left changes nothing.
pub proof fn lemma_add_zero_left(c: SummaryCounts)
    ensures
        add_counts(zero_counts(), c) == c,
{
}


// ============================================================================
// Query and summary agree on well-formed scenes
// ============================================================================

/// No paint layer sits in the own nodes of any paint layer in `s`: every
/// nested layer is reached through child references, as
/// `RenderPaintLayer::from_children` builds them.
pub open spec fn nodes_layers_wf(s: Seq<RenderNode>) -> bool
    decreases s,
{
    s.len() == 0 || (nodes_layers_wf(s.drop_last()) && node_layers_wf(s.last()))
}

/// No paint layer sits in the own nodes of any paint layer in `node`.
pub open spec fn node_layers_wf(node: RenderNode) -> bool
    decreases node,
{
    match node {
        RenderNode::ShadowPass { children } => nodes_layers_wf(children@),
        RenderNode::Clip { children, .. } => nodes_layers_wf(children@),
        RenderNode::RelaxedClip { children, .. } => nodes_layers_wf(children@),
        RenderNode::Transform { children } => nodes_layers_wf(children@),
        RenderNode::Alpha { children } => nodes_layers_wf(children@),
        RenderNode::PaintLayer(layer) => nodes_counts(layer.own_nodes@).paint_layers == 0
            && refs_layers_wf(layer.child_refs@),
        RenderNode::Primitive(_) => true,
    }
}

/// No paint layer sits in the own nodes of any paint layer in `refs`.
pub open spec fn refs_layers_wf(refs: Seq<RenderPaintLayerChildRef>) -> bool
    decreases refs,
{
    refs.len() == 0 || (refs_layers_wf(refs.drop_last()) && nodes_layers_wf(refs.last().nodes@))
}

/// The summary counter that counts the layers a query selects.
pub open spec fn selected_count(c: SummaryCounts, q: LayerQuery) -> nat {
    match q {
        LayerQuery::Cacheable => c.cacheable_layers,
        LayerQuery::ScrollMoving => c.moving_layers,
    }
}

proof fn lemma_selected_le_layers_nodes(s: Seq<RenderNode>, q: LayerQuery)
    ensures
        selected_count(nodes_counts(s), q) <= nodes_counts(s).paint_layers,
    decreases s,
{
    if s.len() > 0 {
        lemma_selected_le_layers_nodes(s.drop_last(), q);
        lemma_selected_le_layers_node(s.last(), q);
    }
}

proof fn lemma_selected_le_layers_node(node: RenderNode, q: LayerQuery)
    ensures
        selected_count(node_counts(node), q) <= node_counts(node).paint_layers,
    decreases node,
{
    match node {
        RenderNode::ShadowPass { children } => lemma_selected_le_layers_nodes(children@, q),
        RenderNode::Clip { children, .. } => lemma_selected_le_layers_nodes(children@, q),
        RenderNode::RelaxedClip { children, .. } => lemma_selected_le_layers_nodes(children@, q),
        RenderNode::Transform { children } => lemma_selected_le_layers_nodes(children@, q),
        RenderNode::Alpha { children } => lemma_selected_le_layers_nodes(children@, q),
        RenderNode::PaintLayer(layer) => {
            lemma_selected_le_layers_nodes(layer.own_nodes@, q);
            lemma_selected_le_layers_refs(layer.child_refs@, q);
        },
        RenderNode::Primitive(_) => {},
    }
}

proof fn lemma_selected_le_layers_refs(refs: Seq<RenderPaintLayerChildRef>, q: LayerQuery)
    ensures
        selected_count(refs_counts(refs), q) <= refs_counts(refs).paint_layers,
    decreases refs,
{
    if refs.len() > 0 {
        lemma_selected_le_layers_refs(refs.drop_last(), q);
        lemma_selected_le_layers_nodes(refs.last().nodes@, q);
    }
}

/// On a well-formed node sequence, a query finds a selected layer exactly
/// when the summary counts at least one.
pub proof fn lemma_query_matches_summary(s: Seq<RenderNode>, q: LayerQuery)
    requires
        nodes_layers_wf(s),
    ensures
        nodes_have_layer(s, q) <==> selected_count(nodes_counts(s), q) > 0,
    decreases s,
{
    if s.len() > 0 {
        lemma_query_matches_summary(s.drop_last(), q);
        lemma_query_matches_summary_node(s.last(), q);
    }
}

/// On a well-formed node, a query finds a selected layer exactly when the
/// summary counts at least one.
pub proof fn lemma_query_matches_summary_node(node: RenderNode, q: LayerQuery)
    requires
        node_layers_wf(node),
    ensures
        node_has_layer(node, q) <==> selected_count(node_counts(node), q) > 0,
    decreases node,
{
    match node {
        RenderNode::ShadowPass { children } => lemma_query_matches_summary(children@, q),
        RenderNode::Clip { children, .. } => lemma_query_matches_summary(children@, q),
        RenderNode::RelaxedClip { children, .. } => lemma_query_matches_summary(children@, q),
        RenderNode::Transform { children } => lemma_query_matches_summary(children@, q),
        RenderNode::Alpha { children } => lemma_query_matches_summary(children@, q),
        RenderNode::PaintLayer(layer) => {
            lemma_selected_le_layers_nodes(layer.own_nodes@, q);
            lemma_query_matches_summary_refs(layer.child_refs@, q);
        },
        RenderNode::Primitive(_) => {},
    }
}

proof fn lemma_query_matches_summary_refs(refs: Seq<RenderPaintLayerChildRef>, q: LayerQuery)
    requires
        refs_layers_wf(refs),
    ensures
        refs_have_layer(refs, q) <==> selected_count(refs_counts(refs), q) > 0,
    decreases refs,
{
    if refs.len() > 0 {
        lemma_query_matches_summary_refs(refs.drop_last(), q);
        lemma_query_matches_summary(refs.last().nodes@, q);
    }
}

/// On a scene whose paint layers keep nested layers out of their own nodes,
/// `has_cacheable_paint_layers` holds exactly when the summary counts a
/// cacheable layer, and `has_scroll_moving_paint_layers` exactly when it
/// counts a moving layer.
pub proof fn law_layer_queries_agree_with_summary(scene: RenderScene)
    requires
        nodes_layers_wf(scene.nodes@),
    ensures
        nodes_have_layer(scene.nodes@, LayerQuery::Cacheable) <==> nodes_counts(
            scene.nodes@,
        ).cacheable_layers > 0,
        nodes_have_layer(scene.nodes@, LayerQuery::ScrollMoving) <==> nodes_counts(
            scene.nodes@,
        ).moving_layers > 0,
{
    lemma_query_matches_summary(scene.nodes@, LayerQuery::Cacheable);
    lemma_query_matches_summary(scene.nodes@, LayerQuery::ScrollMoving);
}


// ============================================================================
// Paint-layer content splitting
// ============================================================================

/// The content of a paint layer split for drawing: `own_nodes` are drawn
/// first, then each child reference in order.
#[derive(Debug, PartialEq)]
pub struct RenderPaintLayerContent {
    pub own_nodes: Vec<RenderNode>,
    pub child_refs: Vec<RenderPaintLayerChildRef>,
}

/// The scope of a scope node, without its children.
#[derive(Clone, Copy, Debug, PartialEq, Eq, Structural)]
pub enum ScopeHeader {
    ShadowPass,
    Clip { clip_count: usize },
    RelaxedClip { clip_count: usize },
    Transform,
    Alpha,
}

/// The scope of `node`, if it is a scope node.
pub open spec fn scope_header_of(node: RenderNode) -> Option<ScopeHeader> {
    match node {
        RenderNode::ShadowPass { .. } => Some(ScopeHeader::ShadowPass),
        RenderNode::Clip { clip_count, .. } => Some(ScopeHeader::Clip { clip_count }),
        RenderNode::RelaxedClip { clip_count, .. } => Some(ScopeHeader::RelaxedClip { clip_count }),
        RenderNode::Transform { .. } => Some(ScopeHeader::Transform),
        RenderNode::Alpha { .. } => Some(ScopeHeader::Alpha),
        _ => None,
    }
}

/// The children of a scope node (none for other nodes).
pub open spec fn scope_children(node: RenderNode) -> Seq<RenderNode> {
    match node {
        RenderNode::ShadowPass { children } => children@,
        RenderNode::Clip { children, .. } => children@,
        RenderNode::RelaxedClip { children, .. } => children@,
        RenderNode::Transform { children } => children@,
        RenderNode::Alpha { children } => children@,
        _ => Seq::empty(),
    }
}

/// The node sequences of child references.
pub open spec fn child_ref_nodes(refs: Seq<RenderPaintLayerChildRef>) -> Seq<Seq<RenderNode>> {
    refs.map(|i: int, r: RenderPaintLayerChildRef| r.nodes@)
}

/// `own` and `refs` are the split of node sequence `s`: nodes are split in
/// order, each appending its own part and its references, until the first
/// node that holds a paint layer; every node after that becomes a child
/// reference of its own, unsplit.
pub open spec fn split_of(s: Seq<RenderNode>, own: Seq<RenderNode>, refs: Seq<Seq<RenderNode>>) -> bool
    decreases s, 1int,
{
    if s.len() == 0 {
        own.len() == 0 && refs.len() == 0
    } else {
        let p = s.drop_last();
        let x = s.last();
        if nodes_counts(p).paint_layers == 0 {
            exists|k: int|
                0 <= k <= own.len() && split_of(p, own.take(k), Seq::empty()) && node_split_of(
                    x,
                    own.skip(k),
                    refs,
                )
        } else {
            &&& refs.len() >= 1
            &&& refs.last() == seq![x]
            &&& split_of(p, own, refs.drop_last())
        }
    }
}

/// The split of the children of a scope node is wrapped back into the
/// scope: the own part, if any, as one scope node; each reference as one
/// scope node around the reference's nodes.
pub open spec fn scope_split_shape(
    x: RenderNode,
    own: Seq<RenderNode>,
    refs: Seq<Seq<RenderNode>>,
) -> bool {
    &&& own.len() <= 1
    &&& own.len() == 1 ==> scope_header_of(own[0]) == scope_header_of(x) && scope_children(own[0]).len() > 0
    &&& forall|i: int|
        0 <= i < refs.len() ==> (#[trigger] refs[i]).len() == 1 && scope_header_of(refs[i][0])
            == scope_header_of(x)
}

/// The own nodes inside a wrapped own part.
pub open spec fn unwrap_own(own: Seq<RenderNode>) -> Seq<RenderNode> {
    if own.len() == 0 {
        Seq::empty()
    } else {
        scope_children(own[0])
    }
}

/// The reference nodes inside wrapped references.
pub open spec fn unwrap_refs(refs: Seq<Seq<RenderNode>>) -> Seq<Seq<RenderNode>> {
    refs.map(|i: int, r: Seq<RenderNode>| scope_children(r[0]))
}

/// `own` and `refs` are the split of one node: a primitive stays in the own
/// part, a paint layer becomes a reference of its own, and a scope splits
/// its children and wraps both parts back in the scope.
pub open spec fn node_split_of(x: RenderNode, own: Seq<RenderNode>, refs: Seq<Seq<RenderNode>>) -> bool
    decreases x, 0int,
{
    match x {
        RenderNode::Primitive(_) => own == seq![x] && refs.len() == 0,
        RenderNode::PaintLayer(_) => own.len() == 0 && refs == seq![seq![x]],
        RenderNode::ShadowPass { children } => scope_split_shape(x, own, refs) && split_of(
            children@,
            unwrap_own(own),
            unwrap_refs(refs),
        ),
        RenderNode::Clip { children, .. } => scope_split_shape(x, own, refs) && split_of(
            children@,
            unwrap_own(own),
            unwrap_refs(refs),
        ),
        RenderNode::RelaxedClip { children, .. } => scope_split_shape(x, own, refs) && split_of(
            children@,
            unwrap_own(own),
            unwrap_refs(refs),
        ),
        RenderNode::Transform { children } => scope_split_shape(x, own, refs) && split_of(
            children@,
            unwrap_own(own),
            unwrap_refs(refs),
        ),
        RenderNode::Alpha { children } => scope_split_shape(x, own, refs) && split_of(
            children@,
            unwrap_own(own),
            unwrap_refs(refs),
        ),
    }
}

impl ScopeHeader {
    /// The scope node with this header around `children`.
    pub fn wrap(self, children: Vec<RenderNode>) -> (node: RenderNode)
        ensures
            scope_header_of(node) == Some(self),
            scope_children(node) == children@,
    {
        match self {
            ScopeHeader::ShadowPass => RenderNode::ShadowPass { children },
            ScopeHeader::Clip { clip_count } => RenderNode::Clip { clip_count, children },
            ScopeHeader::RelaxedClip { clip_count } => RenderNode::RelaxedClip { clip_count, children },
            ScopeHeader::Transform => RenderNode::Transform { children },
            ScopeHeader::Alpha => RenderNode::Alpha { children },
        }
    }
}

impl RenderPaintLayerChildRef {
    pub fn from_nodes(nodes: Vec<RenderNode>) -> (r: Self)
        ensures
            r.nodes@ == nodes@,
    {
        RenderPaintLayerChildRef { nodes }
    }
}

/// A split has references exactly when the split sequence holds a paint
/// layer.
pub proof fn lemma_split_refs_iff_layers(s: Seq<RenderNode>, own: Seq<RenderNode>, refs: Seq<Seq<RenderNode>>)
    requires
        split_of(s, own, refs),
    ensures
        refs.len() == 0 <==> nodes_counts(s).paint_layers == 0,
    decreases s, 1int,
{
    if s.len() > 0 {
        let p = s.drop_last();
        let x = s.last();
        if nodes_counts(p).paint_layers == 0 {
            let k = choose|k: int|
                0 <= k <= own.len() && split_of(p, own.take(k), Seq::empty()) && node_split_of(
                    x,
                    own.skip(k),
                    refs,
                );
            lemma_node_split_refs_iff_layers(x, own.skip(k), refs);
        } else {
            lemma_split_refs_iff_layers(p, own, refs.drop_last());
        }
    }
}

/// A node's split has references exactly when the node is or holds a
/// paint layer.
pub proof fn lemma_node_split_refs_iff_layers(x: RenderNode, own: Seq<RenderNode>, refs: Seq<Seq<RenderNode>>)
    requires
        node_split_of(x, own, refs),
    ensures
        refs.len() == 0 <==> node_counts(x).paint_layers == 0,
    decreases x, 0int,
{
    match x {
        RenderNode::ShadowPass { children } => lemma_split_refs_iff_layers(children@, unwrap_own(own), unwrap_refs(refs)),
        RenderNode::Clip { children, .. } => lemma_split_refs_iff_layers(children@, unwrap_own(own), unwrap_refs(refs)),
        RenderNode::RelaxedClip { children, .. } => lemma_split_refs_iff_layers(children@, unwrap_own(own), unwrap_refs(refs)),
        RenderNode::Transform { children } => lemma_split_refs_iff_layers(children@, unwrap_own(own), unwrap_refs(refs)),
        RenderNode::Alpha { children } => lemma_split_refs_iff_layers(children@, unwrap_own(own), unwrap_refs(refs)),
        _ => {},
    }
}


/// The nodes of `v`, in order, taken out as a vector in reverse order, so
/// that popping yields them first to last.
fn reversed(v: Vec<RenderNode>) -> (r: Vec<RenderNode>)
    ensures
        r@ == v@.reverse(),
{
    let ghost all = v@;
    let mut v = v;
    let mut r: Vec<RenderNode> = Vec::new();
    while v.len() > 0
        invariant
            v@ == all.take(v@.len() as int),
            r@ == all.skip(v@.len() as int).reverse(),
            v@.len() <= all.len(),
        decreases v@.len(),
    {
        let ghost m = v@.len();
        let x = v.pop().unwrap();
        assert(x == all[m - 1]);
        r.push(x);
        assert(all.skip(m - 1).reverse() =~= all.skip(m as int).reverse().push(x));
        assert(v@ =~= all.take(v@.len() as int));
    }
    assert(all.skip(0) =~= all);
    r
}

/// The child references of `v`, in order, taken out as a vector in reverse
/// order.
fn reversed_refs(v: Vec<RenderPaintLayerChildRef>) -> (r: Vec<RenderPaintLayerChildRef>)
    ensures
        r@ == v@.reverse(),
{
    let ghost all = v@;
    let mut v = v;
    let mut r: Vec<RenderPaintLayerChildRef> = Vec::new();
    while v.len() > 0
        invariant
            v@ == all.take(v@.len() as int),
            r@ == all.skip(v@.len() as int).reverse(),
            v@.len() <= all.len(),
        decreases v@.len(),
    {
        let ghost m = v@.len();
        let x = v.pop().unwrap();
        assert(x == all[m - 1]);
        r.push(x);
        assert(all.skip(m - 1).reverse() =~= all.skip(m as int).reverse().push(x));
        assert(v@ =~= all.take(v@.len() as int));
    }
    assert(all.skip(0) =~= all);
    r
}

/// Splits the content of a paint layer. Renderers draw `own_nodes` before
/// `child_refs`, so only the nodes before the first nested paint layer can
/// stay in `own_nodes`; everything after that boundary stays in ordered
/// child references, so that a dirty child layer is never repainted over a
/// later clean sibling.
pub fn split_paint_layer_content_owned(nodes: Vec<RenderNode>) -> (content: RenderPaintLayerContent)
    ensures
        split_of(nodes@, content.own_nodes@, child_ref_nodes(content.child_refs@)),
    decreases nodes@, 1int,
{
    let ghost all = nodes@;
    let mut rest = reversed(nodes);
    let mut own_nodes: Vec<RenderNode> = Vec::new();
    let mut child_refs: Vec<RenderPaintLayerChildRef> = Vec::new();
    assert(all.take(0) =~= Seq::<RenderNode>::empty());
    assert(child_ref_nodes(child_refs@) =~= Seq::<Seq<RenderNode>>::empty());
    while rest.len() > 0
        invariant
            rest@.len() <= all.len(),
            rest@ == all.skip(all.len() - rest@.len()).reverse(),
            all == nodes@,
            split_of(all.take(all.len() - rest@.len()), own_nodes@, child_ref_nodes(child_refs@)),
        decreases rest@.len(),
    {
        let ghost i = all.len() - rest@.len();
        let ghost prefix = all.take(i);
        let ghost old_own = own_nodes@;
        let ghost old_refs = child_ref_nodes(child_refs@);
        let node = rest.pop().unwrap();
        assert(node == all[i]);
        assert(all.skip(i + 1).reverse() =~= rest@);
        assert(all.take(i + 1).drop_last() =~= prefix);
        assert(all.take(i + 1).last() == node);
        proof {
            lemma_split_refs_iff_layers(prefix, old_own, old_refs);
        }
        if child_refs.len() == 0 {
            assert(decreases_to!(all => all[i]));
            assert(decreases_to!(all => node));
            let split = split_paint_layer_node(node);
            let ghost split_own = split.own_nodes@;
            let ghost split_refs = child_ref_nodes(split.child_refs@);
            let mut split_own_nodes = split.own_nodes;
            own_nodes.append(&mut split_own_nodes);
            child_refs = split.child_refs;
            proof {
                let k = old_own.len() as int;
                assert(own_nodes@.take(k) =~= old_own);
                assert(own_nodes@.skip(k) =~= split_own);
                assert(old_refs =~= Seq::<Seq<RenderNode>>::empty());
                assert(split_of(all.take(i + 1), own_nodes@, child_ref_nodes(child_refs@)));
            }
        } else {
            child_refs.push(RenderPaintLayerChildRef::from_nodes(vec![node]));
            proof {
                let new_refs = child_ref_nodes(child_refs@);
                assert(new_refs.drop_last() =~= old_refs);
                assert(new_refs.last() =~= seq![node]);
            }
        }
    }
    assert(all.take(all.len() as int) =~= all);
    RenderPaintLayerContent { own_nodes, child_refs }
}

/// Splits one node: a primitive stays in the own part, a paint layer
/// becomes a child reference of its own, a scope splits its children and
/// wraps both parts back in the scope.
pub fn split_paint_layer_node(node: RenderNode) -> (content: RenderPaintLayerContent)
    ensures
        node_split_of(node, content.own_nodes@, child_ref_nodes(content.child_refs@)),
    decreases node, 0int,
{
    match node {
        RenderNode::ShadowPass { children } => split_scoped_paint_layer_content(children, ScopeHeader::ShadowPass),
        RenderNode::Clip { clip_count, children } => split_scoped_paint_layer_content(
            children,
            ScopeHeader::Clip { clip_count },
        ),
        RenderNode::RelaxedClip { clip_count, children } => split_scoped_paint_layer_content(
            children,
            ScopeHeader::RelaxedClip { clip_count },
        ),
        RenderNode::Transform { children } => split_scoped_paint_layer_content(children, ScopeHeader::Transform),
        RenderNode::Alpha { children } => split_scoped_paint_layer_content(children, ScopeHeader::Alpha),
        RenderNode::PaintLayer(layer) => {
            let node = RenderNode::PaintLayer(layer);
            let single = vec![node];
            assert(single@ =~= seq![node]);
            let child_ref = RenderPaintLayerChildRef::from_nodes(single);
            let content = RenderPaintLayerContent {
                own_nodes: Vec::new(),
                child_refs: vec![child_ref],
            };
            assert(content.child_refs@.len() == 1);
            assert(content.child_refs@[0].nodes@ == seq![node]);
            assert(child_ref_nodes(content.child_refs@) =~= seq![seq![node]]);
            content
        },
        RenderNode::Primitive(primitive) => {
            let node = RenderNode::Primitive(primitive);
            let content = RenderPaintLayerContent { own_nodes: vec![node], child_refs: Vec::new() };
            assert(content.own_nodes@ =~= seq![node]);
            assert(child_ref_nodes(content.child_refs@) =~= Seq::<Seq<RenderNode>>::empty());
            content
        },
    }
}

/// Splits the children of a scope and wraps both parts back in the scope
/// `header`: the own part, if not empty, as one scope node; each child
/// reference as one scope node around its nodes.
pub fn split_scoped_paint_layer_content(children: Vec<RenderNode>, header: ScopeHeader) -> (content:
    RenderPaintLayerContent)
    ensures
        content.own_nodes@.len() <= 1,
        content.own_nodes@.len() == 1 ==> scope_header_of(content.own_nodes@[0]) == Some(header)
            && scope_children(content.own_nodes@[0]).len() > 0,
        forall|i: int|
            0 <= i < content.child_refs@.len() ==> (#[trigger] content.child_refs@[i]).nodes@.len()
                == 1 && scope_header_of(content.child_refs@[i].nodes@[0]) == Some(header),
        split_of(
            children@,
            unwrap_own(content.own_nodes@),
            unwrap_refs(child_ref_nodes(content.child_refs@)),
        ),
    decreases children@, 2int,
{
    let inner = split_paint_layer_content_owned(children);
    let ghost inner_own = inner.own_nodes@;
    let ghost inner_refs = child_ref_nodes(inner.child_refs@);
    let own_nodes = if inner.own_nodes.len() == 0 {
        Vec::new()
    } else {
        vec![header.wrap(inner.own_nodes)]
    };
    assert(unwrap_own(own_nodes@) =~= inner_own);
    let mut rest = reversed_refs(inner.child_refs);
    let ghost all = inner_refs;
    let ghost n = all.len();
    let mut child_refs: Vec<RenderPaintLayerChildRef> = Vec::new();
    while rest.len() > 0
        invariant
            rest@.len() <= n,
            n == all.len(),
            forall|j: int| 0 <= j < rest@.len() ==> (#[trigger] rest@[j]).nodes@ == all[n - 1 - j],
            child_refs@.len() == n - rest@.len(),
            forall|j: int|
                0 <= j < child_refs@.len() ==> (#[trigger] child_refs@[j]).nodes@.len() == 1
                    && scope_header_of(child_refs@[j].nodes@[0]) == Some(header)
                    && scope_children(child_refs@[j].nodes@[0]) == all[j],
        decreases rest@.len(),
    {
        let ghost m = rest@.len();
        let r = rest.pop().unwrap();
        assert(r.nodes@ == all[n - m]);
        let wrapped = header.wrap(r.nodes);
        child_refs.push(RenderPaintLayerChildRef::from_nodes(vec![wrapped]));
    }
    assert(unwrap_refs(child_ref_nodes(child_refs@)) =~= all);
    RenderPaintLayerContent { own_nodes, child_refs }
}


// ============================================================================
// Split laws
// ============================================================================

/// The leaves of a node sequence, in drawing order: its primitives and paint
/// layers, looking through scopes but not into paint layers.
pub open spec fn leaves(s: Seq<RenderNode>) -> Seq<RenderNode>
    decreases s, 1int,
{
    if s.len() == 0 {
        Seq::empty()
    } else {
        leaves(s.drop_last()) + node_leaves(s.last())
    }
}

/// The leaves of one node.
pub open spec fn node_leaves(x: RenderNode) -> Seq<RenderNode>
    decreases x, 0int,
{
    match x {
        RenderNode::ShadowPass { children } => leaves(children@),
        RenderNode::Clip { children, .. } => leaves(children@),
        RenderNode::RelaxedClip { children, .. } => leaves(children@),
        RenderNode::Transform { children } => leaves(children@),
        RenderNode::Alpha { children } => leaves(children@),
        _ => seq![x],
    }
}

/// The leaves of a sequence of reference node sequences, one reference
/// after another.
pub open spec fn refs_leaves(refs: Seq<Seq<RenderNode>>) -> Seq<RenderNode>
    decreases refs.len(),
{
    if refs.len() == 0 {
        Seq::empty()
    } else {
        refs_leaves(refs.drop_last()) + leaves(refs.last())
    }
}

proof fn lemma_leaves_single(w: RenderNode)
    ensures
        leaves(seq![w]) == node_leaves(w),
{
    let s = seq![w];
    assert(s.drop_last() =~= Seq::<RenderNode>::empty());
    assert(leaves(Seq::<RenderNode>::empty()) == Seq::<RenderNode>::empty());
    assert(s.last() == w);
    assert(leaves(s) =~= node_leaves(w));
}

proof fn lemma_refs_leaves_single(r: Seq<RenderNode>)
    ensures
        refs_leaves(seq![r]) == leaves(r),
{
    let s = seq![r];
    assert(s.drop_last() =~= Seq::<Seq<RenderNode>>::empty());
    assert(s.last() == r);
    assert(refs_leaves(Seq::<Seq<RenderNode>>::empty()) == Seq::<RenderNode>::empty());
    assert(refs_leaves(s) =~= leaves(r));
}

proof fn lemma_leaves_concat(a: Seq<RenderNode>, b: Seq<RenderNode>)
    ensures
        leaves(a + b) == leaves(a) + leaves(b),
    decreases b.len(),
{
    if b.len() == 0 {
        assert(a + b =~= a);
        assert(leaves(a) + leaves(b) =~= leaves(a));
    } else {
        lemma_leaves_concat(a, b.drop_last());
        assert((a + b).drop_last() =~= a + b.drop_last());
        assert((a + b).last() == b.last());
        assert(leaves(a + b) =~= leaves(a) + leaves(b));
    }
}

proof fn lemma_counts_concat(a: Seq<RenderNode>, b: Seq<RenderNode>)
    ensures
        nodes_counts(a + b) == add_counts(nodes_counts(a), nodes_counts(b)),
    decreases b.len(),
{
    if b.len() == 0 {
        assert(a + b =~= a);
    } else {
        lemma_counts_concat(a, b.drop_last());
        assert((a + b).drop_last() =~= a + b.drop_last());
        assert((a + b).last() == b.last());
    }
}

proof fn lemma_refs_leaves_unwrap(refs: Seq<Seq<RenderNode>>)
    requires
        forall|i: int|
            0 <= i < refs.len() ==> (#[trigger] refs[i]).len() == 1 && scope_header_of(refs[i][0]) is Some,
    ensures
        refs_leaves(refs) == refs_leaves(unwrap_refs(refs)),
    decreases refs.len(),
{
    if refs.len() > 0 {
        let p = refs.drop_last();
        assert forall|i: int| 0 <= i < p.len() implies (#[trigger] p[i]).len() == 1 && scope_header_of(
            p[i][0],
        ) is Some by {
            assert(p[i] == refs[i]);
        }
        lemma_refs_leaves_unwrap(p);
        assert(unwrap_refs(refs).drop_last() =~= unwrap_refs(p));
        let w = refs.last()[0];
        assert(refs.last() =~= seq![w]);
        assert(refs.len() - 1 < refs.len());
        assert(scope_header_of(refs[refs.len() - 1][0]) is Some);
        lemma_leaves_single(w);
        assert(node_leaves(w) == leaves(scope_children(w)));
    }
}

/// Splitting keeps the drawing order of the leaves, and keeps paint layers
/// out of the own part: the own part's leaves followed by each reference's
/// leaves are the leaves of the split sequence, and the own part holds no
/// paint layer.
pub proof fn law_split_keeps_leaf_order(s: Seq<RenderNode>, own: Seq<RenderNode>, refs: Seq<Seq<RenderNode>>)
    requires
        split_of(s, own, refs),
    ensures
        leaves(own) + refs_leaves(refs) == leaves(s),
        nodes_counts(own).paint_layers == 0,
    decreases s, 1int,
{
    if s.len() == 0 {
        assert(leaves(own) + refs_leaves(refs) =~= leaves(s));
    } else {
        let p = s.drop_last();
        let x = s.last();
        if nodes_counts(p).paint_layers == 0 {
            let k = choose|k: int|
                0 <= k <= own.len() && split_of(p, own.take(k), Seq::empty()) && node_split_of(
                    x,
                    own.skip(k),
                    refs,
                );
            law_split_keeps_leaf_order(p, own.take(k), Seq::empty());
            law_node_split_keeps_leaf_order(x, own.skip(k), refs);
            assert(own =~= own.take(k) + own.skip(k));
            lemma_leaves_concat(own.take(k), own.skip(k));
            lemma_counts_concat(own.take(k), own.skip(k));
            assert(refs_leaves(Seq::<Seq<RenderNode>>::empty()) =~= Seq::<RenderNode>::empty());
            assert(leaves(own) + refs_leaves(refs) =~= leaves(s));
        } else {
            law_split_keeps_leaf_order(p, own, refs.drop_last());
            assert(refs.last() =~= seq![x]);
            lemma_leaves_single(x);
            assert(leaves(own) + refs_leaves(refs) =~= leaves(s));
        }
    }
}

/// Splitting one node keeps the drawing order of its leaves and keeps paint
/// layers out of its own part.
pub proof fn law_node_split_keeps_leaf_order(x: RenderNode, own: Seq<RenderNode>, refs: Seq<Seq<RenderNode>>)
    requires
        node_split_of(x, own, refs),
    ensures
        leaves(own) + refs_leaves(refs) == node_leaves(x),
        nodes_counts(own).paint_layers == 0,
    decreases x, 0int,
{
    match x {
        RenderNode::Primitive(_) => {
            lemma_leaves_single(x);
            assert(refs_leaves(refs) =~= Seq::<RenderNode>::empty());
            assert(leaves(own) + refs_leaves(refs) =~= node_leaves(x));
            assert(own.drop_last() =~= Seq::<RenderNode>::empty());
            assert(nodes_counts(Seq::<RenderNode>::empty()) == zero_counts());
            assert(own.last() == x);
            if let RenderNode::Primitive(p) = x {
                assert(primitive_counts(p).paint_layers == 0);
                assert(node_own_counts(x).paint_layers == 0);
            }
            assert(node_counts(x).paint_layers == 0);
            assert(nodes_counts(own) == add_counts(nodes_counts(own.drop_last()), node_counts(own.last())));
            assert(nodes_counts(own.drop_last()) == zero_counts());
            assert(nodes_counts(own).paint_layers == 0);
        },
        RenderNode::PaintLayer(_) => {
            lemma_leaves_single(x);
            lemma_refs_leaves_single(seq![x]);
            assert(leaves(own) =~= Seq::<RenderNode>::empty());
            assert(leaves(own) + refs_leaves(refs) =~= node_leaves(x));
            assert(nodes_counts(own) == zero_counts());
        },
        _ => {
            let c = scope_children(x);
            match x {
                RenderNode::ShadowPass { children } => law_split_keeps_leaf_order(children@, unwrap_own(own), unwrap_refs(refs)),
                RenderNode::Clip { children, .. } => law_split_keeps_leaf_order(children@, unwrap_own(own), unwrap_refs(refs)),
                RenderNode::RelaxedClip { children, .. } => law_split_keeps_leaf_order(children@, unwrap_own(own), unwrap_refs(refs)),
                RenderNode::Transform { children } => law_split_keeps_leaf_order(children@, unwrap_own(own), unwrap_refs(refs)),
                RenderNode::Alpha { children } => law_split_keeps_leaf_order(children@, unwrap_own(own), unwrap_refs(refs)),
                _ => {},
            }
            lemma_refs_leaves_unwrap(refs);
            if own.len() == 1 {
                let w = own[0];
                assert(own =~= seq![w]);
                lemma_leaves_single(w);
                assert(own.drop_last() =~= Seq::<RenderNode>::empty());
                assert(node_leaves(w) == leaves(scope_children(w)));
                assert(leaves(own) =~= leaves(unwrap_own(own)));
                assert(node_counts(w).paint_layers == nodes_counts(scope_children(w)).paint_layers);
                assert(nodes_counts(own.drop_last()) == zero_counts());
                assert(own.last() == w);
                assert(nodes_counts(own).paint_layers == 0);
            } else {
                assert(leaves(own) =~= leaves(unwrap_own(own)));
                assert(nodes_counts(own) == zero_counts());
            }
            assert(node_leaves(x) == leaves(c));
        },
    }
}


// ============================================================================
// Paint-layer metrics
// ============================================================================

/// Node count, primitive count and draw cost of a node sequence, each
/// saturating at the largest value of its type.
#[derive(Clone, Copy, Debug, PartialEq, Eq, Structural)]
pub struct RenderNodeMetrics {
    pub node_count: usize,
    pub primitive_count: usize,
    pub primitive_cost: u64,
}

/// `a + b` saturating at `usize::MAX`.
pub open spec fn sat_usize(a: int, b: int) -> usize {
    if a + b > usize::MAX {
        usize::MAX
    } else {
        (a + b) as usize
    }
}

/// `a + b` saturating at `u64::MAX`.
pub open spec fn sat_u64(a: int, b: int) -> u64 {
    if a + b > u64::MAX {
        u64::MAX
    } else {
        (a + b) as u64
    }
}

/// Estimated draw cost of a primitive.
pub open spec fn spec_primitive_cost(p: DrawPrimitive) -> u64 {
    match p {
        DrawPrimitive::Rect => 1,
        DrawPrimitive::RoundedRect => 2,
        DrawPrimitive::Border(style) | DrawPrimitive::BorderCorners(style) | DrawPrimitive::BorderEdges(
            style,
        ) => if style == BorderStyle::Solid {
            4
        } else {
            16
        },
        DrawPrimitive::Shadow | DrawPrimitive::InsetShadow => 80,
        DrawPrimitive::TextWithFont { text_bytes } => sat_u64(32, text_bytes as int / 2),
        DrawPrimitive::Gradient => 12,
        DrawPrimitive::Image => 20,
        DrawPrimitive::Video => 24,
        DrawPrimitive::ImageLoading | DrawPrimitive::ImageFailed => 4,
    }
}

/// Metrics of two parts together, each value saturating.
pub open spec fn combine_metrics(a: RenderNodeMetrics, b: RenderNodeMetrics) -> RenderNodeMetrics {
    RenderNodeMetrics {
        node_count: sat_usize(a.node_count as int, b.node_count as int),
        primitive_count: sat_usize(a.primitive_count as int, b.primitive_count as int),
        primitive_cost: sat_u64(a.primitive_cost as int, b.primitive_cost as int),
    }
}

/// Metrics of a node sequence, accumulated first to last.
pub open spec fn spec_nodes_metrics(s: Seq<RenderNode>) -> RenderNodeMetrics
    decreases s,
{
    if s.len() == 0 {
        RenderNodeMetrics { node_count: 0, primitive_count: 0, primitive_cost: 0 }
    } else {
        combine_metrics(spec_nodes_metrics(s.drop_last()), spec_node_metrics(s.last()))
    }
}

/// Metrics of a scope over children with metrics `m`: one more node and the
/// scope's own cost.
pub open spec fn scope_metrics(m: RenderNodeMetrics, cost: int) -> RenderNodeMetrics {
    RenderNodeMetrics {
        node_count: sat_usize(m.node_count as int, 1),
        primitive_count: m.primitive_count,
        primitive_cost: sat_u64(m.primitive_cost as int, cost),
    }
}

/// Metrics of one node: a scope adds itself and its cost (shadow pass 12,
/// clip 3, transform and alpha 2) to its children's; a nested paint layer
/// counts as one node of no cost; a primitive counts as one node, one
/// primitive and its draw cost.
pub open spec fn spec_node_metrics(x: RenderNode) -> RenderNodeMetrics
    decreases x,
{
    match x {
        RenderNode::ShadowPass { children } => scope_metrics(spec_nodes_metrics(children@), 12),
        RenderNode::Clip { children, .. } => scope_metrics(spec_nodes_metrics(children@), 3),
        RenderNode::RelaxedClip { children, .. } => scope_metrics(spec_nodes_metrics(children@), 3),
        RenderNode::Transform { children } => scope_metrics(spec_nodes_metrics(children@), 2),
        RenderNode::Alpha { children } => scope_metrics(spec_nodes_metrics(children@), 2),
        RenderNode::PaintLayer(_) => RenderNodeMetrics {
            node_count: 1,
            primitive_count: 0,
            primitive_cost: 0,
        },
        RenderNode::Primitive(p) => RenderNodeMetrics {
            node_count: 1,
            primitive_count: 1,
            primitive_cost: spec_primitive_cost(p),
        },
    }
}

pub fn render_primitive_cost(primitive: &DrawPrimitive) -> (cost: u64)
    ensures
        cost == spec_primitive_cost(*primitive),
{
    match primitive {
        DrawPrimitive::Rect => 1,
        DrawPrimitive::RoundedRect => 2,
        DrawPrimitive::Border(style) | DrawPrimitive::BorderCorners(style) | DrawPrimitive::BorderEdges(
            style,
        ) => match style {
            BorderStyle::Solid => 4,
            BorderStyle::Dashed | BorderStyle::Dotted => 16,
        },
        DrawPrimitive::Shadow | DrawPrimitive::InsetShadow => 80,
        DrawPrimitive::TextWithFont { text_bytes } => 32u64.saturating_add(*text_bytes as u64 / 2),
        DrawPrimitive::Gradient => 12,
        DrawPrimitive::Image => 20,
        DrawPrimitive::Video => 24,
        DrawPrimitive::ImageLoading | DrawPrimitive::ImageFailed => 4,
    }
}

pub fn render_nodes_metrics(nodes: &[RenderNode]) -> (metrics: RenderNodeMetrics)
    ensures
        metrics == spec_nodes_metrics(nodes@),
    decreases nodes@,
{
    let mut total = RenderNodeMetrics { node_count: 0, primitive_count: 0, primitive_cost: 0 };
    let mut i: usize = 0;
    while i < nodes.len()
        invariant
            i <= nodes@.len(),
            total == spec_nodes_metrics(nodes@.take(i as int)),
        decreases nodes@.len() - i,
    {
        assert(nodes@.take(i + 1).drop_last() =~= nodes@.take(i as int));
        let metrics = render_node_metrics(&nodes[i]);
        total.node_count = total.node_count.saturating_add(metrics.node_count);
        total.primitive_count = total.primitive_count.saturating_add(metrics.primitive_count);
        total.primitive_cost = total.primitive_cost.saturating_add(metrics.primitive_cost);
        i = i + 1;
    }
    assert(nodes@.take(nodes@.len() as int) =~= nodes@);
    total
}

pub fn render_node_metrics(node: &RenderNode) -> (metrics: RenderNodeMetrics)
    ensures
        metrics == spec_node_metrics(*node),
    decreases *node,
{
    match node {
        RenderNode::ShadowPass { children } => {
            let mut metrics = render_nodes_metrics(children.as_slice());
            metrics.node_count = metrics.node_count.saturating_add(1);
            metrics.primitive_cost = metrics.primitive_cost.saturating_add(12);
            metrics
        },
        RenderNode::Clip { children, .. } | RenderNode::RelaxedClip { children, .. } => {
            let mut metrics = render_nodes_metrics(children.as_slice());
            metrics.node_count = metrics.node_count.saturating_add(1);
            metrics.primitive_cost = metrics.primitive_cost.saturating_add(3);
            metrics
        },
        RenderNode::Transform { children } | RenderNode::Alpha { children } => {
            let mut metrics = render_nodes_metrics(children.as_slice());
            metrics.node_count = metrics.node_count.saturating_add(1);
            metrics.primitive_cost = metrics.primitive_cost.saturating_add(2);
            metrics
        },
        RenderNode::PaintLayer(_) => RenderNodeMetrics { node_count: 1, primitive_count: 0, primitive_cost: 0 },
        RenderNode::Primitive(primitive) => RenderNodeMetrics {
            node_count: 1,
            primitive_count: 1,
            primitive_cost: render_primitive_cost(primitive),
        },
    }
}

/// `value`, or `u32::MAX` when it does not fit in a `u32`.
pub open spec fn clamp_u32(value: usize) -> u32 {
    if value > u32::MAX {
        u32::MAX
    } else {
        value as u32
    }
}

/// The metrics a paint layer records of its own nodes: node and primitive
/// counts clamped to `u32`, the draw cost, and not opaque.
pub open spec fn spec_layer_metrics(own_nodes: Seq<RenderNode>) -> RenderPaintLayerMetrics {
    let m = spec_nodes_metrics(own_nodes);
    RenderPaintLayerMetrics {
        own_node_count: clamp_u32(m.node_count),
        own_primitive_count: clamp_u32(m.primitive_count),
        own_primitive_cost: m.primitive_cost,
        opaque: false,
    }
}

fn clamp_to_u32(value: usize) -> (clamped: u32)
    ensures
        clamped == clamp_u32(value),
{
    if value > u32::MAX as usize {
        u32::MAX
    } else {
        value as u32
    }
}

impl RenderPaintLayerMetrics {
    pub fn from_own_nodes(nodes: &[RenderNode]) -> (metrics: Self)
        ensures
            metrics == spec_layer_metrics(nodes@),
    {
        let node_metrics = render_nodes_metrics(nodes);
        RenderPaintLayerMetrics {
            own_node_count: clamp_to_u32(node_metrics.node_count),
            own_primitive_count: clamp_to_u32(node_metrics.primitive_count),
            own_primitive_cost: node_metrics.primitive_cost,
            opaque: false,
        }
    }
}

impl RenderPaintLayer {
    /// A paint layer over `children`: its content split into own nodes and
    /// child references, its root the layer itself, and the metrics of its
    /// own nodes.
    pub fn from_children(
        stable_id: u64,
        placement: PaintLayerPlacement,
        policy: PaintLayerPolicy,
        reason: PaintLayerReason,
        content_generation: u64,
        children: Vec<RenderNode>,
    ) -> (layer: Self)
        ensures
            layer.stable_id == stable_id,
            layer.root_id == stable_id,
            layer.placement == placement,
            layer.policy == policy,
            layer.reason == reason,
            layer.content_generation == content_generation,
            split_of(children@, layer.own_nodes@, child_ref_nodes(layer.child_refs@)),
            nodes_counts(layer.own_nodes@).paint_layers == 0,
            layer.metrics == spec_layer_metrics(layer.own_nodes@),
    {
        let content = split_paint_layer_content_owned(children);
        proof {
            law_split_keeps_leaf_order(
                children@,
                content.own_nodes@,
                child_ref_nodes(content.child_refs@),
            );
        }
        let metrics = RenderPaintLayerMetrics::from_own_nodes(content.own_nodes.as_slice());
        RenderPaintLayer {
            stable_id,
            root_id: stable_id,
            placement,
            policy,
            reason,
            content_generation,
            own_nodes: content.own_nodes,
            child_refs: content.child_refs,
            metrics,
        }
    }

    /// This layer's identity, placement, policy, reason and generation over
    /// new `children`.
    pub fn with_children(&self, children: Vec<RenderNode>) -> (layer: Self)
        ensures
            layer.stable_id == self.stable_id,
            layer.root_id == self.root_id,
            layer.placement == self.placement,
            layer.policy == self.policy,
            layer.reason == self.reason,
            layer.content_generation == self.content_generation,
            split_of(children@, layer.own_nodes@, child_ref_nodes(layer.child_refs@)),
            nodes_counts(layer.own_nodes@).paint_layers == 0,
            layer.metrics == spec_layer_metrics(layer.own_nodes@),
    {
        let content = split_paint_layer_content_owned(children);
        proof {
            law_split_keeps_leaf_order(
                children@,
                content.own_nodes@,
                child_ref_nodes(content.child_refs@),
            );
        }
        let metrics = RenderPaintLayerMetrics::from_own_nodes(content.own_nodes.as_slice());
        RenderPaintLayer {
            stable_id: self.stable_id,
            root_id: self.root_id,
            placement: self.placement,
            policy: self.policy,
            reason: self.reason,
            content_generation: self.content_generation,
            own_nodes: content.own_nodes,
            child_refs: content.child_refs,
            metrics,
        }
    }
}

} // verus!
