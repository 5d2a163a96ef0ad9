use emerge_skia::render_scene::{
    render_node_metrics, render_nodes_metrics, render_primitive_cost,
    split_paint_layer_content_owned, split_paint_layer_node, split_scoped_paint_layer_content,
    BorderStyle, DrawPrimitive, PaintLayerPlacement, PaintLayerPolicy, PaintLayerReason,
    RenderNode, RenderNodeMetrics, RenderPaintLayer, RenderPaintLayerChildRef,
    RenderPaintLayerMetrics, RenderScene, RenderSceneSummary, ScopeHeader,
};

fn inner_layer() -> RenderPaintLayer {
    RenderPaintLayer::from_children(
        7,
        PaintLayerPlacement::ScrollMoving,
        PaintLayerPolicy::Cacheable,
        PaintLayerReason::StableSubtree,
        1,
        vec![RenderNode::Primitive(DrawPrimitive::Border(BorderStyle::Dashed))],
    )
}

fn sample_nodes() -> Vec<RenderNode> {
    vec![
        RenderNode::Primitive(DrawPrimitive::Rect),
        RenderNode::Clip {
            clip_count: 2,
            children: vec![
                RenderNode::Primitive(DrawPrimitive::TextWithFont { text_bytes: 5 }),
                RenderNode::PaintLayer(inner_layer()),
            ],
        },
        RenderNode::Primitive(DrawPrimitive::Image),
    ]
}

#[test]
fn summary_counts_every_node_including_layer_content() {
    let scene = RenderScene {
        nodes: sample_nodes(),
    };
    let summary = scene.summary();
    let mut expected = RenderSceneSummary::empty();
    expected.nodes = 6;
    expected.primitives = 4;
    expected.clips = 1;
    expected.clip_shapes = 2;
    expected.rects = 1;
    expected.borders = 1;
    expected.texts = 1;
    expected.text_bytes = 5;
    expected.images = 1;
    expected.paint_layers = 1;
    expected.cacheable_layers = 1;
    expected.moving_layers = 1;
    assert_eq!(summary, expected);
}

#[test]
fn summary_text_lists_every_counter() {
    let scene = RenderScene {
        nodes: sample_nodes(),
    };
    assert_eq!(
        scene.summary().to_string(),
        "nodes=6 primitives=4 scopes={shadow_passes=0 clips=1 relaxed_clips=0 clip_shapes=2 \
         transforms=0 alphas=0} draws={rects=1 rounded_rects=0 borders=1 border_corners=0 \
         border_edges=0 shadows=0 inset_shadows=0 texts=1 text_bytes=5 gradients=0 images=1 \
         videos=0 image_loading=0 image_failed=0} paint_layers={total=1 cacheable=1 dynamic=0 \
         moving=1 direct_only=0}"
    );
}

#[test]
fn summary_text_renders_multi_digit_counts() {
    let mut summary = RenderSceneSummary::empty();
    summary.nodes = 1205;
    summary.direct_only_layers = 10;
    let text = summary.to_string();
    assert!(text.starts_with("nodes=1205 primitives=0 "));
    assert!(text.ends_with(" direct_only=10}"));
}

#[test]
fn layer_queries_find_nested_layers() {
    let scene = RenderScene {
        nodes: sample_nodes(),
    };
    assert!(scene.has_cacheable_paint_layers());
    assert!(scene.has_scroll_moving_paint_layers());

    let flat = RenderScene {
        nodes: vec![RenderNode::Transform {
            children: vec![RenderNode::Primitive(DrawPrimitive::Rect)],
        }],
    };
    assert!(!flat.has_cacheable_paint_layers());
    assert!(!flat.has_scroll_moving_paint_layers());

    let dynamic = RenderScene {
        nodes: vec![RenderNode::PaintLayer(RenderPaintLayer::from_children(
            1,
            PaintLayerPlacement::Fixed,
            PaintLayerPolicy::DynamicRedraw,
            PaintLayerReason::Animation,
            0,
            vec![],
        ))],
    };
    assert!(!dynamic.has_cacheable_paint_layers());
    assert!(!dynamic.has_scroll_moving_paint_layers());
    assert_eq!(dynamic.summary().dynamic_layers, 1);
}

#[test]
fn split_keeps_prefix_before_first_nested_layer_as_own_content() {
    let content = split_paint_layer_content_owned(sample_nodes());
    assert_eq!(
        content.own_nodes,
        vec![
            RenderNode::Primitive(DrawPrimitive::Rect),
            RenderNode::Clip {
                clip_count: 2,
                children: vec![RenderNode::Primitive(DrawPrimitive::TextWithFont {
                    text_bytes: 5
                })],
            },
        ]
    );
    assert_eq!(
        content.child_refs,
        vec![
            RenderPaintLayerChildRef {
                nodes: vec![RenderNode::Clip {
                    clip_count: 2,
                    children: vec![RenderNode::PaintLayer(inner_layer())],
                }],
            },
            RenderPaintLayerChildRef {
                nodes: vec![RenderNode::Primitive(DrawPrimitive::Image)],
            },
        ]
    );
}

#[test]
fn split_node_moves_layers_to_refs() {
    let layer = split_paint_layer_node(RenderNode::PaintLayer(inner_layer()));
    assert!(layer.own_nodes.is_empty());
    assert_eq!(
        layer.child_refs,
        vec![RenderPaintLayerChildRef {
            nodes: vec![RenderNode::PaintLayer(inner_layer())],
        }]
    );
    let primitive = split_paint_layer_node(RenderNode::Primitive(DrawPrimitive::Video));
    assert_eq!(primitive.own_nodes, vec![RenderNode::Primitive(DrawPrimitive::Video)]);
    assert!(primitive.child_refs.is_empty());
}

#[test]
fn scoped_split_drops_empty_own_scope() {
    let content = split_scoped_paint_layer_content(
        vec![RenderNode::PaintLayer(inner_layer())],
        ScopeHeader::Alpha,
    );
    assert!(content.own_nodes.is_empty());
    assert_eq!(
        content.child_refs,
        vec![RenderPaintLayerChildRef {
            nodes: vec![RenderNode::Alpha {
                children: vec![RenderNode::PaintLayer(inner_layer())],
            }],
        }]
    );
}

#[test]
fn primitive_costs() {
    assert_eq!(render_primitive_cost(&DrawPrimitive::Rect), 1);
    assert_eq!(render_primitive_cost(&DrawPrimitive::RoundedRect), 2);
    assert_eq!(render_primitive_cost(&DrawPrimitive::Border(BorderStyle::Solid)), 4);
    assert_eq!(render_primitive_cost(&DrawPrimitive::BorderEdges(BorderStyle::Dotted)), 16);
    assert_eq!(render_primitive_cost(&DrawPrimitive::Shadow), 80);
    assert_eq!(render_primitive_cost(&DrawPrimitive::TextWithFont { text_bytes: 9 }), 36);
    assert_eq!(render_primitive_cost(&DrawPrimitive::Gradient), 12);
    assert_eq!(render_primitive_cost(&DrawPrimitive::Image), 20);
    assert_eq!(render_primitive_cost(&DrawPrimitive::Video), 24);
    assert_eq!(render_primitive_cost(&DrawPrimitive::ImageFailed), 4);
}

#[test]
fn node_metrics_add_scope_costs() {
    let clip = RenderNode::Clip {
        clip_count: 1,
        children: vec![RenderNode::Primitive(DrawPrimitive::TextWithFont { text_bytes: 5 })],
    };
    assert_eq!(
        render_node_metrics(&clip),
        RenderNodeMetrics {
            node_count: 2,
            primitive_count: 1,
            primitive_cost: 37,
        }
    );
    let shadow = RenderNode::ShadowPass {
        children: vec![RenderNode::Primitive(DrawPrimitive::Rect)],
    };
    assert_eq!(render_node_metrics(&shadow).primitive_cost, 13);
    assert_eq!(
        render_node_metrics(&RenderNode::PaintLayer(inner_layer())),
        RenderNodeMetrics {
            node_count: 1,
            primitive_count: 0,
            primitive_cost: 0,
        }
    );
    assert_eq!(
        render_nodes_metrics(&[clip, shadow]),
        RenderNodeMetrics {
            node_count: 4,
            primitive_count: 2,
            primitive_cost: 50,
        }
    );
    assert_eq!(
        render_nodes_metrics(&[]),
        RenderNodeMetrics {
            node_count: 0,
            primitive_count: 0,
            primitive_cost: 0,
        }
    );
}

#[test]
fn layer_from_children_splits_and_measures_own_nodes() {
    let layer = RenderPaintLayer::from_children(
        9,
        PaintLayerPlacement::Fixed,
        PaintLayerPolicy::DynamicRedraw,
        PaintLayerReason::Root,
        4,
        sample_nodes(),
    );
    assert_eq!(layer.stable_id, 9);
    assert_eq!(layer.root_id, 9);
    assert_eq!(layer.content_generation, 4);
    assert_eq!(layer.own_nodes.len(), 2);
    assert_eq!(layer.child_refs.len(), 2);
    assert_eq!(
        layer.metrics,
        RenderPaintLayerMetrics {
            own_node_count: 3,
            own_primitive_count: 2,
            own_primitive_cost: 38,
            opaque: false,
        }
    );
    assert_eq!(
        RenderPaintLayerMetrics::from_own_nodes(&layer.own_nodes),
        layer.metrics
    );

    let again = layer.with_children(vec![RenderNode::Primitive(DrawPrimitive::Rect)]);
    assert_eq!(again.stable_id, 9);
    assert_eq!(again.policy, PaintLayerPolicy::DynamicRedraw);
    assert_eq!(again.own_nodes, vec![RenderNode::Primitive(DrawPrimitive::Rect)]);
    assert_eq!(again.metrics.own_primitive_cost, 1);
}
