//! The retained scene description.
//!
//! A scene is an ordered list of display items owned by one pipeline:
//! stacking-context pushes and pops around filled rectangles, borders and
//! text runs, each primitive carrying the clip region it is drawn within.
//! A submitted scene must have balanced push/pop nesting; the builder's
//! well-formedness invariant keeps the running nesting depth non-negative
//! so that balance follows from closing every context before finalizing.

use vstd::prelude::*;
use crate::geom::{Color, Rect};

verus! {

/// Identity of one scene tree within the backend.
#[derive(Clone, Copy, Debug, PartialEq, Eq, Structural)]
pub struct PipelineId(pub u32, pub u32);

/// Opaque key the backend hands back when raw font bytes are registered.
#[derive(Clone, Copy, Debug, PartialEq, Eq, Structural)]
pub struct FontKey(pub u64);

/// Backend-visible version tag of a scene submission.
#[derive(Clone, Copy, Debug, PartialEq, Eq, Structural)]
pub struct Epoch(pub u32);

/// Scroll policy of a stacking context.
#[derive(Clone, Copy, Debug, PartialEq, Eq, Structural)]
pub enum ScrollPolicy {
    Scrollable,
    Fixed,
}

/// Blend mode of a stacking context. Only normal blending is used here.
#[derive(Clone, Copy, Debug, PartialEq, Eq, Structural)]
pub enum MixBlendMode {
    Normal,
}

/// A stacking context's transform. Only the identity is used here.
#[derive(Clone, Copy, Debug, PartialEq, Eq, Structural)]
pub enum Transform {
    Identity,
}

/// Style of one border edge.
#[derive(Clone, Copy, Debug, PartialEq, Eq, Structural)]
pub enum BorderStyle {
    Solid,
    Dashed,
}

/// One border edge: width, color and style.
#[derive(Clone, Copy, Debug, PartialEq, Eq, Structural)]
pub struct BorderSide {
    pub width: i64,
    pub color: Color,
    pub style: BorderStyle,
}

/// A rounded-rectangle sub-region of a clip, with a uniform corner radius.
#[derive(Clone, Copy, Debug, PartialEq, Eq, Structural)]
pub struct ComplexClipRegion {
    pub rect: Rect,
    pub radius: i64,
}

/// A clip region: a main rectangle plus complex sub-regions.
#[derive(Debug, PartialEq, Eq)]
pub struct ClipRegion {
    pub main: Rect,
    pub complex: Vec<ComplexClipRegion>,
}

/// A stacking context's attributes.
#[derive(Debug, PartialEq, Eq)]
pub struct StackingContext {
    pub scroll_policy: ScrollPolicy,
    pub bounds: Rect,
    pub clip: ClipRegion,
    pub z_index: i64,
    pub transform: Transform,
    pub perspective: Transform,
    pub blend: MixBlendMode,
}

/// One glyph of a text run: backend glyph index and pen position.
#[derive(Clone, Copy, Debug, PartialEq, Eq, Structural)]
pub struct GlyphInstance {
    pub index: u32,
    pub x: i64,
    pub y: i64,
}

/// A leaf or structural instruction of the scene.
#[derive(Debug, PartialEq, Eq)]
pub enum DisplayItem {
    PushStackingContext(StackingContext),
    SolidRect { bounds: Rect, clip: ClipRegion, color: Color },
    Border {
        bounds: Rect,
        clip: ClipRegion,
        left: BorderSide,
        top: BorderSide,
        right: BorderSide,
        bottom: BorderSide,
        radius: i64,
    },
    Text {
        bounds: Rect,
        clip: ClipRegion,
        glyphs: Vec<GlyphInstance>,
        font_key: FontKey,
        color: Color,
        size: i64,
    },
    PopStackingContext,
}

/// A finished scene: the items built for one pipeline.
#[derive(Debug, PartialEq, Eq)]
pub struct Scene {
    pub pipeline_id: PipelineId,
    pub items: Vec<DisplayItem>,
}

/// How one item changes the stacking-context nesting depth.
pub open spec fn item_delta(item: DisplayItem) -> int {
    match item {
        DisplayItem::PushStackingContext(_) => 1,
        DisplayItem::PopStackingContext => -1,
        _ => 0,
    }
}

/// The nesting depth after the first `i` items.
pub open spec fn depth_after(items: Seq<DisplayItem>, i: int) -> int
    decreases i,
{
    if i <= 0 {
        0
    } else {
        depth_after(items, i - 1) + item_delta(items[i - 1])
    }
}

/// Balanced nesting: no pop without a matching push, and every push closed.
pub open spec fn balanced(items: Seq<DisplayItem>) -> bool {
    &&& depth_after(items, items.len() as int) == 0
    &&& forall|i: int| 0 <= i <= items.len() ==> depth_after(items, i) >= 0
}

/// The bounds of the root stacking context of an item sequence, when the
/// sequence opens with one.
pub open spec fn root_bounds_items(items: Seq<DisplayItem>) -> Option<Rect> {
    if items.len() > 0 {
        match items[0] {
            DisplayItem::PushStackingContext(sc) => Some(sc.bounds),
            _ => None,
        }
    } else {
        None
    }
}

/// The bounds of the scene's root stacking context, when it has one.
pub open spec fn root_bounds(s: Scene) -> Option<Rect> {
    root_bounds_items(s.items@)
}

/// Appending one item leaves the depth of every old prefix unchanged.
pub proof fn lemma_depth_after_push(items: Seq<DisplayItem>, item: DisplayItem, i: int)
    requires
        0 <= i <= items.len(),
    ensures
        depth_after(items.push(item), i) == depth_after(items, i),
    decreases i,
{
    if i > 0 {
        lemma_depth_after_push(items, item, i - 1);
        assert(items.push(item)[i - 1] == items[i - 1]);
    }
}

/// An in-progress scene: items so far plus the number of still-open
/// stacking contexts.
#[derive(Debug)]
pub struct SceneBuilder {
    pub pipeline_id: PipelineId,
    pub items: Vec<DisplayItem>,
    pub depth: usize,
}

/// The builder's invariant: `depth` counts the open contexts, and no prefix
/// of the items ever pops more than was pushed.
pub open spec fn builder_wf(b: SceneBuilder) -> bool {
    &&& b.depth == depth_after(b.items@, b.items@.len() as int)
    &&& forall|i: int| 0 <= i <= b.items@.len() ==> depth_after(b.items@, i) >= 0
}

impl SceneBuilder {
    /// An empty builder for one pipeline.
    pub fn new(pipeline_id: PipelineId) -> (b: SceneBuilder)
        ensures
            builder_wf(b),
            b.pipeline_id == pipeline_id,
            b.items@ =~= Seq::<DisplayItem>::empty(),
            b.depth == 0,
    {
        SceneBuilder { pipeline_id, items: Vec::new(), depth: 0 }
    }

    /// Registers a clip region with the scene under construction and hands
    /// it back for primitives to reference. The scene itself is unchanged:
    /// registration only ties the region's lifetime to this build.
    pub fn new_clip_region(
        &mut self,
        bounds: &Rect,
        complex: Vec<ComplexClipRegion>,
    ) -> (r: ClipRegion)
        ensures
            *final(self) == *old(self),
            r == (ClipRegion { main: *bounds, complex }),
    {
        ClipRegion { main: *bounds, complex }
    }

    /// Opens a stacking context.
    pub fn push_stacking_context(&mut self, sc: StackingContext)
        requires
            builder_wf(*old(self)),
            old(self).depth < usize::MAX,
        ensures
            builder_wf(*final(self)),
            final(self).pipeline_id == old(self).pipeline_id,
            final(self).items@ == old(self).items@.push(DisplayItem::PushStackingContext(sc)),
            items_view(final(self).items@) == items_view(old(self).items@).push(
                DisplayItemView::PushStackingContext(sc@),
            ),
            final(self).depth == old(self).depth + 1,
    {
        let item = DisplayItem::PushStackingContext(sc);
        proof {
            self.lemma_push_keeps_prefixes(item);
            lemma_items_view_push(self.items@, item);
        }
        self.items.push(item);
        self.depth = self.depth + 1;
    }

    /// Closes the innermost open stacking context.
    pub fn pop_stacking_context(&mut self)
        requires
            builder_wf(*old(self)),
            old(self).depth > 0,
        ensures
            builder_wf(*final(self)),
            final(self).pipeline_id == old(self).pipeline_id,
            final(self).items@ == old(self).items@.push(DisplayItem::PopStackingContext),
            items_view(final(self).items@) == items_view(old(self).items@).push(
                DisplayItemView::PopStackingContext,
            ),
            final(self).depth == old(self).depth - 1,
    {
        let item = DisplayItem::PopStackingContext;
        proof {
            self.lemma_push_keeps_prefixes(item);
            lemma_items_view_push(self.items@, item);
        }
        self.items.push(item);
        self.depth = self.depth - 1;
    }

    /// Emits a filled rectangle.
    pub fn push_rect(&mut self, bounds: Rect, clip: ClipRegion, color: Color)
        requires
            builder_wf(*old(self)),
            old(self).depth > 0,
        ensures
            builder_wf(*final(self)),
            final(self).pipeline_id == old(self).pipeline_id,
            final(self).items@ == old(self).items@.push(
                DisplayItem::SolidRect { bounds, clip, color },
            ),
            items_view(final(self).items@) == items_view(old(self).items@).push(
                (DisplayItemView::SolidRect { bounds, clip: clip@, color }),
            ),
            final(self).depth == old(self).depth,
    {
        let item = DisplayItem::SolidRect { bounds, clip, color };
        proof {
            self.lemma_push_keeps_prefixes(item);
            lemma_items_view_push(self.items@, item);
        }
        self.items.push(item);
    }

    /// Emits a border with the same side on all four edges and a uniform
    /// corner radius.
    pub fn push_uniform_border(&mut self, bounds: Rect, clip: ClipRegion, side: BorderSide, radius: i64)
        requires
            builder_wf(*old(self)),
            old(self).depth > 0,
        ensures
            builder_wf(*final(self)),
            final(self).pipeline_id == old(self).pipeline_id,
            final(self).items@ == old(self).items@.push(uniform_border_item(bounds, clip, side, radius)),
            items_view(final(self).items@) == items_view(old(self).items@).push(
                uniform_border_view(bounds, clip@, side, radius),
            ),
            final(self).depth == old(self).depth,
    {
        let item = DisplayItem::Border {
            bounds,
            clip,
            left: side,
            top: side,
            right: side,
            bottom: side,
            radius,
        };
        proof {
            self.lemma_push_keeps_prefixes(item);
            lemma_items_view_push(self.items@, item);
        }
        self.items.push(item);
    }

    /// Emits a text run.
    pub fn push_text(
        &mut self,
        bounds: Rect,
        clip: ClipRegion,
        glyphs: Vec<GlyphInstance>,
        font_key: FontKey,
        color: Color,
        size: i64,
    )
        requires
            builder_wf(*old(self)),
            old(self).depth > 0,
        ensures
            builder_wf(*final(self)),
            final(self).pipeline_id == old(self).pipeline_id,
            final(self).items@ == old(self).items@.push(
                DisplayItem::Text { bounds, clip, glyphs, font_key, color, size },
            ),
            items_view(final(self).items@) == items_view(old(self).items@).push(
                (DisplayItemView::Text {
                    bounds,
                    clip: clip@,
                    glyphs: glyphs@,
                    font_key,
                    color,
                    size,
                }),
            ),
            final(self).depth == old(self).depth,
    {
        let item = DisplayItem::Text { bounds, clip, glyphs, font_key, color, size };
        proof {
            self.lemma_push_keeps_prefixes(item);
            lemma_items_view_push(self.items@, item);
        }
        self.items.push(item);
    }

    /// After appending `item`, every prefix depth of the old items stands.
    proof fn lemma_push_keeps_prefixes(&self, item: DisplayItem)
        ensures
            forall|i: int|
                0 <= i <= self.items@.len()
                    ==> #[trigger] depth_after(self.items@.push(item), i)
                        == depth_after(self.items@, i),
            depth_after(self.items@.push(item), self.items@.len() as int + 1)
                == depth_after(self.items@, self.items@.len() as int) + item_delta(item),
    {
        assert forall|i: int| 0 <= i <= self.items@.len()
            implies #[trigger] depth_after(self.items@.push(item), i)
                == depth_after(self.items@, i) by {
            lemma_depth_after_push(self.items@, item, i);
        }
        assert(self.items@.push(item)[self.items@.len() as int] == item);
        lemma_depth_after_push(self.items@, item, self.items@.len() as int);
        assert(depth_after(self.items@.push(item), self.items@.len() as int + 1)
            == depth_after(self.items@.push(item), self.items@.len() as int)
                + item_delta(self.items@.push(item)[self.items@.len() as int]));
    }

    /// Hands the finished items over as a scene. Requiring every context to
    /// be closed makes the result's nesting balanced.
    pub fn finalize(self) -> (s: Scene)
        requires
            builder_wf(self),
            self.depth == 0,
        ensures
            s.pipeline_id == self.pipeline_id,
            s.items@ == self.items@,
            balanced(s.items@),
    {
        Scene { pipeline_id: self.pipeline_id, items: self.items }
    }
}

/// Mathematical image of a clip region, with the sub-regions as a sequence.
#[verifier::ext_equal]
pub struct ClipRegionView {
    pub main: Rect,
    pub complex: Seq<ComplexClipRegion>,
}

/// Mathematical image of a stacking context.
#[verifier::ext_equal]
pub struct StackingContextView {
    pub scroll_policy: ScrollPolicy,
    pub bounds: Rect,
    pub clip: ClipRegionView,
    pub z_index: i64,
    pub transform: Transform,
    pub perspective: Transform,
    pub blend: MixBlendMode,
}

/// Mathematical image of a display item.
#[verifier::ext_equal]
pub enum DisplayItemView {
    PushStackingContext(StackingContextView),
    SolidRect { bounds: Rect, clip: ClipRegionView, color: Color },
    Border {
        bounds: Rect,
        clip: ClipRegionView,
        left: BorderSide,
        top: BorderSide,
        right: BorderSide,
        bottom: BorderSide,
        radius: i64,
    },
    Text {
        bounds: Rect,
        clip: ClipRegionView,
        glyphs: Seq<GlyphInstance>,
        font_key: FontKey,
        color: Color,
        size: i64,
    },
    PopStackingContext,
}

impl View for ClipRegion {
    type V = ClipRegionView;

    open spec fn view(&self) -> ClipRegionView {
        ClipRegionView { main: self.main, complex: self.complex@ }
    }
}

impl View for StackingContext {
    type V = StackingContextView;

    open spec fn view(&self) -> StackingContextView {
        StackingContextView {
            scroll_policy: self.scroll_policy,
            bounds: self.bounds,
            clip: self.clip@,
            z_index: self.z_index,
            transform: self.transform,
            perspective: self.perspective,
            blend: self.blend,
        }
    }
}

impl View for DisplayItem {
    type V = DisplayItemView;

    open spec fn view(&self) -> DisplayItemView {
        match self {
            DisplayItem::PushStackingContext(sc) => DisplayItemView::PushStackingContext(sc@),
            DisplayItem::SolidRect { bounds, clip, color } => DisplayItemView::SolidRect {
                bounds: *bounds,
                clip: clip@,
                color: *color,
            },
            DisplayItem::Border { bounds, clip, left, top, right, bottom, radius } =>
                DisplayItemView::Border {
                    bounds: *bounds,
                    clip: clip@,
                    left: *left,
                    top: *top,
                    right: *right,
                    bottom: *bottom,
                    radius: *radius,
                },
            DisplayItem::Text { bounds, clip, glyphs, font_key, color, size } =>
                DisplayItemView::Text {
                    bounds: *bounds,
                    clip: clip@,
                    glyphs: glyphs@,
                    font_key: *font_key,
                    color: *color,
                    size: *size,
                },
            DisplayItem::PopStackingContext => DisplayItemView::PopStackingContext,
        }
    }
}

/// The deep view of a scene's items.
pub open spec fn items_view(items: Seq<DisplayItem>) -> Seq<DisplayItemView> {
    items.map_values(|it: DisplayItem| it@)
}

/// The deep view of a scene.
pub open spec fn scene_view(s: Scene) -> Seq<DisplayItemView> {
    items_view(s.items@)
}

/// Appending an item appends its view.
pub proof fn lemma_items_view_push(items: Seq<DisplayItem>, item: DisplayItem)
    ensures
        items_view(items.push(item)) =~= items_view(items).push(item@),
{
    assert forall|i: int| 0 <= i < items.len() + 1
        implies items_view(items.push(item))[i] == items_view(items).push(item@)[i] by {
        if i < items.len() {
            assert(items.push(item)[i] == items[i]);
        } else {
            assert(items.push(item)[i] == item);
        }
    }
}

/// The view of the border item `push_uniform_border` emits.
pub open spec fn uniform_border_view(
    bounds: Rect,
    clip: ClipRegionView,
    side: BorderSide,
    radius: i64,
) -> DisplayItemView {
    DisplayItemView::Border {
        bounds,
        clip,
        left: side,
        top: side,
        right: side,
        bottom: side,
        radius,
    }
}

/// The border item `push_uniform_border` emits.
pub open spec fn uniform_border_item(
    bounds: Rect,
    clip: ClipRegion,
    side: BorderSide,
    radius: i64,
) -> DisplayItem {
    DisplayItem::Border {
        bounds,
        clip,
        left: side,
        top: side,
        right: side,
        bottom: side,
        radius,
    }
}

} // verus!
