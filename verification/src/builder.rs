//! The scene build step: from drawing intent to a display-item sequence.
//!
//! `build` opens one scrollable stacking context covering the viewport,
//! clipped to a full-viewport clip region with zero corner radius; emits
//! the configured decorative primitives; shapes each line of text with the
//! baseline advanced by one line pitch *before* the line is shaped; and
//! closes the context. Its contract pins the produced items exactly:
//! `scene_view` of the result equals `build_items_spec` of the inputs, so
//! building is a pure function of its arguments.

use vstd::prelude::*;
use crate::geom::{rect, Color, Point, Rect, Size};
use crate::scene::{
    balanced, builder_wf, items_view, root_bounds, root_bounds_items, scene_view,
    uniform_border_view, BorderSide, BorderStyle,
    ClipRegion, ClipRegionView, ComplexClipRegion, DisplayItemView, FontKey, GlyphInstance,
    MixBlendMode, PipelineId, Scene, SceneBuilder, ScrollPolicy, StackingContext,
    StackingContextView, Transform,
};
use crate::shaping::{
    font_wf, layout_spec, metrics_wf, pitch_spec, Font, FontMetrics, GlyphBox, PositionedGlyph,
    MAX_FONT_UNIT, MAX_ORIGIN, MAX_PEN, MAX_TEXT_LEN,
};

verus! {

/// Bound on the number of text lines one build lays out.
pub const MAX_LINES: usize = 1_000_000;

/// Bound on the magnitude of any baseline a build can reach: the origin
/// bound plus one line pitch bound per line.
pub const MAX_BASELINE: i64 = MAX_ORIGIN + 1_000_000 * 3 * MAX_FONT_UNIT;

/// A decorative filled rectangle.
#[derive(Clone, Copy, Debug, PartialEq, Eq)]
pub struct RectDecor {
    pub bounds: Rect,
    pub color: Color,
}

/// A decorative border demonstration.
#[derive(Clone, Copy, Debug, PartialEq, Eq)]
pub struct BorderDemo {
    pub bounds: Rect,
    pub side: BorderSide,
    pub radius: i64,
}

/// Static content of a build: background and optional decorations, the
/// text style, the starting pen origin, and whether per-glyph debug
/// borders are drawn.
#[derive(Clone, Copy, Debug, PartialEq, Eq)]
pub struct BuildConfig {
    pub background: Color,
    pub secondary: Option<RectDecor>,
    pub border_demo: Option<BorderDemo>,
    pub text_color: Color,
    pub font_size: i64,
    pub text_start: Point,
    pub debug_glyphs: bool,
}

/// The full-viewport clip region with zero corner radius that the root
/// context and the decorations are clipped to.
pub open spec fn full_clip(vp: Rect) -> ClipRegionView {
    ClipRegionView { main: vp, complex: seq![ComplexClipRegion { rect: vp, radius: 0 }] }
}

/// A clip region that is just a rectangle, as text runs use.
pub open spec fn simple_clip(r: Rect) -> ClipRegionView {
    ClipRegionView { main: r, complex: Seq::empty() }
}

/// The root stacking context of a build: scrollable, viewport bounds,
/// identity transforms, normal blending.
pub open spec fn root_context_view(vp: Rect) -> StackingContextView {
    StackingContextView {
        scroll_policy: ScrollPolicy::Scrollable,
        bounds: vp,
        clip: full_clip(vp),
        z_index: 0,
        transform: Transform::Identity,
        perspective: Transform::Identity,
        blend: MixBlendMode::Normal,
    }
}

/// The border side debug glyph em-boxes are drawn with.
pub open spec fn em_border_side() -> BorderSide {
    BorderSide {
        width: 1,
        color: Color { r: 255, g: 0, b: 255, a: 255 },
        style: BorderStyle::Solid,
    }
}

/// The border side debug pixel bounding boxes are drawn with, visually
/// distinct from the em-box side so mismatches are observable.
pub open spec fn pixel_border_side() -> BorderSide {
    BorderSide {
        width: 1,
        color: Color { r: 255, g: 0, b: 0, a: 255 },
        style: BorderStyle::Solid,
    }
}

/// The em-box of a positioned glyph: from the pen position one ascent up,
/// down to one descent below the baseline, as wide as advance plus left
/// side bearing.
pub open spec fn em_box(m: FontMetrics, g: PositionedGlyph) -> Rect {
    Rect {
        origin: Point { x: g.pos.x, y: (g.pos.y - m.ascent) as i64 },
        size: Size {
            w: (g.data.advance + g.data.left_bearing) as i64,
            h: (m.ascent - m.descent) as i64,
        },
    }
}

/// A glyph's pixel bounding box placed at its pen position.
pub open spec fn pixel_box(b: GlyphBox, g: PositionedGlyph) -> Rect {
    Rect {
        origin: Point { x: (g.pos.x + b.dx) as i64, y: (g.pos.y + b.dy) as i64 },
        size: Size { w: b.w, h: b.h },
    }
}

/// The debug border items for one glyph: its em-box, and, when the
/// rasterizer reported one, its pixel bounding box. The two intentionally
/// measure different things and may disagree on screen.
pub open spec fn glyph_debug_items(
    m: FontMetrics,
    clip: ClipRegionView,
    g: PositionedGlyph,
) -> Seq<DisplayItemView> {
    seq![uniform_border_view(em_box(m, g), clip, em_border_side(), 0)] + match g.data.bbox {
        None => Seq::empty(),
        Some(b) => seq![uniform_border_view(pixel_box(b, g), clip, pixel_border_side(), 0)],
    }
}

/// The debug border items for the glyphs from index `j` on.
pub open spec fn debug_items_from(
    m: FontMetrics,
    clip: ClipRegionView,
    gs: Seq<PositionedGlyph>,
    j: int,
) -> Seq<DisplayItemView>
    decreases gs.len() - j,
{
    if j < 0 || j >= gs.len() {
        Seq::empty()
    } else {
        glyph_debug_items(m, clip, gs[j]) + debug_items_from(m, clip, gs, j + 1)
    }
}

/// The minimal glyph instance of one positioned glyph.
pub open spec fn instance_of(g: PositionedGlyph) -> GlyphInstance {
    GlyphInstance { index: g.data.index, x: g.pos.x, y: g.pos.y }
}

/// The glyph instances of the positioned glyphs from index `j` on.
pub open spec fn instances_from(gs: Seq<PositionedGlyph>, j: int) -> Seq<GlyphInstance>
    decreases gs.len() - j,
{
    if j < 0 || j >= gs.len() {
        Seq::empty()
    } else {
        seq![instance_of(gs[j])] + instances_from(gs, j + 1)
    }
}

/// The glyph instances of a whole layout.
pub open spec fn glyph_instances(gs: Seq<PositionedGlyph>) -> Seq<GlyphInstance> {
    instances_from(gs, 0)
}

/// Where line `k` is shaped from: the pen origin advanced by `k + 1` line
/// pitches, so that the first line already sits one line height below the
/// start.
pub open spec fn line_origin(start: Point, pitch: int, k: int) -> Point {
    Point { x: start.x, y: (start.y + (k + 1) * pitch) as i64 }
}

/// The items one line of text contributes: its debug borders when they
/// are enabled, then one text run holding the line's glyph instances.
pub open spec fn line_items(
    f: Font,
    font_key: FontKey,
    cfg: BuildConfig,
    clip: ClipRegionView,
    vp: Rect,
    line: Seq<char>,
    origin: Point,
) -> Seq<DisplayItemView> {
    let gs = layout_spec(f, line, origin);
    (if cfg.debug_glyphs {
        debug_items_from(f.metrics, clip, gs, 0)
    } else {
        Seq::empty()
    }) + seq![
        (DisplayItemView::Text {
            bounds: vp,
            clip: simple_clip(vp),
            glyphs: glyph_instances(gs),
            font_key: font_key,
            color: cfg.text_color,
            size: cfg.font_size,
        }),
    ]
}

/// The items of the text lines from index `k` on.
pub open spec fn lines_items_from(
    f: Font,
    font_key: FontKey,
    cfg: BuildConfig,
    clip: ClipRegionView,
    vp: Rect,
    lines: Seq<Seq<char>>,
    k: int,
) -> Seq<DisplayItemView>
    decreases lines.len() - k,
{
    if k < 0 || k >= lines.len() {
        Seq::empty()
    } else {
        line_items(
            f,
            font_key,
            cfg,
            clip,
            vp,
            lines[k],
            line_origin(cfg.text_start, pitch_spec(f.metrics), k),
        ) + lines_items_from(f, font_key, cfg, clip, vp, lines, k + 1)
    }
}

/// The decorative primitives of a build: the background rectangle, then
/// the optional secondary rectangle and border demonstration.
pub open spec fn decor_items(cfg: BuildConfig, vp: Rect, clip: ClipRegionView) -> Seq<
    DisplayItemView,
> {
    seq![(DisplayItemView::SolidRect { bounds: vp, clip: clip, color: cfg.background })] + (match cfg.secondary {
        None => Seq::empty(),
        Some(rd) => seq![(DisplayItemView::SolidRect { bounds: rd.bounds, clip: clip, color: rd.color })],
    }) + (match cfg.border_demo {
        None => Seq::empty(),
        Some(bd) => seq![uniform_border_view(bd.bounds, clip, bd.side, bd.radius)],
    })
}

/// Everything a build produces, in order: the root context push, the
/// decorations, each line's items, and the closing pop.
pub open spec fn build_items_spec(
    f: Font,
    font_key: FontKey,
    cfg: BuildConfig,
    width: i64,
    height: i64,
    lines: Seq<Seq<char>>,
) -> Seq<DisplayItemView> {
    let vp = rect(0, 0, width, height);
    let clip = full_clip(vp);
    seq![DisplayItemView::PushStackingContext(root_context_view(vp))] + decor_items(cfg, vp, clip)
        + lines_items_from(f, font_key, cfg, clip, vp, lines, 0)
        + seq![DisplayItemView::PopStackingContext]
}

/// The deep view of the text lines.
pub open spec fn lines_deep(lines: Seq<Vec<char>>) -> Seq<Seq<char>> {
    lines.map_values(|l: Vec<char>| l@)
}

/// The glyph instances mirror the positioned glyphs one to one, keeping
/// index and pen position.
pub proof fn lemma_instances_index(gs: Seq<PositionedGlyph>, j: int)
    requires
        0 <= j <= gs.len(),
    ensures
        instances_from(gs, j).len() == gs.len() - j,
        forall|t: int|
            0 <= t < gs.len() - j ==> #[trigger] instances_from(gs, j)[t] == instance_of(
                gs[j + t],
            ),
    decreases gs.len() - j,
{
    if j < gs.len() {
        lemma_instances_index(gs, j + 1);
        assert forall|t: int| 0 <= t < gs.len() - j implies #[trigger] instances_from(gs, j)[t]
            == instance_of(gs[j + t]) by {
            if t > 0 {
                assert(instances_from(gs, j)[t] == instances_from(gs, j + 1)[t - 1]);
            }
        }
    }
}

/// Multi-line layout law: line `k` is shaped with its baseline advanced
/// `k + 1` line pitches below the start origin — the origin moves before
/// the line is shaped, not after — and every glyph instance of that
/// line's text run sits on exactly that baseline.
pub proof fn lemma_multiline_baselines(f: Font, line: Seq<char>, start: Point, k: int)
    requires
        metrics_wf(f.metrics),
        -MAX_ORIGIN <= start.y <= MAX_ORIGIN,
        0 <= k < MAX_LINES,
    ensures
        ({
            let origin = line_origin(start, pitch_spec(f.metrics), k);
            let gi = glyph_instances(layout_spec(f, line, origin));
            &&& origin.y == start.y + (k + 1) * pitch_spec(f.metrics)
            &&& forall|j: int| 0 <= j < gi.len() ==> #[trigger] gi[j].y == origin.y
        }),
{
    let p = pitch_spec(f.metrics);
    assert(-3_000_000 <= p && p <= 3_000_000);
    assert(0 <= k && k < 1_000_000);
    assert(-1_099_511_627_776 <= start.y && start.y <= 1_099_511_627_776);
    assert(-4_099_511_627_776 <= start.y + (k + 1) * p && start.y + (k + 1) * p
        <= 4_099_511_627_776) by (nonlinear_arith)
        requires
            -3_000_000 <= p && p <= 3_000_000,
            0 <= k && k < 1_000_000,
            -1_099_511_627_776 <= start.y && start.y <= 1_099_511_627_776,
    ;
    let origin = line_origin(start, p, k);
    assert(origin.y == start.y + (k + 1) * p);
    let gs = layout_spec(f, line, origin);
    crate::shaping::lemma_layout_from_baseline(f.glyphs@, line, 0, origin.x as int, origin.y);
    lemma_instances_index(gs, 0);
    assert forall|j: int| 0 <= j < glyph_instances(gs).len()
        implies #[trigger] glyph_instances(gs)[j].y == origin.y by {
        assert(glyph_instances(gs)[j] == instance_of(gs[j]));
        assert(gs[j].pos.y == origin.y);
    }
}

/// Builds the full-viewport clip region with zero corner radius.
fn full_clip_exec(vp: Rect) -> (c: ClipRegion)
    ensures
        c@ == full_clip(vp),
{
    let mut complex: Vec<ComplexClipRegion> = Vec::new();
    complex.push(ComplexClipRegion { rect: vp, radius: 0 });
    let c = ClipRegion { main: vp, complex };
    proof {
        assert(c@ =~= full_clip(vp));
    }
    c
}

/// Builds a clip region that is just the given rectangle.
fn simple_clip_exec(r: Rect) -> (c: ClipRegion)
    ensures
        c@ == simple_clip(r),
{
    let c = ClipRegion { main: r, complex: Vec::new() };
    proof {
        assert(c@ =~= simple_clip(r));
    }
    c
}

/// The em-box debug border side.
fn em_border_side_exec() -> (s: BorderSide)
    ensures
        s == em_border_side(),
{
    BorderSide {
        width: 1,
        color: Color { r: 255, g: 0, b: 255, a: 255 },
        style: BorderStyle::Solid,
    }
}

/// The pixel-bounding-box debug border side.
fn pixel_border_side_exec() -> (s: BorderSide)
    ensures
        s == pixel_border_side(),
{
    BorderSide {
        width: 1,
        color: Color { r: 255, g: 0, b: 0, a: 255 },
        style: BorderStyle::Solid,
    }
}

/// Maps positioned glyphs to their minimal glyph instances.
#[verifier::loop_isolation(false)]
fn glyph_instances_exec(gs: &Vec<PositionedGlyph>) -> (r: Vec<GlyphInstance>)
    ensures
        r@ == glyph_instances(gs@),
{
    let mut out: Vec<GlyphInstance> = Vec::new();
    let n = gs.len();
    let mut j: usize = 0;
    while j < n
        invariant
            n == gs@.len(),
            0 <= j <= n,
            glyph_instances(gs@) == out@ + instances_from(gs@, j as int),
        decreases n - j,
    {
        let g = gs[j];
        proof {
            assert(instances_from(gs@, j as int) =~= seq![instance_of(g)] + instances_from(
                gs@,
                j + 1,
            ));
        }
        out.push(GlyphInstance { index: g.data.index, x: g.pos.x, y: g.pos.y });
        proof {
            assert(out@ + instances_from(gs@, j + 1) =~= glyph_instances(gs@));
        }
        j = j + 1;
    }
    proof {
        assert(instances_from(gs@, n as int) =~= Seq::<GlyphInstance>::empty());
        assert(out@ + Seq::<GlyphInstance>::empty() =~= out@);
    }
    out
}

/// Emits the two debug borders per glyph: one around the em-box computed
/// from the shaping metrics, one around the reported pixel bounding box.
#[verifier::loop_isolation(false)]
fn emit_glyph_borders(b: &mut SceneBuilder, m: FontMetrics, vp: Rect, gs: &Vec<PositionedGlyph>)
    requires
        builder_wf(*old(b)),
        old(b).depth > 0,
        metrics_wf(m),
        forall|j: int|
            0 <= j < gs@.len() ==> {
                let g = #[trigger] gs@[j];
                &&& crate::shaping::glyph_data_wf(g.data)
                &&& -MAX_BASELINE <= g.pos.y <= MAX_BASELINE
                &&& -MAX_ORIGIN <= g.pos.x <= MAX_PEN
            },
    ensures
        builder_wf(*final(b)),
        final(b).depth == old(b).depth,
        final(b).pipeline_id == old(b).pipeline_id,
        items_view(final(b).items@) == items_view(old(b).items@) + debug_items_from(
            m,
            full_clip(vp),
            gs@,
            0,
        ),
        root_bounds_items(final(b).items@) == root_bounds_items(old(b).items@),
{
    let ghost clipv = full_clip(vp);
    let ghost items0 = items_view(b.items@);
    let ghost depth0 = b.depth;
    let ghost pipe0 = b.pipeline_id;
    let ghost rb0 = root_bounds_items(b.items@);
    let n = gs.len();
    let mut j: usize = 0;
    while j < n
        invariant
            builder_wf(*b),
            b.depth == depth0,
            depth0 > 0,
            b.pipeline_id == pipe0,
            root_bounds_items(b.items@) == rb0,
            metrics_wf(m),
            n == gs@.len(),
            0 <= j <= n,
            forall|jj: int|
                0 <= jj < gs@.len() ==> {
                    let g = #[trigger] gs@[jj];
                    &&& crate::shaping::glyph_data_wf(g.data)
                    &&& -MAX_BASELINE <= g.pos.y <= MAX_BASELINE
                    &&& -MAX_ORIGIN <= g.pos.x <= MAX_PEN
                },
            items_view(b.items@) + debug_items_from(m, clipv, gs@, j as int) == items0
                + debug_items_from(m, clipv, gs@, 0),
        decreases n - j,
    {
        let g = gs[j];
        let ghost iv0 = items_view(b.items@);
        let emr = Rect::new(
            g.pos.x,
            g.pos.y - m.ascent,
            g.data.advance + g.data.left_bearing,
            m.ascent - m.descent,
        );
        proof {
            assert(emr == em_box(m, g));
        }
        b.push_uniform_border(emr, full_clip_exec(vp), em_border_side_exec(), 0);
        match g.data.bbox {
            None => {
                proof {
                    assert(glyph_debug_items(m, clipv, g) =~= seq![
                        uniform_border_view(em_box(m, g), clipv, em_border_side(), 0),
                    ]);
                    assert(items_view(b.items@) =~~= iv0 + glyph_debug_items(m, clipv, g));
                }
            }
            Some(bb) => {
                let pr = Rect::new(g.pos.x + bb.dx, g.pos.y + bb.dy, bb.w, bb.h);
                proof {
                    assert(pr == pixel_box(bb, g));
                }
                b.push_uniform_border(pr, full_clip_exec(vp), pixel_border_side_exec(), 0);
                proof {
                    assert(glyph_debug_items(m, clipv, g) =~= seq![
                        uniform_border_view(em_box(m, g), clipv, em_border_side(), 0),
                        uniform_border_view(pixel_box(bb, g), clipv, pixel_border_side(), 0),
                    ]);
                    assert(items_view(b.items@) =~~= iv0 + glyph_debug_items(m, clipv, g));
                }
            }
        }
        proof {
            assert(debug_items_from(m, clipv, gs@, j as int) =~= glyph_debug_items(m, clipv, g)
                + debug_items_from(m, clipv, gs@, j + 1));
            assert(items_view(b.items@) + debug_items_from(m, clipv, gs@, j + 1) =~= items0
                + debug_items_from(m, clipv, gs@, 0));
        }
        j = j + 1;
    }
    proof {
        assert(debug_items_from(m, clipv, gs@, n as int) =~= Seq::<DisplayItemView>::empty());
        assert(items_view(b.items@) + Seq::<DisplayItemView>::empty() =~= items_view(b.items@));
    }
}

/// Shapes one line from `origin` and emits its items: the optional debug
/// borders, then one text run with the line's glyph instances.
fn emit_line(
    b: &mut SceneBuilder,
    font: &Font,
    font_key: FontKey,
    cfg: &BuildConfig,
    vp: Rect,
    line: &Vec<char>,
    origin: Point,
)
    requires
        builder_wf(*old(b)),
        old(b).depth > 0,
        font_wf(*font),
        line@.len() <= MAX_TEXT_LEN,
        -MAX_ORIGIN <= origin.x <= MAX_ORIGIN,
        -MAX_BASELINE <= origin.y <= MAX_BASELINE,
    ensures
        builder_wf(*final(b)),
        final(b).depth == old(b).depth,
        final(b).pipeline_id == old(b).pipeline_id,
        items_view(final(b).items@) == items_view(old(b).items@) + line_items(
            *font,
            font_key,
            *cfg,
            full_clip(vp),
            vp,
            line@,
            origin,
        ),
        root_bounds_items(final(b).items@) == root_bounds_items(old(b).items@),
{
    let ghost iv0 = items_view(b.items@);
    let gs = font.layout(line, origin);
    proof {
        crate::shaping::lemma_layout_from_props(*font, line@, 0, origin.x as int, origin.y);
    }
    if cfg.debug_glyphs {
        emit_glyph_borders(b, font.metrics, vp, &gs);
    }
    let ghost iv1 = items_view(b.items@);
    let inst = glyph_instances_exec(&gs);
    b.push_text(vp, simple_clip_exec(vp), inst, font_key, cfg.text_color, cfg.font_size);
    proof {
        let textv = (DisplayItemView::Text {
            bounds: vp,
            clip: simple_clip(vp),
            glyphs: glyph_instances(gs@),
            font_key: font_key,
            color: cfg.text_color,
            size: cfg.font_size,
        });
        assert(items_view(b.items@) =~= iv1 + seq![textv]);
        assert(items_view(b.items@) =~= iv0 + line_items(
            *font,
            font_key,
            *cfg,
            full_clip(vp),
            vp,
            line@,
            origin,
        ));
    }
}

/// Emits the decorative primitives: the background rectangle, then the
/// optional secondary rectangle and border demonstration.
fn emit_decor(b: &mut SceneBuilder, cfg: &BuildConfig, vp: Rect)
    requires
        builder_wf(*old(b)),
        old(b).depth > 0,
    ensures
        builder_wf(*final(b)),
        final(b).depth == old(b).depth,
        final(b).pipeline_id == old(b).pipeline_id,
        items_view(final(b).items@) == items_view(old(b).items@) + decor_items(
            *cfg,
            vp,
            full_clip(vp),
        ),
        root_bounds_items(final(b).items@) == root_bounds_items(old(b).items@),
{
    let ghost clipv = full_clip(vp);
    let ghost iv0 = items_view(b.items@);
    b.push_rect(vp, full_clip_exec(vp), cfg.background);
    let ghost iv1 = items_view(b.items@);
    proof {
        assert(iv1 =~= iv0 + seq![
            (DisplayItemView::SolidRect { bounds: vp, clip: clipv, color: cfg.background }),
        ]);
    }
    match cfg.secondary {
        None => {}
        Some(rd) => {
            b.push_rect(rd.bounds, full_clip_exec(vp), rd.color);
            proof {
                assert(items_view(b.items@) =~= iv1 + seq![
                    (DisplayItemView::SolidRect { bounds: rd.bounds, clip: clipv, color: rd.color }),
                ]);
            }
        }
    }
    let ghost iv2 = items_view(b.items@);
    match cfg.border_demo {
        None => {}
        Some(bd) => {
            b.push_uniform_border(bd.bounds, full_clip_exec(vp), bd.side, bd.radius);
            proof {
                assert(items_view(b.items@) =~= iv2 + seq![
                    uniform_border_view(bd.bounds, clipv, bd.side, bd.radius),
                ]);
            }
        }
    }
    proof {
        assert(items_view(b.items@) =~= iv0 + decor_items(*cfg, vp, clipv));
    }
}

/// Builds the whole scene for one viewport: one scrollable stacking
/// context over `(0, 0, width, height)`, the decorations, one shaped text
/// run per line with the baseline advanced by a line pitch before each
/// line, and the closing pop. Pure: the result is pinned, item for item,
/// by `build_items_spec`, and its nesting is balanced. A zero-area
/// viewport is not special-cased: the scene is still well formed.
#[verifier::loop_isolation(false)]
pub fn build(
    pipeline_id: PipelineId,
    font_key: FontKey,
    font: &Font,
    width: i64,
    height: i64,
    lines: &Vec<Vec<char>>,
    cfg: &BuildConfig,
) -> (s: Scene)
    requires
        font_wf(*font),
        0 <= width,
        0 <= height,
        lines@.len() <= MAX_LINES,
        forall|k: int| 0 <= k < lines@.len() ==> (#[trigger] lines@[k])@.len() <= MAX_TEXT_LEN,
        -MAX_ORIGIN <= cfg.text_start.x <= MAX_ORIGIN,
        -MAX_ORIGIN <= cfg.text_start.y <= MAX_ORIGIN,
    ensures
        s.pipeline_id == pipeline_id,
        balanced(s.items@),
        root_bounds(s) == Some(rect(0, 0, width, height)),
        scene_view(s) == build_items_spec(
            *font,
            font_key,
            *cfg,
            width,
            height,
            lines_deep(lines@),
        ),
{
    let mut b = SceneBuilder::new(pipeline_id);
    let vp = Rect::new(0, 0, width, height);
    let mut complex: Vec<ComplexClipRegion> = Vec::new();
    complex.push(ComplexClipRegion { rect: vp, radius: 0 });
    let clip = b.new_clip_region(&vp, complex);
    let sc = StackingContext {
        scroll_policy: ScrollPolicy::Scrollable,
        bounds: vp,
        clip,
        z_index: 0,
        transform: Transform::Identity,
        perspective: Transform::Identity,
        blend: MixBlendMode::Normal,
    };
    proof {
        assert(sc@ =~= root_context_view(vp));
    }
    b.push_stacking_context(sc);
    proof {
        assert(items_view(b.items@) =~= seq![
            DisplayItemView::PushStackingContext(root_context_view(vp)),
        ]);
    }
    emit_decor(&mut b, cfg, vp);
    let ghost pre = items_view(b.items@);
    proof {
        assert(pre =~= seq![DisplayItemView::PushStackingContext(root_context_view(vp))]
            + decor_items(*cfg, vp, full_clip(vp)));
    }
    let pitch = font.metrics.line_pitch();
    let ghost linesv = lines_deep(lines@);
    let mut y: i64 = cfg.text_start.y;
    let n = lines.len();
    let mut k: usize = 0;
    while k < n
        invariant
            builder_wf(b),
            b.depth == 1,
            b.pipeline_id == pipeline_id,
            root_bounds_items(b.items@) == Some(rect(0, 0, width, height)),
            font_wf(*font),
            pitch == pitch_spec(font.metrics),
            n == lines@.len(),
            n <= MAX_LINES,
            0 <= k <= n,
            linesv == lines_deep(lines@),
            forall|kk: int|
                0 <= kk < lines@.len() ==> (#[trigger] lines@[kk])@.len() <= MAX_TEXT_LEN,
            -MAX_ORIGIN <= cfg.text_start.x <= MAX_ORIGIN,
            -MAX_ORIGIN <= cfg.text_start.y <= MAX_ORIGIN,
            y == cfg.text_start.y + k * pitch_spec(font.metrics),
            cfg.text_start.y - k * (3 * MAX_FONT_UNIT) <= y <= cfg.text_start.y + k * (3
                * MAX_FONT_UNIT),
            items_view(b.items@) + lines_items_from(
                *font,
                font_key,
                *cfg,
                full_clip(vp),
                vp,
                linesv,
                k as int,
            ) == pre + lines_items_from(*font, font_key, *cfg, full_clip(vp), vp, linesv, 0),
        decreases n - k,
    {
        proof {
            let p = pitch_spec(font.metrics);
            let ki = k as int;
            assert(-3 * MAX_FONT_UNIT <= p && p <= 3 * MAX_FONT_UNIT);
            assert((ki + 1) * p == ki * p + p) by (nonlinear_arith);
            assert(-((ki + 1) * (3 * MAX_FONT_UNIT)) <= (ki + 1) * p && (ki + 1) * p <= (ki + 1)
                * (3 * MAX_FONT_UNIT)) by (nonlinear_arith)
                requires
                    -3 * MAX_FONT_UNIT <= p && p <= 3 * MAX_FONT_UNIT,
                    0 <= ki,
            ;
        }
        y = y + pitch;
        let origin = Point { x: cfg.text_start.x, y };
        proof {
            assert(origin == line_origin(cfg.text_start, pitch_spec(font.metrics), k as int));
            assert(linesv[k as int] == lines@[k as int]@);
        }
        let line = &lines[k];
        emit_line(&mut b, font, font_key, cfg, vp, line, origin);
        proof {
            assert(lines_items_from(*font, font_key, *cfg, full_clip(vp), vp, linesv, k as int)
                =~= line_items(
                *font,
                font_key,
                *cfg,
                full_clip(vp),
                vp,
                linesv[k as int],
                line_origin(cfg.text_start, pitch_spec(font.metrics), k as int),
            ) + lines_items_from(*font, font_key, *cfg, full_clip(vp), vp, linesv, k + 1));
            assert(items_view(b.items@) + lines_items_from(
                *font,
                font_key,
                *cfg,
                full_clip(vp),
                vp,
                linesv,
                k + 1,
            ) =~= pre + lines_items_from(*font, font_key, *cfg, full_clip(vp), vp, linesv, 0));
        }
        k = k + 1;
    }
    proof {
        assert(lines_items_from(*font, font_key, *cfg, full_clip(vp), vp, linesv, n as int)
            =~= Seq::<DisplayItemView>::empty());
        assert(items_view(b.items@) =~= pre + lines_items_from(
            *font,
            font_key,
            *cfg,
            full_clip(vp),
            vp,
            linesv,
            0,
        ));
    }
    b.pop_stacking_context();
    let s = b.finalize();
    proof {
        assert(scene_view(s) =~= build_items_spec(
            *font,
            font_key,
            *cfg,
            width,
            height,
            lines_deep(lines@),
        ));
    }
    s
}

} // verus!
