//! The font-shaping model.
//!
//! The shaping library itself works in floating point and stays outside the
//! verified core. What the scene logic reads from it is carried here as plain
//! integer layout units: vertical metrics at the chosen scale, and one record
//! per glyph holding its backend index, horizontal metrics and optional
//! pixel bounding box. The embedding converts the shaping library's measured
//! values into a [`Font`] once; layout over that data is then a pure,
//! deterministic function, shaped anew for every scene build.

use vstd::prelude::*;
use crate::geom::Point;

verus! {

/// Bound on every metric and per-glyph measure a well-formed font may hold,
/// in layout units. It keeps pen positions far away from overflow.
pub const MAX_FONT_UNIT: i64 = 1_000_000;

/// Bound on the length of one line of text handed to layout.
pub const MAX_TEXT_LEN: usize = 1_048_576;

/// Bound on the magnitude of a layout origin coordinate.
pub const MAX_ORIGIN: i64 = 1_099_511_627_776;

/// Bound on any pen position layout can reach from a bounded origin:
/// the origin bound plus one advance bound per character.
pub const MAX_PEN: i64 = MAX_ORIGIN + 1_048_576 * MAX_FONT_UNIT;

/// Vertical metrics of a font at a fixed scale, in layout units.
/// `descent` is typically negative (below the baseline).
#[derive(Clone, Copy, Debug, PartialEq, Eq, Structural)]
pub struct FontMetrics {
    pub ascent: i64,
    pub descent: i64,
    pub line_gap: i64,
}

/// A glyph's pixel bounding box, relative to its pen position.
#[derive(Clone, Copy, Debug, PartialEq, Eq, Structural)]
pub struct GlyphBox {
    pub dx: i64,
    pub dy: i64,
    pub w: i64,
    pub h: i64,
}

/// What shaping knows of one glyph: its backend index, horizontal metrics,
/// and, when the rasterizer reported one, a pixel bounding box.
#[derive(Clone, Copy, Debug, PartialEq, Eq)]
pub struct GlyphData {
    pub index: u32,
    pub advance: i64,
    pub left_bearing: i64,
    pub bbox: Option<GlyphBox>,
}

/// One character-to-glyph mapping of a font.
#[derive(Clone, Copy, Debug, PartialEq, Eq)]
pub struct GlyphEntry {
    pub ch: char,
    pub data: GlyphData,
}

/// A font at a fixed scale: vertical metrics plus a character map.
#[derive(Debug)]
pub struct Font {
    pub metrics: FontMetrics,
    pub glyphs: Vec<GlyphEntry>,
}

/// A glyph placed at a pen position by layout.
#[derive(Clone, Copy, Debug, PartialEq, Eq)]
pub struct PositionedGlyph {
    pub data: GlyphData,
    pub pos: Point,
}

pub open spec fn metrics_wf(m: FontMetrics) -> bool {
    &&& -MAX_FONT_UNIT <= m.ascent <= MAX_FONT_UNIT
    &&& -MAX_FONT_UNIT <= m.descent <= MAX_FONT_UNIT
    &&& -MAX_FONT_UNIT <= m.line_gap <= MAX_FONT_UNIT
}

pub open spec fn glyph_box_wf(b: GlyphBox) -> bool {
    &&& -MAX_FONT_UNIT <= b.dx <= MAX_FONT_UNIT
    &&& -MAX_FONT_UNIT <= b.dy <= MAX_FONT_UNIT
    &&& 0 <= b.w <= MAX_FONT_UNIT
    &&& 0 <= b.h <= MAX_FONT_UNIT
}

pub open spec fn glyph_data_wf(g: GlyphData) -> bool {
    &&& 0 <= g.advance <= MAX_FONT_UNIT
    &&& -MAX_FONT_UNIT <= g.left_bearing <= MAX_FONT_UNIT
    &&& match g.bbox {
        None => true,
        Some(b) => glyph_box_wf(b),
    }
}

/// A well-formed font: bounded metrics, every glyph's measures bounded.
pub open spec fn font_wf(f: Font) -> bool {
    &&& metrics_wf(f.metrics)
    &&& forall|i: int|
        0 <= i < f.glyphs@.len() ==> glyph_data_wf(#[trigger] f.glyphs@[i].data)
}

/// The character map's answer for `c`, scanning entries from `i` on:
/// the first entry whose character is `c`.
pub open spec fn lookup_from(entries: Seq<GlyphEntry>, c: char, i: int) -> Option<GlyphData>
    decreases entries.len() - i,
{
    if i < 0 || i >= entries.len() {
        None
    } else if entries[i].ch == c {
        Some(entries[i].data)
    } else {
        lookup_from(entries, c, i + 1)
    }
}

/// The character map's answer for `c`.
pub open spec fn lookup_spec(entries: Seq<GlyphEntry>, c: char) -> Option<GlyphData> {
    lookup_from(entries, c, 0)
}

/// Whatever the character map answers is well formed when the font is.
pub proof fn lemma_lookup_from_wf(f: Font, c: char, i: int)
    requires
        font_wf(f),
    ensures
        match lookup_from(f.glyphs@, c, i) {
            None => true,
            Some(g) => glyph_data_wf(g),
        },
    decreases f.glyphs@.len() - i,
{
    if i < 0 || i >= f.glyphs@.len() {
    } else if f.glyphs@[i].ch == c {
    } else {
        lemma_lookup_from_wf(f, c, i + 1);
    }
}

/// Shaping of `text[i..]` with the pen at `(pen_x, pen_y)`: characters the
/// font does not map are skipped; a mapped character puts one glyph at the
/// pen and advances the pen by the glyph's advance width. The baseline
/// `pen_y` never moves within a line.
pub open spec fn layout_from(
    entries: Seq<GlyphEntry>,
    text: Seq<char>,
    i: int,
    pen_x: int,
    pen_y: i64,
) -> Seq<PositionedGlyph>
    decreases text.len() - i,
{
    if i < 0 || i >= text.len() {
        Seq::empty()
    } else {
        match lookup_spec(entries, text[i]) {
            None => layout_from(entries, text, i + 1, pen_x, pen_y),
            Some(g) => seq![
                PositionedGlyph { data: g, pos: Point { x: pen_x as i64, y: pen_y } },
            ] + layout_from(entries, text, i + 1, pen_x + g.advance, pen_y),
        }
    }
}

/// Shaping of a whole line from `origin`.
pub open spec fn layout_spec(f: Font, text: Seq<char>, origin: Point) -> Seq<PositionedGlyph> {
    layout_from(f.glyphs@, text, 0, origin.x as int, origin.y)
}

/// Every glyph a layout yields sits on the baseline it was shaped at.
pub proof fn lemma_layout_from_baseline(
    entries: Seq<GlyphEntry>,
    text: Seq<char>,
    i: int,
    pen_x: int,
    pen_y: i64,
)
    ensures
        forall|j: int|
            0 <= j < layout_from(entries, text, i, pen_x, pen_y).len()
                ==> (#[trigger] layout_from(entries, text, i, pen_x, pen_y)[j]).pos.y == pen_y,
    decreases text.len() - i,
{
    if i < 0 || i >= text.len() {
    } else {
        match lookup_spec(entries, text[i]) {
            None => {
                lemma_layout_from_baseline(entries, text, i + 1, pen_x, pen_y);
            }
            Some(g) => {
                lemma_layout_from_baseline(entries, text, i + 1, pen_x + g.advance, pen_y);
            }
        }
    }
}

/// Every glyph of a layout is well formed, sits on the shaping baseline,
/// and its pen position lies between the starting pen and the pen after at
/// most one advance bound per remaining character.
pub proof fn lemma_layout_from_props(
    f: Font,
    text: Seq<char>,
    i: int,
    pen_x: int,
    pen_y: i64,
)
    requires
        font_wf(f),
        -MAX_ORIGIN <= pen_x,
        pen_x + (text.len() - i) * MAX_FONT_UNIT <= MAX_PEN,
    ensures
        forall|j: int|
            0 <= j < layout_from(f.glyphs@, text, i, pen_x, pen_y).len() ==> {
                let g = #[trigger] layout_from(f.glyphs@, text, i, pen_x, pen_y)[j];
                &&& glyph_data_wf(g.data)
                &&& g.pos.y == pen_y
                &&& pen_x <= g.pos.x <= pen_x + (text.len() - i) * MAX_FONT_UNIT
            },
    decreases text.len() - i,
{
    if i < 0 || i >= text.len() {
    } else {
        lemma_lookup_from_wf(f, text[i], 0);
        match lookup_spec(f.glyphs@, text[i]) {
            None => {
                lemma_layout_from_props(f, text, i + 1, pen_x, pen_y);
            }
            Some(g) => {
                lemma_layout_from_props(f, text, i + 1, pen_x + g.advance, pen_y);
            }
        }
    }
}

/// Shaping determinism: what layout yields is a function of the font, the
/// text and the origin alone, so two layouts of the same inputs are the
/// same sequence of positioned glyphs.
pub proof fn lemma_layout_deterministic(
    f: Font,
    text: Seq<char>,
    origin: Point,
    r1: Seq<PositionedGlyph>,
    r2: Seq<PositionedGlyph>,
)
    requires
        r1 == layout_spec(f, text, origin),
        r2 == layout_spec(f, text, origin),
    ensures
        r1 == r2,
{
}

impl FontMetrics {
    /// The line pitch at this scale: the vertical distance between two
    /// successive baselines, `ascent - descent + line_gap`.
    pub fn line_pitch(&self) -> (r: i64)
        requires
            metrics_wf(*self),
        ensures
            r == pitch_spec(*self),
    {
        self.ascent - self.descent + self.line_gap
    }
}

/// The line pitch of metrics `m`.
pub open spec fn pitch_spec(m: FontMetrics) -> int {
    m.ascent - m.descent + m.line_gap
}

impl Font {
    /// The glyph this font maps `c` to, if any: the first matching entry of
    /// the character map.
    pub fn lookup(&self, c: char) -> (r: Option<GlyphData>)
        ensures
            r == lookup_spec(self.glyphs@, c),
    {
        let n = self.glyphs.len();
        let mut i: usize = 0;
        while i < n
            invariant
                n == self.glyphs@.len(),
                0 <= i <= n,
                lookup_spec(self.glyphs@, c) == lookup_from(self.glyphs@, c, i as int),
            decreases n - i,
        {
            let e = self.glyphs[i];
            if e.ch == c {
                return Some(e.data);
            }
            i = i + 1;
        }
        None
    }

    /// Shapes one line of text with the pen starting at `origin`. Deterministic:
    /// the result is a pure function of the font, the text and the origin.
    pub fn layout(&self, text: &Vec<char>, origin: Point) -> (r: Vec<PositionedGlyph>)
        requires
            font_wf(*self),
            text@.len() <= MAX_TEXT_LEN,
            -MAX_ORIGIN <= origin.x <= MAX_ORIGIN,
        ensures
            r@ == layout_spec(*self, text@, origin),
    {
        let ghost entries = self.glyphs@;
        let mut out: Vec<PositionedGlyph> = Vec::new();
        let mut pen_x: i64 = origin.x;
        let n = text.len();
        let mut i: usize = 0;
        while i < n
            invariant
                font_wf(*self),
                entries == self.glyphs@,
                n == text@.len(),
                n <= MAX_TEXT_LEN,
                0 <= i <= n,
                -MAX_ORIGIN <= origin.x <= MAX_ORIGIN,
                origin.x <= pen_x <= origin.x + i * MAX_FONT_UNIT,
                layout_spec(*self, text@, origin)
                    == out@ + layout_from(entries, text@, i as int, pen_x as int, origin.y),
            decreases n - i,
        {
            let c = text[i];
            match self.lookup(c) {
                None => {
                }
                Some(g) => {
                    proof {
                        lemma_lookup_from_wf(*self, c, 0);
                        assert(layout_from(entries, text@, i as int, pen_x as int, origin.y)
                            =~= seq![
                                PositionedGlyph {
                                    data: g,
                                    pos: Point { x: pen_x, y: origin.y },
                                },
                            ] + layout_from(
                                entries, text@, i + 1, pen_x + g.advance, origin.y,
                            ));
                    }
                    let placed = PositionedGlyph { data: g, pos: Point { x: pen_x, y: origin.y } };
                    out.push(placed);
                    proof {
                        assert(out@ + layout_from(entries, text@, i + 1, pen_x + g.advance, origin.y)
                            =~= layout_spec(*self, text@, origin));
                    }
                    pen_x = pen_x + g.advance;
                }
            }
            i = i + 1;
        }
        proof {
            assert(layout_from(entries, text@, n as int, pen_x as int, origin.y) =~= Seq::empty());
            assert(out@ + Seq::<PositionedGlyph>::empty() =~= out@);
        }
        out
    }
}

} // verus!
