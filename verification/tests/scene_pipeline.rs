use scene_bridge::builder::{build, BuildConfig};
use scene_bridge::geom::{Color, Point, Rect, Size};
use scene_bridge::lifecycle::{BackendCommand, Coordinator, WindowEvent, QUIT_SCAN_CODE};
use scene_bridge::notify::FrameNotifier;
use scene_bridge::scene::{DisplayItem, Epoch, FontKey, PipelineId, Scene};
use scene_bridge::shaping::{Font, FontMetrics, GlyphBox, GlyphData, GlyphEntry, PositionedGlyph};

fn test_metrics() -> FontMetrics {
    FontMetrics { ascent: 10, descent: -2, line_gap: 1 }
}

fn test_font() -> Font {
    let glyphs = vec![
        GlyphEntry {
            ch: 'a',
            data: GlyphData { index: 1, advance: 5, left_bearing: 1, bbox: None },
        },
        GlyphEntry {
            ch: 'b',
            data: GlyphData {
                index: 2,
                advance: 6,
                left_bearing: 0,
                bbox: Some(GlyphBox { dx: 1, dy: -8, w: 4, h: 7 }),
            },
        },
        GlyphEntry {
            ch: 'c',
            data: GlyphData { index: 3, advance: 4, left_bearing: -1, bbox: None },
        },
    ];
    Font { metrics: test_metrics(), glyphs }
}

fn plain_config() -> BuildConfig {
    BuildConfig {
        background: Color::new(26, 26, 26, 255),
        secondary: None,
        border_demo: None,
        text_color: Color::new(204, 204, 204, 255),
        font_size: 14,
        text_start: Point::new(0, 0),
        debug_glyphs: false,
    }
}

fn lines_of(strs: &[&str]) -> Vec<Vec<char>> {
    strs.iter().map(|s| s.chars().collect()).collect()
}

fn nesting_is_balanced(scene: &Scene) -> bool {
    let mut depth: i64 = 0;
    for item in &scene.items {
        match item {
            DisplayItem::PushStackingContext(_) => depth += 1,
            DisplayItem::PopStackingContext => {
                if depth == 0 {
                    return false;
                }
                depth -= 1;
            }
            _ => {}
        }
    }
    depth == 0
}

fn root_bounds(scene: &Scene) -> Option<Rect> {
    match scene.items.first() {
        Some(DisplayItem::PushStackingContext(sc)) => Some(sc.bounds),
        _ => None,
    }
}

fn text_runs(scene: &Scene) -> Vec<&DisplayItem> {
    scene
        .items
        .iter()
        .filter(|item| matches!(item, DisplayItem::Text { .. }))
        .collect()
}

#[test]
fn build_root_bounds_and_balance() {
    let font = test_font();
    let lines = lines_of(&["ab"]);
    let scene = build(
        PipelineId(0, 0),
        FontKey(7),
        &font,
        800,
        600,
        &lines,
        &plain_config(),
    );
    assert_eq!(root_bounds(&scene), Some(Rect::new(0, 0, 800, 600)));
    assert!(nesting_is_balanced(&scene));
    assert!(matches!(scene.items.last(), Some(DisplayItem::PopStackingContext)));
}

#[test]
fn build_zero_area_viewport_is_well_formed() {
    let font = test_font();
    let lines = lines_of(&["a"]);
    let scene = build(
        PipelineId(0, 0),
        FontKey(7),
        &font,
        0,
        0,
        &lines,
        &plain_config(),
    );
    assert_eq!(root_bounds(&scene), Some(Rect::new(0, 0, 0, 0)));
    assert!(nesting_is_balanced(&scene));
}

#[test]
fn shaping_is_deterministic() {
    let font = test_font();
    let text: Vec<char> = "abcab".chars().collect();
    let origin = Point::new(10, 40);
    let first = font.layout(&text, origin);
    let second = font.layout(&text, origin);
    assert_eq!(first, second);
}

#[test]
fn shaping_advances_pen_and_keeps_baseline() {
    let font = test_font();
    let text: Vec<char> = "ab".chars().collect();
    let glyphs = font.layout(&text, Point::new(10, 40));
    let placed: Vec<(u32, i64, i64)> = glyphs
        .iter()
        .map(|g: &PositionedGlyph| (g.data.index, g.pos.x, g.pos.y))
        .collect();
    assert_eq!(placed, vec![(1, 10, 40), (2, 15, 40)]);
}

#[test]
fn shaping_skips_unmapped_characters() {
    let font = test_font();
    let text: Vec<char> = "a?b".chars().collect();
    let glyphs = font.layout(&text, Point::new(0, 0));
    let placed: Vec<(u32, i64)> = glyphs.iter().map(|g| (g.data.index, g.pos.x)).collect();
    assert_eq!(placed, vec![(1, 0), (2, 5)]);
}

#[test]
fn multiline_baselines_advance_before_each_line() {
    // ascent 10, descent -2, line gap 1: pitch 13; three lines from y0 = 0
    // must sit on baselines 13, 26 and 39.
    let font = test_font();
    let lines = lines_of(&["ab", "a", "b"]);
    let scene = build(
        PipelineId(0, 0),
        FontKey(7),
        &font,
        200,
        100,
        &lines,
        &plain_config(),
    );
    let runs = text_runs(&scene);
    assert_eq!(runs.len(), 3);
    let expected = [13i64, 26, 39];
    for (run, want) in runs.iter().zip(expected.iter()) {
        if let DisplayItem::Text { glyphs, .. } = run {
            assert!(!glyphs.is_empty());
            for g in glyphs {
                assert_eq!(g.y, *want);
            }
        } else {
            unreachable!();
        }
    }
}

#[test]
fn debug_borders_draw_em_box_and_pixel_box() {
    let font = test_font();
    let mut cfg = plain_config();
    cfg.debug_glyphs = true;
    let lines = lines_of(&["ab"]);
    let scene = build(PipelineId(0, 0), FontKey(7), &font, 200, 100, &lines, &cfg);
    let borders: Vec<Rect> = scene
        .items
        .iter()
        .filter_map(|item| match item {
            DisplayItem::Border { bounds, .. } => Some(*bounds),
            _ => None,
        })
        .collect();
    // 'a' (no pixel box) contributes one em-box border; 'b' contributes its
    // em-box and its pixel bounding box. Baseline is 13.
    assert_eq!(
        borders,
        vec![
            // em-box of 'a' at pen (0, 13): advance 5 + bearing 1 wide, ascent-descent = 12 high
            Rect::new(0, 3, 6, 12),
            // em-box of 'b' at pen (5, 13)
            Rect::new(5, 3, 6, 12),
            // pixel box of 'b': pen + (1, -8), 4 by 7
            Rect::new(6, 5, 4, 7),
        ]
    );
}

#[test]
fn first_submit_has_no_generate_frame() {
    let font = test_font();
    let lines = lines_of(&["a"]);
    let cfg = plain_config();
    let mut c = Coordinator::new(PipelineId(0, 0), Epoch(0), FontKey(7), Color::new(26, 26, 26, 255));
    let scene = build(c.pipeline_id, c.font_key, &font, 800, 600, &lines, &cfg);
    let cmds = c.submit(scene, Size::new(800, 600));
    assert_eq!(cmds.len(), 1);
    assert!(matches!(cmds[0], BackendCommand::SubmitScene { .. }));

    let scene2 = build(c.pipeline_id, c.font_key, &font, 800, 600, &lines, &cfg);
    let cmds2 = c.submit(scene2, Size::new(800, 600));
    assert_eq!(cmds2.len(), 2);
    assert!(matches!(cmds2[0], BackendCommand::SubmitScene { .. }));
    assert_eq!(cmds2[1], BackendCommand::GenerateFrame);
}

#[test]
fn notifications_coalesce_into_one_wake() {
    let mut n = FrameNotifier::new();
    assert!(!n.take_wakeup());
    for _ in 0..5 {
        n.new_frame_ready();
        n.new_scroll_frame_ready(true);
    }
    assert!(n.take_wakeup());
    assert!(!n.take_wakeup());
    n.pipeline_size_changed(PipelineId(0, 0), Some(Size::new(1, 1)));
    assert!(!n.take_wakeup());
}

#[test]
fn resize_rebuilds_submits_and_generates() {
    let font = test_font();
    let lines = lines_of(&["ab", "c"]);
    let cfg = plain_config();
    let mut c = Coordinator::new(PipelineId(0, 0), Epoch(0), FontKey(7), Color::new(26, 26, 26, 255));
    let scene = build(c.pipeline_id, c.font_key, &font, 800, 600, &lines, &cfg);
    let _ = c.submit(scene, Size::new(800, 600));

    let (quit, cmds) = c.handle_event(
        &WindowEvent::Resized { width: 400, height: 300 },
        &font,
        &lines,
        &cfg,
    );
    assert!(!quit);
    assert_eq!(cmds.len(), 2);
    match &cmds[0] {
        BackendCommand::SubmitScene { background, epoch, viewport, scene } => {
            assert_eq!(*background, Color::new(26, 26, 26, 255));
            assert_eq!(*epoch, Epoch(0));
            assert_eq!(*viewport, Size::new(400, 300));
            assert_eq!(root_bounds(scene), Some(Rect::new(0, 0, 400, 300)));
            assert!(nesting_is_balanced(scene));
        }
        _ => unreachable!(),
    }
    assert_eq!(cmds[1], BackendCommand::GenerateFrame);
    assert_eq!(c.pipeline_id, PipelineId(0, 0));
    assert_eq!(c.epoch, Epoch(0));
    assert_eq!(c.font_key, FontKey(7));
}

#[test]
fn close_and_quit_key_end_the_loop() {
    let font = test_font();
    let lines = lines_of(&["a"]);
    let cfg = plain_config();
    let mut c = Coordinator::new(PipelineId(0, 0), Epoch(0), FontKey(7), Color::new(0, 0, 0, 255));

    let (quit, cmds) = c.handle_event(&WindowEvent::Closed, &font, &lines, &cfg);
    assert!(quit);
    assert!(cmds.is_empty());

    let (quit, _) = c.handle_event(
        &WindowEvent::KeyboardInput { scan_code: QUIT_SCAN_CODE },
        &font,
        &lines,
        &cfg,
    );
    assert!(quit);

    let (quit, _) = c.handle_event(&WindowEvent::KeyboardInput { scan_code: 30 }, &font, &lines, &cfg);
    assert!(!quit);

    let (quit, cmds) = c.handle_event(&WindowEvent::Other, &font, &lines, &cfg);
    assert!(!quit);
    assert!(cmds.is_empty());
}

#[test]
fn tick_updates_renders_scaled_and_swaps() {
    let c = Coordinator::new(PipelineId(0, 0), Epoch(0), FontKey(7), Color::new(0, 0, 0, 255));
    let cmds = c.tick(Size::new(800, 600), 2);
    assert_eq!(
        cmds,
        vec![
            BackendCommand::Update,
            BackendCommand::Render { device_size: Size::new(1600, 1200) },
            BackendCommand::SwapBuffers,
        ]
    );
}

#[test]
fn startup_sets_root_pipeline() {
    let c = Coordinator::new(PipelineId(3, 4), Epoch(0), FontKey(7), Color::new(0, 0, 0, 255));
    let cmds = c.startup_commands();
    assert_eq!(cmds, vec![BackendCommand::SetRootPipeline(PipelineId(3, 4))]);
}
