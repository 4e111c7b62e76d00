//! The frame lifecycle: when scenes are submitted and frames requested.
//!
//! The coordinator owns the pipeline identity, the frame epoch, the font
//! key and the background color — all assigned once and never changed. It
//! decides which backend calls each step of the loop makes, as a list of
//! commands the embedding performs in order: submitting a scene, requesting
//! an explicit frame, and the per-iteration update, render and swap. The
//! first submission of a process lifetime is not followed by an explicit
//! frame request (the backend's own initialization already implies one);
//! every later submission is followed by exactly one.
//!
//! The epoch is reused unchanged across resubmissions, as the design has
//! it: the backend is relied on to detect scene replacement by content.

use vstd::prelude::*;
use crate::builder::{build, build_items_spec, lines_deep, BuildConfig, MAX_LINES};
use crate::geom::{rect, Color, Rect, Size};
use crate::scene::{balanced, root_bounds, scene_view, Epoch, FontKey, PipelineId, Scene};
use crate::shaping::{font_wf, Font, MAX_ORIGIN, MAX_TEXT_LEN};

verus! {

/// Scan code of the key that quits the event loop.
pub const QUIT_SCAN_CODE: u32 = 9;

/// One call into the rendering backend, to be performed by the embedding
/// in list order.
#[derive(Debug, PartialEq, Eq)]
pub enum BackendCommand {
    SetRootPipeline(PipelineId),
    SubmitScene { background: Color, epoch: Epoch, viewport: Size, scene: Scene },
    GenerateFrame,
    Update,
    Render { device_size: Size },
    SwapBuffers,
}

/// A window event as the windowing layer reports it.
#[derive(Clone, Copy, Debug, PartialEq, Eq)]
pub enum WindowEvent {
    Closed,
    KeyboardInput { scan_code: u32 },
    Resized { width: i64, height: i64 },
    Other,
}

/// The frame lifecycle state: write-once identities plus whether a first
/// submission has happened.
#[derive(Debug, PartialEq, Eq)]
pub struct Coordinator {
    pub pipeline_id: PipelineId,
    pub epoch: Epoch,
    pub font_key: FontKey,
    pub background: Color,
    pub submitted_once: bool,
}

/// The constants of a coordinator are untouched: only `submitted_once`
/// may differ between `a` and `b`.
pub open spec fn constants_kept(a: Coordinator, b: Coordinator) -> bool {
    &&& b.pipeline_id == a.pipeline_id
    &&& b.epoch == a.epoch
    &&& b.font_key == a.font_key
    &&& b.background == a.background
}

/// `cmd` submits, for coordinator `c`, a freshly built scene for a
/// `width` by `height` viewport with the given text content.
pub open spec fn is_submit_of(
    cmd: BackendCommand,
    c: Coordinator,
    width: i64,
    height: i64,
    f: Font,
    cfg: BuildConfig,
    lines: Seq<Seq<char>>,
) -> bool {
    match cmd {
        BackendCommand::SubmitScene { background, epoch, viewport, scene } => {
            &&& background == c.background
            &&& epoch == c.epoch
            &&& viewport == (Size { w: width, h: height })
            &&& scene.pipeline_id == c.pipeline_id
            &&& balanced(scene.items@)
            &&& root_bounds(scene) == Some(rect(0, 0, width, height))
            &&& scene_view(scene) == build_items_spec(f, c.font_key, cfg, width, height, lines)
        }
        _ => false,
    }
}

/// The viewport size scaled to device pixels by the display's pixel
/// density.
pub open spec fn scaled_size(viewport: Size, hidpi: u32) -> Size {
    Size { w: (viewport.w * hidpi) as i64, h: (viewport.h * hidpi) as i64 }
}

/// The inputs `build` accepts, as the resize path needs them.
pub open spec fn build_inputs_ok(f: Font, lines: Seq<Vec<char>>, cfg: BuildConfig) -> bool {
    &&& font_wf(f)
    &&& lines.len() <= MAX_LINES
    &&& forall|k: int| 0 <= k < lines.len() ==> (#[trigger] lines[k])@.len() <= MAX_TEXT_LEN
    &&& -MAX_ORIGIN <= cfg.text_start.x <= MAX_ORIGIN
    &&& -MAX_ORIGIN <= cfg.text_start.y <= MAX_ORIGIN
}

impl Coordinator {
    /// A coordinator that has not submitted yet. The pipeline identity,
    /// epoch, font key and background hold for the process lifetime.
    pub fn new(pipeline_id: PipelineId, epoch: Epoch, font_key: FontKey, background: Color) -> (c:
        Coordinator)
        ensures
            c == (Coordinator { pipeline_id, epoch, font_key, background, submitted_once: false }),
    {
        Coordinator { pipeline_id, epoch, font_key, background, submitted_once: false }
    }

    /// The one-time startup command: make this coordinator's pipeline the
    /// backend's root pipeline.
    pub fn startup_commands(&self) -> (cmds: Vec<BackendCommand>)
        ensures
            cmds@ == seq![BackendCommand::SetRootPipeline(self.pipeline_id)],
    {
        let mut cmds: Vec<BackendCommand> = Vec::new();
        cmds.push(BackendCommand::SetRootPipeline(self.pipeline_id));
        proof {
            assert(cmds@ =~= seq![BackendCommand::SetRootPipeline(self.pipeline_id)]);
        }
        cmds
    }

    /// Hands a scene to the backend. The very first submission is not
    /// followed by an explicit frame request; every later one is followed
    /// by exactly one.
    pub fn submit(&mut self, scene: Scene, viewport: Size) -> (cmds: Vec<BackendCommand>)
        ensures
            constants_kept(*old(self), *final(self)),
            final(self).submitted_once,
            ({
                let sub = (BackendCommand::SubmitScene {
                    background: old(self).background,
                    epoch: old(self).epoch,
                    viewport,
                    scene,
                });
                if old(self).submitted_once {
                    cmds@ == seq![sub, BackendCommand::GenerateFrame]
                } else {
                    cmds@ == seq![sub]
                }
            }),
    {
        let first = !self.submitted_once;
        let mut cmds: Vec<BackendCommand> = Vec::new();
        cmds.push(BackendCommand::SubmitScene {
            background: self.background,
            epoch: self.epoch,
            viewport,
            scene,
        });
        if !first {
            cmds.push(BackendCommand::GenerateFrame);
        }
        self.submitted_once = true;
        proof {
            let sub = (BackendCommand::SubmitScene {
                background: old(self).background,
                epoch: old(self).epoch,
                viewport,
                scene,
            });
            if old(self).submitted_once {
                assert(cmds@ =~= seq![sub, BackendCommand::GenerateFrame]);
            } else {
                assert(cmds@ =~= seq![sub]);
            }
        }
        cmds
    }

    /// The viewport changed: rebuild the scene at the new size, submit it,
    /// and request a frame. Identity, epoch, font key and background are
    /// untouched.
    pub fn on_resize(
        &mut self,
        font: &Font,
        lines: &Vec<Vec<char>>,
        cfg: &BuildConfig,
        width: i64,
        height: i64,
    ) -> (cmds: Vec<BackendCommand>)
        requires
            build_inputs_ok(*font, lines@, *cfg),
            0 <= width,
            0 <= height,
        ensures
            constants_kept(*old(self), *final(self)),
            final(self).submitted_once,
            cmds@.len() == 2,
            is_submit_of(cmds@[0], *old(self), width, height, *font, *cfg, lines_deep(lines@)),
            cmds@[1] == BackendCommand::GenerateFrame,
    {
        let scene = build(self.pipeline_id, self.font_key, font, width, height, lines, cfg);
        let mut cmds: Vec<BackendCommand> = Vec::new();
        cmds.push(BackendCommand::SubmitScene {
            background: self.background,
            epoch: self.epoch,
            viewport: Size { w: width, h: height },
            scene,
        });
        cmds.push(BackendCommand::GenerateFrame);
        self.submitted_once = true;
        cmds
    }

    /// One steady-state iteration, run every time the loop wakes whether
    /// or not an event fired: update the backend, render at the viewport
    /// size in device pixels, and present.
    pub fn tick(&self, viewport: Size, hidpi: u32) -> (cmds: Vec<BackendCommand>)
        requires
            0 <= viewport.w,
            0 <= viewport.h,
            viewport.w * hidpi <= i64::MAX,
            viewport.h * hidpi <= i64::MAX,
        ensures
            cmds@ == seq![
                BackendCommand::Update,
                (BackendCommand::Render { device_size: scaled_size(viewport, hidpi) }),
                BackendCommand::SwapBuffers,
            ],
    {
        let device = Size { w: viewport.w * (hidpi as i64), h: viewport.h * (hidpi as i64) };
        let mut cmds: Vec<BackendCommand> = Vec::new();
        cmds.push(BackendCommand::Update);
        cmds.push(BackendCommand::Render { device_size: device });
        cmds.push(BackendCommand::SwapBuffers);
        proof {
            assert(cmds@ =~= seq![
                BackendCommand::Update,
                (BackendCommand::Render { device_size: scaled_size(viewport, hidpi) }),
                BackendCommand::SwapBuffers,
            ]);
        }
        cmds
    }

    /// Decides what one window event means: whether the loop quits, and
    /// which backend calls follow. A resize rebuilds and resubmits; the
    /// close event and the quit key end the loop; everything else is
    /// deliberately ignored.
    pub fn handle_event(
        &mut self,
        event: &WindowEvent,
        font: &Font,
        lines: &Vec<Vec<char>>,
        cfg: &BuildConfig,
    ) -> (r: (bool, Vec<BackendCommand>))
        requires
            build_inputs_ok(*font, lines@, *cfg),
            match *event {
                WindowEvent::Resized { width, height } => 0 <= width && 0 <= height,
                _ => true,
            },
        ensures
            constants_kept(*old(self), *final(self)),
            final(self).submitted_once == old(self).submitted_once || final(self).submitted_once,
            match *event {
                WindowEvent::Closed => {
                    &&& r.0
                    &&& r.1@ =~= Seq::<BackendCommand>::empty()
                    &&& *final(self) == *old(self)
                },
                WindowEvent::KeyboardInput { scan_code } => {
                    &&& r.0 == (scan_code == QUIT_SCAN_CODE)
                    &&& r.1@ =~= Seq::<BackendCommand>::empty()
                    &&& *final(self) == *old(self)
                },
                WindowEvent::Resized { width, height } => {
                    &&& !r.0
                    &&& r.1@.len() == 2
                    &&& is_submit_of(
                        r.1@[0],
                        *old(self),
                        width,
                        height,
                        *font,
                        *cfg,
                        lines_deep(lines@),
                    )
                    &&& r.1@[1] == BackendCommand::GenerateFrame
                    &&& final(self).submitted_once
                },
                WindowEvent::Other => {
                    &&& !r.0
                    &&& r.1@ =~= Seq::<BackendCommand>::empty()
                    &&& *final(self) == *old(self)
                },
            },
    {
        match *event {
            WindowEvent::Closed => (true, Vec::new()),
            WindowEvent::KeyboardInput { scan_code } => (scan_code == QUIT_SCAN_CODE, Vec::new()),
            WindowEvent::Resized { width, height } => {
                let cmds = self.on_resize(font, lines, cfg, width, height);
                (false, cmds)
            }
            WindowEvent::Other => (false, Vec::new()),
        }
    }
}

} // verus!
