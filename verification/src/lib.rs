//! A retained-mode scene pipeline: a display-list builder that lays out
//! styled rectangles, borders and shaped multi-line text inside a stacking
//! context, a frame-lifecycle coordinator that decides when scenes are
//! submitted to a rendering backend and when explicit frames are requested,
//! a coalescing wakeup flag for cross-thread frame-ready notifications, and
//! the line-delimited JSON framing used to drive an external editing engine
//! over a child process's pipes.

pub mod bridge;
pub mod builder;
pub mod geom;
pub mod lifecycle;
pub mod notify;
pub mod scene;
pub mod shaping;
