//! A retained-mode GUI input core: it translates host window events into a
//! targeted event queue against a widget tree, resolves pointer hit-testing
//! with z-order and clipping, tracks focus/capture/hover state, dispatches
//! queued events to widget handlers, and sequences per-frame work. A small
//! fixed-point ADSR envelope and a control-message protocol accompany it for
//! driving a synthesizer from GUI controls.

pub mod application;
pub mod control;
pub mod dispatch;
pub mod entity;
pub mod envelope;
pub mod events;
pub mod hit;
pub mod input;
pub mod state;
pub mod store;
pub mod synth;
pub mod translate;
pub mod widgets;

pub use application::{Application, PlatformEvent};
pub use entity::Entity;
pub use state::UiState;

use vstd::prelude::*;
use vstd::string::StringExecFns;

verus! {

/// What a window is opened with: its title, inner size, minimum inner size,
/// and an optional icon. Sizes are in logical pixels.
pub struct WindowDescription {
    pub title: String,
    pub inner_width: u32,
    pub inner_height: u32,
    pub min_inner_width: u32,
    pub min_inner_height: u32,
    pub icon: Option<Vec<u8>>,
    pub icon_width: u32,
    pub icon_height: u32,
}

impl WindowDescription {
    /// The default window: titled "Default", 800 by 600, at least 100 by 100,
    /// no icon.
    pub fn new() -> (w: WindowDescription)
        ensures
            w.title@ == "Default"@,
            w.inner_width == 800u32,
            w.inner_height == 600u32,
            w.min_inner_width == 100u32,
            w.min_inner_height == 100u32,
            w.icon is None,
            w.icon_width == 0u32,
            w.icon_height == 0u32,
    {
        WindowDescription {
            title: String::from_str("Default"),
            inner_width: 800,
            inner_height: 600,
            min_inner_width: 100,
            min_inner_height: 100,
            icon: None,
            icon_width: 0,
            icon_height: 0,
        }
    }

    pub fn with_title(self, title: &str) -> (w: WindowDescription)
        ensures
            w.title@ == title@,
            w.inner_width == self.inner_width,
            w.inner_height == self.inner_height,
            w.min_inner_width == self.min_inner_width,
            w.min_inner_height == self.min_inner_height,
            w.icon == self.icon,
            w.icon_width == self.icon_width,
            w.icon_height == self.icon_height,
    {
        WindowDescription { title: String::from_str(title), ..self }
    }

    pub fn with_inner_size(self, width: u32, height: u32) -> (w: WindowDescription)
        ensures
            w.inner_width == width,
            w.inner_height == height,
            w.title@ == self.title@,
            w.min_inner_width == self.min_inner_width,
            w.min_inner_height == self.min_inner_height,
            w.icon == self.icon,
            w.icon_width == self.icon_width,
            w.icon_height == self.icon_height,
    {
        WindowDescription { inner_width: width, inner_height: height, ..self }
    }

    pub fn with_min_inner_size(self, width: u32, height: u32) -> (w: WindowDescription)
        ensures
            w.min_inner_width == width,
            w.min_inner_height == height,
            w.title@ == self.title@,
            w.inner_width == self.inner_width,
            w.inner_height == self.inner_height,
            w.icon == self.icon,
            w.icon_width == self.icon_width,
            w.icon_height == self.icon_height,
    {
        WindowDescription { min_inner_width: width, min_inner_height: height, ..self }
    }

    pub fn with_icon(self, icon: Vec<u8>, width: u32, height: u32) -> (w: WindowDescription)
        ensures
            w.icon matches Some(i) && i@ == icon@,
            w.icon_width == width,
            w.icon_height == height,
            w.title@ == self.title@,
            w.inner_width == self.inner_width,
            w.inner_height == self.inner_height,
            w.min_inner_width == self.min_inner_width,
            w.min_inner_height == self.min_inner_height,
    {
        WindowDescription { icon: Some(icon), icon_width: width, icon_height: height, ..self }
    }
}

} // verus!
