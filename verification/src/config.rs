//! Persisted per-display settings, keyed by power state.
//!
//! A [`Config`] maps, for each power state, a display name to the settings
//! desired for it. The surrounding program reads and writes the persisted
//! form; the library only turns a stored entry into the sparse configuration
//! request that the core consumes.

use std::collections::HashMap;
use vstd::prelude::*;

use crate::display::DisplayConfig;

verus! {

/// Desired settings for one display: every field is stored, none is optional.
#[derive(Debug, Clone, PartialEq, Eq)]
pub struct DisplayOptions {
    /// Desired refresh rate in hertz.
    pub refresh_rate: u32,
    /// Desired horizontal resolution in pixels.
    pub width: u32,
    /// Desired vertical resolution in pixels.
    pub height: u32,
    /// Desired horizontal position.
    pub x: i32,
    /// Desired vertical position.
    pub y: i32,
}

impl DisplayOptions {
    /// The configuration request that applies these stored settings: every
    /// stored field is requested.
    pub fn to_request(&self) -> (c: DisplayConfig)
        ensures
            c.refresh_rate == Some(self.refresh_rate),
            c.size == Some((self.width, self.height)),
            c.position == Some((self.x, self.y)),
    {
        DisplayConfig {
            refresh_rate: Some(self.refresh_rate),
            size: Some((self.width, self.height)),
            position: Some((self.x, self.y)),
        }
    }
}

/// Desired settings per display name, for each power state.
#[derive(Debug, Clone)]
pub struct Config {
    /// Settings to apply while on mains power, by display name.
    pub plugged: HashMap<String, DisplayOptions>,
    /// Settings to apply while on battery, by display name.
    pub battery: HashMap<String, DisplayOptions>,
}

} // verus!
