//! The command surface: which action a caller asked for, as plain values.

use vstd::prelude::*;

verus! {

/// The parsed invocation: exactly one action.
#[derive(Debug, Clone, PartialEq, Eq)]
pub struct Options {
    /// The action to run.
    pub action: Action,
}

/// What the caller asked for.
#[derive(Debug, Clone, PartialEq, Eq)]
pub enum Action {
    /// List the attached displays with their current settings.
    List,
    /// Apply a sparse configuration change to one display, selected by name
    /// when one is given, else by enumeration index.
    SetMode {
        /// Name of the display.
        name: Option<String>,
        /// Enumeration index of the display.
        index: Option<u32>,
        /// Refresh rate in hertz.
        refresh_rate: Option<u32>,
        /// Resolution width in pixels.
        width: Option<u32>,
        /// Resolution height in pixels.
        height: Option<u32>,
        /// `x` position of the display; valid only together with `y`.
        x: Option<i32>,
        /// `y` position of the display; valid only together with `x`.
        y: Option<i32>,
    },
}

} // verus!
