//! The tool's settings, as loaded once at start.
use vstd::prelude::*;

use crate::teamcity::TeamcitySettings;
use crate::youtrack::YoutrackConfig;

verus! {

/// The settings of the services the tool talks to.
pub struct Settings {
    pub teamcity: TeamcitySettings,
    pub youtrack: YoutrackConfig,
}

} // verus!
