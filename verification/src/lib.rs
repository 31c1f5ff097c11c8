//! GeoScope: the settings, inference rules, command handling and code
//! generation of a geophysical-fluid-dynamics data viewer.
use vstd::prelude::*;

pub mod colormap;
pub mod controls;
pub mod copilot;
pub mod data;
pub mod export;
pub mod i18n;
pub mod inference;
pub mod mcp;
pub mod numeric;
pub mod palette;
pub mod parser;
pub mod plot;
pub mod python;
pub mod roundtrip;
pub mod script;
pub mod session;
pub mod settings;
pub mod spectral;
pub mod text;
pub mod trajectory;
pub mod ui;

verus! {
}
