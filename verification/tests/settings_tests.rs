use geoscope::data::{DataStore, OpenFile, VariableInfo};
use geoscope::mcp::{build_script_settings, McpCommand};
use geoscope::numeric::F32Bits;
use geoscope::script::{apply_script_settings, record_call, ScriptCall, ScriptSettings};
use geoscope::settings::{name_to_colormap, name_to_projection, name_to_view_mode, Change};
use geoscope::ui::{Colormap, MapProjection, RangeMode, UiState, ViewMode};

fn var(name: &str) -> VariableInfo {
    VariableInfo {
        name: name.to_string(),
        long_name: None,
        units: None,
        standard_name: None,
        dimensions: vec![("lat".to_string(), 4), ("lon".to_string(), 8)],
    }
}

fn store_with(vars: Vec<VariableInfo>) -> DataStore {
    let mut ds = DataStore::new();
    ds.add_file(geoscope::data::new_open_file("run/out.nc".to_string(), vars));
    ds
}

#[test]
fn test_name_to_colormap() {
    assert_eq!(name_to_colormap("viridis"), Some(Colormap::Viridis));
    assert_eq!(name_to_colormap("RdBu_r"), Some(Colormap::RdBuR));
    assert_eq!(name_to_colormap("unknown"), None);
}

#[test]
fn test_name_to_view_mode() {
    assert_eq!(name_to_view_mode("Globe"), Some(ViewMode::Globe));
    assert_eq!(name_to_view_mode("map"), Some(ViewMode::MapView));
    assert_eq!(name_to_view_mode("bad"), None);
}

#[test]
fn test_build_script_settings() {
    let cmd = McpCommand::SetColormap { name: "RdBu_r".to_string() };
    let s = build_script_settings(&cmd).unwrap();
    assert_eq!(s.colormap.as_deref(), Some("RdBu_r"));

    let cmd = McpCommand::ToggleOverlay { name: "contour".to_string(), enabled: true };
    let s = build_script_settings(&cmd).unwrap();
    assert_eq!(s.contour_enabled, Some(true));

    // GetStatus doesn't produce ScriptSettings
    let cmd = McpCommand::GetStatus;
    assert!(build_script_settings(&cmd).is_none());
}

#[test]
fn bridge_settings_for_each_command() {
    let s = build_script_settings(&McpCommand::SetTime { index: 7 }).unwrap();
    assert_eq!(s.time_index, Some(7));
    let s = build_script_settings(&McpCommand::SetLevel { index: 3 }).unwrap();
    assert_eq!(s.level_index, Some(3));
    let lo = F32Bits((-5e-5f32).to_bits());
    let hi = F32Bits((5e-5f32).to_bits());
    let s = build_script_settings(&McpCommand::SetRange { min: lo, max: hi }).unwrap();
    assert_eq!(s.vmin, Some(lo));
    assert_eq!(s.vmax, Some(hi));
    let s = build_script_settings(&McpCommand::ToggleOverlay { name: "streamlines".to_string(), enabled: false }).unwrap();
    assert_eq!(s.streamline_enabled, Some(false));
    assert!(build_script_settings(&McpCommand::ToggleOverlay { name: "grid".to_string(), enabled: true }).is_none());
    assert!(build_script_settings(&McpCommand::Play).is_none());
    assert!(build_script_settings(&McpCommand::OpenFile { path: "a.nc".to_string() }).is_none());
}

#[test]
fn projection_names() {
    assert_eq!(name_to_projection("PlateCarree"), Some(MapProjection::Equirectangular));
    assert_eq!(name_to_projection("mollweide"), Some(MapProjection::Mollweide));
    assert_eq!(name_to_projection("NorthPolarStereo"), Some(MapProjection::PolarNorth));
    assert_eq!(name_to_projection("polarsouth"), None);
}

#[test]
fn script_calls_are_recorded() {
    let mut s = ScriptSettings::default();
    record_call(&mut s, ScriptCall::SetVariable("vorticity".to_string()));
    record_call(&mut s, ScriptCall::SetTime(5));
    record_call(&mut s, ScriptCall::SetTime(6));
    record_call(&mut s, ScriptCall::EnableContours);
    record_call(&mut s, ScriptCall::DisableVectors);
    record_call(&mut s, ScriptCall::SetWavenumberCutoff(21));
    assert_eq!(s.variable_name.as_deref(), Some("vorticity"));
    assert_eq!(s.time_index, Some(6));
    assert_eq!(s.contour_enabled, Some(true));
    assert_eq!(s.vector_enabled, Some(false));
    assert_eq!(s.wavenumber_cutoff, Some(21));
    assert_eq!(s.level_index, None);
}

#[test]
fn script_settings_apply_in_order() {
    let mut ui = UiState::default();
    let mut ds = store_with(vec![var("zeta"), var("vorticity")]);
    let mut s = ScriptSettings::default();
    s.variable_name = Some("vorticity".to_string());
    s.time_index = Some(-3);
    s.colormap = Some("RdBu_r".to_string());
    s.view_mode = Some("map".to_string());
    s.vmin = Some(F32Bits(1));
    s.wavenumber_cutoff = Some(21);
    let r = apply_script_settings(&s, &mut ui, &mut ds);
    assert_eq!(r.load, Some((0, 1)));
    assert_eq!(ds.files[0].selected_variable, Some(1));
    assert_eq!(ui.colormap, Colormap::RdBuR);
    assert_eq!(ui.view_mode, ViewMode::MapView);
    assert_eq!(ui.range_mode, RangeMode::Manual);
    assert_eq!(ui.manual_min, F32Bits(1));
    assert_eq!(ui.wavenumber_cutoff, 21);
    assert!(ui.wavenumber_filter_enabled);
    let texts: Vec<String> = r.changes.iter().map(|c| c.describe("0", "1")).collect();
    assert_eq!(
        texts,
        vec![
            "variable=vorticity",
            "colormap=RdBu_r",
            "range=Manual(0..1)",
            "view=map",
            "wavenumber_cutoff=21"
        ]
    );
    // time index -3 reads as 0, which is already the time index
    assert_eq!(ui.time_index, 0);
}

#[test]
fn applying_twice_changes_only_the_range() {
    let mut ui = UiState::default();
    let mut ds = store_with(vec![var("zeta")]);
    let mut s = ScriptSettings::default();
    s.variable_name = Some("zeta".to_string());
    s.level_index = Some(2);
    s.colormap = Some("plasma".to_string());
    s.vmax = Some(F32Bits(7));
    s.contour_enabled = Some(true);
    let first = apply_script_settings(&s, &mut ui, &mut ds);
    assert_eq!(first.changes.len(), 5);
    let after_once = ui.clone();
    let second = apply_script_settings(&s, &mut ui, &mut ds);
    assert_eq!(second.load, None);
    assert_eq!(second.changes.len(), 1);
    assert!(matches!(second.changes[0], Change::Range));
    assert_eq!(ui.level_index, after_once.level_index);
    assert_eq!(ui.colormap, after_once.colormap);
    assert_eq!(ui.contour_enabled, after_once.contour_enabled);
    assert_eq!(ui.manual_max, after_once.manual_max);
}

#[test]
fn unknown_variable_selects_nothing() {
    let mut ui = UiState::default();
    let mut ds = store_with(vec![var("zeta")]);
    let mut s = ScriptSettings::default();
    s.variable_name = Some("missing".to_string());
    let r = apply_script_settings(&s, &mut ui, &mut ds);
    assert!(r.changes.is_empty());
    assert_eq!(r.load, None);
    assert_eq!(ds.files[0].selected_variable, None);
    let _unused: Option<OpenFile> = None;
}
