use geoscope::data::{DataStore, VariableInfo};
use geoscope::export::ExportFormat;
use geoscope::palette::{apply_action, fuzzy_match, match_commands, match_lowered, PaletteAction};
use geoscope::ui::{Colormap, MapProjection, UiState, ViewMode};

fn var(name: &str) -> VariableInfo {
    VariableInfo {
        name: name.to_string(),
        long_name: None,
        units: None,
        standard_name: None,
        dimensions: vec![("lat".to_string(), 4), ("lon".to_string(), 8)],
    }
}

fn store() -> DataStore {
    let mut ds = DataStore::new();
    ds.add_file(geoscope::data::new_open_file("a.nc".to_string(), vec![var("zeta"), var("Vorticity"), var("phi")]));
    ds
}

#[test]
fn fuzzy_matching() {
    assert!(fuzzy_match("glb", "globe"));
    assert!(fuzzy_match("e png", "export png"));
    assert!(!fuzzy_match("gbl", "globe"));
    assert!(fuzzy_match("", "anything"));
    assert!(fuzzy_match("polar north", "polar north"));
    assert!(!fuzzy_match("x", ""));
}

#[test]
fn commands_for_globe() {
    let ui = UiState::default();
    let ds = DataStore::new();
    let r = match_commands("Globe", &ui, &ds);
    assert_eq!(r.len(), 1);
    assert_eq!(r[0].icon, "🌐");
    assert_eq!(r[0].label, "Switch to Globe view");
    assert!(matches!(&r[0].action, PaletteAction::SetViewMode(m) if m == "Globe"));
}

#[test]
fn commands_are_capped_at_eight() {
    let ui = UiState::default();
    let ds = store();
    let r = match_commands("", &ui, &ds);
    assert_eq!(r.len(), 8);
    assert_eq!(r[0].label, "Switch to Globe view");
    assert_eq!(r[7].label, "Set colormap: RdBu_r");
}

#[test]
fn variables_are_offered() {
    let ui = UiState::default();
    let ds = store();
    let r = match_commands("VORT", &ui, &ds);
    let labels: Vec<&str> = r.iter().map(|c| c.label.as_str()).collect();
    assert!(labels.contains(&"Select variable: Vorticity"));
    let last = r.last().unwrap();
    assert_eq!(last.icon, "🔍");
    assert!(matches!(&last.action, PaletteAction::SetVariable(n) if n == "Vorticity"));
}

#[test]
fn actions_change_settings() {
    let mut ui = UiState::default();
    let mut ds = store();
    let r = apply_action(&PaletteAction::SetColormap("RdBu_r".to_string()), &mut ui, &mut ds);
    assert_eq!(r.message.as_deref(), Some("Colormap: RdBu_r"));
    assert_eq!(ui.colormap, Colormap::RdBuR);
    let r = apply_action(&PaletteAction::SetColormap("RdBu_r".to_string()), &mut ui, &mut ds);
    assert_eq!(r.message, None);
    let r = apply_action(&PaletteAction::SetViewMode("Map".to_string()), &mut ui, &mut ds);
    assert_eq!(r.message.as_deref(), Some("View: Map"));
    assert_eq!(ui.view_mode, ViewMode::MapView);
    let r = apply_action(&PaletteAction::SetProjection("PolarNorth".to_string()), &mut ui, &mut ds);
    assert_eq!(r.message.as_deref(), Some("Projection: PolarNorth"));
    assert_eq!(ui.map_projection, MapProjection::PolarNorth);
    let r = apply_action(&PaletteAction::SetProjection("Lambert".to_string()), &mut ui, &mut ds);
    assert_eq!(r.message, None);
    let r = apply_action(&PaletteAction::SetTimeIndex(12), &mut ui, &mut ds);
    assert_eq!(r.message.as_deref(), Some("Time: 12"));
    let r = apply_action(&PaletteAction::SetLevelIndex(0), &mut ui, &mut ds);
    assert_eq!(r.message, None);
}

#[test]
fn toggles_and_exports() {
    let mut ui = UiState::default();
    let mut ds = store();
    let r = apply_action(&PaletteAction::ToggleContours, &mut ui, &mut ds);
    assert_eq!(r.message.as_deref(), Some("Contours: ON"));
    let r = apply_action(&PaletteAction::ToggleContours, &mut ui, &mut ds);
    assert_eq!(r.message.as_deref(), Some("Contours: OFF"));
    assert!(!ui.contour_enabled);
    let r = apply_action(&PaletteAction::ToggleWavenumberFilter, &mut ui, &mut ds);
    assert_eq!(r.message.as_deref(), Some("Wavenumber filter: ON"));
    let r = apply_action(&PaletteAction::ExportGif, &mut ui, &mut ds);
    assert_eq!(r.message.as_deref(), Some("Opening GIF export dialog"));
    assert!(ui.export_dialog_open);
    assert_eq!(ui.export_settings.format, ExportFormat::Gif);
}

#[test]
fn variable_action_selects_and_requests_a_load() {
    let mut ui = UiState::default();
    let mut ds = store();
    let r = apply_action(&PaletteAction::SetVariable("phi".to_string()), &mut ui, &mut ds);
    assert_eq!(r.message.as_deref(), Some("Variable: phi"));
    assert_eq!(r.load, Some((0, 2)));
    assert_eq!(ds.files[0].selected_variable, Some(2));
    let r = apply_action(&PaletteAction::SetVariable("phi".to_string()), &mut ui, &mut ds);
    assert_eq!(r.message, None);
    assert_eq!(r.load, None);
}

#[test]
fn matching_lowered_input() {
    let ds = store();
    let ui = UiState::default();
    let a: Vec<String> = match_commands("VORT", &ui, &ds).into_iter().map(|c| c.label).collect();
    let b: Vec<String> = match_lowered("vort", &ds).into_iter().map(|c| c.label).collect();
    assert_eq!(a, b);
    assert!(b.contains(&"Select variable: Vorticity".to_string()));
    assert!(match_lowered("", &ds).len() <= 8);
}
