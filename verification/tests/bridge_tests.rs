use geoscope::data::{DataStore, VariableInfo};
use geoscope::mcp::{build_script_settings, build_status, build_variable_list, McpCommand};
use geoscope::script::apply_script_settings;
use geoscope::ui::{Colormap, UiState};

fn store() -> DataStore {
    let mut ds = DataStore::new();
    let vars = vec![
        VariableInfo {
            name: "zeta".to_string(),
            long_name: Some("relative vorticity".to_string()),
            units: Some("1/s".to_string()),
            standard_name: None,
            dimensions: vec![("time".to_string(), 10), ("lat".to_string(), 32), ("lon".to_string(), 64)],
        },
        VariableInfo {
            name: "lon".to_string(),
            long_name: None,
            units: None,
            standard_name: None,
            dimensions: vec![("lon".to_string(), 64)],
        },
    ];
    ds.add_file(geoscope::data::new_open_file("/home/me/runs/sw.nc".to_string(), vars));
    ds
}

#[test]
fn status_without_file() {
    let ui = UiState::default();
    let s = build_status(&ui, &DataStore::new());
    assert_eq!(s.file, None);
    assert_eq!(s.variable, None);
    assert_eq!(s.view_mode, "Globe");
    assert_eq!(s.colormap, "Viridis");
    assert_eq!(s.projection, "Equirectangular");
    assert_eq!(s.range_mode, "Slice");
}

#[test]
fn status_with_file() {
    let mut ui = UiState::default();
    ui.colormap = Colormap::RdBuR;
    ui.time_index = 3;
    let mut ds = store();
    ds.files[0].selected_variable = Some(0);
    let s = build_status(&ui, &ds);
    assert_eq!(s.file.as_deref(), Some("sw.nc"));
    assert_eq!(s.variable.as_deref(), Some("zeta"));
    assert_eq!(s.dimensions.as_deref(), Some("time(10) × lat(32) × lon(64)"));
    assert_eq!(s.time_steps, Some(10));
    assert_eq!(s.level_count, None);
    assert_eq!(s.time_index, 3);
    assert_eq!(s.colormap, "RdBu_r");
}

#[test]
fn variable_list() {
    let mut ds = store();
    ds.files[0].selected_variable = Some(1);
    let l = build_variable_list(&ds);
    assert_eq!(l.file.as_deref(), Some("/home/me/runs/sw.nc"));
    assert_eq!(l.variables.len(), 2);
    assert_eq!(l.variables[0].name, "zeta");
    assert_eq!(l.variables[0].units.as_deref(), Some("1/s"));
    assert_eq!(l.variables[0].dimensions, vec!["time(10)", "lat(32)", "lon(64)"]);
    assert!(!l.variables[0].selected);
    assert!(l.variables[1].selected);
    assert_eq!(l.variables[1].index, 1);
    let empty = build_variable_list(&DataStore::new());
    assert_eq!(empty.file, None);
    assert!(empty.variables.is_empty());
}

#[test]
fn status_reports_what_a_command_wrote() {
    let mut ds = store();
    let mut ui = UiState::default();
    let cmds = vec![
        McpCommand::SetColormap { name: "plasma".to_string() },
        McpCommand::SetView { mode: "cross_section".to_string() },
        McpCommand::SetProjection { name: "SouthPolarStereo".to_string() },
        McpCommand::SetTime { index: 7 },
        McpCommand::SetLevel { index: 2 },
        McpCommand::ToggleOverlay { name: "streamlines".to_string(), enabled: true },
    ];
    for c in &cmds {
        let st = build_script_settings(c).unwrap();
        apply_script_settings(&st, &mut ui, &mut ds);
    }
    let s = build_status(&ui, &ds);
    assert_eq!(s.colormap, "Plasma");
    assert_eq!(s.view_mode, "CrossSection");
    assert_eq!(s.projection, "PolarSouth");
    assert_eq!((s.time_index, s.level_index), (7, 2));
    assert!(s.streamline);
    let st = build_script_settings(&McpCommand::SetColormap { name: "jet".to_string() }).unwrap();
    apply_script_settings(&st, &mut ui, &mut ds);
    assert_eq!(build_status(&ui, &ds).colormap, "Plasma");
}
