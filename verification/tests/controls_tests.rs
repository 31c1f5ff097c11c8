use geoscope::controls::{add_index, advance_playhead, handle_key, next_index, settle_vector_vars, FieldRequest, KeyOutcome, ViewportKey};
use geoscope::data::{new_open_file, DataStore, VariableInfo};
use geoscope::ui::{UiState, ViewMode};

fn var(name: &str, d: &[(&str, usize)]) -> VariableInfo {
    VariableInfo {
        name: name.to_string(),
        long_name: None,
        units: None,
        standard_name: None,
        dimensions: d.iter().map(|(n, s)| (n.to_string(), *s)).collect(),
    }
}

/// One file whose selected variable has 4 time steps and 3 levels.
fn store() -> DataStore {
    let mut ds = DataStore::new();
    let vars = vec![
        var("zeta", &[("time", 4), ("lev", 3), ("lat", 8), ("lon", 16)]),
        var("ps", &[("time", 4), ("lat", 8), ("lon", 16)]),
    ];
    ds.add_file(new_open_file("run.nc".to_string(), vars));
    ds.files[0].selected_variable = Some(0);
    ds
}

fn req(time: usize, level: usize) -> Option<FieldRequest> {
    Some(FieldRequest { file: 0, variable: 0, time, level })
}

#[test]
fn right_arrow_wraps_and_reloads() {
    let ds = store();
    let mut ui = UiState::default();
    ui.playing = true;
    ui.time_index = 3;
    let out = handle_key(&mut ui, &ds, ViewportKey::ArrowRight);
    assert_eq!(ui.time_index, 0);
    assert!(!ui.playing);
    assert_eq!(out, KeyOutcome { load: req(0, 0), refresh: false, restart_clock: false });
}

#[test]
fn left_arrow_wraps_to_last_step() {
    let ds = store();
    let mut ui = UiState::default();
    let out = handle_key(&mut ui, &ds, ViewportKey::ArrowLeft);
    assert_eq!(ui.time_index, 3);
    assert_eq!(out.load, req(3, 0));
}

#[test]
fn profile_view_moves_only_the_playhead() {
    let ds = store();
    let mut ui = UiState::default();
    ui.view_mode = ViewMode::Profile;
    let out = handle_key(&mut ui, &ds, ViewportKey::ArrowRight);
    assert_eq!(ui.time_index, 1);
    assert_eq!(out.load, None);
}

#[test]
fn level_keys_clamp_at_the_ends() {
    let ds = store();
    let mut ui = UiState::default();
    let out = handle_key(&mut ui, &ds, ViewportKey::ArrowUp);
    assert_eq!(ui.level_index, 0);
    assert_eq!(out.load, None);
    let out = handle_key(&mut ui, &ds, ViewportKey::ArrowDown);
    assert_eq!(ui.level_index, 1);
    assert_eq!(out.load, req(0, 1));
    handle_key(&mut ui, &ds, ViewportKey::ArrowDown);
    let out = handle_key(&mut ui, &ds, ViewportKey::ArrowDown);
    assert_eq!(ui.level_index, 2);
    assert_eq!(out.load, None);
}

#[test]
fn steps_without_a_time_dimension_do_nothing() {
    let mut ds = store();
    ds.files[0].selected_variable = Some(1);
    let mut ui = UiState::default();
    let out = handle_key(&mut ui, &ds, ViewportKey::ArrowDown);
    assert_eq!(ui.level_index, 0);
    assert_eq!(out.load, None);
    let empty = DataStore::new();
    let out = handle_key(&mut ui, &empty, ViewportKey::ArrowRight);
    assert_eq!(ui.time_index, 0);
    assert_eq!(out.load, None);
}

#[test]
fn number_keys_pick_views() {
    let ds = store();
    let mut ui = UiState::default();
    let keys = [
        (ViewportKey::Num2, ViewMode::MapView),
        (ViewportKey::Num3, ViewMode::Hovmoller),
        (ViewportKey::Num4, ViewMode::Spectrum),
        (ViewportKey::Num5, ViewMode::Profile),
        (ViewportKey::Num6, ViewMode::CrossSection),
        (ViewportKey::Num1, ViewMode::Globe),
    ];
    for (k, m) in keys {
        handle_key(&mut ui, &ds, k);
        assert_eq!(ui.view_mode, m);
    }
}

#[test]
fn toggles_flip_and_flip_back() {
    let ds = store();
    let mut ui = UiState::default();
    let out = handle_key(&mut ui, &ds, ViewportKey::Space);
    assert!(ui.playing);
    assert!(out.restart_clock);
    let out = handle_key(&mut ui, &ds, ViewportKey::G);
    assert!(!ui.interpolated);
    assert!(out.refresh);
    handle_key(&mut ui, &ds, ViewportKey::C);
    handle_key(&mut ui, &ds, ViewportKey::V);
    handle_key(&mut ui, &ds, ViewportKey::T);
    assert!(ui.contour_enabled && ui.streamline_enabled && ui.trajectory_enabled);
    for k in [ViewportKey::Space, ViewportKey::G, ViewportKey::C, ViewportKey::V, ViewportKey::T] {
        handle_key(&mut ui, &ds, k);
    }
    assert!(!ui.playing && ui.interpolated && !ui.contour_enabled && !ui.streamline_enabled && !ui.trajectory_enabled);
}

#[test]
fn right_then_left_returns() {
    let ds = store();
    for t in 0..4 {
        let mut ui = UiState::default();
        ui.time_index = t;
        handle_key(&mut ui, &ds, ViewportKey::ArrowRight);
        handle_key(&mut ui, &ds, ViewportKey::ArrowLeft);
        assert_eq!(ui.time_index, t);
    }
}

#[test]
fn playback_wraps_and_composes() {
    let ds = store();
    let mut ui = UiState::default();
    ui.playing = true;
    ui.time_index = 2;
    let load = advance_playhead(&mut ui, &ds, 3);
    assert_eq!(ui.time_index, 1);
    assert_eq!(load, req(1, 0));
    advance_playhead(&mut ui, &ds, 2);
    assert_eq!(ui.time_index, 3);
    let load = advance_playhead(&mut ui, &ds, 4);
    assert_eq!(ui.time_index, 3);
    assert_eq!(load, None);
    ui.playing = false;
    advance_playhead(&mut ui, &ds, 1);
    assert_eq!(ui.time_index, 3);
}

#[test]
fn wrapping_arithmetic_has_no_overflow() {
    assert_eq!(next_index(usize::MAX, 7), (usize::MAX % 7 + 1) % 7);
    assert_eq!(next_index(5, 6), 0);
    assert_eq!(next_index(4, 1), 0);
    assert_eq!(add_index(usize::MAX, usize::MAX, usize::MAX - 1), 2);
    assert_eq!(add_index(3, 5, 4), 0);
}

#[test]
fn inspector_fills_the_wind_pair() {
    let vars = vec![
        var("zeta", &[("lat", 8), ("lon", 16)]),
        var("u", &[("lat", 8), ("lon", 16)]),
        var("v", &[("lat", 8), ("lon", 16)]),
    ];
    let mut ui = UiState::default();
    settle_vector_vars(&mut ui, &vars);
    assert_eq!((ui.vector_u_var, ui.vector_v_var), (None, None));
    ui.vector_overlay_enabled = true;
    settle_vector_vars(&mut ui, &vars);
    assert_eq!((ui.vector_u_var, ui.vector_v_var), (Some(1), Some(2)));

    let mut ui = UiState::default();
    ui.vector_overlay_enabled = true;
    ui.view_mode = ViewMode::Hovmoller;
    settle_vector_vars(&mut ui, &vars);
    assert_eq!(ui.vector_u_var, None);

    let mut ui = UiState::default();
    ui.view_mode = ViewMode::MapView;
    ui.streamline_enabled = true;
    settle_vector_vars(&mut ui, &vars);
    assert_eq!((ui.vector_u_var, ui.vector_v_var), (Some(1), Some(2)));
}

#[test]
fn pickers_fall_back_to_the_first_variable() {
    let vars = vec![var("zeta", &[("lat", 8), ("lon", 16)])];
    let mut ui = UiState::default();
    ui.vector_overlay_enabled = true;
    settle_vector_vars(&mut ui, &vars);
    assert_eq!((ui.vector_u_var, ui.vector_v_var), (Some(0), Some(0)));
    ui.vector_v_var = None;
    ui.vector_u_var = Some(0);
    settle_vector_vars(&mut ui, &vars);
    assert_eq!(ui.vector_v_var, Some(0));
}
