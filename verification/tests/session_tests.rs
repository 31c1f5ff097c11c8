use geoscope::data::{new_open_file, DataStore, OpenFile, VariableInfo};
use geoscope::session::{
    finish_restore, name_to_profile_mode, name_to_range_mode, profile_mode_name, restore_opened, restore_session, restore_view,
    session_of,
};
use geoscope::ui::{Colormap, ProfileMode, RangeMode, UiState, ViewMode};

fn var(name: &str) -> VariableInfo {
    VariableInfo {
        name: name.to_string(),
        long_name: None,
        units: None,
        standard_name: None,
        dimensions: vec![("lat".to_string(), 2), ("lon".to_string(), 4)],
    }
}

fn file(path: &str, nvars: usize) -> OpenFile {
    new_open_file(path.to_string(), (0..nvars).map(|k| var(&format!("v{k}"))).collect())
}

#[test]
fn a_saved_session_restores_files_and_view() {
    let mut ds = DataStore::new();
    ds.add_file(file("a.nc", 3));
    ds.add_file(file("b.nc", 2));
    ds.files[0].selected_variable = Some(2);
    ds.files[1].selected_variable = Some(1);
    ds.active_file = Some(0);
    let mut ui = UiState::default();
    ui.view_mode = ViewMode::MapView;
    ui.colormap = Colormap::Turbo;
    ui.time_index = 7;
    ui.range_mode = RangeMode::Manual;
    ui.contour_levels = 15;
    let s = session_of(&ds, &ui);
    assert_eq!(s.file_paths, vec!["a.nc".to_string(), "b.nc".to_string()]);
    assert_eq!(s.selected_variables, vec![Some(2), Some(1)]);
    assert_eq!(s.active_file, Some(0));

    let mut back = DataStore::new();
    assert!(restore_opened(&mut back, &s, 0, file("a.nc", 3)));
    assert!(restore_opened(&mut back, &s, 1, file("b.nc", 2)));
    finish_restore(&mut back, &s);
    assert_eq!(back.files.len(), 2);
    assert_eq!(back.files[0].selected_variable, Some(2));
    assert_eq!(back.files[1].selected_variable, Some(1));
    assert_eq!(back.active_file, Some(0));

    let mut view = UiState::default();
    restore_view(&mut view, &s);
    assert_eq!(view.view_mode, ViewMode::MapView);
    assert_eq!(view.colormap, Colormap::Turbo);
    assert_eq!(view.time_index, 7);
    assert_eq!(view.range_mode, RangeMode::Manual);
    assert_eq!(view.contour_levels, 15);
    assert_eq!(view.status_text, "Ready");
}

#[test]
fn a_selection_the_file_no_longer_has_is_dropped() {
    let mut ds = DataStore::new();
    ds.add_file(file("a.nc", 5));
    ds.files[0].selected_variable = Some(4);
    let s = session_of(&ds, &UiState::default());
    let mut back = DataStore::new();
    assert!(restore_opened(&mut back, &s, 0, file("a.nc", 2)));
    assert_eq!(back.files[0].selected_variable, None);
    assert_eq!(back.active_file, Some(0));
}

#[test]
fn a_missing_active_file_leaves_the_last_opened_active() {
    let mut ds = DataStore::new();
    ds.add_file(file("a.nc", 1));
    ds.add_file(file("b.nc", 1));
    ds.add_file(file("c.nc", 1));
    ds.active_file = Some(2);
    let s = session_of(&ds, &UiState::default());
    let mut back = DataStore::new();
    restore_opened(&mut back, &s, 0, file("a.nc", 1));
    restore_opened(&mut back, &s, 1, file("b.nc", 1));
    finish_restore(&mut back, &s);
    assert_eq!(back.active_file, Some(1));
}

#[test]
fn reopening_a_recorded_path_twice_adds_it_once() {
    let mut ds = DataStore::new();
    ds.add_file(file("a.nc", 2));
    ds.files[0].selected_variable = Some(1);
    let s = session_of(&ds, &UiState::default());
    let mut back = DataStore::new();
    assert!(restore_opened(&mut back, &s, 0, file("a.nc", 2)));
    assert!(!restore_opened(&mut back, &s, 0, file("a.nc", 2)));
    assert_eq!(back.files.len(), 1);
    assert_eq!(back.files[0].selected_variable, Some(1));
}

#[test]
fn restoring_a_whole_session_gives_it_back() {
    let mut ds = DataStore::new();
    ds.add_file(file("a.nc", 3));
    ds.add_file(file("b.nc", 2));
    ds.add_file(file("c.nc", 4));
    ds.files[0].selected_variable = Some(1);
    ds.files[2].selected_variable = Some(3);
    ds.active_file = Some(1);
    let mut ui = UiState::default();
    ui.colormap = Colormap::BrBG;
    ui.level_index = 4;
    let s = session_of(&ds, &ui);
    let mut back = DataStore::new();
    let mut view = UiState::default();
    let opened = vec![(0, file("a.nc", 3)), (1, file("b.nc", 2)), (2, file("c.nc", 4))];
    let added = restore_session(&mut back, &mut view, &s, opened);
    assert_eq!(added, vec![true, true, true]);
    let paths: Vec<&str> = back.files.iter().map(|f| f.path.as_str()).collect();
    assert_eq!(paths, vec!["a.nc", "b.nc", "c.nc"]);
    let sel: Vec<Option<usize>> = back.files.iter().map(|f| f.selected_variable).collect();
    assert_eq!(sel, vec![Some(1), None, Some(3)]);
    assert_eq!(back.active_file, Some(1));
    assert_eq!(view.colormap, Colormap::BrBG);
    assert_eq!(view.level_index, 4);
}

#[test]
fn a_session_skipping_a_missing_file_keeps_the_others() {
    let mut ds = DataStore::new();
    ds.add_file(file("a.nc", 1));
    ds.add_file(file("b.nc", 2));
    ds.files[1].selected_variable = Some(1);
    ds.active_file = Some(1);
    let s = session_of(&ds, &UiState::default());
    let mut back = DataStore::new();
    let mut view = UiState::default();
    let added = restore_session(&mut back, &mut view, &s, vec![(1, file("b.nc", 2))]);
    assert_eq!(added, vec![true]);
    assert_eq!(back.files.len(), 1);
    assert_eq!(back.files[0].selected_variable, Some(1));
    assert_eq!(back.active_file, Some(0));
}

#[test]
fn stored_mode_names_read_back() {
    for m in [RangeMode::Slice, RangeMode::Global, RangeMode::Manual] {
        assert_eq!(name_to_range_mode(m.debug_name()), Some(m));
    }
    for p in [ProfileMode::Vertical, ProfileMode::TimeSeries] {
        assert_eq!(name_to_profile_mode(profile_mode_name(p)), Some(p));
    }
    assert_eq!(name_to_range_mode("manual"), None);
    assert_eq!(name_to_profile_mode("Horizontal"), None);
}
