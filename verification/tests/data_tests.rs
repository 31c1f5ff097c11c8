use geoscope::data::{infer_colormap, is_coordinate_variable, new_open_file, ColormapHint, DataStore, VariableInfo};

fn var(name: &str, d: &[(&str, usize)]) -> VariableInfo {
    VariableInfo {
        name: name.to_string(),
        long_name: None,
        units: None,
        standard_name: None,
        dimensions: d.iter().map(|(n, s)| (n.to_string(), *s)).collect(),
    }
}

fn store(n: usize) -> DataStore {
    let mut ds = DataStore::new();
    for i in 0..n {
        ds.add_file(new_open_file(format!("f{i}.nc"), vec![var("zeta", &[("lat", 2), ("lon", 4)])]));
    }
    ds
}

#[test]
fn coordinate_variables_are_not_listed() {
    assert!(is_coordinate_variable(&var("lat", &[("lat", 64)])));
    assert!(!is_coordinate_variable(&var("lat_bnds", &[("lat", 64)])));
    assert!(!is_coordinate_variable(&var("zeta", &[("lat", 64), ("lon", 128)])));
    assert!(!is_coordinate_variable(&var("scalar", &[])));
}

#[test]
fn closing_the_active_last_file_activates_the_new_last() {
    let mut ds = store(3);
    assert_eq!(ds.active_file, Some(2));
    assert!(ds.close_file(2));
    assert_eq!(ds.files.len(), 2);
    assert_eq!(ds.active_file, Some(1));
    assert_eq!(ds.files[1].path, "f1.nc");
}

#[test]
fn closing_an_earlier_file_keeps_the_active_one() {
    let mut ds = store(3);
    assert!(!ds.close_file(0));
    assert_eq!(ds.active_file, Some(1));
    assert_eq!(ds.files[1].path, "f2.nc");
    ds.active_file = Some(0);
    assert!(!ds.close_file(1));
    assert_eq!(ds.active_file, Some(0));
}

#[test]
fn closing_the_active_middle_file_keeps_its_index() {
    let mut ds = store(3);
    ds.active_file = Some(1);
    assert!(ds.close_file(1));
    assert_eq!(ds.active_file, Some(1));
    assert_eq!(ds.files[1].path, "f2.nc");
}

#[test]
fn closing_the_only_file_leaves_nothing_active() {
    let mut ds = store(1);
    assert!(!ds.close_file(0));
    assert!(ds.files.is_empty());
    assert_eq!(ds.active_file, None);
}

#[test]
fn reopening_a_path_activates_it() {
    let mut ds = store(3);
    assert!(!ds.add_file(new_open_file("f0.nc".to_string(), vec![])));
    assert_eq!(ds.files.len(), 3);
    assert_eq!(ds.active_file, Some(0));
    assert_eq!(ds.files[0].variables.len(), 1);
    assert_eq!(ds.open_index("f2.nc"), Some(2));
    assert_eq!(ds.open_index("g.nc"), None);
    assert!(ds.add_file(new_open_file("g.nc".to_string(), vec![])));
    assert_eq!((ds.files.len(), ds.active_file), (4, Some(3)));
}

#[test]
fn names_starting_with_d_are_diverging() {
    assert_eq!(infer_colormap(&var("density", &[]), false), ColormapHint::Diverging);
    assert_eq!(infer_colormap(&var("Div", &[]), false), ColormapHint::Diverging);
    assert_eq!(infer_colormap(&var("vort", &[]), false), ColormapHint::Diverging);
    assert_eq!(infer_colormap(&var("temp", &[]), true), ColormapHint::Sequential);
    assert_eq!(infer_colormap(&var("h", &[]), true), ColormapHint::Diverging);
    assert_eq!(infer_colormap(&var("h", &[]), false), ColormapHint::Sequential);
}
