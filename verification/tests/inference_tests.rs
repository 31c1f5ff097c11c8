use geoscope::data::{ColormapHint, VariableInfo};
use geoscope::inference::{detect_wind_pair, infer_variable, InferenceLevel, VariableCategory};

fn make_var(name: &str) -> VariableInfo {
    VariableInfo { name: name.to_string(), long_name: None, units: None, standard_name: None, dimensions: vec![] }
}

fn spans_zero(min: f32, max: f32) -> bool {
    min * max < 0.0
}

#[test]
fn l1_standard_name_vorticity() {
    let mut var = make_var("x");
    var.standard_name = Some("atmosphere_relative_vorticity".to_string());
    let r = infer_variable(&var, false);
    assert_eq!(r.category, VariableCategory::Vorticity);
    assert_eq!(r.suggested_colormap, ColormapHint::Diverging);
    assert_eq!(r.confidence, InferenceLevel::L1StandardName);
}

#[test]
fn l2_name_pattern_temperature() {
    let mut var = make_var("T");
    var.units = Some("K".to_string());
    let r = infer_variable(&var, false);
    assert_eq!(r.category, VariableCategory::Temperature);
    assert_eq!(r.confidence, InferenceLevel::L2NamePattern);
}

#[test]
fn l2_name_pattern_vorticity() {
    let var = make_var("vor");
    let r = infer_variable(&var, false);
    assert_eq!(r.category, VariableCategory::Vorticity);
    assert_eq!(r.suggested_colormap, ColormapHint::Diverging);
}

#[test]
fn l3_statistics_diverging() {
    let var = make_var("unknown_field");
    let r = infer_variable(&var, spans_zero(-1.0, 1.0));
    assert_eq!(r.category, VariableCategory::Generic);
    assert_eq!(r.suggested_colormap, ColormapHint::Diverging);
    assert_eq!(r.confidence, InferenceLevel::L3Statistics);
}

#[test]
fn l3_statistics_sequential() {
    let var = make_var("unknown_field");
    let r = infer_variable(&var, spans_zero(1.0, 3.0));
    assert_eq!(r.suggested_colormap, ColormapHint::Sequential);
}

#[test]
fn wind_pair_by_name() {
    let dims = vec![("lat".to_string(), 4), ("lon".to_string(), 8)];
    let mut u = make_var("UWND");
    u.dimensions = dims.clone();
    let mut v = make_var("vwnd");
    v.dimensions = dims.clone();
    let vars = vec![make_var("zeta"), u, v];
    assert_eq!(detect_wind_pair(&vars), Some((1, 2)));
    let mut w = make_var("v");
    w.dimensions = vec![("lat".to_string(), 5)];
    let vars = vec![make_var("u"), w];
    assert_eq!(detect_wind_pair(&vars), None);
}
