use geoscope::numeric::F32Bits;
use geoscope::script::{settings_from_calls, ScriptCall};

#[test]
fn calls_become_settings_in_order() {
    let calls = vec![
        ScriptCall::SetVariable("vorticity".to_string()),
        ScriptCall::SetTime(5),
        ScriptCall::SetLevel(2),
        ScriptCall::SetColormap("RdBu_r".to_string()),
        ScriptCall::SetRange(F32Bits((-5e-5f32).to_bits()), F32Bits(5e-5f32.to_bits())),
        ScriptCall::SetView("Globe".to_string()),
        ScriptCall::EnableContours,
        ScriptCall::EnableStreamlines,
        ScriptCall::SetWavenumberCutoff(21),
        ScriptCall::DisableContours,
        ScriptCall::SetTime(7),
    ];
    let s = settings_from_calls(calls);
    assert_eq!(s.variable_name.as_deref(), Some("vorticity"));
    assert_eq!((s.time_index, s.level_index), (Some(7), Some(2)));
    assert_eq!(s.colormap.as_deref(), Some("RdBu_r"));
    assert_eq!(s.vmin, Some(F32Bits((-5e-5f32).to_bits())));
    assert_eq!(s.view_mode.as_deref(), Some("Globe"));
    assert_eq!(s.contour_enabled, Some(false));
    assert_eq!(s.streamline_enabled, Some(true));
    assert_eq!(s.vector_enabled, None);
    assert_eq!(s.wavenumber_cutoff, Some(21));
    assert!(settings_from_calls(Vec::new()).variable_name.is_none());
}
