use geoscope::data::{DataStore, VariableInfo};
use geoscope::numeric::F32Bits;
use geoscope::parser::{apply_to_ui_state, matplotlib_to_colormap, parse_python};
use geoscope::python::{colormap_to_matplotlib, generate_python};
use geoscope::ui::{Colormap, MapProjection, RangeMode, UiState, ViewMode};

fn number(t: &Option<String>) -> Option<f32> {
    t.as_deref().map(|s| s.parse::<f32>().unwrap())
}

#[test]
fn parse_variable_name() {
    let code = r#"da = ds["vorticity"]"#;
    let p = parse_python(code);
    assert_eq!(p.variable_name.as_deref(), Some("vorticity"));
}

#[test]
fn parse_isel() {
    let code = "da = da.isel(time=5, level=2)";
    let p = parse_python(code);
    assert_eq!(p.time_index, Some(5));
    assert_eq!(p.level_index, Some(2));
}

#[test]
fn parse_colormap() {
    let code = r#"da.plot.pcolormesh(ax=ax, cmap="RdBu_r", vmin=-5e-5, vmax=5e-5)"#;
    let p = parse_python(code);
    assert_eq!(p.colormap.as_deref(), Some("RdBu_r"));
    assert!(p.vmin.is_some());
    assert!(p.vmax.is_some());
}

#[test]
fn parse_orthographic() {
    let code = "ax = fig.add_subplot(111, projection=ccrs.Orthographic(135, 35))";
    let p = parse_python(code);
    assert_eq!(p.view_mode.as_deref(), Some("Globe"));
    assert_eq!(number(&p.camera_lon), Some(135.0));
    assert_eq!(number(&p.camera_lat), Some(35.0));
}

#[test]
fn parse_plate_carree() {
    let code = "ax = fig.add_subplot(111, projection=ccrs.PlateCarree())";
    let p = parse_python(code);
    assert_eq!(p.view_mode.as_deref(), Some("Map"));
    assert_eq!(p.projection.as_deref(), Some("PlateCarree"));
}

#[test]
fn parse_mollweide() {
    let code = "ax = fig.add_subplot(111, projection=ccrs.Mollweide())";
    let p = parse_python(code);
    assert_eq!(p.view_mode.as_deref(), Some("Map"));
    assert_eq!(p.projection.as_deref(), Some("Mollweide"));
}

#[test]
fn parse_contour_and_quiver() {
    let code = "da.plot.contour(ax=ax, levels=10)\nax.quiver(u, v)";
    let p = parse_python(code);
    assert_eq!(p.contour_enabled, Some(true));
    assert_eq!(p.vector_enabled, Some(true));
}

#[test]
fn parse_number_texts() {
    let p = parse_python("da.plot(vmin=-5e-5, vmax=abc)");
    assert_eq!(p.vmin.as_deref(), Some("-5e-5"));
    assert_eq!(number(&p.vmin), Some(-5e-5));
    assert_eq!(p.vmax, None);
    let p = parse_python("  da = da.isel( time = 12 , level=x)\r\n");
    assert_eq!(p.time_index, None);
    let p = parse_python("da = da.isel(time= 12 , level=+3)");
    assert_eq!(p.time_index, Some(12));
    assert_eq!(p.level_index, Some(3));
}

#[test]
fn later_lines_override_earlier_ones() {
    let code = "cmap=\"viridis\"\nx = 1\n   cmap=\"plasma\"   \nax.streamplot(x, y)";
    let p = parse_python(code);
    assert_eq!(p.colormap.as_deref(), Some("plasma"));
    assert_eq!(p.streamline_enabled, Some(true));
    assert_eq!(p.contour_enabled, None);
}

#[test]
fn matplotlib_names_round_trip() {
    for c in [
        Colormap::Viridis,
        Colormap::Plasma,
        Colormap::Inferno,
        Colormap::Magma,
        Colormap::Cividis,
        Colormap::Turbo,
        Colormap::RdBuR,
        Colormap::Coolwarm,
        Colormap::Spectral,
        Colormap::BrBG,
    ] {
        assert_eq!(matplotlib_to_colormap(colormap_to_matplotlib(c)), Some(c));
    }
    assert_eq!(matplotlib_to_colormap("Viridis"), None);
}

fn store() -> DataStore {
    let mut ds = DataStore::new();
    let vars = vec![
        VariableInfo {
            name: "zeta".to_string(),
            long_name: None,
            units: None,
            standard_name: None,
            dimensions: vec![("time".to_string(), 10), ("lat".to_string(), 32), ("lon".to_string(), 64)],
        },
        VariableInfo {
            name: "vorticity".to_string(),
            long_name: None,
            units: None,
            standard_name: None,
            dimensions: vec![("time".to_string(), 10), ("Lev".to_string(), 3), ("lat".to_string(), 32), ("lon".to_string(), 64)],
        },
    ];
    ds.add_file(geoscope::data::new_open_file("/data/run/out.nc".to_string(), vars));
    ds
}

#[test]
fn apply_parsed_settings() {
    let mut ui = UiState::default();
    let mut ds = store();
    let code = "da = ds[\"vorticity\"]\nda = da.isel(time=5, level=2)\nax = fig.add_subplot(111, projection=ccrs.Mollweide())\nda.plot.pcolormesh(ax=ax, cmap=\"RdBu_r\", vmin=-1, vmax=1)";
    let p = parse_python(code);
    let lo = number(&p.vmin).map(|v| F32Bits(v.to_bits()));
    let hi = number(&p.vmax).map(|v| F32Bits(v.to_bits()));
    let r = apply_to_ui_state(&p, &mut ui, &mut ds, lo, hi);
    assert_eq!(r.load, Some((0, 1)));
    assert_eq!(ui.time_index, 5);
    assert_eq!(ui.level_index, 2);
    assert_eq!(ui.colormap, Colormap::RdBuR);
    assert_eq!(ui.range_mode, RangeMode::Manual);
    assert_eq!(ui.manual_min, F32Bits((-1.0f32).to_bits()));
    assert_eq!(ui.view_mode, ViewMode::MapView);
    assert_eq!(ui.map_projection, MapProjection::Mollweide);
    let texts: Vec<String> = r.changes.iter().map(|c| c.describe("-1", "1")).collect();
    assert_eq!(
        texts,
        vec![
            "variable=vorticity",
            "time=5",
            "level=2",
            "colormap=RdBu_r",
            "range=Manual(-1..1)",
            "view=Map",
            "projection=Mollweide"
        ]
    );
}

#[test]
fn generated_script_for_globe() {
    let mut ui = UiState::default();
    let mut ds = store();
    ds.files[0].selected_variable = Some(1);
    ui.time_index = 4;
    ui.level_index = 1;
    ui.colormap = Colormap::Plasma;
    ui.contour_enabled = true;
    ui.contour_levels = 12;
    let code = generate_python(&ui, &ds, "0", "1");
    let expected = [
        "import xarray as xr",
        "import matplotlib.pyplot as plt",
        "import cartopy.crs as ccrs",
        "",
        "ds = xr.open_dataset(\"/data/run/out.nc\")",
        "da = ds[\"vorticity\"]",
        "da = da.isel(time=4, level=1)",
        "",
        "# Globe (Orthographic projection)",
        "fig = plt.figure(figsize=(8, 8))",
        "ax = fig.add_subplot(111, projection=ccrs.Orthographic(0, 0))",
        "ax.set_global()",
        "da.plot.pcolormesh(ax=ax, cmap=\"plasma\", transform=ccrs.PlateCarree())",
        "ax.coastlines()",
        "",
        "# Contour overlay",
        "da.plot.contour(ax=ax, levels=12, colors=\"k\", linewidths=0.5, transform=ccrs.PlateCarree())",
        "",
        "plt.title(\"vorticity\")",
        "plt.tight_layout()",
        "plt.show()",
    ]
    .join("\n");
    assert_eq!(code, expected);
}

#[test]
fn generated_script_for_map_with_vectors() {
    let mut ui = UiState::default();
    let mut ds = store();
    ds.files[0].selected_variable = Some(0);
    ui.view_mode = ViewMode::MapView;
    ui.map_projection = MapProjection::PolarSouth;
    ui.range_mode = RangeMode::Manual;
    ui.vector_overlay_enabled = true;
    ui.vector_u_var = Some(1);
    ui.vector_v_var = Some(9);
    ui.vector_density = 3;
    let code = generate_python(&ui, &ds, "-2.5", "2.5");
    let lines: Vec<&str> = code.lines().collect();
    assert!(lines.contains(&"# Map (South Polar Stereographic projection)"));
    assert!(lines.contains(&"ax = fig.add_subplot(111, projection=ccrs.SouthPolarStereo())"));
    assert!(lines.contains(&"da.plot.pcolormesh(ax=ax, cmap=\"viridis\", transform=ccrs.PlateCarree(), vmin=-2.5, vmax=2.5)"));
    assert!(lines.contains(&"da = da.isel(time=0)"));
    assert!(lines.contains(&"u = ds[\"vorticity\"]"));
    assert!(lines.contains(&"v = ds[\"v\"]"));
    assert!(lines.contains(&"u = u.isel(time=0)"));
    assert!(lines.contains(&"ax.quiver(u.lon[::6], u.lat[::6], u[::6,::6 ], v[::6,::6 ], transform=ccrs.PlateCarree())"));
}

#[test]
fn generated_script_without_file() {
    let mut ui = UiState::default();
    ui.view_mode = ViewMode::Hovmoller;
    let ds = DataStore::new();
    let code = generate_python(&ui, &ds, "0", "0");
    assert!(code.starts_with("import xarray as xr\nimport matplotlib.pyplot as plt\n\nds = xr.open_dataset(\"path/to/data.nc\")\nda = ds[\"var_name\"]\n\n# Hovmoller diagram"));
    assert!(code.ends_with("plt.title(\"var_name\")\nplt.tight_layout()\nplt.show()"));
}

#[test]
fn generated_script_parses_back() {
    let mut ui = UiState::default();
    let mut ds = store();
    ds.files[0].selected_variable = Some(1);
    ui.view_mode = ViewMode::MapView;
    ui.map_projection = MapProjection::Mollweide;
    ui.colormap = Colormap::Coolwarm;
    ui.time_index = 3;
    ui.level_index = 2;
    ui.contour_enabled = true;
    let code = generate_python(&ui, &ds, "0", "1");
    let p = parse_python(&code);
    assert_eq!(p.variable_name.as_deref(), Some("vorticity"));
    assert_eq!(p.time_index, Some(3));
    assert_eq!(p.level_index, Some(2));
    assert_eq!(p.colormap.as_deref(), Some("coolwarm"));
    assert_eq!(p.view_mode.as_deref(), Some("Map"));
    assert_eq!(p.projection.as_deref(), Some("Mollweide"));
    assert_eq!(p.contour_enabled, Some(true));
}

#[test]
fn applying_parsed_code_twice() {
    let mut ui = UiState::default();
    let mut ds = store();
    let code = "ax = fig.add_subplot(111, projection=ccrs.NorthPolarStereo())\nda.plot.pcolormesh(ax=ax, cmap=\"magma\", vmax=3)\nax.streamplot(u, v)";
    let p = parse_python(code);
    let hi = number(&p.vmax).map(|v| F32Bits(v.to_bits()));
    let first = apply_to_ui_state(&p, &mut ui, &mut ds, None, hi);
    assert_eq!(first.changes.len(), 5);
    let once = ui.clone();
    let second = apply_to_ui_state(&p, &mut ui, &mut ds, None, hi);
    assert_eq!(second.changes.len(), 1);
    assert_eq!(second.changes[0].describe("0", "3"), "range=Manual(0..3)");
    assert_eq!(ui.map_projection, once.map_projection);
    assert_eq!(ui.view_mode, once.view_mode);
    assert_eq!(ui.colormap, Colormap::Magma);
    assert!(ui.streamline_enabled);
}

#[test]
fn reapplying_generated_globe_script_keeps_state() {
    let mut ui = UiState::default();
    let mut ds = store();
    ds.files[0].selected_variable = Some(1);
    ui.colormap = Colormap::RdBuR;
    ui.range_mode = RangeMode::Manual;
    ui.manual_min = F32Bits((-2.5f32).to_bits());
    ui.manual_max = F32Bits(2.5f32.to_bits());
    let code = generate_python(&ui, &ds, "-2.5", "2.5");
    let p = parse_python(&code);
    assert_eq!(p.view_mode.as_deref(), Some("Globe"));
    assert_eq!(p.projection.as_deref(), Some("Orthographic"));
    assert_eq!((p.camera_lon.as_deref(), p.camera_lat.as_deref()), (Some("0"), Some("0")));
    assert_eq!((p.vmin.as_deref(), p.vmax.as_deref()), (Some("-2.5"), Some("2.5")));
    let before = ui.clone();
    let lo = number(&p.vmin).map(|v| F32Bits(v.to_bits()));
    let hi = number(&p.vmax).map(|v| F32Bits(v.to_bits()));
    apply_to_ui_state(&p, &mut ui, &mut ds, lo, hi);
    assert_eq!(ui.colormap, before.colormap);
    assert_eq!(ui.view_mode, before.view_mode);
    assert_eq!((ui.manual_min, ui.manual_max), (before.manual_min, before.manual_max));
    assert_eq!((ui.time_index, ui.level_index), (before.time_index, before.level_index));
}

#[test]
fn generated_vectors_read_back_as_the_last_component() {
    let mut ui = UiState::default();
    let mut ds = store();
    ds.files[0].selected_variable = Some(1);
    ui.vector_overlay_enabled = true;
    ui.vector_u_var = Some(0);
    ui.vector_v_var = Some(1);
    ui.time_index = 4;
    let code = generate_python(&ui, &ds, "0", "1");
    let p = parse_python(&code);
    assert_eq!(p.variable_name.as_deref(), Some("vorticity"));
    assert_eq!(p.vector_enabled, Some(true));
    assert_eq!((p.time_index, p.level_index), (Some(4), Some(0)));
    ui.vector_v_var = None;
    let p = parse_python(&generate_python(&ui, &ds, "0", "1"));
    assert_eq!(p.variable_name.as_deref(), Some("v"));
}
