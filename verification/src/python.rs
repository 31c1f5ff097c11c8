//! Writing the current visualization as a Python script (xarray, cartopy,
//! matplotlib) that reproduces it.
use vstd::prelude::*;

use crate::data::{active_file_of, active_open_file, selections_valid, DataStore, OpenFile, VariableInfo};
use crate::numeric::{decimal, usize_to_string};
use crate::text::{
    ascii_lower, chars_equal, chars_of, join, join_exec, push_line, push_str, str_eq,
    strings_view, to_ascii_lower,
};
use crate::ui::{Colormap, MapProjection, RangeMode, UiState, ViewMode};

verus! {

broadcast use vstd::string::group_string_axioms;

// ---------------------------------------------------------------------------
// Names
// ---------------------------------------------------------------------------

/// The matplotlib name of a colormap.
pub open spec fn matplotlib_name(c: Colormap) -> Seq<char> {
    match c {
        Colormap::Viridis => "viridis"@,
        Colormap::Plasma => "plasma"@,
        Colormap::Inferno => "inferno"@,
        Colormap::Magma => "magma"@,
        Colormap::Cividis => "cividis"@,
        Colormap::Turbo => "turbo"@,
        Colormap::RdBuR => "RdBu_r"@,
        Colormap::Coolwarm => "coolwarm"@,
        Colormap::Spectral => "Spectral"@,
        Colormap::BrBG => "BrBG"@,
    }
}

pub fn colormap_to_matplotlib(cm: Colormap) -> (r: &'static str)
    ensures
        r@ == matplotlib_name(cm),
{
    match cm {
        Colormap::Viridis => "viridis",
        Colormap::Plasma => "plasma",
        Colormap::Inferno => "inferno",
        Colormap::Magma => "magma",
        Colormap::Cividis => "cividis",
        Colormap::Turbo => "turbo",
        Colormap::RdBuR => "RdBu_r",
        Colormap::Coolwarm => "coolwarm",
        Colormap::Spectral => "Spectral",
        Colormap::BrBG => "BrBG",
    }
}

/// The cartopy constructor of a map projection.
pub open spec fn cartopy_call(p: MapProjection) -> Seq<char> {
    match p {
        MapProjection::Equirectangular => "ccrs.PlateCarree()"@,
        MapProjection::Mollweide => "ccrs.Mollweide()"@,
        MapProjection::PolarNorth => "ccrs.NorthPolarStereo()"@,
        MapProjection::PolarSouth => "ccrs.SouthPolarStereo()"@,
    }
}

/// The title of a map projection in the script's comment.
pub open spec fn projection_title(p: MapProjection) -> Seq<char> {
    match p {
        MapProjection::Equirectangular => "Equirectangular (PlateCarree)"@,
        MapProjection::Mollweide => "Mollweide"@,
        MapProjection::PolarNorth => "North Polar Stereographic"@,
        MapProjection::PolarSouth => "South Polar Stereographic"@,
    }
}

fn cartopy_call_exec(p: MapProjection) -> (r: &'static str)
    ensures
        r@ == cartopy_call(p),
{
    match p {
        MapProjection::Equirectangular => "ccrs.PlateCarree()",
        MapProjection::Mollweide => "ccrs.Mollweide()",
        MapProjection::PolarNorth => "ccrs.NorthPolarStereo()",
        MapProjection::PolarSouth => "ccrs.SouthPolarStereo()",
    }
}

fn projection_title_exec(p: MapProjection) -> (r: &'static str)
    ensures
        r@ == projection_title(p),
{
    match p {
        MapProjection::Equirectangular => "Equirectangular (PlateCarree)",
        MapProjection::Mollweide => "Mollweide",
        MapProjection::PolarNorth => "North Polar Stereographic",
        MapProjection::PolarSouth => "South Polar Stereographic",
    }
}

// ---------------------------------------------------------------------------
// What the script reads
// ---------------------------------------------------------------------------

/// The selected variable of the active file.
pub open spec fn selected_var(ds: DataStore) -> Option<VariableInfo> {
    match active_open_file(ds) {
        Some(f) => match f.selected_variable {
            Some(vi) => Some(f.variables@[vi as int]),
            None => None,
        },
        None => None,
    }
}

pub open spec fn script_path(ds: DataStore) -> Seq<char> {
    match active_open_file(ds) {
        Some(f) => f.path@,
        None => "path/to/data.nc"@,
    }
}

pub open spec fn script_var(ds: DataStore) -> Seq<char> {
    match selected_var(ds) {
        Some(v) => v.name@,
        None => "var_name"@,
    }
}

/// Dimension names the script indexes as time (compared exactly).
pub open spec fn is_time_dim(n: Seq<char>) -> bool {
    n == "time"@ || n == "t"@
}

/// Dimension names the script indexes as level (compared in ASCII lower case).
pub open spec fn is_level_dim(n: Seq<char>) -> bool {
    let l = ascii_lower(n);
    l == "level"@ || l == "lev"@ || l == "z"@ || l == "sigma"@ || l == "depth"@ || l == "plev"@
}

pub open spec fn has_time(ds: DataStore) -> bool {
    match selected_var(ds) {
        Some(v) => exists|i: int| 0 <= i < v.dimensions.len() && is_time_dim(#[trigger] v.dimensions@[i].0@),
        None => false,
    }
}

pub open spec fn has_level(ds: DataStore) -> bool {
    match selected_var(ds) {
        Some(v) => exists|i: int| 0 <= i < v.dimensions.len() && is_level_dim(#[trigger] v.dimensions@[i].0@),
        None => false,
    }
}

/// The Globe and Map views are drawn with cartopy.
pub open spec fn is_geo(v: ViewMode) -> bool {
    v == ViewMode::Globe || v == ViewMode::MapView
}

// ---------------------------------------------------------------------------
// The script, section by section
// ---------------------------------------------------------------------------

pub open spec fn header_lines(ui: UiState) -> Seq<Seq<char>> {
    seq!["import xarray as xr"@, "import matplotlib.pyplot as plt"@] + (if is_geo(ui.view_mode) {
        seq!["import cartopy.crs as ccrs"@]
    } else {
        seq![]
    }) + seq![""@]
}

pub open spec fn isel_parts(ht: bool, hl: bool, ui: UiState) -> Seq<Seq<char>> {
    (if ht {
        seq!["time="@ + decimal(ui.time_index as nat)]
    } else {
        seq![]
    }) + (if hl {
        seq!["level="@ + decimal(ui.level_index as nat)]
    } else {
        seq![]
    })
}

pub open spec fn data_lines(ds: DataStore, ui: UiState) -> Seq<Seq<char>> {
    let parts = isel_parts(has_time(ds), has_level(ds), ui);
    seq![
        "ds = xr.open_dataset(\""@ + script_path(ds) + "\")"@,
        "da = ds[\""@ + script_var(ds) + "\"]"@,
    ] + (if parts.len() > 0 {
        seq!["da = da.isel("@ + join(parts, ", "@) + ")"@]
    } else {
        seq![]
    }) + seq![""@]
}

/// The `pcolormesh` call; `min` and `max` are the texts of the manual range.
pub open spec fn pcolormesh_line(ui: UiState, min: Seq<char>, max: Seq<char>) -> Seq<char> {
    let kwargs = seq![
        "ax=ax"@,
        "cmap=\""@ + matplotlib_name(ui.colormap) + "\""@,
        "transform=ccrs.PlateCarree()"@,
    ] + (if ui.range_mode == RangeMode::Manual {
        seq!["vmin="@ + min, "vmax="@ + max]
    } else {
        seq![]
    });
    "da.plot.pcolormesh("@ + join(kwargs, ", "@) + ")"@
}

pub open spec fn figure_lines(ui: UiState, min: Seq<char>, max: Seq<char>) -> Seq<Seq<char>> {
    let cmap = matplotlib_name(ui.colormap);
    match ui.view_mode {
        ViewMode::Globe => seq![
            "# Globe (Orthographic projection)"@,
            "fig = plt.figure(figsize=(8, 8))"@,
            "ax = fig.add_subplot(111, projection=ccrs.Orthographic(0, 0))"@,
            "ax.set_global()"@,
            pcolormesh_line(ui, min, max),
            "ax.coastlines()"@,
        ],
        ViewMode::MapView => seq![
            "# Map ("@ + projection_title(ui.map_projection) + " projection)"@,
            "fig = plt.figure(figsize=(12, 6))"@,
            "ax = fig.add_subplot(111, projection="@ + cartopy_call(ui.map_projection) + ")"@,
            "ax.set_global()"@,
            pcolormesh_line(ui, min, max),
            "ax.coastlines()"@,
        ],
        ViewMode::Hovmoller => seq![
            "# Hovmoller diagram"@,
            "fig, ax = plt.subplots(figsize=(12, 6))"@,
            "da.plot(ax=ax, cmap=\""@ + cmap + "\")"@,
            "ax.set_xlabel(\"Longitude\")"@,
            "ax.set_ylabel(\"Time\")"@,
        ],
        _ => seq!["fig, ax = plt.subplots(figsize=(10, 6))"@, "da.plot(ax=ax, cmap=\""@ + cmap + "\")"@],
    }
}

pub open spec fn contour_lines(ui: UiState) -> Seq<Seq<char>> {
    if ui.contour_enabled && is_geo(ui.view_mode) {
        seq![
            ""@,
            "# Contour overlay"@,
            "da.plot.contour(ax=ax, levels="@ + decimal(ui.contour_levels as nat)
                + ", colors=\"k\", linewidths=0.5, transform=ccrs.PlateCarree())"@,
        ]
    } else {
        seq![]
    }
}

/// The name of the variable at an optional index, or `default`.
pub open spec fn var_name_at(f: OpenFile, idx: Option<usize>, default: Seq<char>) -> Seq<char> {
    match idx {
        Some(i) => if i < f.variables.len() {
            f.variables@[i as int].name@
        } else {
            default
        },
        None => default,
    }
}

/// The stride of the quiver arrows: `max(20 / density, 1)`.
pub open spec fn quiver_skip(density: usize) -> nat {
    if 20usize / density >= 1 {
        (20usize / density) as nat
    } else {
        1
    }
}

pub open spec fn quiver_line(k: Seq<char>) -> Seq<char> {
    "ax.quiver(u.lon[::"@ + k + "], u.lat[::"@ + k + "], u[::"@ + k + ",::"@ + k + " ], v[::"@ + k
        + ",::"@ + k + " ], transform=ccrs.PlateCarree())"@
}

pub open spec fn vector_lines_of(f: OpenFile, ui: UiState, ht: bool, hl: bool) -> Seq<Seq<char>> {
    let t = decimal(ui.time_index as nat);
    let l = decimal(ui.level_index as nat);
    seq![
        ""@,
        "# Vector overlay"@,
        "u = ds[\""@ + var_name_at(f, ui.vector_u_var, "u"@) + "\"]"@,
        "v = ds[\""@ + var_name_at(f, ui.vector_v_var, "v"@) + "\"]"@,
    ] + (if ht {
        seq!["u = u.isel(time="@ + t + ")"@, "v = v.isel(time="@ + t + ")"@]
    } else {
        seq![]
    }) + (if hl {
        seq!["u = u.isel(level="@ + l + ")"@, "v = v.isel(level="@ + l + ")"@]
    } else {
        seq![]
    }) + seq![quiver_line(decimal(quiver_skip(ui.vector_density)))]
}

pub open spec fn vector_lines(ds: DataStore, ui: UiState) -> Seq<Seq<char>> {
    if ui.vector_overlay_enabled && is_geo(ui.view_mode) {
        match active_open_file(ds) {
            Some(f) => vector_lines_of(f, ui, has_time(ds), has_level(ds)),
            None => seq![],
        }
    } else {
        seq![]
    }
}

pub open spec fn footer_lines(ds: DataStore) -> Seq<Seq<char>> {
    seq![""@, "plt.title(\""@ + script_var(ds) + "\")"@, "plt.tight_layout()"@, "plt.show()"@]
}

/// The lines of the script; `min` and `max` are the texts of the manual range.
pub open spec fn python_lines(ui: UiState, ds: DataStore, min: Seq<char>, max: Seq<char>) -> Seq<Seq<char>> {
    header_lines(ui) + data_lines(ds, ui) + figure_lines(ui, min, max) + contour_lines(ui)
        + vector_lines(ds, ui) + footer_lines(ds)
}

/// The script that reproduces the current visualization.
pub open spec fn python_script(ui: UiState, ds: DataStore, min: Seq<char>, max: Seq<char>) -> Seq<char> {
    join(python_lines(ui, ds, min, max), "\n"@)
}

/// The arrows can be drawn: a vector overlay drawn over a geographic view of
/// an open file needs a nonzero arrow density.
pub open spec fn quiver_density_ok(ui: UiState, ds: DataStore) -> bool {
    (ui.vector_overlay_enabled && is_geo(ui.view_mode) && active_open_file(ds) is Some) ==> ui.vector_density > 0
}

// ---------------------------------------------------------------------------
// Building the script
// ---------------------------------------------------------------------------

fn line(a: &str, b: &str, c: &str) -> (r: String)
    ensures
        r@ == a@ + b@ + c@,
{
    let mut s = String::new();
    push_str(&mut s, a);
    push_str(&mut s, b);
    push_str(&mut s, c);
    s
}

fn cat(a: &str, b: &str) -> (r: String)
    ensures
        r@ == a@ + b@,
{
    let mut s = String::new();
    push_str(&mut s, a);
    push_str(&mut s, b);
    s
}

fn add_text(lines: &mut Vec<String>, s: &str)
    ensures
        strings_view(final(lines)@) == strings_view(old(lines)@).push(s@),
{
    push_line(lines, s.to_owned());
}

fn selected_var_of(ds: &DataStore) -> (r: Option<&VariableInfo>)
    requires
        selections_valid(*ds),
    ensures
        match r {
            Some(v) => selected_var(*ds) == Some(*v),
            None => selected_var(*ds) is None,
        },
{
    match ds.active_file {
        Some(fi) => if fi < ds.files.len() {
            match ds.files[fi].selected_variable {
                Some(vi) => {
                    assert(ds.files@[fi as int].selected_variable matches Some(v) ==> (v
                        < ds.files@[fi as int].variables.len()));
                    Some(&ds.files[fi].variables[vi])
                },
                None => None,
            }
        } else {
            None
        },
        None => None,
    }
}

fn is_level_dim_exec(n: &str) -> (r: bool)
    ensures
        r == is_level_dim(n@),
{
    let l = to_ascii_lower(chars_of(n).as_slice());
    chars_equal(l.as_slice(), chars_of("level").as_slice()) || chars_equal(
        l.as_slice(),
        chars_of("lev").as_slice(),
    ) || chars_equal(l.as_slice(), chars_of("z").as_slice()) || chars_equal(
        l.as_slice(),
        chars_of("sigma").as_slice(),
    ) || chars_equal(l.as_slice(), chars_of("depth").as_slice()) || chars_equal(
        l.as_slice(),
        chars_of("plev").as_slice(),
    )
}

fn dims_have_time(v: &VariableInfo) -> (r: bool)
    ensures
        r == exists|i: int| 0 <= i < v.dimensions.len() && is_time_dim(#[trigger] v.dimensions@[i].0@),
{
    let mut i: usize = 0;
    while i < v.dimensions.len()
        invariant
            i <= v.dimensions@.len(),
            forall|j: int| 0 <= j < i ==> !is_time_dim(#[trigger] v.dimensions@[j].0@),
        decreases v.dimensions@.len() - i,
    {
        let n = v.dimensions[i].0.as_str();
        if str_eq(n, "time") || str_eq(n, "t") {
            assert(is_time_dim(v.dimensions@[i as int].0@));
            return true;
        }
        i = i + 1;
    }
    false
}

fn dims_have_level(v: &VariableInfo) -> (r: bool)
    ensures
        r == exists|i: int| 0 <= i < v.dimensions.len() && is_level_dim(#[trigger] v.dimensions@[i].0@),
{
    let mut i: usize = 0;
    while i < v.dimensions.len()
        invariant
            i <= v.dimensions@.len(),
            forall|j: int| 0 <= j < i ==> !is_level_dim(#[trigger] v.dimensions@[j].0@),
        decreases v.dimensions@.len() - i,
    {
        if is_level_dim_exec(v.dimensions[i].0.as_str()) {
            assert(is_level_dim(v.dimensions@[i as int].0@));
            return true;
        }
        i = i + 1;
    }
    false
}

fn add_header(lines: &mut Vec<String>, ui: &UiState)
    ensures
        strings_view(final(lines)@) == strings_view(old(lines)@) + header_lines(*ui),
{
    add_text(lines, "import xarray as xr");
    add_text(lines, "import matplotlib.pyplot as plt");
    if ui.view_mode == ViewMode::Globe || ui.view_mode == ViewMode::MapView {
        add_text(lines, "import cartopy.crs as ccrs");
    }
    add_text(lines, "");
    assert(strings_view(lines@) =~= strings_view(old(lines)@) + header_lines(*ui));
}

fn add_data(lines: &mut Vec<String>, ui: &UiState, ds: &DataStore, path: &str, var: &str, ht: bool, hl: bool)
    requires
        path@ == script_path(*ds),
        var@ == script_var(*ds),
        ht == has_time(*ds),
        hl == has_level(*ds),
    ensures
        strings_view(final(lines)@) == strings_view(old(lines)@) + data_lines(*ds, *ui),
{
    push_line(lines, line("ds = xr.open_dataset(\"", path, "\")"));
    push_line(lines, line("da = ds[\"", var, "\"]"));
    let mut parts: Vec<String> = Vec::new();
    if ht {
        push_line(&mut parts, cat("time=", usize_to_string(ui.time_index).as_str()));
    }
    if hl {
        push_line(&mut parts, cat("level=", usize_to_string(ui.level_index).as_str()));
    }
    assert(strings_view(parts@) =~= isel_parts(ht, hl, *ui));
    if parts.len() > 0 {
        let j = join_exec(&parts, ", ");
        push_line(lines, line("da = da.isel(", j.as_str(), ")"));
    }
    add_text(lines, "");
    assert(strings_view(lines@) =~= strings_view(old(lines)@) + data_lines(*ds, *ui));
}

fn pcolormesh_exec(ui: &UiState, min: &str, max: &str) -> (r: String)
    ensures
        r@ == pcolormesh_line(*ui, min@, max@),
{
    let mut kwargs: Vec<String> = Vec::new();
    add_text(&mut kwargs, "ax=ax");
    push_line(&mut kwargs, line("cmap=\"", colormap_to_matplotlib(ui.colormap), "\""));
    add_text(&mut kwargs, "transform=ccrs.PlateCarree()");
    if ui.range_mode == RangeMode::Manual {
        push_line(&mut kwargs, cat("vmin=", min));
        push_line(&mut kwargs, cat("vmax=", max));
    }
    assert(strings_view(kwargs@) =~= seq![
        "ax=ax"@,
        "cmap=\""@ + matplotlib_name(ui.colormap) + "\""@,
        "transform=ccrs.PlateCarree()"@,
    ] + (if ui.range_mode == RangeMode::Manual {
        seq!["vmin="@ + min@, "vmax="@ + max@]
    } else {
        seq![]
    }));
    let j = join_exec(&kwargs, ", ");
    line("da.plot.pcolormesh(", j.as_str(), ")")
}

fn add_figure(lines: &mut Vec<String>, ui: &UiState, min: &str, max: &str)
    ensures
        strings_view(final(lines)@) == strings_view(old(lines)@) + figure_lines(*ui, min@, max@),
{
    let cmap = colormap_to_matplotlib(ui.colormap);
    match ui.view_mode {
        ViewMode::Globe => {
            add_text(lines, "# Globe (Orthographic projection)");
            add_text(lines, "fig = plt.figure(figsize=(8, 8))");
            add_text(lines, "ax = fig.add_subplot(111, projection=ccrs.Orthographic(0, 0))");
            add_text(lines, "ax.set_global()");
            push_line(lines, pcolormesh_exec(ui, min, max));
            add_text(lines, "ax.coastlines()");
        },
        ViewMode::MapView => {
            push_line(lines, line("# Map (", projection_title_exec(ui.map_projection), " projection)"));
            add_text(lines, "fig = plt.figure(figsize=(12, 6))");
            push_line(
                lines,
                line("ax = fig.add_subplot(111, projection=", cartopy_call_exec(ui.map_projection), ")"),
            );
            add_text(lines, "ax.set_global()");
            push_line(lines, pcolormesh_exec(ui, min, max));
            add_text(lines, "ax.coastlines()");
        },
        ViewMode::Hovmoller => {
            add_text(lines, "# Hovmoller diagram");
            add_text(lines, "fig, ax = plt.subplots(figsize=(12, 6))");
            push_line(lines, line("da.plot(ax=ax, cmap=\"", cmap, "\")"));
            add_text(lines, "ax.set_xlabel(\"Longitude\")");
            add_text(lines, "ax.set_ylabel(\"Time\")");
        },
        _ => {
            add_text(lines, "fig, ax = plt.subplots(figsize=(10, 6))");
            push_line(lines, line("da.plot(ax=ax, cmap=\"", cmap, "\")"));
        },
    }
    assert(strings_view(lines@) =~= strings_view(old(lines)@) + figure_lines(*ui, min@, max@));
}

fn add_contour(lines: &mut Vec<String>, ui: &UiState)
    ensures
        strings_view(final(lines)@) == strings_view(old(lines)@) + contour_lines(*ui),
{
    if ui.contour_enabled && (ui.view_mode == ViewMode::Globe || ui.view_mode == ViewMode::MapView) {
        add_text(lines, "");
        add_text(lines, "# Contour overlay");
        push_line(
            lines,
            line(
                "da.plot.contour(ax=ax, levels=",
                usize_to_string(ui.contour_levels).as_str(),
                ", colors=\"k\", linewidths=0.5, transform=ccrs.PlateCarree())",
            ),
        );
    }
    assert(strings_view(lines@) =~= strings_view(old(lines)@) + contour_lines(*ui));
}

fn var_name_at_exec<'a>(f: &'a OpenFile, idx: Option<usize>, default: &'a str) -> (r: &'a str)
    ensures
        r@ == var_name_at(*f, idx, default@),
{
    match idx {
        Some(i) => if i < f.variables.len() {
            f.variables[i].name.as_str()
        } else {
            default
        },
        None => default,
    }
}

fn quiver_line_exec(k: &str) -> (r: String)
    ensures
        r@ == quiver_line(k@),
{
    let mut s = String::new();
    push_str(&mut s, "ax.quiver(u.lon[::");
    push_str(&mut s, k);
    push_str(&mut s, "], u.lat[::");
    push_str(&mut s, k);
    push_str(&mut s, "], u[::");
    push_str(&mut s, k);
    push_str(&mut s, ",::");
    push_str(&mut s, k);
    push_str(&mut s, " ], v[::");
    push_str(&mut s, k);
    push_str(&mut s, ",::");
    push_str(&mut s, k);
    push_str(&mut s, " ], transform=ccrs.PlateCarree())");
    s
}

fn add_vectors_of(lines: &mut Vec<String>, f: &OpenFile, ui: &UiState, ht: bool, hl: bool)
    requires
        ui.vector_density > 0,
    ensures
        strings_view(final(lines)@) == strings_view(old(lines)@) + vector_lines_of(*f, *ui, ht, hl),
{
    let t = usize_to_string(ui.time_index);
    let l = usize_to_string(ui.level_index);
    add_text(lines, "");
    add_text(lines, "# Vector overlay");
    push_line(lines, line("u = ds[\"", var_name_at_exec(f, ui.vector_u_var, "u"), "\"]"));
    push_line(lines, line("v = ds[\"", var_name_at_exec(f, ui.vector_v_var, "v"), "\"]"));
    if ht {
        push_line(lines, line("u = u.isel(time=", t.as_str(), ")"));
        push_line(lines, line("v = v.isel(time=", t.as_str(), ")"));
    }
    if hl {
        push_line(lines, line("u = u.isel(level=", l.as_str(), ")"));
        push_line(lines, line("v = v.isel(level=", l.as_str(), ")"));
    }
    let q = 20 / ui.vector_density;
    let skip: usize = if q >= 1 {
        q
    } else {
        1
    };
    push_line(lines, quiver_line_exec(usize_to_string(skip).as_str()));
    assert(strings_view(lines@) =~= strings_view(old(lines)@) + vector_lines_of(*f, *ui, ht, hl));
}

fn add_vectors(lines: &mut Vec<String>, ds: &DataStore, ui: &UiState, ht: bool, hl: bool)
    requires
        ht == has_time(*ds),
        hl == has_level(*ds),
        quiver_density_ok(*ui, *ds),
    ensures
        strings_view(final(lines)@) == strings_view(old(lines)@) + vector_lines(*ds, *ui),
{
    if ui.vector_overlay_enabled && (ui.view_mode == ViewMode::Globe || ui.view_mode
        == ViewMode::MapView) {
        if let Some(f) = active_file_of(ds) {
            add_vectors_of(lines, f, ui, ht, hl);
            return ;
        }
    }
    assert(strings_view(lines@) =~= strings_view(old(lines)@) + vector_lines(*ds, *ui));
}

fn add_footer(lines: &mut Vec<String>, ds: &DataStore, var: &str)
    requires
        var@ == script_var(*ds),
    ensures
        strings_view(final(lines)@) == strings_view(old(lines)@) + footer_lines(*ds),
{
    add_text(lines, "");
    push_line(lines, line("plt.title(\"", var, "\")"));
    add_text(lines, "plt.tight_layout()");
    add_text(lines, "plt.show()");
    assert(strings_view(lines@) =~= strings_view(old(lines)@) + footer_lines(*ds));
}

/// Generate a Python script that reproduces the current visualization.
/// `manual_min` and `manual_max` are the display texts of the manual
/// colour range bounds.
pub fn generate_python(ui_state: &UiState, data_store: &DataStore, manual_min: &str, manual_max: &str) -> (r: String)
    requires
        selections_valid(*data_store),
        quiver_density_ok(*ui_state, *data_store),
    ensures
        r@ == python_script(*ui_state, *data_store, manual_min@, manual_max@),
{
    let mut lines: Vec<String> = Vec::new();
    add_header(&mut lines, ui_state);
    let path: &str = match active_file_of(data_store) {
        Some(f) => f.path.as_str(),
        None => "path/to/data.nc",
    };
    let (var, ht, hl): (&str, bool, bool) = match selected_var_of(data_store) {
        Some(v) => (v.name.as_str(), dims_have_time(v), dims_have_level(v)),
        None => ("var_name", false, false),
    };
    add_data(&mut lines, ui_state, data_store, path, var, ht, hl);
    add_figure(&mut lines, ui_state, manual_min, manual_max);
    add_contour(&mut lines, ui_state);
    add_vectors(&mut lines, data_store, ui_state, ht, hl);
    add_footer(&mut lines, data_store, var);
    assert(strings_view(lines@) =~= python_lines(*ui_state, *data_store, manual_min@, manual_max@));
    join_exec(&lines, "\n")
}

} // verus!
