//! Applying requested settings: the change records that the code panel,
//! the scripting console and the command bridge report, the names they
//! accept for colormaps, view modes and projections, and variable
//! selection by name.
use vstd::prelude::*;

use crate::data::{opt_view, first_index, position_of_name, var_names, DataStore, OpenFile};
use crate::numeric::{decimal, usize_to_chars, F32Bits};
use crate::text::{join, join_exec, push_chars, push_line, push_str, str_eq, strings_view};
use crate::ui::{colormap_label, projection_debug, view_mode_debug, Colormap, MapProjection, RangeMode, UiState, ViewMode};

verus! {

broadcast use vstd::string::group_string_axioms;

/// One applied change.  `Range` reports that the manual colour range was
/// set; its bounds are the ones the UI state then holds.
#[derive(Debug, Clone)]
pub enum Change {
    Variable(String),
    Time(usize),
    Level(usize),
    Colormap(String),
    Range,
    View(String),
    Projection(String),
    Contour(bool),
    Vector(bool),
    Streamline(bool),
    WavenumberCutoff(usize),
}

/// The model of a `Change`: its texts as character sequences.
pub enum Changed {
    Variable(Seq<char>),
    Time(usize),
    Level(usize),
    Colormap(Seq<char>),
    Range,
    View(Seq<char>),
    Projection(Seq<char>),
    Contour(bool),
    Vector(bool),
    Streamline(bool),
    WavenumberCutoff(usize),
}

impl View for Change {
    type V = Changed;

    open spec fn view(&self) -> Changed {
        match *self {
            Change::Variable(n) => Changed::Variable(n@),
            Change::Time(t) => Changed::Time(t),
            Change::Level(l) => Changed::Level(l),
            Change::Colormap(n) => Changed::Colormap(n@),
            Change::Range => Changed::Range,
            Change::View(n) => Changed::View(n@),
            Change::Projection(n) => Changed::Projection(n@),
            Change::Contour(b) => Changed::Contour(b),
            Change::Vector(b) => Changed::Vector(b),
            Change::Streamline(b) => Changed::Streamline(b),
            Change::WavenumberCutoff(n) => Changed::WavenumberCutoff(n),
        }
    }
}

/// The models of a list of changes.
pub open spec fn changes_of(v: Seq<Change>) -> Seq<Changed> {
    v.map_values(|c: Change| c@)
}

/// Appends a change to the list.
pub fn push_change(changes: &mut Vec<Change>, c: Change)
    ensures
        changes_of(final(changes)@) == changes_of(old(changes)@).push(c@),
{
    let ghost c0 = c@;
    changes.push(c);
    assert(changes_of(changes@) =~= changes_of(old(changes)@).push(c0));
}

/// What applying settings did: the changes in the order they were made, and
/// the (file, variable) whose field must now be loaded, if any.
#[derive(Debug, Clone)]
pub struct Applied {
    pub changes: Vec<Change>,
    pub load: Option<(usize, usize)>,
}

pub open spec fn bool_text(b: bool) -> Seq<char> {
    if b {
        "true"@
    } else {
        "false"@
    }
}

/// The line describing a change, as the status bar shows it.  `min` and
/// `max` are the texts of the manual range bounds.
pub open spec fn change_text(c: Changed, min: Seq<char>, max: Seq<char>) -> Seq<char> {
    match c {
        Changed::Variable(n) => "variable="@ + n,
        Changed::Time(t) => "time="@ + decimal(t as nat),
        Changed::Level(l) => "level="@ + decimal(l as nat),
        Changed::Colormap(n) => "colormap="@ + n,
        Changed::Range => "range=Manual("@ + min + ".."@ + max + ")"@,
        Changed::View(n) => "view="@ + n,
        Changed::Projection(n) => "projection="@ + n,
        Changed::Contour(b) => "contour="@ + bool_text(b),
        Changed::Vector(b) => "vector="@ + bool_text(b),
        Changed::Streamline(b) => "streamline="@ + bool_text(b),
        Changed::WavenumberCutoff(n) => "wavenumber_cutoff="@ + decimal(n as nat),
    }
}

fn push_bool(s: &mut String, b: bool)
    ensures
        final(s)@ == old(s)@ + bool_text(b),
{
    if b {
        push_str(s, "true");
    } else {
        push_str(s, "false");
    }
}

fn push_usize(s: &mut String, n: usize)
    ensures
        final(s)@ == old(s)@ + decimal(n as nat),
{
    let d = usize_to_chars(n);
    push_chars(s, d.as_slice());
}

impl Change {
    /// The line describing this change; `min` and `max` are the display texts
    /// of the manual range bounds, used by `Range` only.
    pub fn describe(&self, min: &str, max: &str) -> (r: String)
        ensures
            r@ == change_text(self@, min@, max@),
    {
        let mut s = String::new();
        match self {
            Change::Variable(n) => {
                push_str(&mut s, "variable=");
                push_str(&mut s, n.as_str());
            },
            Change::Time(t) => {
                push_str(&mut s, "time=");
                push_usize(&mut s, *t);
            },
            Change::Level(l) => {
                push_str(&mut s, "level=");
                push_usize(&mut s, *l);
            },
            Change::Colormap(n) => {
                push_str(&mut s, "colormap=");
                push_str(&mut s, n.as_str());
            },
            Change::Range => {
                push_str(&mut s, "range=Manual(");
                push_str(&mut s, min);
                push_str(&mut s, "..");
                push_str(&mut s, max);
                push_str(&mut s, ")");
            },
            Change::View(n) => {
                push_str(&mut s, "view=");
                push_str(&mut s, n.as_str());
            },
            Change::Projection(n) => {
                push_str(&mut s, "projection=");
                push_str(&mut s, n.as_str());
            },
            Change::Contour(b) => {
                push_str(&mut s, "contour=");
                push_bool(&mut s, *b);
            },
            Change::Vector(b) => {
                push_str(&mut s, "vector=");
                push_bool(&mut s, *b);
            },
            Change::Streamline(b) => {
                push_str(&mut s, "streamline=");
                push_bool(&mut s, *b);
            },
            Change::WavenumberCutoff(n) => {
                push_str(&mut s, "wavenumber_cutoff=");
                push_usize(&mut s, *n);
            },
        }
        s
    }
}

/// The status line after applying edited code: the changes, described and
/// separated by commas, or a note that nothing changed.
pub open spec fn applied_status(cs: Seq<Changed>, min: Seq<char>, max: Seq<char>) -> Seq<char> {
    if cs.len() == 0 {
        "No changes detected"@
    } else {
        "Applied: "@ + join(cs.map_values(|c: Changed| change_text(c, min, max)), ", "@)
    }
}

/// The status line after applying edited code; `min` and `max` are the
/// display texts of the manual range bounds.
pub fn summarize_changes(changes: &Vec<Change>, min: &str, max: &str) -> (r: String)
    ensures
        r@ == applied_status(changes_of(changes@), min@, max@),
{
    if changes.len() == 0 {
        return "No changes detected".to_owned();
    }
    let ghost texts = changes_of(changes@).map_values(|c: Changed| change_text(c, min@, max@));
    let mut parts: Vec<String> = Vec::new();
    let mut i: usize = 0;
    while i < changes.len()
        invariant
            i <= changes@.len(),
            texts == changes_of(changes@).map_values(|c: Changed| change_text(c, min@, max@)),
            strings_view(parts@) == texts.take(i as int),
        decreases changes@.len() - i,
    {
        push_line(&mut parts, changes[i].describe(min, max));
        i = i + 1;
        assert(strings_view(parts@) =~= texts.take(i as int));
    }
    assert(texts.take(i as int) =~= texts);
    let mut r = "Applied: ".to_owned();
    push_str(&mut r, join_exec(&parts, ", ").as_str());
    r
}

// ---------------------------------------------------------------------------
// Names accepted for colormaps, view modes and projections
// ---------------------------------------------------------------------------

/// The colormap a name selects.
pub open spec fn colormap_named(n: Seq<char>) -> Option<Colormap> {
    if n == "Viridis"@ || n == "viridis"@ {
        Some(Colormap::Viridis)
    } else if n == "Plasma"@ || n == "plasma"@ {
        Some(Colormap::Plasma)
    } else if n == "Inferno"@ || n == "inferno"@ {
        Some(Colormap::Inferno)
    } else if n == "Magma"@ || n == "magma"@ {
        Some(Colormap::Magma)
    } else if n == "Cividis"@ || n == "cividis"@ {
        Some(Colormap::Cividis)
    } else if n == "Turbo"@ || n == "turbo"@ {
        Some(Colormap::Turbo)
    } else if n == "RdBu_r"@ || n == "rdbu_r"@ {
        Some(Colormap::RdBuR)
    } else if n == "Coolwarm"@ || n == "coolwarm"@ {
        Some(Colormap::Coolwarm)
    } else if n == "Spectral"@ {
        Some(Colormap::Spectral)
    } else if n == "BrBG"@ {
        Some(Colormap::BrBG)
    } else {
        None
    }
}

/// The view mode a name selects.
pub open spec fn view_mode_named(n: Seq<char>) -> Option<ViewMode> {
    if n == "Globe"@ || n == "globe"@ {
        Some(ViewMode::Globe)
    } else if n == "Map"@ || n == "map"@ {
        Some(ViewMode::MapView)
    } else if n == "Hovmoller"@ || n == "hovmoller"@ {
        Some(ViewMode::Hovmoller)
    } else if n == "Spectrum"@ || n == "spectrum"@ {
        Some(ViewMode::Spectrum)
    } else if n == "CrossSection"@ || n == "cross_section"@ {
        Some(ViewMode::CrossSection)
    } else if n == "Profile"@ || n == "profile"@ {
        Some(ViewMode::Profile)
    } else {
        None
    }
}

/// The projection a name selects.
pub open spec fn projection_named(n: Seq<char>) -> Option<MapProjection> {
    if n == "Equirectangular"@ || n == "equirectangular"@ || n == "PlateCarree"@ {
        Some(MapProjection::Equirectangular)
    } else if n == "Mollweide"@ || n == "mollweide"@ {
        Some(MapProjection::Mollweide)
    } else if n == "PolarNorth"@ || n == "NorthPolarStereo"@ {
        Some(MapProjection::PolarNorth)
    } else if n == "PolarSouth"@ || n == "SouthPolarStereo"@ {
        Some(MapProjection::PolarSouth)
    } else {
        None
    }
}

/// Map a colormap name string to a `Colormap`.
pub fn name_to_colormap(name: &str) -> (r: Option<Colormap>)
    ensures
        r == colormap_named(name@),
{
    if str_eq(name, "Viridis") || str_eq(name, "viridis") {
        Some(Colormap::Viridis)
    } else if str_eq(name, "Plasma") || str_eq(name, "plasma") {
        Some(Colormap::Plasma)
    } else if str_eq(name, "Inferno") || str_eq(name, "inferno") {
        Some(Colormap::Inferno)
    } else if str_eq(name, "Magma") || str_eq(name, "magma") {
        Some(Colormap::Magma)
    } else if str_eq(name, "Cividis") || str_eq(name, "cividis") {
        Some(Colormap::Cividis)
    } else if str_eq(name, "Turbo") || str_eq(name, "turbo") {
        Some(Colormap::Turbo)
    } else if str_eq(name, "RdBu_r") || str_eq(name, "rdbu_r") {
        Some(Colormap::RdBuR)
    } else if str_eq(name, "Coolwarm") || str_eq(name, "coolwarm") {
        Some(Colormap::Coolwarm)
    } else if str_eq(name, "Spectral") {
        Some(Colormap::Spectral)
    } else if str_eq(name, "BrBG") {
        Some(Colormap::BrBG)
    } else {
        None
    }
}

/// Map a view mode name string to a `ViewMode`.
pub fn name_to_view_mode(name: &str) -> (r: Option<ViewMode>)
    ensures
        r == view_mode_named(name@),
{
    if str_eq(name, "Globe") || str_eq(name, "globe") {
        Some(ViewMode::Globe)
    } else if str_eq(name, "Map") || str_eq(name, "map") {
        Some(ViewMode::MapView)
    } else if str_eq(name, "Hovmoller") || str_eq(name, "hovmoller") {
        Some(ViewMode::Hovmoller)
    } else if str_eq(name, "Spectrum") || str_eq(name, "spectrum") {
        Some(ViewMode::Spectrum)
    } else if str_eq(name, "CrossSection") || str_eq(name, "cross_section") {
        Some(ViewMode::CrossSection)
    } else if str_eq(name, "Profile") || str_eq(name, "profile") {
        Some(ViewMode::Profile)
    } else {
        None
    }
}

/// Map a projection name string to a `MapProjection`.
pub fn name_to_projection(name: &str) -> (r: Option<MapProjection>)
    ensures
        r == projection_named(name@),
{
    if str_eq(name, "Equirectangular") || str_eq(name, "equirectangular") || str_eq(
        name,
        "PlateCarree",
    ) {
        Some(MapProjection::Equirectangular)
    } else if str_eq(name, "Mollweide") || str_eq(name, "mollweide") {
        Some(MapProjection::Mollweide)
    } else if str_eq(name, "PolarNorth") || str_eq(name, "NorthPolarStereo") {
        Some(MapProjection::PolarNorth)
    } else if str_eq(name, "PolarSouth") || str_eq(name, "SouthPolarStereo") {
        Some(MapProjection::PolarSouth)
    } else {
        None
    }
}

/// The label a colormap is shown under selects that colormap.
pub proof fn lemma_colormap_label_selects(c: Colormap)
    ensures
        colormap_named(colormap_label(c)) == Some(c),
{
    reveal_strlit("Viridis");
    assert("Viridis"@.len() == 7 && "Viridis"@[0] == 'V');
    reveal_strlit("viridis");
    assert("viridis"@.len() == 7 && "viridis"@[0] == 'v');
    reveal_strlit("Plasma");
    assert("Plasma"@.len() == 6 && "Plasma"@[0] == 'P');
    reveal_strlit("plasma");
    assert("plasma"@.len() == 6 && "plasma"@[0] == 'p');
    reveal_strlit("Inferno");
    assert("Inferno"@.len() == 7 && "Inferno"@[0] == 'I');
    reveal_strlit("inferno");
    assert("inferno"@.len() == 7 && "inferno"@[0] == 'i');
    reveal_strlit("Magma");
    assert("Magma"@.len() == 5 && "Magma"@[0] == 'M');
    reveal_strlit("magma");
    assert("magma"@.len() == 5 && "magma"@[0] == 'm');
    reveal_strlit("Cividis");
    assert("Cividis"@.len() == 7 && "Cividis"@[0] == 'C');
    reveal_strlit("cividis");
    assert("cividis"@.len() == 7 && "cividis"@[0] == 'c');
    reveal_strlit("Turbo");
    assert("Turbo"@.len() == 5 && "Turbo"@[0] == 'T');
    reveal_strlit("turbo");
    assert("turbo"@.len() == 5 && "turbo"@[0] == 't');
    reveal_strlit("RdBu_r");
    assert("RdBu_r"@.len() == 6 && "RdBu_r"@[0] == 'R');
    reveal_strlit("rdbu_r");
    assert("rdbu_r"@.len() == 6 && "rdbu_r"@[0] == 'r');
    reveal_strlit("Coolwarm");
    assert("Coolwarm"@.len() == 8 && "Coolwarm"@[0] == 'C');
    reveal_strlit("coolwarm");
    assert("coolwarm"@.len() == 8 && "coolwarm"@[0] == 'c');
    reveal_strlit("Spectral");
    assert("Spectral"@.len() == 8 && "Spectral"@[0] == 'S');
    reveal_strlit("BrBG");
    assert("BrBG"@.len() == 4 && "BrBG"@[0] == 'B');
}

/// The name a view mode is reported under selects that view mode.
pub proof fn lemma_view_mode_name_selects(v: ViewMode)
    ensures
        view_mode_named(view_mode_debug(v)) == Some(v),
{
    reveal_strlit("Globe");
    assert("Globe"@.len() == 5 && "Globe"@[0] == 'G');
    reveal_strlit("globe");
    assert("globe"@.len() == 5 && "globe"@[0] == 'g');
    reveal_strlit("Map");
    assert("Map"@.len() == 3 && "Map"@[0] == 'M');
    reveal_strlit("map");
    assert("map"@.len() == 3 && "map"@[0] == 'm');
    reveal_strlit("Hovmoller");
    assert("Hovmoller"@.len() == 9 && "Hovmoller"@[0] == 'H');
    reveal_strlit("hovmoller");
    assert("hovmoller"@.len() == 9 && "hovmoller"@[0] == 'h');
    reveal_strlit("Spectrum");
    assert("Spectrum"@.len() == 8 && "Spectrum"@[0] == 'S');
    reveal_strlit("spectrum");
    assert("spectrum"@.len() == 8 && "spectrum"@[0] == 's');
    reveal_strlit("CrossSection");
    assert("CrossSection"@.len() == 12 && "CrossSection"@[0] == 'C');
    reveal_strlit("cross_section");
    assert("cross_section"@.len() == 13 && "cross_section"@[0] == 'c');
    reveal_strlit("Profile");
    assert("Profile"@.len() == 7 && "Profile"@[0] == 'P');
    reveal_strlit("profile");
    assert("profile"@.len() == 7 && "profile"@[0] == 'p');
}

/// The name a projection is reported under selects that projection.
pub proof fn lemma_projection_name_selects(p: MapProjection)
    ensures
        projection_named(projection_debug(p)) == Some(p),
{
    reveal_strlit("Equirectangular");
    assert("Equirectangular"@.len() == 15 && "Equirectangular"@[0] == 'E');
    reveal_strlit("equirectangular");
    assert("equirectangular"@.len() == 15 && "equirectangular"@[0] == 'e');
    reveal_strlit("PlateCarree");
    assert("PlateCarree"@.len() == 11 && "PlateCarree"@[0] == 'P');
    reveal_strlit("Mollweide");
    assert("Mollweide"@.len() == 9 && "Mollweide"@[0] == 'M');
    reveal_strlit("mollweide");
    assert("mollweide"@.len() == 9 && "mollweide"@[0] == 'm');
    reveal_strlit("PolarNorth");
    assert("PolarNorth"@.len() == 10 && "PolarNorth"@[0] == 'P');
    assert("PolarNorth"@[5] == 'N');
    reveal_strlit("NorthPolarStereo");
    assert("NorthPolarStereo"@.len() == 16 && "NorthPolarStereo"@[0] == 'N');
    reveal_strlit("PolarSouth");
    assert("PolarSouth"@.len() == 10 && "PolarSouth"@[0] == 'P');
    assert("PolarSouth"@[5] == 'S');
    reveal_strlit("SouthPolarStereo");
    assert("SouthPolarStereo"@.len() == 16 && "SouthPolarStereo"@[0] == 'S');
}

// ---------------------------------------------------------------------------
// Selecting a variable by name
// ---------------------------------------------------------------------------

/// The variable of the active file that a request for `name` selects: the
/// first one so named, when it is not already the selected one.
pub open spec fn selection_for(ds: DataStore, name: Seq<char>) -> Option<(int, int)> {
    match ds.active_file {
        Some(fi) => if fi < ds.files.len() {
            match first_index(var_names(ds.files[fi as int].variables@), name) {
                Some(idx) => if ds.files[fi as int].selected_variable != Some(idx as usize) {
                    Some((fi as int, idx))
                } else {
                    None
                },
                None => None,
            }
        } else {
            None
        },
        None => None,
    }
}

/// The files of `ds` with variable `vi` of file `fi` selected.
pub open spec fn with_selection(ds: DataStore, fi: int, vi: int) -> Seq<OpenFile> {
    ds.files@.update(fi, OpenFile { selected_variable: Some(vi as usize), ..ds.files@[fi] })
}

/// The files of `ds` after `select_variable_named`.
pub open spec fn after_selection(ds: DataStore, name: Seq<char>) -> Seq<OpenFile> {
    match selection_for(ds, name) {
        Some((fi, vi)) => with_selection(ds, fi, vi),
        None => ds.files@,
    }
}

/// Selects the first variable named `name` in the active file, unless it is
/// already selected; returns the (file, variable) whose field must be loaded.
pub fn select_variable_named(ds: &mut DataStore, name: &str) -> (r: Option<(usize, usize)>)
    ensures
        r matches Some((fi, vi)) ==> selection_for(*old(ds), name@) == Some((fi as int, vi as int)),
        r is None ==> selection_for(*old(ds), name@) is None,
        final(ds).files@ == after_selection(*old(ds), name@),
        final(ds).active_file == old(ds).active_file,
{
    let fi = match ds.active_file {
        Some(fi) => fi,
        None => return None,
    };
    if fi >= ds.files.len() {
        return None;
    }
    let idx = match position_of_name(&ds.files[fi].variables, name) {
        Some(idx) => idx,
        None => return None,
    };
    if ds.files[fi].selected_variable == Some(idx) {
        return None;
    }
    ds.files[fi].selected_variable = Some(idx);
    Some((fi, idx))
}

/// Once a variable was selected by name, selecting it again by the same
/// name selects nothing.
pub proof fn lemma_selection_idempotent(ds: DataStore, ds2: DataStore, name: Seq<char>)
    requires
        ds2.files@ == after_selection(ds, name),
        ds2.active_file == ds.active_file,
    ensures
        selection_for(ds2, name) is None,
{
    if let Some((fi, vi)) = selection_for(ds, name) {
        assert(ds2.files@[fi].variables == ds.files@[fi].variables);
        assert(ds2.files@[fi].selected_variable == Some(vi as usize));
    }
}

// ---------------------------------------------------------------------------
// Applying settings one by one
// ---------------------------------------------------------------------------

/// The UI state and change list while applying settings.
pub type Step = (UiState, Seq<Changed>);

pub open spec fn step_time(s: Step, t: Option<usize>) -> Step {
    match t {
        Some(t) => if s.0.time_index != t {
            (UiState { time_index: t, ..s.0 }, s.1.push(Changed::Time(t)))
        } else {
            s
        },
        None => s,
    }
}

pub open spec fn step_level(s: Step, l: Option<usize>) -> Step {
    match l {
        Some(l) => if s.0.level_index != l {
            (UiState { level_index: l, ..s.0 }, s.1.push(Changed::Level(l)))
        } else {
            s
        },
        None => s,
    }
}

/// Selecting colormap `cm`, requested by the name `name`.
pub open spec fn step_colormap(s: Step, name: Option<Seq<char>>, cm: Option<Colormap>) -> Step {
    match (name, cm) {
        (Some(n), Some(cm)) => if s.0.colormap != cm {
            (UiState { colormap: cm, ..s.0 }, s.1.push(Changed::Colormap(n)))
        } else {
            s
        },
        _ => s,
    }
}

pub open spec fn step_range(s: Step, vmin: Option<F32Bits>, vmax: Option<F32Bits>) -> Step {
    if vmin is Some || vmax is Some {
        let lo = match vmin {
            Some(v) => v,
            None => s.0.manual_min,
        };
        let hi = match vmax {
            Some(v) => v,
            None => s.0.manual_max,
        };
        (
            UiState { manual_min: lo, manual_max: hi, range_mode: RangeMode::Manual, ..s.0 },
            s.1.push(Changed::Range),
        )
    } else {
        s
    }
}

/// Selecting view mode `m`, requested by the name `name`.
pub open spec fn step_view(s: Step, name: Option<Seq<char>>, m: Option<ViewMode>) -> Step {
    match (name, m) {
        (Some(n), Some(m)) => if s.0.view_mode != m {
            (UiState { view_mode: m, ..s.0 }, s.1.push(Changed::View(n)))
        } else {
            s
        },
        _ => s,
    }
}

/// Selecting projection `p`, requested by the name `name`.
pub open spec fn step_projection(s: Step, name: Option<Seq<char>>, p: Option<MapProjection>) -> Step {
    match (name, p) {
        (Some(n), Some(p)) => if s.0.map_projection != p {
            (UiState { map_projection: p, ..s.0 }, s.1.push(Changed::Projection(n)))
        } else {
            s
        },
        _ => s,
    }
}

pub open spec fn step_contour(s: Step, c: Option<bool>) -> Step {
    match c {
        Some(e) => if s.0.contour_enabled != e {
            (UiState { contour_enabled: e, ..s.0 }, s.1.push(Changed::Contour(e)))
        } else {
            s
        },
        None => s,
    }
}

pub open spec fn step_vector(s: Step, v: Option<bool>) -> Step {
    match v {
        Some(e) => if s.0.vector_overlay_enabled != e {
            (UiState { vector_overlay_enabled: e, ..s.0 }, s.1.push(Changed::Vector(e)))
        } else {
            s
        },
        None => s,
    }
}

pub open spec fn step_streamline(s: Step, v: Option<bool>) -> Step {
    match v {
        Some(e) => if s.0.streamline_enabled != e {
            (UiState { streamline_enabled: e, ..s.0 }, s.1.push(Changed::Streamline(e)))
        } else {
            s
        },
        None => s,
    }
}

pub open spec fn step_overlays(s: Step, c: Option<bool>, v: Option<bool>, st: Option<bool>) -> Step {
    step_streamline(step_vector(step_contour(s, c), v), st)
}

pub open spec fn step_cutoff(s: Step, n: Option<usize>) -> Step {
    match n {
        Some(n) => if s.0.wavenumber_cutoff != n {
            (
                UiState { wavenumber_cutoff: n, wavenumber_filter_enabled: true, ..s.0 },
                s.1.push(Changed::WavenumberCutoff(n)),
            )
        } else {
            s
        },
        None => s,
    }
}

pub fn apply_time(ui: &mut UiState, changes: &mut Vec<Change>, t: Option<usize>)
    ensures
        (*final(ui), changes_of(final(changes)@)) == step_time((*old(ui), changes_of(old(changes)@)), t),
{
    if let Some(t) = t {
        if ui.time_index != t {
            ui.time_index = t;
            push_change(changes, Change::Time(t));
        }
    }
}

pub fn apply_level(ui: &mut UiState, changes: &mut Vec<Change>, l: Option<usize>)
    ensures
        (*final(ui), changes_of(final(changes)@)) == step_level((*old(ui), changes_of(old(changes)@)), l),
{
    if let Some(l) = l {
        if ui.level_index != l {
            ui.level_index = l;
            push_change(changes, Change::Level(l));
        }
    }
}

pub fn apply_colormap(ui: &mut UiState, changes: &mut Vec<Change>, name: &Option<String>, cm: Option<Colormap>)
    ensures
        (*final(ui), changes_of(final(changes)@)) == step_colormap((*old(ui), changes_of(old(changes)@)), opt_view(*name), cm),
{
    if let Some(n) = name {
        if let Some(cm) = cm {
            if ui.colormap != cm {
                ui.colormap = cm;
                push_change(changes, Change::Colormap(n.clone()));
            }
        }
    }
}

pub fn apply_range(ui: &mut UiState, changes: &mut Vec<Change>, vmin: Option<F32Bits>, vmax: Option<F32Bits>)
    ensures
        (*final(ui), changes_of(final(changes)@)) == step_range((*old(ui), changes_of(old(changes)@)), vmin, vmax),
{
    if vmin.is_some() || vmax.is_some() {
        if let Some(v) = vmin {
            ui.manual_min = v;
        }
        if let Some(v) = vmax {
            ui.manual_max = v;
        }
        ui.range_mode = RangeMode::Manual;
        push_change(changes, Change::Range);
    }
}

pub fn apply_view(ui: &mut UiState, changes: &mut Vec<Change>, name: &Option<String>, m: Option<ViewMode>)
    ensures
        (*final(ui), changes_of(final(changes)@)) == step_view((*old(ui), changes_of(old(changes)@)), opt_view(*name), m),
{
    if let Some(n) = name {
        if let Some(m) = m {
            if ui.view_mode != m {
                ui.view_mode = m;
                push_change(changes, Change::View(n.clone()));
            }
        }
    }
}

pub fn apply_projection(
    ui: &mut UiState,
    changes: &mut Vec<Change>,
    name: &Option<String>,
    p: Option<MapProjection>,
)
    ensures
        (*final(ui), changes_of(final(changes)@)) == step_projection((*old(ui), changes_of(old(changes)@)), opt_view(*name), p),
{
    if let Some(n) = name {
        if let Some(p) = p {
            if ui.map_projection != p {
                ui.map_projection = p;
                push_change(changes, Change::Projection(n.clone()));
            }
        }
    }
}

fn apply_contour(ui: &mut UiState, changes: &mut Vec<Change>, c: Option<bool>)
    ensures
        (*final(ui), changes_of(final(changes)@)) == step_contour((*old(ui), changes_of(old(changes)@)), c),
{
    if let Some(e) = c {
        if ui.contour_enabled != e {
            ui.contour_enabled = e;
            push_change(changes, Change::Contour(e));
        }
    }
}

fn apply_vector(ui: &mut UiState, changes: &mut Vec<Change>, v: Option<bool>)
    ensures
        (*final(ui), changes_of(final(changes)@)) == step_vector((*old(ui), changes_of(old(changes)@)), v),
{
    if let Some(e) = v {
        if ui.vector_overlay_enabled != e {
            ui.vector_overlay_enabled = e;
            push_change(changes, Change::Vector(e));
        }
    }
}

fn apply_streamline(ui: &mut UiState, changes: &mut Vec<Change>, st: Option<bool>)
    ensures
        (*final(ui), changes_of(final(changes)@)) == step_streamline((*old(ui), changes_of(old(changes)@)), st),
{
    if let Some(e) = st {
        if ui.streamline_enabled != e {
            ui.streamline_enabled = e;
            push_change(changes, Change::Streamline(e));
        }
    }
}

pub fn apply_overlays(
    ui: &mut UiState,
    changes: &mut Vec<Change>,
    c: Option<bool>,
    v: Option<bool>,
    st: Option<bool>,
)
    ensures
        (*final(ui), changes_of(final(changes)@)) == step_overlays((*old(ui), changes_of(old(changes)@)), c, v, st),
{
    apply_contour(ui, changes, c);
    apply_vector(ui, changes, v);
    apply_streamline(ui, changes, st);
}

pub fn apply_cutoff(ui: &mut UiState, changes: &mut Vec<Change>, n: Option<usize>)
    ensures
        (*final(ui), changes_of(final(changes)@)) == step_cutoff((*old(ui), changes_of(old(changes)@)), n),
{
    if let Some(n) = n {
        if ui.wavenumber_cutoff != n {
            ui.wavenumber_cutoff = n;
            ui.wavenumber_filter_enabled = true;
            push_change(changes, Change::WavenumberCutoff(n));
        }
    }
}

} // verus!
