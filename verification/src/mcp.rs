//! The command bridge: the commands an external controller sends, the
//! settings they amount to, and the status and variable reports sent back.
use vstd::prelude::*;

use crate::data::{active_file_of, active_open_file, file_name, file_name_exec, opt_view, DataStore, OpenFile, VariableInfo};
use crate::numeric::{decimal, usize_to_chars, F32Bits};
use crate::script::{apply_script_spec, no_settings, ScriptModel, ScriptSettings};
use crate::settings::{colormap_named, projection_named, view_mode_named, Changed};
use crate::text::{join, join_exec, push_chars, push_line, push_str, str_eq, string_from_chars, strings_view, chars_of};
use crate::ui::{colormap_label, projection_debug, range_mode_debug, view_mode_debug, RangeMode, UiState};

verus! {

broadcast use vstd::string::group_string_axioms;

/// Commands sent from the bridge.  The bounds of `SetRange` are the `f32`
/// values that the colour range takes.
#[derive(Debug)]
pub enum McpCommand {
    GetStatus,
    OpenFile { path: String },
    ListVariables,
    SetVariable { name: String },
    SetView { mode: String },
    SetColormap { name: String },
    SetTime { index: usize },
    SetLevel { index: usize },
    SetProjection { name: String },
    SetRange { min: F32Bits, max: F32Bits },
    ToggleOverlay { name: String, enabled: bool },
    Play,
    Pause,
}

/// The settings a command amounts to, for the commands that change settings.
pub open spec fn bridge_settings(cmd: McpCommand) -> Option<ScriptModel> {
    let none = no_settings();
    match cmd {
        McpCommand::SetVariable { name } => Some(ScriptModel { variable_name: Some(name@), ..none }),
        McpCommand::SetView { mode } => Some(ScriptModel { view_mode: Some(mode@), ..none }),
        McpCommand::SetColormap { name } => Some(ScriptModel { colormap: Some(name@), ..none }),
        McpCommand::SetTime { index } => Some(ScriptModel { time_index: Some(index as i64), ..none }),
        McpCommand::SetLevel { index } => Some(ScriptModel { level_index: Some(index as i64), ..none }),
        McpCommand::SetProjection { name } => Some(ScriptModel { projection: Some(name@), ..none }),
        McpCommand::SetRange { min, max } => Some(ScriptModel { vmin: Some(min), vmax: Some(max), ..none }),
        McpCommand::ToggleOverlay { name, enabled } => if name@ == "contour"@ || name@ == "contours"@ {
            Some(ScriptModel { contour_enabled: Some(enabled), ..none })
        } else if name@ == "vector"@ || name@ == "vectors"@ {
            Some(ScriptModel { vector_enabled: Some(enabled), ..none })
        } else if name@ == "streamline"@ || name@ == "streamlines"@ {
            Some(ScriptModel { streamline_enabled: Some(enabled), ..none })
        } else {
            None
        },
        _ => None,
    }
}

pub open spec fn opt_settings(o: Option<ScriptSettings>) -> Option<ScriptModel> {
    match o {
        Some(s) => Some(s@),
        None => None,
    }
}

/// The settings a command that changes settings amounts to; `None` for the
/// other commands and for an unknown overlay.
pub fn build_script_settings(cmd: &McpCommand) -> (r: Option<ScriptSettings>)
    ensures
        opt_settings(r) == bridge_settings(*cmd),
{
    let mut s = ScriptSettings::default();
    match cmd {
        McpCommand::SetVariable { name } => {
            s.variable_name = Some(name.clone());
        },
        McpCommand::SetView { mode } => {
            s.view_mode = Some(mode.clone());
        },
        McpCommand::SetColormap { name } => {
            s.colormap = Some(name.clone());
        },
        McpCommand::SetTime { index } => {
            s.time_index = Some(*index as i64);
        },
        McpCommand::SetLevel { index } => {
            s.level_index = Some(*index as i64);
        },
        McpCommand::SetProjection { name } => {
            s.projection = Some(name.clone());
        },
        McpCommand::SetRange { min, max } => {
            s.vmin = Some(*min);
            s.vmax = Some(*max);
        },
        McpCommand::ToggleOverlay { name, enabled } => {
            let n = name.as_str();
            if str_eq(n, "contour") || str_eq(n, "contours") {
                s.contour_enabled = Some(*enabled);
            } else if str_eq(n, "vector") || str_eq(n, "vectors") {
                s.vector_enabled = Some(*enabled);
            } else if str_eq(n, "streamline") || str_eq(n, "streamlines") {
                s.streamline_enabled = Some(*enabled);
            } else {
                return None;
            }
        },
        _ => {
            return None;
        },
    }
    Some(s)
}

// ---------------------------------------------------------------------------
// Reports
// ---------------------------------------------------------------------------

/// `name(size)`, as a dimension is reported.
pub open spec fn dim_text(d: (String, usize)) -> Seq<char> {
    d.0@ + "("@ + decimal(d.1 as nat) + ")"@
}

/// The dimensions of a variable, each as `name(size)`.
pub open spec fn dim_texts(v: VariableInfo) -> Seq<Seq<char>> {
    v.dimensions@.map_values(|d: (String, usize)| dim_text(d))
}

/// The variable selected in a file, if the selection points at one.
pub open spec fn chosen_var(f: OpenFile) -> Option<VariableInfo> {
    match f.selected_variable {
        Some(vi) => if vi < f.variables.len() {
            Some(f.variables@[vi as int])
        } else {
            None
        },
        None => None,
    }
}

/// The state of the viewer as the bridge reports it.  The data range of the
/// loaded field is added by the viewer, which holds the field.
#[derive(Debug)]
pub struct StatusReport {
    pub file: Option<String>,
    pub variable: Option<String>,
    pub dimensions: Option<String>,
    pub time_index: usize,
    pub time_steps: Option<usize>,
    pub level_index: usize,
    pub level_count: Option<usize>,
    pub view_mode: &'static str,
    pub colormap: &'static str,
    pub projection: &'static str,
    pub range_mode: &'static str,
    pub interpolated: bool,
    pub contour: bool,
    pub vector: bool,
    pub streamline: bool,
    pub trajectory: bool,
    pub wavenumber_filter: bool,
}

/// The file entry of the report: the file name of the path, or the whole
/// path when it has none.
pub open spec fn reported_file(f: OpenFile) -> Seq<char> {
    match file_name(f.path@) {
        Some(n) => n,
        None => f.path@,
    }
}

/// The report's view of the settings, which does not depend on the files.
pub open spec fn status_settings_ok(r: StatusReport, ui: UiState) -> bool {
    &&& r.time_index == ui.time_index
    &&& r.level_index == ui.level_index
    &&& r.view_mode@ == view_mode_debug(ui.view_mode)
    &&& r.colormap@ == colormap_label(ui.colormap)
    &&& r.projection@ == projection_debug(ui.map_projection)
    &&& r.range_mode@ == range_mode_debug(ui.range_mode)
    &&& r.interpolated == ui.interpolated
    &&& r.contour == ui.contour_enabled
    &&& r.vector == ui.vector_overlay_enabled
    &&& r.streamline == ui.streamline_enabled
    &&& r.trajectory == ui.trajectory_enabled
    &&& r.wavenumber_filter == ui.wavenumber_filter_enabled
}

/// The report's view of the active file.
pub open spec fn status_file_ok(r: StatusReport, ds: DataStore) -> bool {
    match active_open_file(ds) {
        Some(f) => {
            &&& opt_view(r.file) == Some(reported_file(f))
            &&& r.time_steps == f.time_steps
            &&& r.level_count == f.level_count
            &&& match chosen_var(f) {
                Some(v) => {
                    &&& opt_view(r.variable) == Some(v.name@)
                    &&& opt_view(r.dimensions) == Some(join(dim_texts(v), " × "@))
                },
                None => r.variable is None && r.dimensions is None,
            }
        },
        None => {
            &&& r.file is None
            &&& r.variable is None
            &&& r.dimensions is None
            &&& r.time_steps is None
            &&& r.level_count is None
        },
    }
}

fn dim_text_exec(d: &(String, usize)) -> (r: String)
    ensures
        r@ == dim_text(*d),
{
    let mut s = String::new();
    push_str(&mut s, d.0.as_str());
    push_str(&mut s, "(");
    push_chars(&mut s, usize_to_chars(d.1).as_slice());
    push_str(&mut s, ")");
    s
}

fn dim_texts_exec(v: &VariableInfo) -> (r: Vec<String>)
    ensures
        strings_view(r@) == dim_texts(*v),
{
    let mut out: Vec<String> = Vec::new();
    let mut i: usize = 0;
    while i < v.dimensions.len()
        invariant
            i <= v.dimensions@.len(),
            strings_view(out@) == dim_texts(*v).take(i as int),
        decreases v.dimensions@.len() - i,
    {
        push_line(&mut out, dim_text_exec(&v.dimensions[i]));
        i = i + 1;
        assert(strings_view(out@) =~= dim_texts(*v).take(i as int));
    }
    assert(dim_texts(*v).take(i as int) =~= dim_texts(*v));
    out
}

fn chosen_var_of(f: &OpenFile) -> (r: Option<&VariableInfo>)
    ensures
        match r {
            Some(v) => chosen_var(*f) == Some(*v),
            None => chosen_var(*f) is None,
        },
{
    match f.selected_variable {
        Some(vi) => if vi < f.variables.len() {
            Some(&f.variables[vi])
        } else {
            None
        },
        None => None,
    }
}

fn reported_file_exec(f: &OpenFile) -> (r: String)
    ensures
        r@ == reported_file(*f),
{
    let p = chars_of(f.path.as_str());
    match file_name_exec(p.as_slice()) {
        Some(n) => string_from_chars(n.as_slice()),
        None => f.path.clone(),
    }
}

/// Build the status report from the current state.
pub fn build_status(ui_state: &UiState, data_store: &DataStore) -> (r: StatusReport)
    ensures
        status_settings_ok(r, *ui_state),
        status_file_ok(r, *data_store),
{
    let mut file: Option<String> = None;
    let mut variable: Option<String> = None;
    let mut dimensions: Option<String> = None;
    let mut time_steps: Option<usize> = None;
    let mut level_count: Option<usize> = None;
    if let Some(f) = active_file_of(data_store) {
        file = Some(reported_file_exec(f));
        if let Some(v) = chosen_var_of(f) {
            variable = Some(v.name.clone());
            dimensions = Some(join_exec(&dim_texts_exec(v), " × "));
        }
        time_steps = f.time_steps;
        level_count = f.level_count;
    }
    StatusReport {
        file,
        variable,
        dimensions,
        time_index: ui_state.time_index,
        time_steps,
        level_index: ui_state.level_index,
        level_count,
        view_mode: ui_state.view_mode.debug_name(),
        colormap: ui_state.colormap.label(),
        projection: ui_state.map_projection.debug_name(),
        range_mode: ui_state.range_mode.debug_name(),
        interpolated: ui_state.interpolated,
        contour: ui_state.contour_enabled,
        vector: ui_state.vector_overlay_enabled,
        streamline: ui_state.streamline_enabled,
        trajectory: ui_state.trajectory_enabled,
        wavenumber_filter: ui_state.wavenumber_filter_enabled,
    }
}

/// One variable of the variable list.
#[derive(Debug)]
pub struct VariableEntry {
    pub index: usize,
    pub name: String,
    pub long_name: Option<String>,
    pub units: Option<String>,
    pub standard_name: Option<String>,
    pub dimensions: Vec<String>,
    pub selected: bool,
}

/// The variables of the active file, as the bridge lists them; `file` is
/// `None`, and the list empty, when no file is active.
#[derive(Debug)]
pub struct VariableList {
    pub file: Option<String>,
    pub variables: Vec<VariableEntry>,
}

/// An entry describes variable `i` of file `f`.
pub open spec fn entry_of(e: VariableEntry, f: OpenFile, i: int) -> bool {
    let v = f.variables@[i];
    &&& e.index == i
    &&& e.name@ == v.name@
    &&& opt_view(e.long_name) == opt_view(v.long_name)
    &&& opt_view(e.units) == opt_view(v.units)
    &&& opt_view(e.standard_name) == opt_view(v.standard_name)
    &&& strings_view(e.dimensions@) == dim_texts(v)
    &&& e.selected == (f.selected_variable == Some(i as usize))
}

pub open spec fn variable_list_ok(r: VariableList, ds: DataStore) -> bool {
    match active_open_file(ds) {
        Some(f) => {
            &&& opt_view(r.file) == Some(f.path@)
            &&& r.variables.len() == f.variables.len()
            &&& forall|i: int| 0 <= i < f.variables.len() ==> entry_of(#[trigger] r.variables@[i], f, i)
        },
        None => r.file is None && r.variables.len() == 0,
    }
}

fn clone_opt(o: &Option<String>) -> (r: Option<String>)
    ensures
        opt_view(r) == opt_view(*o),
{
    match o {
        Some(s) => Some(s.clone()),
        None => None,
    }
}

fn entry_exec(f: &OpenFile, i: usize) -> (r: VariableEntry)
    requires
        i < f.variables.len(),
    ensures
        entry_of(r, *f, i as int),
{
    let v = &f.variables[i];
    VariableEntry {
        index: i,
        name: v.name.clone(),
        long_name: clone_opt(&v.long_name),
        units: clone_opt(&v.units),
        standard_name: clone_opt(&v.standard_name),
        dimensions: dim_texts_exec(v),
        selected: f.selected_variable == Some(i),
    }
}

/// Build the variable list of the active file.
pub fn build_variable_list(data_store: &DataStore) -> (r: VariableList)
    ensures
        variable_list_ok(r, *data_store),
{
    match active_file_of(data_store) {
        Some(f) => {
            let mut vars: Vec<VariableEntry> = Vec::new();
            let mut i: usize = 0;
            while i < f.variables.len()
                invariant
                    i <= f.variables@.len(),
                    vars@.len() == i,
                    forall|j: int| 0 <= j < i ==> entry_of(#[trigger] vars@[j], *f, j),
                decreases f.variables@.len() - i,
            {
                vars.push(entry_exec(f, i));
                i = i + 1;
            }
            VariableList { file: Some(f.path.clone()), variables: vars }
        },
        None => VariableList { file: None, variables: Vec::new() },
    }
}

/// What a status report taken after a command shows of the setting that the
/// command writes; a name that selects nothing leaves the setting of `ui`.
pub open spec fn reports_command(r: StatusReport, cmd: McpCommand, ui: UiState) -> bool {
    match cmd {
        McpCommand::SetTime { index } => r.time_index == index,
        McpCommand::SetLevel { index } => r.level_index == index,
        McpCommand::SetColormap { name } => r.colormap@ == colormap_label(
            match colormap_named(name@) {
                Some(c) => c,
                None => ui.colormap,
            },
        ),
        McpCommand::SetView { mode } => r.view_mode@ == view_mode_debug(
            match view_mode_named(mode@) {
                Some(m) => m,
                None => ui.view_mode,
            },
        ),
        McpCommand::SetProjection { name } => r.projection@ == projection_debug(
            match projection_named(name@) {
                Some(p) => p,
                None => ui.map_projection,
            },
        ),
        McpCommand::SetRange { .. } => r.range_mode@ == range_mode_debug(RangeMode::Manual),
        McpCommand::ToggleOverlay { name, enabled } => if name@ == "contour"@ || name@ == "contours"@ {
            r.contour == enabled
        } else if name@ == "vector"@ || name@ == "vectors"@ {
            r.vector == enabled
        } else if name@ == "streamline"@ || name@ == "streamlines"@ {
            r.streamline == enabled
        } else {
            true
        },
        _ => true,
    }
}

/// A status report taken after a setting command has been applied shows the
/// value the command wrote (indices up to `i64::MAX`: a larger index
/// wraps to a negative script index, which reads as 0).
pub proof fn lemma_status_reports_command(
    cmd: McpCommand,
    st: ScriptSettings,
    ui: UiState,
    vc: Seq<Changed>,
    r: StatusReport,
)
    requires
        bridge_settings(cmd) == Some(st@),
        cmd matches McpCommand::SetTime { index } ==> index <= i64::MAX,
        cmd matches McpCommand::SetLevel { index } ==> index <= i64::MAX,
        status_settings_ok(r, apply_script_spec(st, ui, vc).0),
    ensures
        reports_command(r, cmd, ui),
{
}

} // verus!
