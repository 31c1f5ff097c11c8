//! Settings collected from a script (or a bridge command) and how they are
//! applied to the UI state.
use vstd::prelude::*;

use crate::data::{opt_view, DataStore};
use crate::numeric::F32Bits;
use crate::settings::{
    after_selection, apply_colormap, apply_cutoff, apply_level, apply_overlays, apply_projection,
    apply_range, apply_time, apply_view, colormap_named, name_to_colormap, name_to_projection,
    name_to_view_mode, projection_named, select_variable_named, selection_for, step_colormap,
    step_contour, step_cutoff, step_level, step_overlays, step_streamline, step_vector, step_projection, step_range, step_time, step_view,
    view_mode_named, push_change, changes_of, Applied, Change, Changed, Step,
};
use crate::ui::{Colormap, MapProjection, RangeMode, UiState, ViewMode};

verus! {

broadcast use vstd::string::group_string_axioms;

/// Settings extracted from a script execution.  The range bounds are held as
/// the `f32` values the colour range takes.
#[derive(Debug, Clone)]
pub struct ScriptSettings {
    pub variable_name: Option<String>,
    pub time_index: Option<i64>,
    pub level_index: Option<i64>,
    pub colormap: Option<String>,
    pub view_mode: Option<String>,
    pub projection: Option<String>,
    pub vmin: Option<F32Bits>,
    pub vmax: Option<F32Bits>,
    pub contour_enabled: Option<bool>,
    pub vector_enabled: Option<bool>,
    pub streamline_enabled: Option<bool>,
    pub wavenumber_cutoff: Option<i64>,
}

/// The model of `ScriptSettings`: its texts as character sequences.
pub struct ScriptModel {
    pub variable_name: Option<Seq<char>>,
    pub time_index: Option<i64>,
    pub level_index: Option<i64>,
    pub colormap: Option<Seq<char>>,
    pub view_mode: Option<Seq<char>>,
    pub projection: Option<Seq<char>>,
    pub vmin: Option<F32Bits>,
    pub vmax: Option<F32Bits>,
    pub contour_enabled: Option<bool>,
    pub vector_enabled: Option<bool>,
    pub streamline_enabled: Option<bool>,
    pub wavenumber_cutoff: Option<i64>,
}

impl View for ScriptSettings {
    type V = ScriptModel;

    open spec fn view(&self) -> ScriptModel {
        ScriptModel {
            variable_name: opt_view(self.variable_name),
            time_index: self.time_index,
            level_index: self.level_index,
            colormap: opt_view(self.colormap),
            view_mode: opt_view(self.view_mode),
            projection: opt_view(self.projection),
            vmin: self.vmin,
            vmax: self.vmax,
            contour_enabled: self.contour_enabled,
            vector_enabled: self.vector_enabled,
            streamline_enabled: self.streamline_enabled,
            wavenumber_cutoff: self.wavenumber_cutoff,
        }
    }
}

/// Settings that set nothing.
pub open spec fn no_settings() -> ScriptModel {
    ScriptModel {
        variable_name: None,
        time_index: None,
        level_index: None,
        colormap: None,
        view_mode: None,
        projection: None,
        vmin: None,
        vmax: None,
        contour_enabled: None,
        vector_enabled: None,
        streamline_enabled: None,
        wavenumber_cutoff: None,
    }
}

impl Default for ScriptSettings {
    fn default() -> (r: Self)
        ensures
            r@ == no_settings(),
    {
        ScriptSettings {
            variable_name: None,
            time_index: None,
            level_index: None,
            colormap: None,
            view_mode: None,
            projection: None,
            vmin: None,
            vmax: None,
            contour_enabled: None,
            vector_enabled: None,
            streamline_enabled: None,
            wavenumber_cutoff: None,
        }
    }
}

/// A call of one of the functions that scripts can use.
#[derive(Debug)]
pub enum ScriptCall {
    SetVariable(String),
    SetTime(i64),
    SetLevel(i64),
    SetColormap(String),
    SetView(String),
    SetProjection(String),
    SetRange(F32Bits, F32Bits),
    EnableContours,
    DisableContours,
    EnableVectors,
    DisableVectors,
    EnableStreamlines,
    DisableStreamlines,
    SetWavenumberCutoff(i64),
}

/// The settings after a script function was called: each function records
/// its argument in its own setting, a later call overriding an earlier one.
pub open spec fn record_spec(m: ScriptModel, c: ScriptCall) -> ScriptModel {
    match c {
        ScriptCall::SetVariable(n) => ScriptModel { variable_name: Some(n@), ..m },
        ScriptCall::SetTime(i) => ScriptModel { time_index: Some(i), ..m },
        ScriptCall::SetLevel(i) => ScriptModel { level_index: Some(i), ..m },
        ScriptCall::SetColormap(n) => ScriptModel { colormap: Some(n@), ..m },
        ScriptCall::SetView(n) => ScriptModel { view_mode: Some(n@), ..m },
        ScriptCall::SetProjection(n) => ScriptModel { projection: Some(n@), ..m },
        ScriptCall::SetRange(lo, hi) => ScriptModel { vmin: Some(lo), vmax: Some(hi), ..m },
        ScriptCall::EnableContours => ScriptModel { contour_enabled: Some(true), ..m },
        ScriptCall::DisableContours => ScriptModel { contour_enabled: Some(false), ..m },
        ScriptCall::EnableVectors => ScriptModel { vector_enabled: Some(true), ..m },
        ScriptCall::DisableVectors => ScriptModel { vector_enabled: Some(false), ..m },
        ScriptCall::EnableStreamlines => ScriptModel { streamline_enabled: Some(true), ..m },
        ScriptCall::DisableStreamlines => ScriptModel { streamline_enabled: Some(false), ..m },
        ScriptCall::SetWavenumberCutoff(n) => ScriptModel { wavenumber_cutoff: Some(n), ..m },
    }
}

/// Records a script function call in the collected settings.
pub fn record_call(settings: &mut ScriptSettings, call: ScriptCall)
    ensures
        final(settings)@ == record_spec(old(settings)@, call),
{
    match call {
        ScriptCall::SetVariable(n) => settings.variable_name = Some(n),
        ScriptCall::SetTime(i) => settings.time_index = Some(i),
        ScriptCall::SetLevel(i) => settings.level_index = Some(i),
        ScriptCall::SetColormap(n) => settings.colormap = Some(n),
        ScriptCall::SetView(n) => settings.view_mode = Some(n),
        ScriptCall::SetProjection(n) => settings.projection = Some(n),
        ScriptCall::SetRange(lo, hi) => {
            settings.vmin = Some(lo);
            settings.vmax = Some(hi);
        },
        ScriptCall::EnableContours => settings.contour_enabled = Some(true),
        ScriptCall::DisableContours => settings.contour_enabled = Some(false),
        ScriptCall::EnableVectors => settings.vector_enabled = Some(true),
        ScriptCall::DisableVectors => settings.vector_enabled = Some(false),
        ScriptCall::EnableStreamlines => settings.streamline_enabled = Some(true),
        ScriptCall::DisableStreamlines => settings.streamline_enabled = Some(false),
        ScriptCall::SetWavenumberCutoff(n) => settings.wavenumber_cutoff = Some(n),
    }
}

/// The settings a sequence of script calls records, in order.
pub open spec fn calls_settings(calls: Seq<ScriptCall>) -> ScriptModel {
    calls.fold_left(no_settings(), |m: ScriptModel, c: ScriptCall| record_spec(m, c))
}

/// The settings that the calls a script made, in order, amount to.
pub fn settings_from_calls(calls: Vec<ScriptCall>) -> (r: ScriptSettings)
    ensures
        r@ == calls_settings(calls@),
{
    let ghost all = calls@;
    let mut rest = calls;
    let mut settings = ScriptSettings::default();
    let mut k: usize = 0;
    let n = rest.len();
    assert(all.take(0) =~= Seq::<ScriptCall>::empty());
    assert(all.skip(0) =~= all);
    while rest.len() > 0
        invariant
            k <= all.len(),
            all.len() == n,
            rest@ == all.skip(k as int),
            settings@ == calls_settings(all.take(k as int)),
        decreases rest@.len(),
    {
        let c = rest.remove(0);
        proof {
            assert(c == all[k as int]);
            assert(all.take(k as int + 1).drop_last() =~= all.take(k as int));
            assert(all.take(k as int + 1).last() == all[k as int]);
            assert(rest@ =~= all.skip(k as int + 1));
        }
        record_call(&mut settings, c);
        k = k + 1;
    }
    proof {
        assert(all.take(k as int) =~= all);
    }
    settings
}

/// A script index, negative values read as 0 (`i.max(0) as usize`).
pub open spec fn script_index(i: i64) -> usize {
    if i < 0 {
        0
    } else {
        i as usize
    }
}

/// The changes a variable request makes to the store.
pub open spec fn variable_changes(ds: DataStore, name: Option<String>) -> Seq<Changed> {
    match name {
        Some(n) => match selection_for(ds, n@) {
            Some(_) => seq![Changed::Variable(n@)],
            None => seq![],
        },
        None => seq![],
    }
}

/// The UI state and changes after applying `st`, starting from the
/// variable changes `vc`.
pub open spec fn apply_script_spec(st: ScriptSettings, ui: UiState, vc: Seq<Changed>) -> Step {
    let s = (ui, vc);
    let s = step_time(s, opt_index(st.time_index));
    let s = step_level(s, opt_index(st.level_index));
    let s = step_colormap(s, opt_view(st.colormap), opt_colormap(st.colormap));
    let s = step_range(s, st.vmin, st.vmax);
    let s = step_view(s, opt_view(st.view_mode), opt_view_mode(st.view_mode));
    let s = step_projection(s, opt_view(st.projection), opt_projection(st.projection));
    let s = step_overlays(s, st.contour_enabled, st.vector_enabled, st.streamline_enabled);
    step_cutoff(s, opt_index(st.wavenumber_cutoff))
}

pub open spec fn opt_index(i: Option<i64>) -> Option<usize> {
    match i {
        Some(i) => Some(script_index(i)),
        None => None,
    }
}

pub open spec fn opt_colormap(n: Option<String>) -> Option<Colormap> {
    match n {
        Some(n) => colormap_named(n@),
        None => None,
    }
}

pub open spec fn opt_view_mode(n: Option<String>) -> Option<ViewMode> {
    match n {
        Some(n) => view_mode_named(n@),
        None => None,
    }
}

pub open spec fn opt_projection(n: Option<String>) -> Option<MapProjection> {
    match n {
        Some(n) => projection_named(n@),
        None => None,
    }
}

fn index_from_script(i: Option<i64>) -> (r: Option<usize>)
    ensures
        r == opt_index(i),
{
    match i {
        Some(i) => if i < 0 {
            Some(0)
        } else {
            Some(i as usize)
        },
        None => None,
    }
}

fn resolve_colormap(n: &Option<String>) -> (r: Option<Colormap>)
    ensures
        r == opt_colormap(*n),
{
    match n {
        Some(n) => name_to_colormap(n.as_str()),
        None => None,
    }
}

fn resolve_view_mode(n: &Option<String>) -> (r: Option<ViewMode>)
    ensures
        r == opt_view_mode(*n),
{
    match n {
        Some(n) => name_to_view_mode(n.as_str()),
        None => None,
    }
}

fn resolve_projection(n: &Option<String>) -> (r: Option<MapProjection>)
    ensures
        r == opt_projection(*n),
{
    match n {
        Some(n) => name_to_projection(n.as_str()),
        None => None,
    }
}

/// Apply script settings to the UI state.  Returns the changes made, in
/// order, and the field to load when the variable changed.
pub fn apply_script_settings(settings: &ScriptSettings, ui_state: &mut UiState, data_store: &mut DataStore) -> (r: Applied)
    ensures
        ({
            let vc = variable_changes(*old(data_store), settings.variable_name);
            let s = apply_script_spec(*settings, *old(ui_state), vc);
            &&& *final(ui_state) == s.0
            &&& changes_of(r.changes@) == s.1
        }),
        final(data_store).files@ == (match settings.variable_name {
            Some(n) => after_selection(*old(data_store), n@),
            None => old(data_store).files@,
        }),
        final(data_store).active_file == old(data_store).active_file,
        r.load == (match settings.variable_name {
            Some(n) => match selection_for(*old(data_store), n@) {
                Some((fi, vi)) => Some((fi as usize, vi as usize)),
                None => None,
            },
            None => None,
        }),
{
    let mut changes: Vec<Change> = Vec::new();
    let mut load: Option<(usize, usize)> = None;
    if let Some(var_name) = &settings.variable_name {
        let sel = select_variable_named(data_store, var_name.as_str());
        if let Some(p) = sel {
            load = Some(p);
            push_change(&mut changes, Change::Variable(var_name.clone()));
            assert(changes_of(changes@) =~= seq![Changed::Variable(var_name@)]);
        }
    }
    assert(changes_of(changes@) =~= variable_changes(*old(data_store), settings.variable_name));
    apply_time(ui_state, &mut changes, index_from_script(settings.time_index));
    apply_level(ui_state, &mut changes, index_from_script(settings.level_index));
    apply_colormap(ui_state, &mut changes, &settings.colormap, resolve_colormap(&settings.colormap));
    apply_range(ui_state, &mut changes, settings.vmin, settings.vmax);
    apply_view(ui_state, &mut changes, &settings.view_mode, resolve_view_mode(&settings.view_mode));
    apply_projection(ui_state, &mut changes, &settings.projection, resolve_projection(&settings.projection));
    apply_overlays(
        ui_state,
        &mut changes,
        settings.contour_enabled,
        settings.vector_enabled,
        settings.streamline_enabled,
    );
    apply_cutoff(ui_state, &mut changes, index_from_script(settings.wavenumber_cutoff));
    Applied { changes, load }
}

/// The range change, when the settings set a bound.
pub open spec fn range_changes(st: ScriptSettings) -> Seq<Changed> {
    if st.vmin is Some || st.vmax is Some {
        seq![Changed::Range]
    } else {
        seq![]
    }
}

/// The UI state already holds every setting of `st` that applies.
pub open spec fn settled(st: ScriptSettings, u: UiState) -> bool {
    &&& (opt_index(st.time_index) matches Some(t) ==> u.time_index == t)
    &&& (opt_index(st.level_index) matches Some(l) ==> u.level_index == l)
    &&& (opt_colormap(st.colormap) matches Some(c) ==> u.colormap == c)
    &&& (st.vmin matches Some(v) ==> u.manual_min == v)
    &&& (st.vmax matches Some(v) ==> u.manual_max == v)
    &&& (st.vmin is Some || st.vmax is Some ==> u.range_mode == RangeMode::Manual)
    &&& (opt_view_mode(st.view_mode) matches Some(m) ==> u.view_mode == m)
    &&& (opt_projection(st.projection) matches Some(p) ==> u.map_projection == p)
    &&& (st.contour_enabled matches Some(e) ==> u.contour_enabled == e)
    &&& (st.vector_enabled matches Some(e) ==> u.vector_overlay_enabled == e)
    &&& (st.streamline_enabled matches Some(e) ==> u.streamline_enabled == e)
    &&& (opt_index(st.wavenumber_cutoff) matches Some(n) ==> u.wavenumber_cutoff == n)
}

#[verifier::rlimit(100)]
#[verifier::spinoff_prover]
proof fn lemma_apply_settles(st: ScriptSettings, ui: UiState, vc: Seq<Changed>)
    ensures
        settled(st, apply_script_spec(st, ui, vc).0),
{
    let s0 = (ui, vc);
    let s1 = step_time(s0, opt_index(st.time_index));
    let s2 = step_level(s1, opt_index(st.level_index));
    let s3 = step_colormap(s2, opt_view(st.colormap), opt_colormap(st.colormap));
    let s4 = step_range(s3, st.vmin, st.vmax);
    let s5 = step_view(s4, opt_view(st.view_mode), opt_view_mode(st.view_mode));
    let s6 = step_projection(s5, opt_view(st.projection), opt_projection(st.projection));
    let s7 = step_overlays(s6, st.contour_enabled, st.vector_enabled, st.streamline_enabled);
    let s8 = step_cutoff(s7, opt_index(st.wavenumber_cutoff));
    assert(s8 == apply_script_spec(st, ui, vc));
    assert(opt_index(st.time_index) matches Some(t) ==> s1.0.time_index == t);
    assert(opt_index(st.level_index) matches Some(l) ==> s2.0.level_index == l);
    assert(s2.0.time_index == s1.0.time_index);
    assert(opt_colormap(st.colormap) matches Some(c) ==> s3.0.colormap == c);
    assert(s3.0.time_index == s2.0.time_index && s3.0.level_index == s2.0.level_index);
    assert(s4.0.time_index == s3.0.time_index && s4.0.level_index == s3.0.level_index && s4.0.colormap
        == s3.0.colormap);
    assert(s5.0.map_projection == s4.0.map_projection && s5.0.manual_min == s4.0.manual_min
        && s5.0.manual_max == s4.0.manual_max && s5.0.range_mode == s4.0.range_mode);
    assert(s6.0.view_mode == s5.0.view_mode);
    let t1 = step_contour(s6, st.contour_enabled);
    let t2 = step_vector(t1, st.vector_enabled);
    assert(s7 == step_streamline(t2, st.streamline_enabled));
    assert(st.contour_enabled matches Some(e) ==> t1.0.contour_enabled == e);
    assert(st.vector_enabled matches Some(e) ==> t2.0.vector_overlay_enabled == e);
    assert(t2.0.contour_enabled == t1.0.contour_enabled);
    assert(s7.0.contour_enabled == t2.0.contour_enabled && s7.0.vector_overlay_enabled
        == t2.0.vector_overlay_enabled);
}

proof fn lemma_settled_unchanged(st: ScriptSettings, u: UiState, vc2: Seq<Changed>)
    requires
        settled(st, u),
    ensures
        apply_script_spec(st, u, vc2) == (u, vc2 + range_changes(st)),
{
    let s0 = (u, vc2);
    let s1 = step_time(s0, opt_index(st.time_index));
    assert(s1 == s0);
    let s2 = step_level(s1, opt_index(st.level_index));
    assert(s2 == s0);
    let s3 = step_colormap(s2, opt_view(st.colormap), opt_colormap(st.colormap));
    assert(s3 == s0);
    let s4 = step_range(s3, st.vmin, st.vmax);
    assert(s4.0 == u);
    assert(s4.1 =~= vc2 + range_changes(st));
    let s5 = step_view(s4, opt_view(st.view_mode), opt_view_mode(st.view_mode));
    assert(s5 == s4);
    let s6 = step_projection(s5, opt_view(st.projection), opt_projection(st.projection));
    assert(s6 == s4);
    let s7 = step_overlays(s6, st.contour_enabled, st.vector_enabled, st.streamline_enabled);
    assert(s7 == s4);
    let s8 = step_cutoff(s7, opt_index(st.wavenumber_cutoff));
    assert(s8 == s4);
}

/// Applying the same settings a second time leaves the UI state as the
/// first application left it, and reports no change but the range.
pub proof fn lemma_script_settings_idempotent(st: ScriptSettings, ui: UiState, vc: Seq<Changed>, vc2: Seq<Changed>)
    ensures
        ({
            let once = apply_script_spec(st, ui, vc);
            let twice = apply_script_spec(st, once.0, vc2);
            twice.0 == once.0 && twice.1 == vc2 + range_changes(st)
        }),
{
    lemma_apply_settles(st, ui, vc);
    lemma_settled_unchanged(st, apply_script_spec(st, ui, vc).0, vc2);
}

} // verus!
