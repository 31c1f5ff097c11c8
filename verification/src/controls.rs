//! Viewport keyboard shortcuts and animation playback: what a key press or
//! a clock tick does to the UI state, and which field the viewer must load
//! afterwards.  The viewer performs the load and bumps its data generation
//! when the load succeeds.
use vstd::prelude::*;

use crate::data::{
    active_level_dim, active_time_dim_len, active_variable, selections_valid, time_dim_len,
    vertical_dim, DataStore, VariableInfo,
};
use crate::inference::{detect_wind_pair, wind_pair};
use crate::ui::{UiState, ViewMode};

verus! {

/// The keys the viewport answers to.
#[derive(Debug, Clone, Copy, PartialEq, Eq, Structural)]
pub enum ViewportKey {
    /// Toggle play/pause.
    Space,
    /// Step one time index forward, wrapping around.
    ArrowRight,
    /// Step one time index back, wrapping around.
    ArrowLeft,
    /// Step one vertical level up (towards index 0).
    ArrowUp,
    /// Step one vertical level down.
    ArrowDown,
    Num1,
    Num2,
    Num3,
    Num4,
    Num5,
    Num6,
    /// Toggle grid/smooth rendering.
    G,
    /// Toggle contours.
    C,
    /// Toggle streamlines.
    V,
    /// Toggle the trajectory overlay.
    T,
}

/// A field slice the viewer should load: file, variable, time and level index.
#[derive(Debug, Clone, Copy, PartialEq, Eq, Structural)]
pub struct FieldRequest {
    pub file: usize,
    pub variable: usize,
    pub time: usize,
    pub level: usize,
}

/// What the viewer does after a key press.
#[derive(Debug, Clone, Copy, PartialEq, Eq, Structural)]
pub struct KeyOutcome {
    /// Load this slice; on success the data generation is bumped.
    pub load: Option<FieldRequest>,
    /// Bump the data generation without loading (the rendering changed).
    pub refresh: bool,
    /// Restart the playback clock.
    pub restart_clock: bool,
}

/// Time index after stepping forward once through `len` indices.
pub open spec fn wrap_next(t: usize, len: usize) -> usize {
    ((t + 1) % (len as int)) as usize
}

/// Time index after stepping back once through `len` indices.
pub open spec fn wrap_prev(t: usize, len: usize) -> usize {
    if t == 0 {
        (len - 1) as usize
    } else {
        (t - 1) as usize
    }
}

/// Level index after stepping up (levels are clamped at index 0).
pub open spec fn level_above(l: usize) -> usize {
    if l == 0 {
        0
    } else {
        (l - 1) as usize
    }
}

/// Level index after stepping down through `size` levels (clamped at the last).
pub open spec fn level_below(l: usize, size: usize) -> usize {
    if l + 1 <= size - 1 {
        (l + 1) as usize
    } else {
        (size - 1) as usize
    }
}

/// The active file and its selected variable, when both exist.
pub open spec fn selection(ds: DataStore) -> Option<(usize, usize)> {
    match ds.active_file {
        Some(fi) => if fi < ds.files.len() {
            match ds.files@[fi as int].selected_variable {
                Some(vi) => Some((fi, vi)),
                None => None,
            }
        } else {
            None
        },
        None => None,
    }
}

/// The slice of the current selection at time `t` and level `l`.
pub open spec fn load_at(ds: DataStore, t: usize, l: usize) -> Option<FieldRequest> {
    match selection(ds) {
        Some((f, v)) => Some(FieldRequest { file: f, variable: v, time: t, level: l }),
        None => None,
    }
}

/// The length of the selected variable's time dimension.
pub open spec fn time_len_of(ds: DataStore) -> Option<usize> {
    match active_variable(ds) {
        Some(v) => time_dim_len(v.dimensions@),
        None => None,
    }
}

/// The size of the selected variable's vertical dimension.
pub open spec fn level_size_of(ds: DataStore) -> Option<usize> {
    match active_variable(ds) {
        Some(v) => match vertical_dim(v.dimensions@) {
            Some(d) => Some(d.1),
            None => None,
        },
        None => None,
    }
}

pub open spec fn quiet() -> KeyOutcome {
    KeyOutcome { load: None, refresh: false, restart_clock: false }
}

/// Loading after a time step: the profile view only moves its playhead.
pub open spec fn time_load(ui: UiState, ds: DataStore, t: usize) -> Option<FieldRequest> {
    if ui.view_mode != ViewMode::Profile {
        load_at(ds, t, ui.level_index)
    } else {
        None
    }
}

/// The view mode a number key selects.
pub open spec fn view_for_key(key: ViewportKey) -> Option<ViewMode> {
    match key {
        ViewportKey::Num1 => Some(ViewMode::Globe),
        ViewportKey::Num2 => Some(ViewMode::MapView),
        ViewportKey::Num3 => Some(ViewMode::Hovmoller),
        ViewportKey::Num4 => Some(ViewMode::Spectrum),
        ViewportKey::Num5 => Some(ViewMode::Profile),
        ViewportKey::Num6 => Some(ViewMode::CrossSection),
        _ => None,
    }
}

/// A time step to index `t`: playback stops and the slice is reloaded.
pub open spec fn time_step(ui: UiState, ds: DataStore, t: usize) -> (UiState, KeyOutcome) {
    (UiState { time_index: t, playing: false, ..ui }, KeyOutcome { load: time_load(ui, ds, t), ..quiet() })
}

/// A level step to index `l`; nothing happens when the level stays.
pub open spec fn level_step(ui: UiState, ds: DataStore, l: usize) -> (UiState, KeyOutcome) {
    if l != ui.level_index {
        (UiState { level_index: l, ..ui }, KeyOutcome { load: load_at(ds, ui.time_index, l), ..quiet() })
    } else {
        (ui, quiet())
    }
}

/// The effect of one key press on the UI state, and what the viewer does next.
pub open spec fn key_effect(ui: UiState, ds: DataStore, key: ViewportKey) -> (UiState, KeyOutcome) {
    match key {
        ViewportKey::Space => (
            UiState { playing: !ui.playing, ..ui },
            KeyOutcome { restart_clock: true, ..quiet() },
        ),
        ViewportKey::ArrowRight => match time_len_of(ds) {
            Some(len) => if len > 1 {
                time_step(ui, ds, wrap_next(ui.time_index, len))
            } else {
                (ui, quiet())
            },
            None => (ui, quiet()),
        },
        ViewportKey::ArrowLeft => match time_len_of(ds) {
            Some(len) => if len > 1 {
                time_step(ui, ds, wrap_prev(ui.time_index, len))
            } else {
                (ui, quiet())
            },
            None => (ui, quiet()),
        },
        ViewportKey::ArrowUp => match level_size_of(ds) {
            Some(size) => if size > 1 {
                level_step(ui, ds, level_above(ui.level_index))
            } else {
                (ui, quiet())
            },
            None => (ui, quiet()),
        },
        ViewportKey::ArrowDown => match level_size_of(ds) {
            Some(size) => if size > 1 {
                level_step(ui, ds, level_below(ui.level_index, size))
            } else {
                (ui, quiet())
            },
            None => (ui, quiet()),
        },
        ViewportKey::G => (
            UiState { interpolated: !ui.interpolated, ..ui },
            KeyOutcome { refresh: true, ..quiet() },
        ),
        ViewportKey::C => (UiState { contour_enabled: !ui.contour_enabled, ..ui }, quiet()),
        ViewportKey::V => (UiState { streamline_enabled: !ui.streamline_enabled, ..ui }, quiet()),
        ViewportKey::T => (UiState { trajectory_enabled: !ui.trajectory_enabled, ..ui }, quiet()),
        _ => match view_for_key(key) {
            Some(m) => (UiState { view_mode: m, ..ui }, quiet()),
            None => (ui, quiet()),
        },
    }
}

/// The effect of `steps` elapsed animation frames.
pub open spec fn play_effect(ui: UiState, ds: DataStore, steps: usize) -> (UiState, Option<FieldRequest>) {
    match time_len_of(ds) {
        Some(len) => if len > 1 && ui.playing && steps > 0 {
            let t = ((ui.time_index + steps) % (len as int)) as usize;
            if t != ui.time_index {
                (UiState { time_index: t, ..ui }, time_load(ui, ds, t))
            } else {
                (ui, None)
            }
        } else {
            (ui, None)
        },
        None => (ui, None),
    }
}

/// `(t + 1) % len`, computed without overflow.
pub fn next_index(t: usize, len: usize) -> (r: usize)
    requires
        len > 0,
    ensures
        r == wrap_next(t, len),
        r < len,
{
    let rem = t % len;
    proof {
        vstd::arithmetic::div_mod::lemma_add_mod_noop(t as int, 1, len as int);
        vstd::arithmetic::div_mod::lemma_mod_bound(t as int, len as int);
        if len == 1 {
            assert(1int % 1int == 0) by (nonlinear_arith);
            assert((rem as int) % 1int == 0) by (nonlinear_arith);
        } else {
            vstd::arithmetic::div_mod::lemma_small_mod(1, len as nat);
            if rem + 1 == len {
                vstd::arithmetic::div_mod::lemma_mod_self_0(len as int);
            } else {
                vstd::arithmetic::div_mod::lemma_small_mod((rem + 1) as nat, len as nat);
            }
        }
    }
    if rem + 1 == len {
        0
    } else {
        rem + 1
    }
}

/// `(t + steps) % len`, computed without overflow.
pub fn add_index(t: usize, steps: usize, len: usize) -> (r: usize)
    requires
        len > 0,
    ensures
        r == (t + steps) % (len as int),
        r < len,
{
    let a = t % len;
    let b = steps % len;
    proof {
        vstd::arithmetic::div_mod::lemma_add_mod_noop(t as int, steps as int, len as int);
        vstd::arithmetic::div_mod::lemma_mod_bound(t as int, len as int);
        vstd::arithmetic::div_mod::lemma_mod_bound(steps as int, len as int);
        if a + b >= len {
            vstd::arithmetic::div_mod::lemma_mod_sub_multiples_vanish((a + b) as int, len as int);
            vstd::arithmetic::div_mod::lemma_small_mod((a + b - len) as nat, len as nat);
        } else {
            vstd::arithmetic::div_mod::lemma_small_mod((a + b) as nat, len as nat);
        }
    }
    if a >= len - b {
        a - (len - b)
    } else {
        a + b
    }
}

/// The slice of the current selection at the given indices.
pub fn request_at(ds: &DataStore, time: usize, level: usize) -> (r: Option<FieldRequest>)
    ensures
        r == load_at(*ds, time, level),
{
    match ds.active_file {
        Some(fi) => if fi < ds.files.len() {
            match ds.files[fi].selected_variable {
                Some(vi) => Some(FieldRequest { file: fi, variable: vi, time, level }),
                None => None,
            }
        } else {
            None
        },
        None => None,
    }
}

fn level_size(ds: &DataStore) -> (r: Option<usize>)
    requires
        selections_valid(*ds),
    ensures
        r == level_size_of(*ds),
{
    match active_level_dim(ds) {
        Some((_, size)) => Some(size),
        None => None,
    }
}

fn step_time_to(ui: &mut UiState, ds: &DataStore, t: usize) -> (r: KeyOutcome)
    ensures
        (*final(ui), r) == time_step(*old(ui), *ds, t),
{
    ui.time_index = t;
    ui.playing = false;
    let load = if ui.view_mode != ViewMode::Profile {
        request_at(ds, t, ui.level_index)
    } else {
        None
    };
    KeyOutcome { load, refresh: false, restart_clock: false }
}

fn step_level_to(ui: &mut UiState, ds: &DataStore, l: usize) -> (r: KeyOutcome)
    ensures
        (*final(ui), r) == level_step(*old(ui), *ds, l),
{
    if l != ui.level_index {
        ui.level_index = l;
        KeyOutcome { load: request_at(ds, ui.time_index, l), refresh: false, restart_clock: false }
    } else {
        KeyOutcome { load: None, refresh: false, restart_clock: false }
    }
}

/// Answers one key press of the viewport.
pub fn handle_key(ui: &mut UiState, ds: &DataStore, key: ViewportKey) -> (r: KeyOutcome)
    requires
        selections_valid(*ds),
    ensures
        (*final(ui), r) == key_effect(*old(ui), *ds, key),
{
    let quiet = KeyOutcome { load: None, refresh: false, restart_clock: false };
    match key {
        ViewportKey::Space => {
            ui.playing = !ui.playing;
            KeyOutcome { load: None, refresh: false, restart_clock: true }
        },
        ViewportKey::ArrowRight => match active_time_dim_len(ds) {
            Some(len) => if len > 1 {
                let t = next_index(ui.time_index, len);
                step_time_to(ui, ds, t)
            } else {
                quiet
            },
            None => quiet,
        },
        ViewportKey::ArrowLeft => match active_time_dim_len(ds) {
            Some(len) => if len > 1 {
                let t = if ui.time_index == 0 {
                    len - 1
                } else {
                    ui.time_index - 1
                };
                step_time_to(ui, ds, t)
            } else {
                quiet
            },
            None => quiet,
        },
        ViewportKey::ArrowUp => match level_size(ds) {
            Some(size) => if size > 1 {
                let l = if ui.level_index == 0 {
                    0
                } else {
                    ui.level_index - 1
                };
                step_level_to(ui, ds, l)
            } else {
                quiet
            },
            None => quiet,
        },
        ViewportKey::ArrowDown => match level_size(ds) {
            Some(size) => if size > 1 {
                let l = if ui.level_index < size - 1 {
                    ui.level_index + 1
                } else {
                    size - 1
                };
                step_level_to(ui, ds, l)
            } else {
                quiet
            },
            None => quiet,
        },
        ViewportKey::G => {
            ui.interpolated = !ui.interpolated;
            KeyOutcome { load: None, refresh: true, restart_clock: false }
        },
        ViewportKey::C => {
            ui.contour_enabled = !ui.contour_enabled;
            quiet
        },
        ViewportKey::V => {
            ui.streamline_enabled = !ui.streamline_enabled;
            quiet
        },
        ViewportKey::T => {
            ui.trajectory_enabled = !ui.trajectory_enabled;
            quiet
        },
        ViewportKey::Num1 => {
            ui.view_mode = ViewMode::Globe;
            quiet
        },
        ViewportKey::Num2 => {
            ui.view_mode = ViewMode::MapView;
            quiet
        },
        ViewportKey::Num3 => {
            ui.view_mode = ViewMode::Hovmoller;
            quiet
        },
        ViewportKey::Num4 => {
            ui.view_mode = ViewMode::Spectrum;
            quiet
        },
        ViewportKey::Num5 => {
            ui.view_mode = ViewMode::Profile;
            quiet
        },
        ViewportKey::Num6 => {
            ui.view_mode = ViewMode::CrossSection;
            quiet
        },
    }
}

/// Moves the playhead by `steps` elapsed animation frames, wrapping around
/// the time dimension, while the animation plays.
pub fn advance_playhead(ui: &mut UiState, ds: &DataStore, steps: usize) -> (r: Option<FieldRequest>)
    requires
        selections_valid(*ds),
    ensures
        (*final(ui), r) == play_effect(*old(ui), *ds, steps),
{
    match active_time_dim_len(ds) {
        Some(len) => if len > 1 && ui.playing && steps > 0 {
            let t = add_index(ui.time_index, steps, len);
            if t != ui.time_index {
                ui.time_index = t;
                if ui.view_mode != ViewMode::Profile {
                    request_at(ds, t, ui.level_index)
                } else {
                    None
                }
            } else {
                None
            }
        } else {
            None
        },
        None => None,
    }
}

/// `o`'s value, or `d`.
pub open spec fn or_index(o: Option<usize>, d: usize) -> usize {
    match o {
        Some(x) => x,
        None => d,
    }
}

/// The pair of variables detected as wind components, as indices.
pub open spec fn detected_pair(vars: Seq<VariableInfo>) -> Option<(usize, usize)> {
    match wind_pair(vars) {
        Some(p) => Some((p.0 as usize, p.1 as usize)),
        None => None,
    }
}

/// The state with a detected pair, if any, as the u/v variables.
pub open spec fn with_detected(ui: UiState, pair: Option<(usize, usize)>) -> UiState {
    match pair {
        Some(p) => UiState { vector_u_var: Some(p.0), vector_v_var: Some(p.1), ..ui },
        None => ui,
    }
}

/// The inspector's vector-overlay section: with the overlay enabled on the
/// globe or map, a missing pair is detected, and the two pickers then hold a
/// variable each (index 0 when nothing was chosen).
pub open spec fn vector_section(ui: UiState, pair: Option<(usize, usize)>) -> UiState {
    if (ui.view_mode == ViewMode::Globe || ui.view_mode == ViewMode::MapView) && ui.vector_overlay_enabled {
        let u0 = if ui.vector_u_var is None {
            with_detected(ui, pair)
        } else {
            ui
        };
        UiState {
            vector_u_var: Some(or_index(u0.vector_u_var, 0)),
            vector_v_var: Some(or_index(u0.vector_v_var, 0)),
            ..u0
        }
    } else {
        ui
    }
}

/// The map's streamline section detects a missing pair in the same way.
pub open spec fn streamline_section(ui: UiState, pair: Option<(usize, usize)>) -> UiState {
    if ui.view_mode == ViewMode::MapView && ui.streamline_enabled && ui.vector_u_var is None {
        with_detected(ui, pair)
    } else {
        ui
    }
}

/// The u/v variables the inspector leaves in place for the variables `vars`
/// of the active file.
pub open spec fn vector_vars_effect(ui: UiState, vars: Seq<VariableInfo>) -> UiState {
    streamline_section(vector_section(ui, detected_pair(vars)), detected_pair(vars))
}

fn detect_pair(variables: &Vec<VariableInfo>) -> (r: Option<(usize, usize)>)
    ensures
        r == detected_pair(variables@),
{
    detect_wind_pair(variables.as_slice())
}

fn fill_pair(ui: &mut UiState, pair: Option<(usize, usize)>)
    ensures
        *final(ui) == with_detected(*old(ui), pair),
{
    if let Some((u, v)) = pair {
        ui.vector_u_var = Some(u);
        ui.vector_v_var = Some(v);
    }
}

fn apply_vector_section(ui: &mut UiState, pair: Option<(usize, usize)>)
    ensures
        *final(ui) == vector_section(*old(ui), pair),
{
    if (ui.view_mode == ViewMode::Globe || ui.view_mode == ViewMode::MapView) && ui.vector_overlay_enabled {
        if ui.vector_u_var.is_none() {
            fill_pair(ui, pair);
        }
        let u = match ui.vector_u_var {
            Some(x) => x,
            None => 0,
        };
        let v = match ui.vector_v_var {
            Some(x) => x,
            None => 0,
        };
        ui.vector_u_var = Some(u);
        ui.vector_v_var = Some(v);
    }
}

/// Fills in the u/v variables of the vector overlay and streamlines from the
/// variables of the active file, as the inspector does when it shows them.
pub fn settle_vector_vars(ui: &mut UiState, variables: &Vec<VariableInfo>)
    ensures
        *final(ui) == vector_vars_effect(*old(ui), variables@),
{
    let pair = detect_pair(variables);
    apply_vector_section(ui, pair);
    if ui.view_mode == ViewMode::MapView && ui.streamline_enabled && ui.vector_u_var.is_none() {
        fill_pair(ui, pair);
    }
}

/// Filling in the overlay's wind variables is stable: the inspector runs it
/// on every frame, and a second run changes nothing.
pub proof fn lemma_vector_vars_settle(ui: UiState, vars: Seq<VariableInfo>)
    ensures
        vector_vars_effect(vector_vars_effect(ui, vars), vars) == vector_vars_effect(ui, vars),
{
    let pair = detected_pair(vars);
    let a = vector_section(ui, pair);
    let b = streamline_section(a, pair);
    assert(vector_section(b, pair) == b);
    assert(streamline_section(b, pair) == b);
}

/// Stepping one time index forward and then one back (or back, then
/// forward) returns to the time index it started from, with playback stopped.
pub proof fn lemma_time_steps_undo(ui: UiState, ds: DataStore)
    requires
        time_len_of(ds) matches Some(len) && len > 1 && ui.time_index < len,
    ensures
        key_effect(key_effect(ui, ds, ViewportKey::ArrowRight).0, ds, ViewportKey::ArrowLeft).0
            == (UiState { playing: false, ..ui }),
        key_effect(key_effect(ui, ds, ViewportKey::ArrowLeft).0, ds, ViewportKey::ArrowRight).0
            == (UiState { playing: false, ..ui }),
{
    let len = time_len_of(ds)->0;
    let t = ui.time_index;
    if t + 1 < len {
        vstd::arithmetic::div_mod::lemma_small_mod((t + 1) as nat, len as nat);
    } else {
        vstd::arithmetic::div_mod::lemma_mod_self_0(len as int);
    }
    if t == 0 {
        vstd::arithmetic::div_mod::lemma_mod_self_0(len as int);
    } else {
        vstd::arithmetic::div_mod::lemma_small_mod(t as nat, len as nat);
    }
}

/// Stepping one level down and then one up returns to the level it started
/// from unless it started on the last level; stepping up and then down
/// returns unless it started on the first.
pub proof fn lemma_level_steps_undo(ui: UiState, ds: DataStore)
    requires
        level_size_of(ds) matches Some(size) && size > 1 && ui.level_index < size,
    ensures
        ui.level_index + 1 < level_size_of(ds)->0 ==> key_effect(
            key_effect(ui, ds, ViewportKey::ArrowDown).0,
            ds,
            ViewportKey::ArrowUp,
        ).0 == ui,
        ui.level_index > 0 ==> key_effect(
            key_effect(ui, ds, ViewportKey::ArrowUp).0,
            ds,
            ViewportKey::ArrowDown,
        ).0 == ui,
{
    let size = level_size_of(ds)->0;
    let l = ui.level_index;
    if l + 1 < size {
        let down = UiState { level_index: (l + 1) as usize, ..ui };
        assert(key_effect(ui, ds, ViewportKey::ArrowDown) == level_step(ui, ds, (l + 1) as usize));
        assert(key_effect(down, ds, ViewportKey::ArrowUp) == level_step(down, ds, l));
        assert(level_step(down, ds, l).0 =~= ui);
    }
    if l > 0 {
        let up = UiState { level_index: (l - 1) as usize, ..ui };
        assert(key_effect(ui, ds, ViewportKey::ArrowUp) == level_step(ui, ds, (l - 1) as usize));
        assert(key_effect(up, ds, ViewportKey::ArrowDown) == level_step(up, ds, l));
        assert(level_step(up, ds, l).0 =~= ui);
    }
}

/// The toggling keys undo themselves: pressing one twice leaves the UI state
/// as it was.
pub proof fn lemma_toggle_keys_twice(ui: UiState, ds: DataStore, key: ViewportKey)
    requires
        key == ViewportKey::Space || key == ViewportKey::G || key == ViewportKey::C || key
            == ViewportKey::V || key == ViewportKey::T,
    ensures
        key_effect(key_effect(ui, ds, key).0, ds, key).0 == ui,
{
}

/// Playing `a` frames and then `b` frames moves the playhead to the same
/// place as playing `a + b` frames at once.
pub proof fn lemma_playback_composes(ui: UiState, ds: DataStore, a: usize, b: usize)
    requires
        time_len_of(ds) matches Some(len) && len > 1 && ui.time_index < len,
        ui.playing,
        a + b <= usize::MAX,
    ensures
        play_effect(play_effect(ui, ds, a).0, ds, b).0 == play_effect(ui, ds, (a + b) as usize).0,
{
    let len = time_len_of(ds)->0 as int;
    let t = ui.time_index as int;
    vstd::arithmetic::div_mod::lemma_small_mod(t as nat, len as nat);
    vstd::arithmetic::div_mod::lemma_mod_bound(t + a, len);
    vstd::arithmetic::div_mod::lemma_add_mod_noop(t + a, b as int, len);
    vstd::arithmetic::div_mod::lemma_add_mod_noop((t + a) % len, b as int, len);
    vstd::arithmetic::div_mod::lemma_mod_twice(t + a, len);
    assert(((t + a) % len + b) % len == (t + a + b) % len);
    let t1 = ((t + a) % len) as usize;
    let u1 = UiState { time_index: t1, ..ui };
    assert(play_effect(ui, ds, a).0 == u1);
    let t2 = ((t + a + b) % len) as usize;
    let u2 = UiState { time_index: t2, ..ui };
    assert(play_effect(u1, ds, b).0 == u2);
    assert(play_effect(ui, ds, (a + b) as usize).0 == u2);
}

/// Playing through as many frames as there are time indices brings the
/// playhead back to where it was.
pub proof fn lemma_full_cycle_returns(ui: UiState, ds: DataStore)
    requires
        time_len_of(ds) matches Some(len) && len > 1 && ui.time_index < len,
        ui.playing,
    ensures
        play_effect(ui, ds, time_len_of(ds)->0) == (ui, None::<FieldRequest>),
{
    let len = time_len_of(ds)->0 as int;
    let t = ui.time_index as int;
    vstd::arithmetic::div_mod::lemma_mod_add_multiples_vanish(t, len);
    vstd::arithmetic::div_mod::lemma_small_mod(t as nat, len as nat);
    assert((t + len) % len == t);
}

} // verus!
