//! The session kept across restarts: the open files with their selected
//! variables, and the view settings; what saving records and what
//! restoring takes back.
use vstd::prelude::*;

use crate::data::{distinct_paths, file_added, file_paths, first_index, lemma_first_index, DataStore, OpenFile};
use crate::numeric::F32Bits;
use crate::text::str_eq;
use crate::ui::{range_mode_debug, Colormap, MapProjection, ProfileMode, RangeMode, UiState, ViewMode};

verus! {

/// What a session records: the paths of the open files, the active one and
/// each file's selected variable, then the view settings.
#[derive(Debug, Clone)]
pub struct Session {
    pub file_paths: Vec<String>,
    pub active_file: Option<usize>,
    pub selected_variables: Vec<Option<usize>>,
    pub view_mode: ViewMode,
    pub colormap: Colormap,
    pub map_projection: MapProjection,
    pub interpolated: bool,
    pub time_index: usize,
    pub level_index: usize,
    pub range_mode: RangeMode,
    pub manual_min: F32Bits,
    pub manual_max: F32Bits,
    pub vector_overlay_enabled: bool,
    pub vector_u_var: Option<usize>,
    pub vector_v_var: Option<usize>,
    pub vector_density: usize,
    pub contour_enabled: bool,
    pub contour_levels: usize,
    pub streamline_enabled: bool,
    pub profile_mode: ProfileMode,
    pub profile_point: Option<(usize, usize)>,
    pub trajectory_enabled: bool,
    pub trajectory_trail_length: usize,
}

/// The name a session stores for a profile mode.
pub open spec fn profile_mode_name_of(m: ProfileMode) -> Seq<char> {
    match m {
        ProfileMode::Vertical => "Vertical"@,
        ProfileMode::TimeSeries => "TimeSeries"@,
    }
}

/// The name a session stores for a profile mode.
pub fn profile_mode_name(m: ProfileMode) -> (r: &'static str)
    ensures
        r@ == profile_mode_name_of(m),
{
    match m {
        ProfileMode::Vertical => "Vertical",
        ProfileMode::TimeSeries => "TimeSeries",
    }
}

/// The profile mode a stored name stands for.
pub open spec fn profile_mode_named(n: Seq<char>) -> Option<ProfileMode> {
    if n == "Vertical"@ {
        Some(ProfileMode::Vertical)
    } else if n == "TimeSeries"@ {
        Some(ProfileMode::TimeSeries)
    } else {
        None
    }
}

/// The profile mode a stored name stands for.
pub fn name_to_profile_mode(name: &str) -> (r: Option<ProfileMode>)
    ensures
        r == profile_mode_named(name@),
{
    if str_eq(name, "Vertical") {
        Some(ProfileMode::Vertical)
    } else if str_eq(name, "TimeSeries") {
        Some(ProfileMode::TimeSeries)
    } else {
        None
    }
}

/// The range mode a stored name (its variant name) stands for.
pub open spec fn range_mode_named(n: Seq<char>) -> Option<RangeMode> {
    if n == "Slice"@ {
        Some(RangeMode::Slice)
    } else if n == "Global"@ {
        Some(RangeMode::Global)
    } else if n == "Manual"@ {
        Some(RangeMode::Manual)
    } else {
        None
    }
}

/// The range mode a stored name (its variant name) stands for.
pub fn name_to_range_mode(name: &str) -> (r: Option<RangeMode>)
    ensures
        r == range_mode_named(name@),
{
    if str_eq(name, "Slice") {
        Some(RangeMode::Slice)
    } else if str_eq(name, "Global") {
        Some(RangeMode::Global)
    } else if str_eq(name, "Manual") {
        Some(RangeMode::Manual)
    } else {
        None
    }
}

/// The stored names of range and profile modes read back as those modes.
pub proof fn lemma_stored_mode_names_read_back(r: RangeMode, p: ProfileMode)
    ensures
        range_mode_named(range_mode_debug(r)) == Some(r),
        profile_mode_named(profile_mode_name_of(p)) == Some(p),
{
    reveal_strlit("Slice");
    reveal_strlit("Global");
    reveal_strlit("Manual");
    reveal_strlit("Vertical");
    reveal_strlit("TimeSeries");
    assert("Slice"@.len() == 5);
    assert("Global"@.len() == 6 && "Global"@[0] == 'G');
    assert("Manual"@.len() == 6 && "Manual"@[0] == 'M');
    assert("Vertical"@.len() == 8);
    assert("TimeSeries"@.len() == 10);
}

/// The view settings of `ui` with those recorded in `s` in their place.
pub open spec fn restored_view(ui: UiState, s: Session) -> UiState {
    UiState {
        view_mode: s.view_mode,
        colormap: s.colormap,
        map_projection: s.map_projection,
        interpolated: s.interpolated,
        time_index: s.time_index,
        level_index: s.level_index,
        range_mode: s.range_mode,
        manual_min: s.manual_min,
        manual_max: s.manual_max,
        vector_overlay_enabled: s.vector_overlay_enabled,
        vector_u_var: s.vector_u_var,
        vector_v_var: s.vector_v_var,
        vector_density: s.vector_density,
        contour_enabled: s.contour_enabled,
        contour_levels: s.contour_levels,
        streamline_enabled: s.streamline_enabled,
        profile_mode: s.profile_mode,
        profile_point: s.profile_point,
        trajectory_enabled: s.trajectory_enabled,
        trajectory_trail_length: s.trajectory_trail_length,
        ..ui
    }
}

/// `s` records the view settings of `ui`.
pub open spec fn records_view(s: Session, ui: UiState) -> bool {
    &&& s.view_mode == ui.view_mode
    &&& s.colormap == ui.colormap
    &&& s.map_projection == ui.map_projection
    &&& s.interpolated == ui.interpolated
    &&& s.time_index == ui.time_index
    &&& s.level_index == ui.level_index
    &&& s.range_mode == ui.range_mode
    &&& s.manual_min == ui.manual_min
    &&& s.manual_max == ui.manual_max
    &&& s.vector_overlay_enabled == ui.vector_overlay_enabled
    &&& s.vector_u_var == ui.vector_u_var
    &&& s.vector_v_var == ui.vector_v_var
    &&& s.vector_density == ui.vector_density
    &&& s.contour_enabled == ui.contour_enabled
    &&& s.contour_levels == ui.contour_levels
    &&& s.streamline_enabled == ui.streamline_enabled
    &&& s.profile_mode == ui.profile_mode
    &&& s.profile_point == ui.profile_point
    &&& s.trajectory_enabled == ui.trajectory_enabled
    &&& s.trajectory_trail_length == ui.trajectory_trail_length
}

/// The paths a session records, as character sequences.
pub open spec fn session_paths(s: Session) -> Seq<Seq<char>> {
    s.file_paths@.map_values(|p: String| p@)
}

/// `s` records the files of `ds`: their paths in order, the active one and
/// each file's selected variable.
pub open spec fn records_files(s: Session, ds: DataStore) -> bool {
    &&& session_paths(s) == file_paths(ds.files@)
    &&& s.active_file == ds.active_file
    &&& s.selected_variables@ == ds.files@.map_values(|f: OpenFile| f.selected_variable)
}

/// The session of the open files `ds` and the view `ui`.
pub fn session_of(ds: &DataStore, ui: &UiState) -> (s: Session)
    ensures
        records_files(s, *ds),
        records_view(s, *ui),
{
    let mut paths: Vec<String> = Vec::new();
    let mut selected: Vec<Option<usize>> = Vec::new();
    let n = ds.files.len();
    for k in 0..n
        invariant
            n == ds.files@.len(),
            paths@.len() == k,
            selected@.len() == k,
            forall|j: int| 0 <= j < k ==> #[trigger] paths@[j]@ == ds.files@[j].path@,
            forall|j: int| 0 <= j < k ==> #[trigger] selected@[j] == ds.files@[j].selected_variable,
    {
        paths.push(ds.files[k].path.clone());
        selected.push(ds.files[k].selected_variable);
    }
    let s = Session {
        file_paths: paths,
        active_file: ds.active_file,
        selected_variables: selected,
        view_mode: ui.view_mode,
        colormap: ui.colormap,
        map_projection: ui.map_projection,
        interpolated: ui.interpolated,
        time_index: ui.time_index,
        level_index: ui.level_index,
        range_mode: ui.range_mode,
        manual_min: ui.manual_min,
        manual_max: ui.manual_max,
        vector_overlay_enabled: ui.vector_overlay_enabled,
        vector_u_var: ui.vector_u_var,
        vector_v_var: ui.vector_v_var,
        vector_density: ui.vector_density,
        contour_enabled: ui.contour_enabled,
        contour_levels: ui.contour_levels,
        streamline_enabled: ui.streamline_enabled,
        profile_mode: ui.profile_mode,
        profile_point: ui.profile_point,
        trajectory_enabled: ui.trajectory_enabled,
        trajectory_trail_length: ui.trajectory_trail_length,
    };
    assert(session_paths(s) =~= file_paths(ds.files@));
    assert(s.selected_variables@ =~= ds.files@.map_values(|f: OpenFile| f.selected_variable));
    s
}

/// Takes back the view settings that `s` records.
#[verifier::spinoff_prover]
#[verifier::rlimit(60)]
pub fn restore_view(ui: &mut UiState, s: &Session)
    ensures
        *final(ui) == restored_view(*old(ui), *s),
{
    ui.view_mode = s.view_mode;
    ui.colormap = s.colormap;
    ui.map_projection = s.map_projection;
    ui.interpolated = s.interpolated;
    ui.time_index = s.time_index;
    ui.level_index = s.level_index;
    ui.range_mode = s.range_mode;
    ui.manual_min = s.manual_min;
    ui.manual_max = s.manual_max;
    ui.vector_overlay_enabled = s.vector_overlay_enabled;
    ui.vector_u_var = s.vector_u_var;
    ui.vector_v_var = s.vector_v_var;
    ui.vector_density = s.vector_density;
    ui.contour_enabled = s.contour_enabled;
    ui.contour_levels = s.contour_levels;
    ui.streamline_enabled = s.streamline_enabled;
    ui.profile_mode = s.profile_mode;
    ui.profile_point = s.profile_point;
    ui.trajectory_enabled = s.trajectory_enabled;
    ui.trajectory_trail_length = s.trajectory_trail_length;
}

/// The index that opening `f` gives it among the open `files`: that of the file already
/// open under its path, else the next one.
pub open spec fn opened_index(files: Seq<OpenFile>, f: OpenFile) -> int {
    match first_index(file_paths(files), f.path@) {
        Some(k) => k,
        None => files.len() as int,
    }
}

/// The open `files` once `f` is opened.
pub open spec fn files_with(files: Seq<OpenFile>, f: OpenFile) -> Seq<OpenFile> {
    match first_index(file_paths(files), f.path@) {
        Some(_) => files,
        None => files.push(f),
    }
}

/// The selection that the `i`-th recorded file takes back once reopened as
/// `f`: the recorded variable, when there is one and `f` has it.
pub open spec fn kept_selection(s: Session, i: int, f: OpenFile) -> Option<usize> {
    if 0 <= i < s.selected_variables@.len() {
        match s.selected_variables@[i] {
            Some(vi) => if vi < f.variables@.len() {
                Some(vi)
            } else {
                None
            },
            None => None,
        }
    } else {
        None
    }
}

/// The files after the `i`-th recorded file is reopened as `f` and its
/// selection taken back.
pub open spec fn files_restored(files: Seq<OpenFile>, s: Session, i: int, f: OpenFile) -> Seq<OpenFile> {
    let k = opened_index(files, f);
    let fs = files_with(files, f);
    match kept_selection(s, i, fs[k]) {
        Some(vi) => fs.update(k, OpenFile { selected_variable: Some(vi), ..fs[k] }),
        None => fs,
    }
}

/// Adds the `i`-th recorded file, opened as `file`, and takes back its
/// selected variable when the file still has it.  Returns whether an entry
/// was added (a path already open is not added twice).
pub fn restore_opened(ds: &mut DataStore, s: &Session, i: usize, file: OpenFile) -> (r: bool)
    ensures
        final(ds).active_file == Some(opened_index(old(ds).files@, file) as usize),
        final(ds).files@ == files_restored(old(ds).files@, *s, i as int, file),
        r == (first_index(file_paths(old(ds).files@), file.path@) is None),
{
    let ghost before = *ds;
    let ghost f = file;
    proof {
        lemma_first_index(file_paths(before.files@), f.path@);
    }
    let added = ds.add_file(file);
    let ghost k = opened_index(before.files@, f);
    assert(file_added(before, f, *ds, added));
    assert(ds.files@ == files_with(before.files@, f));
    let len = ds.files.len();
    assert(0 <= k < len);
    assert(ds.active_file == Some(k as usize));
    let fi: usize = match ds.active_file {
        Some(a) => a,
        None => {
            return added;
        },
    };
    assert(fi as int == k);
    if i < s.selected_variables.len() {
        if let Some(vi) = s.selected_variables[i] {
            if vi < ds.files[fi].variables.len() {
                ds.files[fi].selected_variable = Some(vi);
            }
        }
    }
    added
}

/// The active file once restoring ends, `n` files reopened and `active`
/// the active one: the recorded active file, when it is among them.
pub open spec fn finished_active(s: Session, n: int, active: Option<usize>) -> Option<usize> {
    match s.active_file {
        Some(af) => if af < n {
            Some(af)
        } else {
            active
        },
        None => active,
    }
}

/// Makes the recorded active file the active one again, when it is among
/// the files that were reopened.
pub fn finish_restore(ds: &mut DataStore, s: &Session)
    ensures
        final(ds).files@ == old(ds).files@,
        final(ds).active_file == finished_active(*s, old(ds).files@.len() as int, old(ds).active_file),
{
    if let Some(af) = s.active_file {
        if af < ds.files.len() {
            ds.active_file = Some(af);
        }
    }
}

/// Restoring a saved session takes back the view it was saved from: every
/// setting the session records has its saved value again, whatever view it
/// is restored into, and restoring it into that very view changes nothing.
pub proof fn lemma_saved_view_comes_back(ui: UiState, s: Session, other: UiState)
    requires
        records_view(s, ui),
    ensures
        records_view(s, restored_view(other, s)),
        restored_view(ui, s) == ui,
{
}

/// The open `files` after reopening in order the entries `ps` of a session
/// `s`, each a recorded index and the file opened from its path, each with
/// `restore_opened`.
pub open spec fn reopened(files: Seq<OpenFile>, s: Session, ps: Seq<(usize, OpenFile)>) -> Seq<OpenFile>
    decreases ps.len(),
{
    if ps.len() == 0 {
        files
    } else {
        files_restored(reopened(files, s, ps.drop_last()), s, ps.last().0 as int, ps.last().1)
    }
}

/// The active file after reopening the entries `ps`, `active` the one
/// before.
pub open spec fn reopened_active(files: Seq<OpenFile>, active: Option<usize>, s: Session, ps: Seq<(usize, OpenFile)>) -> Option<usize> {
    if ps.len() == 0 {
        active
    } else {
        Some(opened_index(reopened(files, s, ps.drop_last()), ps.last().1) as usize)
    }
}

/// Whether reopening the entry `ps[i]` added a file: its path was not
/// open after the entries before it.
pub open spec fn reopen_adds(files: Seq<OpenFile>, s: Session, ps: Seq<(usize, OpenFile)>, i: int) -> bool {
    first_index(file_paths(reopened(files, s, ps.take(i))), ps[i].1.path@) is None
}

/// Restores a session: reopens the entries `opened` in order (each a
/// recorded index and the file opened again from that recorded path),
/// makes the recorded active file active again and takes back the view.
/// Returns, entry by entry, whether a file was added.
pub fn restore_session(ds: &mut DataStore, ui: &mut UiState, s: &Session, opened: Vec<(usize, OpenFile)>) -> (added: Vec<bool>)
    ensures
        final(ds).files@ == reopened(old(ds).files@, *s, opened@),
        final(ds).active_file == finished_active(
            *s,
            final(ds).files@.len() as int,
            reopened_active(old(ds).files@, old(ds).active_file, *s, opened@),
        ),
        *final(ui) == restored_view(*old(ui), *s),
        added@.len() == opened@.len(),
        forall|i: int| 0 <= i < opened@.len() ==> #[trigger] added@[i] == reopen_adds(old(ds).files@, *s, opened@, i),
{
    let ghost files0 = ds.files@;
    let ghost active0 = ds.active_file;
    let n = opened.len();
    let ghost ps = opened@;
    let mut rest = opened;
    let mut added: Vec<bool> = Vec::new();
    let mut k: usize = 0;
    assert(ps.take(0) =~= Seq::<(usize, OpenFile)>::empty());
    while rest.len() > 0
        invariant
            k <= ps.len(),
            ps.len() == n,
            rest@ == ps.skip(k as int),
            ds.files@ == reopened(files0, *s, ps.take(k as int)),
            ds.active_file == reopened_active(files0, active0, *s, ps.take(k as int)),
            added@.len() == k,
            forall|i: int| 0 <= i < k ==> #[trigger] added@[i] == reopen_adds(files0, *s, ps, i),
        decreases rest@.len(),
    {
        let (i, f) = rest.remove(0);
        assert(ps[k as int] == (i, f));
        let ghost before = ds.files@;
        let a = restore_opened(ds, s, i, f);
        proof {
            let t = ps.take(k + 1);
            assert(t.drop_last() =~= ps.take(k as int));
            assert(t.last() == ps[k as int]);
            assert(rest@ =~= ps.skip(k + 1));
        }
        added.push(a);
        k = k + 1;
    }
    assert(ps.take(k as int) =~= ps);
    finish_restore(ds, s);
    restore_view(ui, s);
    added
}

/// The selected variable of each file.
pub open spec fn selections(files: Seq<OpenFile>) -> Seq<Option<usize>> {
    files.map_values(|f: OpenFile| f.selected_variable)
}

/// A file's selected variable, if any, is one of its variables.
pub open spec fn selection_in_range(f: OpenFile) -> bool {
    f.selected_variable matches Some(vi) ==> vi < f.variables@.len()
}

/// `f` is `g` opened afresh: the same path, as many variables, nothing
/// selected yet.
pub open spec fn fresh_copy(f: OpenFile, g: OpenFile) -> bool {
    &&& f.path@ == g.path@
    &&& f.variables@.len() == g.variables@.len()
    &&& f.selected_variable is None
}

/// Two views agree on every setting a session records.
pub open spec fn same_view(a: UiState, b: UiState) -> bool {
    &&& a.view_mode == b.view_mode
    &&& a.colormap == b.colormap
    &&& a.map_projection == b.map_projection
    &&& a.interpolated == b.interpolated
    &&& a.time_index == b.time_index
    &&& a.level_index == b.level_index
    &&& a.range_mode == b.range_mode
    &&& a.manual_min == b.manual_min
    &&& a.manual_max == b.manual_max
    &&& a.vector_overlay_enabled == b.vector_overlay_enabled
    &&& a.vector_u_var == b.vector_u_var
    &&& a.vector_v_var == b.vector_v_var
    &&& a.vector_density == b.vector_density
    &&& a.contour_enabled == b.contour_enabled
    &&& a.contour_levels == b.contour_levels
    &&& a.streamline_enabled == b.streamline_enabled
    &&& a.profile_mode == b.profile_mode
    &&& a.profile_point == b.profile_point
    &&& a.trajectory_enabled == b.trajectory_enabled
    &&& a.trajectory_trail_length == b.trajectory_trail_length
}

/// `ps` reopens, in order, a fresh copy of each file of `ds`.
pub open spec fn fresh_entries(ps: Seq<(usize, OpenFile)>, ds: DataStore) -> bool {
    &&& ps.len() == ds.files@.len()
    &&& forall|i: int| 0 <= i < ps.len() ==> (#[trigger] ps[i]).0 == i && fresh_copy(ps[i].1, ds.files@[i])
}

proof fn lemma_reopen_prefix(ds: DataStore, s: Session, ps: Seq<(usize, OpenFile)>, k: int)
    requires
        records_files(s, ds),
        distinct_paths(ds.files@),
        forall|i: int| 0 <= i < ds.files@.len() ==> selection_in_range(#[trigger] ds.files@[i]),
        fresh_entries(ps, ds),
        0 <= k <= ps.len(),
    ensures
        reopened(Seq::empty(), s, ps.take(k)).len() == k,
        forall|j: int| 0 <= j < k ==> (#[trigger] reopened(Seq::empty(), s, ps.take(k))[j]).path@ == ds.files@[j].path@
            && reopened(Seq::empty(), s, ps.take(k))[j].selected_variable == ds.files@[j].selected_variable,
        k > 0 ==> reopened_active(Seq::empty(), None, s, ps.take(k)) == Some((k - 1) as usize),
    decreases k,
{
    if k > 0 {
        lemma_reopen_prefix(ds, s, ps, k - 1);
        let t = ps.take(k);
        assert(t.drop_last() =~= ps.take(k - 1));
        assert(t.last() == ps[k - 1]);
        let prev = reopened(Seq::empty(), s, ps.take(k - 1));
        let f = ps[k - 1].1;
        assert(ps[k - 1].0 == k - 1);
        assert(fresh_copy(f, ds.files@[k - 1]));
        assert(selection_in_range(ds.files@[k - 1]));
        let names = file_paths(prev);
        lemma_first_index(names, f.path@);
        if let Some(j) = first_index(names, f.path@) {
            assert(names[j] == prev[j].path@);
            assert(ds.files@[j].path@ != ds.files@[k - 1].path@);
            assert(false);
        }
        assert(opened_index(prev, f) == k - 1);
        let fw = files_with(prev, f);
        assert(fw == prev.push(f));
        assert(fw[k - 1] == f);
        assert(s.selected_variables@[k - 1] == ds.files@[k - 1].selected_variable);
        let r = reopened(Seq::empty(), s, t);
        assert(r == files_restored(prev, s, k - 1, f));
        assert forall|j: int| 0 <= j < k implies (#[trigger] r[j]).path@ == ds.files@[j].path@
            && r[j].selected_variable == ds.files@[j].selected_variable by {
            if j < k - 1 {
                assert(r[j] == prev[j]);
            }
        }
    }
}

/// A saved session comes back whole: into an empty store and any view,
/// `restore_session` with a fresh copy of each file the session `s`
/// records, in order, gives back the saved store's paths in order, each
/// file's selected variable and the active file, and every recorded view
/// setting.  This holds of a store with distinct paths, whose selections
/// are among their files' variables and whose active file, present
/// whenever a file is open, is one of them.
pub proof fn lemma_session_round_trip(ds: DataStore, ui: UiState, s: Session, ps: Seq<(usize, OpenFile)>, other: UiState)
    requires
        records_files(s, ds),
        records_view(s, ui),
        distinct_paths(ds.files@),
        forall|i: int| 0 <= i < ds.files@.len() ==> selection_in_range(#[trigger] ds.files@[i]),
        ds.active_file matches Some(a) ==> a < ds.files@.len(),
        ds.files@.len() > 0 ==> ds.active_file is Some,
        fresh_entries(ps, ds),
    ensures
        file_paths(reopened(Seq::empty(), s, ps)) == file_paths(ds.files@),
        selections(reopened(Seq::empty(), s, ps)) == selections(ds.files@),
        finished_active(s, reopened(Seq::empty(), s, ps).len() as int, reopened_active(Seq::empty(), None, s, ps))
            == ds.active_file,
        same_view(restored_view(other, s), ui),
{
    lemma_reopen_prefix(ds, s, ps, ps.len() as int);
    assert(ps.take(ps.len() as int) =~= ps);
    let r = reopened(Seq::empty(), s, ps);
    assert(file_paths(r) =~= file_paths(ds.files@));
    assert(selections(r) =~= selections(ds.files@));
}

/// Reopening a saved file takes back its selected variable: the `i`-th
/// file of the saved store, opened again as a fresh `f` with the same
/// variables into a store where its path is not open, becomes the active,
/// last file, with the variable it had selected.
pub proof fn lemma_saved_selection_comes_back(ds: DataStore, s: Session, i: int, f: OpenFile, store: DataStore)
    requires
        records_files(s, ds),
        0 <= i < ds.files@.len(),
        f.path@ == ds.files@[i].path@,
        f.variables@.len() == ds.files@[i].variables@.len(),
        f.selected_variable is None,
        ds.files@[i].selected_variable matches Some(vi) ==> vi < ds.files@[i].variables@.len(),
        first_index(file_paths(store.files@), f.path@) is None,
    ensures
        opened_index(store.files@, f) == store.files@.len(),
        files_restored(store.files@, s, i, f).len() == store.files@.len() + 1,
        files_restored(store.files@, s, i, f).last().path == f.path,
        files_restored(store.files@, s, i, f).last().selected_variable == ds.files@[i].selected_variable,
{
    assert(s.selected_variables@[i] == ds.files@[i].selected_variable);
    let fs = files_with(store.files@, f);
    assert(fs[store.files@.len() as int] == f);
}

} // verus!
