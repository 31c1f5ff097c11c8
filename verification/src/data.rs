//! Variable metadata, the open-file store, and the rules that read
//! dimension names and file paths.
use vstd::prelude::*;

use crate::text::{
    ascii_lower, chars_equal, chars_of, contains, contains_exec, eq_ignore_ascii_case, eq_ignore_case,
    push_chars, push_str, split_char, split_exec, starts_with, starts_with_exec, str_eq, sub_chars,
    to_ascii_lower, views,
};

verus! {

broadcast use vstd::string::group_string_axioms;

/// Metadata for a single variable in a NetCDF file.
#[derive(Debug, Clone)]
pub struct VariableInfo {
    pub name: String,
    pub long_name: Option<String>,
    pub units: Option<String>,
    pub standard_name: Option<String>,
    pub dimensions: Vec<(String, usize)>,
}

/// Hint for which colormap family to use.
#[derive(Debug, Clone, Copy, PartialEq, Eq, Structural)]
pub enum ColormapHint {
    /// Diverging colormap (e.g. RdBu_r) — for fields with positive and negative values.
    Diverging,
    /// Sequential colormap (e.g. viridis) — for non-negative or monotone fields.
    Sequential,
}

/// Metadata of an opened NetCDF file.  The field values themselves are held
/// by the viewer.
#[derive(Debug, Clone)]
pub struct OpenFile {
    pub path: String,
    pub variables: Vec<VariableInfo>,
    pub selected_variable: Option<usize>,
    /// Length of the time dimension (None if not detected).
    pub time_steps: Option<usize>,
    pub current_time: usize,
    /// Number of vertical levels (None if not detected).
    pub level_count: Option<usize>,
}

/// The store of opened files.
#[derive(Debug, Clone)]
pub struct DataStore {
    pub files: Vec<OpenFile>,
    pub active_file: Option<usize>,
}

/// The view of an optional string.
pub open spec fn opt_view(o: Option<String>) -> Option<Seq<char>> {
    match o {
        Some(s) => Some(s@),
        None => None,
    }
}

/// The names and sizes of a dimension list.
pub open spec fn dims_view(d: Seq<(String, usize)>) -> Seq<(Seq<char>, usize)> {
    d.map_values(|p: (String, usize)| (p.0@, p.1))
}

/// The names of a list of variables.
pub open spec fn var_names(v: Seq<VariableInfo>) -> Seq<Seq<char>> {
    v.map_values(|x: VariableInfo| x.name@)
}

/// The paths of a list of open files.
pub open spec fn file_paths(files: Seq<OpenFile>) -> Seq<Seq<char>> {
    files.map_values(|f: OpenFile| f.path@)
}

/// No two open files have the same path.
pub open spec fn distinct_paths(files: Seq<OpenFile>) -> bool {
    forall|i: int, j: int| 0 <= i < j < files.len() ==> files[i].path@ != files[j].path@
}

/// `ds2` is `ds` after opening `f`: a file already open under its path
/// becomes active again, otherwise `f` is appended and becomes active;
/// `added` tells which.
pub open spec fn file_added(ds: DataStore, f: OpenFile, ds2: DataStore, added: bool) -> bool {
    match first_index(file_paths(ds.files@), f.path@) {
        Some(k) => {
            &&& !added
            &&& ds2.files@ == ds.files@
            &&& ds2.active_file == Some(k as usize)
        },
        None => {
            &&& added
            &&& ds2.files@ == ds.files@.push(f)
            &&& ds2.active_file == Some(ds.files@.len() as usize)
        },
    }
}

/// The first index of `name` in `names`.
pub open spec fn first_index(names: Seq<Seq<char>>, name: Seq<char>) -> Option<int>
    decreases names.len(),
{
    if names.len() == 0 {
        None
    } else if names[0] == name {
        Some(0)
    } else {
        match first_index(names.drop_first(), name) {
            Some(k) => Some(k + 1),
            None => None,
        }
    }
}

pub proof fn lemma_first_index(names: Seq<Seq<char>>, name: Seq<char>)
    ensures
        first_index(names, name) matches Some(k) ==> 0 <= k < names.len() && names[k] == name
            && forall|j: int| 0 <= j < k ==> names[j] != name,
        first_index(names, name) is None ==> forall|j: int| 0 <= j < names.len() ==> names[j] != name,
    decreases names.len(),
{
    if names.len() > 0 && names[0] != name {
        lemma_first_index(names.drop_first(), name);
        assert forall|j: int| 0 < j < names.len() implies names[j] == names.drop_first()[j - 1] by {}
    }
}

pub proof fn lemma_first_index_unique(names: Seq<Seq<char>>, name: Seq<char>, i: int)
    requires
        0 <= i < names.len(),
        names[i] == name,
        forall|j: int| 0 <= j < i ==> names[j] != name,
    ensures
        first_index(names, name) == Some(i),
{
    lemma_first_index(names, name);
    if let Some(k) = first_index(names, name) {
        if k < i {
        } else if k > i {
        }
    }
}

/// Position of the first variable named `name`.
pub fn position_of_name(vars: &Vec<VariableInfo>, name: &str) -> (r: Option<usize>)
    ensures
        r matches Some(k) ==> first_index(var_names(vars@), name@) == Some(k as int),
        r is None ==> first_index(var_names(vars@), name@) is None,
{
    let mut i: usize = 0;
    while i < vars.len()
        invariant
            i <= vars@.len(),
            forall|j: int| 0 <= j < i ==> vars@[j].name@ != name@,
        decreases vars@.len() - i,
    {
        if str_eq(vars[i].name.as_str(), name) {
            proof {
                assert forall|j: int| 0 <= j < i implies var_names(vars@)[j] != name@ by {
                    assert(var_names(vars@)[j] == vars@[j].name@);
                }
                assert(var_names(vars@)[i as int] == name@);
                lemma_first_index_unique(var_names(vars@), name@, i as int);
            }
            return Some(i);
        }
        i = i + 1;
    }
    proof {
        lemma_first_index(var_names(vars@), name@);
        if let Some(k) = first_index(var_names(vars@), name@) {
            assert(var_names(vars@)[k] == vars@[k].name@);
        }
    }
    None
}

/// Every selected variable index of the store points at a variable.
pub open spec fn selections_valid(ds: DataStore) -> bool {
    forall|i: int|
        0 <= i < ds.files.len() ==> ((#[trigger] ds.files@[i]).selected_variable matches Some(v)
            ==> v < ds.files@[i].variables.len())
}

/// Whether every selected variable index of the store points at a variable.
pub fn selections_in_range(ds: &DataStore) -> (r: bool)
    ensures
        r == selections_valid(*ds),
{
    let mut i: usize = 0;
    while i < ds.files.len()
        invariant
            i <= ds.files@.len(),
            forall|j: int|
                0 <= j < i ==> ((#[trigger] ds.files@[j]).selected_variable matches Some(v) ==> (v
                    < ds.files@[j].variables.len())),
        decreases ds.files@.len() - i,
    {
        if let Some(v) = ds.files[i].selected_variable {
            if v >= ds.files[i].variables.len() {
                return false;
            }
        }
        i = i + 1;
    }
    true
}

/// The active file, when the active index points at one.
pub open spec fn active_open_file(ds: DataStore) -> Option<OpenFile> {
    match ds.active_file {
        Some(fi) => if fi < ds.files.len() {
            Some(ds.files@[fi as int])
        } else {
            None
        },
        None => None,
    }
}

/// The active file, when the active index points at one.
pub fn active_file_of(ds: &DataStore) -> (r: Option<&OpenFile>)
    ensures
        match r {
            Some(f) => active_open_file(*ds) == Some(*f),
            None => active_open_file(*ds) is None,
        },
{
    match ds.active_file {
        Some(fi) => if fi < ds.files.len() {
            Some(&ds.files[fi])
        } else {
            None
        },
        None => None,
    }
}

// ---------------------------------------------------------------------------
// Paths
// ---------------------------------------------------------------------------

/// The normal components of a `/`-separated path: `.` and empty pieces are
/// dropped, as `Path::components` normalizes them.
pub open spec fn path_components(p: Seq<char>) -> Seq<Seq<char>> {
    split_char(p, '/').filter(normal_component())
}

/// A component that is neither empty nor `.`.
pub open spec fn normal_component() -> spec_fn(Seq<char>) -> bool {
    |c: Seq<char>| c.len() > 0 && c != seq!['.']
}

/// `Path::file_name`: the last normal component, unless it is `..` or there
/// is none.
pub open spec fn file_name(p: Seq<char>) -> Option<Seq<char>> {
    let c = path_components(p);
    if c.len() == 0 || c.last() == seq!['.', '.'] {
        None
    } else {
        Some(c.last())
    }
}

/// The position of the last `.` in `s`.
pub open spec fn last_dot(s: Seq<char>) -> Option<int>
    decreases s.len(),
{
    if s.len() == 0 {
        None
    } else if s.last() == '.' {
        Some(s.len() - 1)
    } else {
        last_dot(s.drop_last())
    }
}

/// `Path::extension`: the text after the final `.` of the file name, unless
/// the name has no `.` or its only `.` is the leading one.
pub open spec fn extension(p: Seq<char>) -> Option<Seq<char>> {
    match file_name(p) {
        None => None,
        Some(n) => match last_dot(n) {
            Some(k) => if k == 0 {
                None
            } else {
                Some(n.skip(k + 1))
            },
            None => None,
        },
    }
}

/// `Path::file_stem`: the file name before its final `.`, or the whole name
/// when it has no `.` but a leading one.
pub open spec fn file_stem(p: Seq<char>) -> Option<Seq<char>> {
    match file_name(p) {
        None => None,
        Some(n) => match last_dot(n) {
            Some(k) => if k == 0 {
                Some(n)
            } else {
                Some(n.take(k))
            },
            None => Some(n),
        },
    }
}

proof fn lemma_last_dot(s: Seq<char>)
    ensures
        last_dot(s) matches Some(k) ==> 0 <= k < s.len() && s[k] == '.' && forall|j: int|
            k < j < s.len() ==> s[j] != '.',
        last_dot(s) is None ==> forall|j: int| 0 <= j < s.len() ==> s[j] != '.',
    decreases s.len(),
{
    if s.len() > 0 && s.last() != '.' {
        lemma_last_dot(s.drop_last());
        assert forall|j: int| 0 <= j < s.len() - 1 implies s.drop_last()[j] == s[j] by {}
    }
}

fn last_dot_exec(s: &[char]) -> (r: Option<usize>)
    ensures
        r matches Some(k) ==> last_dot(s@) == Some(k as int),
        r is None ==> last_dot(s@) is None,
{
    let mut i: usize = s.len();
    assert(s@.take(i as int) =~= s@);
    while i > 0
        invariant
            i <= s@.len(),
            last_dot(s@) == last_dot(s@.take(i as int)),
        decreases i,
    {
        if s[i - 1] == '.' {
            assert(s@.take(i as int).last() == '.');
            return Some(i - 1);
        }
        assert(s@.take(i as int).drop_last() =~= s@.take(i - 1));
        i = i - 1;
    }
    None
}

fn is_dot_or_empty(c: &Vec<char>) -> (r: bool)
    ensures
        r == !(c@.len() > 0 && c@ != seq!['.']),
{
    if c.len() == 0 {
        return true;
    }
    let r = c.len() == 1 && c[0] == '.';
    if r {
        assert(c@ =~= seq!['.']);
    } else {
        assert(c@ != seq!['.']) by {
            if c@ == seq!['.'] {
                assert(c@[0] == '.');
            }
        }
    }
    r
}

/// `Path::file_name`.
pub fn file_name_exec(p: &[char]) -> (r: Option<Vec<char>>)
    ensures
        r matches Some(v) ==> file_name(p@) == Some(v@),
        r is None ==> file_name(p@) is None,
{
    let pieces = split_exec(p, '/');
    let ghost f = normal_component();
    let mut kept: Vec<Vec<char>> = Vec::new();
    let mut i: usize = 0;
    while i < pieces.len()
        invariant
            i <= pieces@.len(),
            views(pieces@) == split_char(p@, '/'),
            f == normal_component(),
            views(kept@) == views(pieces@).take(i as int).filter(f),
        decreases pieces@.len() - i,
    {
        let ghost before = views(pieces@).take(i as int);
        assert(views(pieces@).take(i + 1) =~= before.push(views(pieces@)[i as int]));
        proof {
            before.lemma_filter_push(views(pieces@)[i as int], f);
        }
        let ghost x = views(pieces@)[i as int];
        assert(x == pieces@[i as int]@);
        let skip = is_dot_or_empty(&pieces[i]);
        assert(skip == !f(x));
        if !skip {
            let ghost old_kept = kept@;
            kept.push(pieces[i].clone());
            assert(views(kept@) =~= views(old_kept).push(x));
        }
        assert(views(kept@) == views(pieces@).take(i + 1).filter(f));
        i = i + 1;
    }
    assert(views(pieces@).take(pieces@.len() as int) =~= views(pieces@));
    assert(views(kept@) == path_components(p@));
    if kept.len() == 0 {
        return None;
    }
    let last = kept.pop().unwrap();
    assert(last@ == path_components(p@).last());
    if last.len() == 2 && last[0] == '.' && last[1] == '.' {
        assert(last@ =~= seq!['.', '.']);
        return None;
    }
    assert(last@ != seq!['.', '.']) by {
        if last@ == seq!['.', '.'] {
            assert(last@[0] == '.' && last@[1] == '.');
        }
    }
    Some(last)
}

/// `Path::extension`.
pub fn extension_exec(p: &[char]) -> (r: Option<Vec<char>>)
    ensures
        r matches Some(v) ==> extension(p@) == Some(v@),
        r is None ==> extension(p@) is None,
{
    match file_name_exec(p) {
        None => None,
        Some(n) => match last_dot_exec(n.as_slice()) {
            Some(k) => {
                if k == 0 {
                    None
                } else {
                    proof {
                        lemma_last_dot(n@);
                    }
                    let r = sub_chars(n.as_slice(), k + 1, n.len());
                    assert(r@ =~= n@.skip(k + 1));
                    Some(r)
                }
            },
            None => None,
        },
    }
}

/// `Path::file_stem`.
pub fn file_stem_exec(p: &[char]) -> (r: Option<Vec<char>>)
    ensures
        r matches Some(v) ==> file_stem(p@) == Some(v@),
        r is None ==> file_stem(p@) is None,
{
    match file_name_exec(p) {
        None => None,
        Some(n) => match last_dot_exec(n.as_slice()) {
            Some(k) => {
                if k == 0 {
                    Some(n)
                } else {
                    proof {
                        lemma_last_dot(n@);
                    }
                    let r = sub_chars(n.as_slice(), 0, k);
                    assert(r@ =~= n@.take(k as int));
                    Some(r)
                }
            },
            None => Some(n),
        },
    }
}

// ---------------------------------------------------------------------------
// File extension filter for drag & drop
// ---------------------------------------------------------------------------

/// Accepted NetCDF file extensions.
pub open spec fn accepted_extensions() -> Seq<Seq<char>> {
    seq!["nc"@, "nc4"@, "netcdf"@]
}

/// The message refusing a file whose extension (empty when there is none) is `ext`.
pub open spec fn unsupported_file_message(ext: Seq<char>) -> Seq<char> {
    "Unsupported file type '."@ + ext + "'. Only .nc / .nc4 / .netcdf files are accepted."@
}

/// The path's extension, or the empty text when it has none.
pub open spec fn extension_or_empty(p: Seq<char>) -> Seq<char> {
    match extension(p) {
        Some(e) => e,
        None => seq![],
    }
}

/// Whether `validate_netcdf_path` accepts `p`.
pub open spec fn is_netcdf_path(p: Seq<char>) -> bool {
    exists|i: int|
        0 <= i < accepted_extensions().len() && eq_ignore_case(
            #[trigger] accepted_extensions()[i],
            extension_or_empty(p),
        )
}

/// Returns `Ok(())` if the path has an accepted NetCDF extension (compared
/// without regard to ASCII case), otherwise an error message suitable for
/// display.
pub fn validate_netcdf_path(path: &str) -> (r: Result<(), String>)
    ensures
        r is Ok <==> is_netcdf_path(path@),
        r matches Err(m) ==> m@ == unsupported_file_message(extension_or_empty(path@)),
{
    let p = chars_of(path);
    let ext: Vec<char> = match extension_exec(p.as_slice()) {
        Some(e) => e,
        None => Vec::new(),
    };
    assert(ext@ == extension_or_empty(path@));
    let accepted: Vec<&str> = vec!["nc", "nc4", "netcdf"];
    let mut i: usize = 0;
    while i < accepted.len()
        invariant
            i <= accepted@.len(),
            accepted@.len() == 3,
            ext@ == extension_or_empty(path@),
            forall|j: int| 0 <= j < 3 ==> #[trigger] accepted@[j]@ == accepted_extensions()[j],
            forall|j: int| 0 <= j < i ==> !eq_ignore_case(#[trigger] accepted_extensions()[j], ext@),
        decreases accepted@.len() - i,
    {
        let a = chars_of(accepted[i]);
        if eq_ignore_ascii_case(a.as_slice(), ext.as_slice()) {
            assert(accepted@[i as int]@ == accepted_extensions()[i as int]);
            assert(eq_ignore_case(accepted_extensions()[i as int], extension_or_empty(path@)));
            return Ok(());
        }
        i = i + 1;
    }
    let mut m = String::new();
    push_str(&mut m, "Unsupported file type '.");
    push_chars(&mut m, ext.as_slice());
    push_str(&mut m, "'. Only .nc / .nc4 / .netcdf files are accepted.");
    assert(m@ =~= unsupported_file_message(ext@));
    Err(m)
}

// ---------------------------------------------------------------------------
// Colormap inference (PRD 4.1)
// ---------------------------------------------------------------------------

/// The colormap family `infer_colormap` recommends.
pub open spec fn colormap_hint_for(
    name: Seq<char>,
    units: Option<Seq<char>>,
    spans_zero: bool,
) -> ColormapHint {
    let lower = ascii_lower(name);
    if starts_with(lower, "vor"@) || starts_with(lower, "div"@) || starts_with(lower, "d"@) {
        ColormapHint::Diverging
    } else if starts_with(lower, "temp"@) || (name == "T"@ && (units matches Some(u) && contains(
        u,
        "K"@,
    ))) {
        ColormapHint::Sequential
    } else if spans_zero {
        ColormapHint::Diverging
    } else {
        ColormapHint::Sequential
    }
}

/// Whether `s` holds the character `c`.
pub fn contains_str(s: &str, p: &str) -> (r: bool)
    ensures
        r == contains(s@, p@),
{
    let a = chars_of(s);
    let b = chars_of(p);
    contains_exec(a.as_slice(), b.as_slice())
}

/// Whether `s`, lowercased in ASCII, starts with `p`.
pub fn lower_starts_with(s: &[char], p: &str) -> (r: bool)
    ensures
        r == starts_with(ascii_lower(s@), p@),
{
    let l = to_ascii_lower(s);
    let q = chars_of(p);
    starts_with_exec(l.as_slice(), q.as_slice())
}

/// Infer a recommended colormap family from variable metadata and data range.
///
/// Rules (evaluated in order):
/// 1. Name starts with `vor` / `div` / `d` → Diverging
/// 2. Name starts with `temp`, or is `T` with units containing `K` → Sequential
/// 3. the loaded data spans zero (min * max < 0) → Diverging
/// 4. Otherwise → Sequential
pub fn infer_colormap(var: &VariableInfo, spans_zero: bool) -> (r: ColormapHint)
    ensures
        r == colormap_hint_for(var.name@, opt_view(var.units), spans_zero),
{
    let name = chars_of(var.name.as_str());
    let vor = lower_starts_with(name.as_slice(), "vor");
    let div = lower_starts_with(name.as_slice(), "div");
    let d = lower_starts_with(name.as_slice(), "d");
    if vor || div || d {
        return ColormapHint::Diverging;
    }
    let is_t = str_eq(var.name.as_str(), "T");
    let has_k = match &var.units {
        Some(u) => contains_str(u.as_str(), "K"),
        None => false,
    };
    if lower_starts_with(name.as_slice(), "temp") || (is_t && has_k) {
        return ColormapHint::Sequential;
    }
    if spans_zero {
        return ColormapHint::Diverging;
    }
    ColormapHint::Sequential
}

// ---------------------------------------------------------------------------
// Dimension detection helpers
// ---------------------------------------------------------------------------

pub open spec fn time_names() -> Seq<Seq<char>> {
    seq!["time"@, "t"@]
}

pub open spec fn level_names() -> Seq<Seq<char>> {
    seq!["level"@, "lev"@, "z"@, "sigma"@]
}

/// `name`, lowercased in ASCII, is one of `candidates`.
pub open spec fn name_in(name: Seq<char>, candidates: Seq<Seq<char>>) -> bool {
    exists|i: int| 0 <= i < candidates.len() && #[trigger] candidates[i] == ascii_lower(name)
}

/// The position and size of the first dimension whose name is one of `candidates`.
pub open spec fn find_dim_spec(dims: Seq<(Seq<char>, usize)>, candidates: Seq<Seq<char>>) -> Option<(int, usize)>
    decreases dims.len(),
{
    if dims.len() == 0 {
        None
    } else if name_in(dims[0].0, candidates) {
        Some((0, dims[0].1))
    } else {
        match find_dim_spec(dims.drop_first(), candidates) {
            Some((p, s)) => Some((p + 1, s)),
            None => None,
        }
    }
}

/// The candidate names as text.
pub open spec fn strs_view(c: Seq<&str>) -> Seq<Seq<char>> {
    c.map_values(|s: &str| s@)
}

/// Whether `name` (lowercased in ASCII) is one of `candidates`.
pub fn is_name_in(name: &str, candidates: &[&str]) -> (r: bool)
    ensures
        r == name_in(name@, strs_view(candidates@)),
{
    let n = chars_of(name);
    let lower = to_ascii_lower(n.as_slice());
    let mut i: usize = 0;
    while i < candidates.len()
        invariant
            i <= candidates@.len(),
            lower@ == ascii_lower(name@),
            forall|j: int| 0 <= j < i ==> strs_view(candidates@)[j] != ascii_lower(name@),
        decreases candidates@.len() - i,
    {
        let c = chars_of(candidates[i]);
        if chars_equal(c.as_slice(), lower.as_slice()) {
            assert(strs_view(candidates@)[i as int] == ascii_lower(name@));
            return true;
        }
        i = i + 1;
    }
    false
}

proof fn lemma_find_dim_step(dims: Seq<(Seq<char>, usize)>, c: Seq<Seq<char>>, i: int)
    requires
        0 <= i < dims.len(),
        forall|j: int| 0 <= j < i ==> !name_in(#[trigger] dims[j].0, c),
    ensures
        name_in(dims[i].0, c) ==> find_dim_spec(dims, c) == Some((i, dims[i].1)),
        !name_in(dims[i].0, c) ==> forall|j: int| 0 <= j <= i ==> !name_in(#[trigger] dims[j].0, c),
    decreases i,
{
    if i > 0 {
        assert(!name_in(dims[0].0, c));
        let t = dims.drop_first();
        assert forall|j: int| 0 <= j < i - 1 implies !name_in(#[trigger] t[j].0, c) by {
            assert(t[j] == dims[j + 1]);
        }
        lemma_find_dim_step(t, c, i - 1);
    }
}

proof fn lemma_find_dim_none(dims: Seq<(Seq<char>, usize)>, c: Seq<Seq<char>>)
    requires
        forall|j: int| 0 <= j < dims.len() ==> !name_in(#[trigger] dims[j].0, c),
    ensures
        find_dim_spec(dims, c) is None,
    decreases dims.len(),
{
    if dims.len() > 0 {
        let t = dims.drop_first();
        assert forall|j: int| 0 <= j < t.len() implies !name_in(#[trigger] t[j].0, c) by {
            assert(t[j] == dims[j + 1]);
        }
        lemma_find_dim_none(t, c);
    }
}

/// Find the position and size of a named dimension in a variable's dimension list.
pub fn find_dim(dims: &Vec<(String, usize)>, candidates: &[&str]) -> (r: Option<(usize, usize)>)
    ensures
        r matches Some((p, s)) ==> find_dim_spec(dims_view(dims@), strs_view(candidates@)) == Some(
            (p as int, s),
        ),
        r is None ==> find_dim_spec(dims_view(dims@), strs_view(candidates@)) is None,
{
    let ghost d = dims_view(dims@);
    let ghost c = strs_view(candidates@);
    let mut i: usize = 0;
    while i < dims.len()
        invariant
            i <= dims@.len(),
            d == dims_view(dims@),
            c == strs_view(candidates@),
            forall|j: int| 0 <= j < i ==> !name_in(#[trigger] d[j].0, c),
        decreases dims@.len() - i,
    {
        proof {
            lemma_find_dim_step(d, c, i as int);
        }
        if is_name_in(dims[i].0.as_str(), candidates) {
            return Some((i, dims[i].1));
        }
        i = i + 1;
    }
    proof {
        lemma_find_dim_none(d, c);
    }
    None
}

// ---------------------------------------------------------------------------
// Opening files and reading slices
// ---------------------------------------------------------------------------

/// The size of the first dimension, over the variables in order, whose name
/// is one of `candidates`.
pub open spec fn first_dim_size(vars: Seq<VariableInfo>, candidates: Seq<Seq<char>>) -> Option<usize>
    decreases vars.len(),
{
    if vars.len() == 0 {
        None
    } else {
        match find_dim_spec(dims_view(vars[0].dimensions@), candidates) {
            Some((_, size)) => Some(size),
            None => first_dim_size(vars.drop_first(), candidates),
        }
    }
}

fn first_dim_size_exec(vars: &Vec<VariableInfo>, candidates: &[&str]) -> (r: Option<usize>)
    ensures
        r == first_dim_size(vars@, strs_view(candidates@)),
{
    let mut i: usize = 0;
    assert(vars@.skip(0) =~= vars@);
    while i < vars.len()
        invariant
            i <= vars@.len(),
            first_dim_size(vars@, strs_view(candidates@)) == first_dim_size(vars@.skip(i as int), strs_view(candidates@)),
        decreases vars@.len() - i,
    {
        assert(vars@.skip(i as int).drop_first() =~= vars@.skip(i + 1));
        assert(vars@.skip(i as int)[0] == vars@[i as int]);
        if let Some((_, size)) = find_dim(&vars[i].dimensions, candidates) {
            return Some(size);
        }
        i = i + 1;
    }
    None
}

/// The metadata of a file just opened: nothing selected, at the first time
/// step, with the time length and level count of the first variables that
/// have such dimensions.
pub open spec fn opened_file(path: Seq<char>, vars: Seq<VariableInfo>, f: OpenFile) -> bool {
    &&& f.path@ == path
    &&& f.variables@ == vars
    &&& f.selected_variable is None
    &&& f.current_time == 0
    &&& f.time_steps == first_dim_size(vars, time_names())
    &&& f.level_count == first_dim_size(vars, level_names())
}

/// The entry of a newly opened file with the given variables.
pub fn new_open_file(path: String, variables: Vec<VariableInfo>) -> (r: OpenFile)
    ensures
        opened_file(path@, variables@, r),
{
    let time_names_exec: Vec<&str> = vec!["time", "t"];
    let level_names_exec: Vec<&str> = vec!["level", "lev", "z", "sigma"];
    assert(strs_view(time_names_exec@) =~= time_names());
    assert(strs_view(level_names_exec@) =~= level_names());
    let time_steps = first_dim_size_exec(&variables, time_names_exec.as_slice());
    let level_count = first_dim_size_exec(&variables, level_names_exec.as_slice());
    OpenFile { path, variables, selected_variable: None, time_steps, current_time: 0, level_count }
}

impl DataStore {
    /// An empty store.
    pub fn new() -> (r: Self)
        ensures
            r.files@.len() == 0,
            r.active_file is None,
    {
        DataStore { files: Vec::new(), active_file: None }
    }

    /// The index of the open file with path `path`.
    pub fn open_index(&self, path: &str) -> (r: Option<usize>)
        ensures
            r matches Some(k) ==> first_index(file_paths(self.files@), path@) == Some(k as int),
            r is None ==> first_index(file_paths(self.files@), path@) is None,
    {
        let mut i: usize = 0;
        while i < self.files.len()
            invariant
                i <= self.files@.len(),
                forall|j: int| 0 <= j < i ==> self.files@[j].path@ != path@,
            decreases self.files@.len() - i,
        {
            if str_eq(self.files[i].path.as_str(), path) {
                proof {
                    assert forall|j: int| 0 <= j < i implies file_paths(self.files@)[j] != path@ by {
                        assert(file_paths(self.files@)[j] == self.files@[j].path@);
                    }
                    lemma_first_index_unique(file_paths(self.files@), path@, i as int);
                }
                return Some(i);
            }
            i = i + 1;
        }
        proof {
            lemma_first_index(file_paths(self.files@), path@);
            assert forall|j: int| 0 <= j < file_paths(self.files@).len() implies file_paths(self.files@)[j]
                != path@ by {
                assert(file_paths(self.files@)[j] == self.files@[j].path@);
            }
        }
        None
    }

    /// Adds an opened file and makes it the active one.  A file whose path
    /// is already open is not added again: that file becomes the active one.
    /// Returns whether an entry was added.
    pub fn add_file(&mut self, file: OpenFile) -> (r: bool)
        ensures
            file_added(*old(self), file, *final(self), r),
            distinct_paths(old(self).files@) ==> distinct_paths(final(self).files@),
    {
        match self.open_index(file.path.as_str()) {
            Some(k) => {
                proof {
                    lemma_first_index(file_paths(self.files@), file.path@);
                }
                self.active_file = Some(k);
                false
            },
            None => {
                proof {
                    lemma_first_index(file_paths(self.files@), file.path@);
                    let old_files = self.files@;
                    assert forall|j: int| 0 <= j < old_files.len() implies old_files[j].path@ != file.path@ by {
                        assert(file_paths(old_files)[j] == old_files[j].path@);
                    }
                }
                self.files.push(file);
                self.active_file = Some(self.files.len() - 1);
                true
            },
        }
    }

    /// Records that variable `var_idx` of file `file_idx` was loaded at time
    /// step `time_idx`.
    pub fn record_loaded(&mut self, file_idx: usize, var_idx: usize, time_idx: usize)
        requires
            file_idx < old(self).files.len(),
        ensures
            final(self).files@ == old(self).files@.update(
                file_idx as int,
                OpenFile {
                    selected_variable: Some(var_idx),
                    current_time: time_idx,
                    ..old(self).files@[file_idx as int]
                },
            ),
            final(self).active_file == old(self).active_file,
    {
        self.files[file_idx].selected_variable = Some(var_idx);
        self.files[file_idx].current_time = time_idx;
    }
}

/// The active index after file `removed` is closed, `new_len` files
/// remaining: none when no file remains; the closed file's index, kept in
/// range, when it was the active one; one less when the active file came
/// after it.
pub open spec fn active_after_close(active: Option<usize>, removed: int, new_len: int) -> Option<usize> {
    if new_len == 0 {
        None
    } else {
        match active {
            Some(a) => if a == removed {
                Some(if a <= new_len - 1 { a } else { (new_len - 1) as usize })
            } else if a > removed {
                Some((a - 1) as usize)
            } else {
                Some(a)
            },
            None => None,
        }
    }
}

impl DataStore {
    /// Closes file `file_idx`.  Returns whether another file became the
    /// active one in place of the closed one.
    pub fn close_file(&mut self, file_idx: usize) -> (r: bool)
        requires
            file_idx < old(self).files.len(),
        ensures
            final(self).files@ == old(self).files@.remove(file_idx as int),
            final(self).active_file == active_after_close(
                old(self).active_file,
                file_idx as int,
                old(self).files@.len() - 1,
            ),
            r == (old(self).active_file == Some(file_idx) && old(self).files@.len() > 1),
    {
        self.files.remove(file_idx);
        if self.files.len() == 0 {
            self.active_file = None;
            false
        } else if let Some(active) = self.active_file {
            if active == file_idx {
                let last = self.files.len() - 1;
                self.active_file = Some(if active <= last {
                    active
                } else {
                    last
                });
                true
            } else if active > file_idx {
                self.active_file = Some(active - 1);
                false
            } else {
                false
            }
        } else {
            false
        }
    }
}

/// Closing a file keeps the active file active when it was another one, and
/// keeps a valid active index valid.
pub proof fn lemma_close_keeps_active(ds: DataStore, removed: int, ds2: DataStore)
    requires
        0 <= removed < ds.files.len(),
        ds2.files@ == ds.files@.remove(removed),
        ds2.active_file == active_after_close(ds.active_file, removed, ds.files.len() - 1),
    ensures
        (ds.active_file matches Some(a) && a < ds.files.len() && a != removed) ==> active_open_file(ds2)
            == active_open_file(ds),
        (ds.active_file matches Some(a) && a < ds.files.len()) ==> (ds2.active_file is None <==> ds2.files.len() == 0),
        ds2.active_file matches Some(a) ==> a < ds2.files.len() || (ds.active_file matches Some(b) && b >= ds.files.len()),
{
}

/// A coordinate variable: one dimension, named as the variable.
pub open spec fn coordinate_variable(v: VariableInfo) -> bool {
    v.dimensions.len() <= 1 && v.dimensions.len() > 0 && v.dimensions@[0].0@ == v.name@
}

/// Whether a variable is a coordinate variable, which the data browser
/// does not list.
pub fn is_coordinate_variable(v: &VariableInfo) -> (r: bool)
    ensures
        r == coordinate_variable(*v),
{
    v.dimensions.len() <= 1 && v.dimensions.len() > 0 && str_eq(v.dimensions[0].0.as_str(), v.name.as_str())
}

/// After a file is added, it is the active file.
/// After a file is opened, the active file is the one with its path: the
/// file itself when it was added, and the file count grows only then.
pub proof fn lemma_added_file_is_active(ds: DataStore, f: OpenFile, ds2: DataStore, added: bool)
    requires
        file_added(ds, f, ds2, added),
    ensures
        active_open_file(ds2) matches Some(g) && g.path@ == f.path@,
        added ==> active_open_file(ds2) == Some(f),
        ds2.files.len() == ds.files.len() + (if added { 1int } else { 0int }),
{
    lemma_first_index(file_paths(ds.files@), f.path@);
    if let Some(k) = first_index(file_paths(ds.files@), f.path@) {
        assert(file_paths(ds.files@)[k] == ds.files@[k].path@);
    }
}

/// The variable shown when a file is opened: the first with at least two
/// dimensions.
pub open spec fn default_variable_spec(vars: Seq<VariableInfo>) -> Option<int>
    decreases vars.len(),
{
    if vars.len() == 0 {
        None
    } else if vars[0].dimensions.len() >= 2 {
        Some(0)
    } else {
        match default_variable_spec(vars.drop_first()) {
            Some(k) => Some(k + 1),
            None => None,
        }
    }
}

/// The first variable with at least two dimensions.
pub fn default_variable(vars: &Vec<VariableInfo>) -> (r: Option<usize>)
    ensures
        match r {
            Some(k) => default_variable_spec(vars@) == Some(k as int),
            None => default_variable_spec(vars@) is None,
        },
{
    let mut i: usize = 0;
    assert(vars@.skip(0) =~= vars@);
    while i < vars.len()
        invariant
            i <= vars@.len(),
            default_variable_spec(vars@) == (match default_variable_spec(vars@.skip(i as int)) {
                Some(k) => Some(k + i),
                None => None,
            }),
        decreases vars@.len() - i,
    {
        assert(vars@.skip(i as int).drop_first() =~= vars@.skip(i + 1));
        assert(vars@.skip(i as int)[0] == vars@[i as int]);
        if vars[i].dimensions.len() >= 2 {
            return Some(i);
        }
        i = i + 1;
    }
    None
}

/// The (start, count) of dimension `k` when reading the 2D slice at time
/// `t` and level `l`: the two last (spatial) dimensions whole, the time and
/// level dimensions at the requested index, every other dimension whole.
pub open spec fn extent_at(dims: Seq<(Seq<char>, usize)>, t: usize, l: usize, k: int) -> (usize, usize) {
    let n = dims.len() as int;
    if k == n - 2 || k == n - 1 {
        (0, dims[k].1)
    } else if find_dim_spec(dims, level_names()) matches Some((p, _)) && p == k {
        (l, 1)
    } else if find_dim_spec(dims, time_names()) matches Some((p, _)) && p == k {
        (t, 1)
    } else {
        (0, dims[k].1)
    }
}

/// The extents of the 2D slice at time `t` and level `l`, for a variable of
/// at least two dimensions.
pub open spec fn slice_extents_spec(dims: Seq<(Seq<char>, usize)>, t: usize, l: usize) -> Option<Seq<(usize, usize)>> {
    if dims.len() < 2 {
        None
    } else {
        Some(Seq::new(dims.len(), |k: int| extent_at(dims, t, l, k)))
    }
}

/// The (start, count) per dimension of the 2D slice at time `time_idx` and
/// level `level_idx`; `None` for a variable of fewer than two dimensions.
pub fn slice_extents(dims: &Vec<(String, usize)>, time_idx: usize, level_idx: usize) -> (r: Option<Vec<(usize, usize)>>)
    ensures
        match r {
            Some(v) => slice_extents_spec(dims_view(dims@), time_idx, level_idx) == Some(v@),
            None => slice_extents_spec(dims_view(dims@), time_idx, level_idx) is None,
        },
{
    let n = dims.len();
    if n < 2 {
        return None;
    }
    let ghost d = dims_view(dims@);
    let time_names_exec: Vec<&str> = vec!["time", "t"];
    let level_names_exec: Vec<&str> = vec!["level", "lev", "z", "sigma"];
    assert(strs_view(time_names_exec@) =~= time_names());
    assert(strs_view(level_names_exec@) =~= level_names());
    let tp = find_dim(dims, time_names_exec.as_slice());
    let lp = find_dim(dims, level_names_exec.as_slice());
    let mut out: Vec<(usize, usize)> = Vec::new();
    let mut k: usize = 0;
    while k < n
        invariant
            n == dims@.len(),
            n >= 2,
            k <= n,
            d == dims_view(dims@),
            out@.len() == k,
            match tp {
                Some((p, s)) => find_dim_spec(d, time_names()) == Some((p as int, s)),
                None => find_dim_spec(d, time_names()) is None,
            },
            match lp {
                Some((p, s)) => find_dim_spec(d, level_names()) == Some((p as int, s)),
                None => find_dim_spec(d, level_names()) is None,
            },
            forall|j: int| 0 <= j < k ==> out@[j] == extent_at(d, time_idx, level_idx, j),
        decreases n - k,
    {
        assert(d[k as int].1 == dims@[k as int].1);
        let e: (usize, usize) = if k == n - 2 || k == n - 1 {
            (0, dims[k].1)
        } else if lp.is_some() && lp.unwrap().0 == k {
            (level_idx, 1)
        } else if tp.is_some() && tp.unwrap().0 == k {
            (time_idx, 1)
        } else {
            (0, dims[k].1)
        };
        out.push(e);
        k = k + 1;
    }
    assert(out@ =~= Seq::new(d.len(), |j: int| extent_at(d, time_idx, level_idx, j)));
    Some(out)
}

/// The slice read to compare with the neighbouring time step: as
/// `slice_extents`, but `None` also when the variable has a time dimension
/// and `time_idx` is past its end.
pub fn tendency_slice_extents(dims: &Vec<(String, usize)>, time_idx: usize, level_idx: usize) -> (r: Option<Vec<(usize, usize)>>)
    ensures
        match r {
            Some(v) => slice_extents_spec(dims_view(dims@), time_idx, level_idx) == Some(v@)
                && !(find_dim_spec(dims_view(dims@), time_names()) matches Some((_, s)) && time_idx >= s),
            None => slice_extents_spec(dims_view(dims@), time_idx, level_idx) is None
                || (find_dim_spec(dims_view(dims@), time_names()) matches Some((_, s)) && time_idx >= s),
        },
{
    let time_names_exec: Vec<&str> = vec!["time", "t"];
    assert(strs_view(time_names_exec@) =~= time_names());
    if let Some((_, size)) = find_dim(dims, time_names_exec.as_slice()) {
        if time_idx >= size {
            return None;
        }
    }
    slice_extents(dims, time_idx, level_idx)
}

// ---------------------------------------------------------------------------
// Dimensions of the selected variable
// ---------------------------------------------------------------------------

/// The selected variable of the active file.
pub open spec fn active_variable(ds: DataStore) -> Option<VariableInfo> {
    match active_open_file(ds) {
        Some(f) => match f.selected_variable {
            Some(vi) => Some(f.variables@[vi as int]),
            None => None,
        },
        None => None,
    }
}

/// The size of the first dimension named exactly `time` or `t`.
pub open spec fn time_dim_len(dims: Seq<(String, usize)>) -> Option<usize>
    decreases dims.len(),
{
    if dims.len() == 0 {
        None
    } else if dims[0].0@ == "time"@ || dims[0].0@ == "t"@ {
        Some(dims[0].1)
    } else {
        time_dim_len(dims.drop_first())
    }
}

/// The length of the time dimension of the selected variable.
pub fn active_time_dim_len(ds: &DataStore) -> (r: Option<usize>)
    requires
        selections_valid(*ds),
    ensures
        r == match active_variable(*ds) {
            Some(v) => time_dim_len(v.dimensions@),
            None => None,
        },
{
    let f = match active_file_of(ds) {
        Some(f) => f,
        None => return None,
    };
    let vi = match f.selected_variable {
        Some(vi) => vi,
        None => return None,
    };
    assert(f.selected_variable matches Some(v) ==> (v < f.variables.len()));
    let dims = &f.variables[vi].dimensions;
    let mut i: usize = 0;
    assert(dims@.skip(0) =~= dims@);
    while i < dims.len()
        invariant
            i <= dims@.len(),
            time_dim_len(dims@) == time_dim_len(dims@.skip(i as int)),
            active_variable(*ds) matches Some(v) && v.dimensions@ == dims@,
        decreases dims@.len() - i,
    {
        assert(dims@.skip(i as int).drop_first() =~= dims@.skip(i + 1));
        assert(dims@.skip(i as int)[0] == dims@[i as int]);
        let n = dims[i].0.as_str();
        if str_eq(n, "time") || str_eq(n, "t") {
            return Some(dims[i].1);
        }
        i = i + 1;
    }
    None
}

/// Names that are horizontal or time dimensions, never vertical ones.
pub open spec fn horizontal_or_time_names() -> Seq<Seq<char>> {
    seq!["time"@, "t"@, "lon"@, "longitude"@, "lat"@, "latitude"@, "x"@, "y"@]
}

/// Names of vertical dimensions.
pub open spec fn vertical_names() -> Seq<Seq<char>> {
    seq![
        "level"@, "lev"@, "z"@, "sigma"@, "sig"@, "depth"@, "height"@, "plev"@, "pressure"@, "p"@,
        "k"@, "eta"@, "hybrid"@,
    ]
}

/// Parts of names of vertical dimensions.
pub open spec fn vertical_parts() -> Seq<Seq<char>> {
    seq!["lev"@, "sig"@, "depth"@, "height"@, "press"@]
}

/// A dimension name that reads as vertical: not horizontal or time, and
/// (in ASCII lower case) a vertical name or containing a part of one.
pub open spec fn is_vertical(name: Seq<char>) -> bool {
    let l = ascii_lower(name);
    !horizontal_or_time_names().contains(l) && (vertical_names().contains(l) || exists|i: int|
        0 <= i < vertical_parts().len() && contains(l, #[trigger] vertical_parts()[i]))
}

/// The first vertical dimension.
pub open spec fn vertical_dim(dims: Seq<(String, usize)>) -> Option<(Seq<char>, usize)>
    decreases dims.len(),
{
    if dims.len() == 0 {
        None
    } else if is_vertical(dims[0].0@) {
        Some((dims[0].0@, dims[0].1))
    } else {
        vertical_dim(dims.drop_first())
    }
}

fn in_list(l: &Vec<char>, names: &Vec<&str>) -> (r: bool)
    ensures
        r == strs_view(names@).contains(l@),
{
    let mut i: usize = 0;
    while i < names.len()
        invariant
            i <= names@.len(),
            forall|j: int| 0 <= j < i ==> strs_view(names@)[j] != l@,
        decreases names@.len() - i,
    {
        if chars_equal(chars_of(names[i]).as_slice(), l.as_slice()) {
            assert(strs_view(names@)[i as int] == l@);
            return true;
        }
        i = i + 1;
    }
    false
}

fn contains_any(l: &Vec<char>, parts: &Vec<&str>) -> (r: bool)
    ensures
        r == exists|i: int| 0 <= i < strs_view(parts@).len() && contains(l@, #[trigger] strs_view(parts@)[i]),
{
    let mut i: usize = 0;
    while i < parts.len()
        invariant
            i <= parts@.len(),
            forall|j: int| 0 <= j < i ==> !contains(l@, #[trigger] strs_view(parts@)[j]),
        decreases parts@.len() - i,
    {
        if contains_exec(l.as_slice(), chars_of(parts[i]).as_slice()) {
            assert(contains(l@, strs_view(parts@)[i as int]));
            return true;
        }
        i = i + 1;
    }
    false
}

fn is_vertical_exec(name: &str) -> (r: bool)
    ensures
        r == is_vertical(name@),
{
    let l = to_ascii_lower(chars_of(name).as_slice());
    let skip: Vec<&str> = vec!["time", "t", "lon", "longitude", "lat", "latitude", "x", "y"];
    let exact: Vec<&str> = vec![
        "level", "lev", "z", "sigma", "sig", "depth", "height", "plev", "pressure", "p", "k", "eta", "hybrid",
    ];
    let parts: Vec<&str> = vec!["lev", "sig", "depth", "height", "press"];
    assert(strs_view(skip@) =~= horizontal_or_time_names());
    assert(strs_view(exact@) =~= vertical_names());
    assert(strs_view(parts@) =~= vertical_parts());
    !in_list(&l, &skip) && (in_list(&l, &exact) || contains_any(&l, &parts))
}

/// The name and size of the vertical dimension of the selected variable.
pub fn active_level_dim(ds: &DataStore) -> (r: Option<(String, usize)>)
    requires
        selections_valid(*ds),
    ensures
        match r {
            Some((n, s)) => active_variable(*ds) matches Some(v) && vertical_dim(v.dimensions@) == Some((n@, s)),
            None => active_variable(*ds) is None || vertical_dim(active_variable(*ds)->0.dimensions@) is None,
        },
{
    let f = match active_file_of(ds) {
        Some(f) => f,
        None => return None,
    };
    let vi = match f.selected_variable {
        Some(vi) => vi,
        None => return None,
    };
    assert(f.selected_variable matches Some(v) ==> (v < f.variables.len()));
    let dims = &f.variables[vi].dimensions;
    let mut i: usize = 0;
    assert(dims@.skip(0) =~= dims@);
    while i < dims.len()
        invariant
            i <= dims@.len(),
            vertical_dim(dims@) == vertical_dim(dims@.skip(i as int)),
            active_variable(*ds) matches Some(v) && v.dimensions@ == dims@,
        decreases dims@.len() - i,
    {
        assert(dims@.skip(i as int).drop_first() =~= dims@.skip(i + 1));
        assert(dims@.skip(i as int)[0] == dims@[i as int]);
        if is_vertical_exec(dims[i].0.as_str()) {
            return Some((dims[i].0.clone(), dims[i].1));
        }
        i = i + 1;
    }
    None
}

} // verus!
