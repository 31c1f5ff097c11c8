//! Reading edited Python back: the settings that a plotting script written
//! with xarray, matplotlib and cartopy expresses, line by line.
//!
//! Numbers that the viewer keeps as `f32` (the colour range, the globe's
//! camera) are returned as the text that names them, and only when
//! `f32::from_str` accepts that text; the viewer converts it.
use vstd::prelude::*;

use crate::data::{opt_view, DataStore};
use crate::numeric::F32Bits;
use crate::script::variable_changes;
use crate::settings::{
    after_selection, apply_colormap, apply_level, apply_overlays, apply_range, apply_time,
    changes_of, push_change, select_variable_named, selection_for, step_colormap, step_level,
    step_contour, step_overlays, step_range, step_streamline, step_time, step_vector, Applied, Change, Changed, Step,
};
use crate::text::str_eq;
use crate::python::matplotlib_name;
use crate::ui::{Colormap, MapProjection, RangeMode, UiState, ViewMode};
use crate::numeric::{is_float_literal, is_float_text, parse_usize, usize_from_text};
use crate::text::{
    char_index, char_index_exec, chars_of, contains, contains_exec, find, find_exec, lines,
    lines_exec, split_char, split_exec, starts_with, starts_with_exec, string_from_chars, sub_chars,
    trim, trim_exec, views,
};

verus! {

broadcast use vstd::string::group_string_axioms;

/// Settings found in a Python script.  `vmin`, `vmax`, `camera_lon` and
/// `camera_lat` hold the text of the number written there.
#[derive(Debug, Clone)]
pub struct ParsedSettings {
    pub variable_name: Option<String>,
    pub time_index: Option<usize>,
    pub level_index: Option<usize>,
    pub colormap: Option<String>,
    pub vmin: Option<String>,
    pub vmax: Option<String>,
    pub view_mode: Option<String>,
    pub projection: Option<String>,
    pub camera_lon: Option<String>,
    pub camera_lat: Option<String>,
    pub contour_enabled: Option<bool>,
    pub vector_enabled: Option<bool>,
    pub streamline_enabled: Option<bool>,
}

/// The model of `ParsedSettings`: its texts as character sequences.
pub struct Parsed {
    pub variable_name: Option<Seq<char>>,
    pub time_index: Option<usize>,
    pub level_index: Option<usize>,
    pub colormap: Option<Seq<char>>,
    pub vmin: Option<Seq<char>>,
    pub vmax: Option<Seq<char>>,
    pub view_mode: Option<Seq<char>>,
    pub projection: Option<Seq<char>>,
    pub camera_lon: Option<Seq<char>>,
    pub camera_lat: Option<Seq<char>>,
    pub contour_enabled: Option<bool>,
    pub vector_enabled: Option<bool>,
    pub streamline_enabled: Option<bool>,
}

impl View for ParsedSettings {
    type V = Parsed;

    open spec fn view(&self) -> Parsed {
        Parsed {
            variable_name: opt_view(self.variable_name),
            time_index: self.time_index,
            level_index: self.level_index,
            colormap: opt_view(self.colormap),
            vmin: opt_view(self.vmin),
            vmax: opt_view(self.vmax),
            view_mode: opt_view(self.view_mode),
            projection: opt_view(self.projection),
            camera_lon: opt_view(self.camera_lon),
            camera_lat: opt_view(self.camera_lat),
            contour_enabled: self.contour_enabled,
            vector_enabled: self.vector_enabled,
            streamline_enabled: self.streamline_enabled,
        }
    }
}

pub open spec fn nothing_parsed() -> Parsed {
    Parsed {
        variable_name: None,
        time_index: None,
        level_index: None,
        colormap: None,
        vmin: None,
        vmax: None,
        view_mode: None,
        projection: None,
        camera_lon: None,
        camera_lat: None,
        contour_enabled: None,
        vector_enabled: None,
        streamline_enabled: None,
    }
}

impl Default for ParsedSettings {
    fn default() -> (r: Self)
        ensures
            r@ == nothing_parsed(),
    {
        ParsedSettings {
            variable_name: None,
            time_index: None,
            level_index: None,
            colormap: None,
            vmin: None,
            vmax: None,
            view_mode: None,
            projection: None,
            camera_lon: None,
            camera_lat: None,
            contour_enabled: None,
            vector_enabled: None,
            streamline_enabled: None,
        }
    }
}

/// `new` if present, else `old`.
pub open spec fn newer<A>(new: Option<A>, old: Option<A>) -> Option<A> {
    match new {
        Some(x) => Some(x),
        None => old,
    }
}

/// After the first `pat` in `t`, the text up to the next `close`.
pub open spec fn enclosed_after(t: Seq<char>, pat: Seq<char>, close: char) -> Option<Seq<char>> {
    match find(t, pat) {
        Some(p) => {
            let rest = t.skip(p + pat.len());
            match char_index(rest, close) {
                Some(e) => Some(rest.take(e)),
                None => None,
            }
        },
        None => None,
    }
}

/// A character that ends a number written after `vmin=` or `vmax=`.
pub open spec fn ends_value(c: char) -> bool {
    c == ',' || c == ')' || c == ' '
}

/// The length of the longest prefix of `s` without `,`, `)` or a space.
pub open spec fn value_len(s: Seq<char>) -> int
    decreases s.len(),
{
    if s.len() == 0 || ends_value(s[0]) {
        0
    } else {
        1 + value_len(s.drop_first())
    }
}

/// `s` itself, when `f32::from_str` accepts it.
pub open spec fn float_text(s: Seq<char>) -> Option<Seq<char>> {
    if is_float_text(s) {
        Some(s)
    } else {
        None
    }
}

/// The number written right after the first `pat` in `t`.
pub open spec fn number_after(t: Seq<char>, pat: Seq<char>) -> Option<Seq<char>> {
    match find(t, pat) {
        Some(p) => {
            let rest = t.skip(p + pat.len());
            float_text(rest.take(value_len(rest)))
        },
        None => None,
    }
}

/// One argument of `.isel(...)`: `time=N` or `level=N`.
pub open spec fn isel_arg(v: Parsed, part: Seq<char>) -> Parsed {
    let p = trim(part);
    if starts_with(p, "time="@) {
        match usize_from_text(trim(p.skip("time="@.len() as int))) {
            Some(n) => Parsed { time_index: Some(n as usize), ..v },
            None => v,
        }
    } else if starts_with(p, "level="@) {
        match usize_from_text(trim(p.skip("level="@.len() as int))) {
            Some(n) => Parsed { level_index: Some(n as usize), ..v },
            None => v,
        }
    } else {
        v
    }
}

/// The arguments of `.isel(...)`, in order.
pub open spec fn isel_args(v: Parsed, parts: Seq<Seq<char>>) -> Parsed
    decreases parts.len(),
{
    if parts.len() == 0 {
        v
    } else {
        isel_arg(isel_args(v, parts.drop_last()), parts.last())
    }
}

pub open spec fn parse_isel(v: Parsed, t: Seq<char>) -> Parsed {
    match enclosed_after(t, ".isel("@, ')') {
        Some(a) => isel_args(v, split_char(a, ',')),
        None => v,
    }
}

/// `ccrs.Orthographic(lon, lat)`: the globe view and its camera.
pub open spec fn parse_orthographic(v: Parsed, t: Seq<char>) -> Parsed {
    let pat = "ccrs.Orthographic("@;
    match find(t, pat) {
        Some(p) => {
            let v1 = Parsed { view_mode: Some("Globe"@), projection: Some("Orthographic"@), ..v };
            let rest = t.skip(p + pat.len());
            match char_index(rest, ')') {
                Some(e) => {
                    let parts = split_char(rest.take(e), ',');
                    if parts.len() >= 2 {
                        Parsed {
                            camera_lon: newer(float_text(trim(parts[0])), v1.camera_lon),
                            camera_lat: newer(float_text(trim(parts[1])), v1.camera_lat),
                            ..v1
                        }
                    } else {
                        v1
                    }
                },
                None => v1,
            }
        },
        None => v,
    }
}

/// A map projection constructor given as `projection=`.
pub open spec fn map_projection_call(v: Parsed, t: Seq<char>, call: Seq<char>, name: Seq<char>) -> Parsed {
    if contains(t, call) && contains(t, "projection="@) {
        Parsed { view_mode: Some("Map"@), projection: Some(name), ..v }
    } else {
        v
    }
}

/// A call of the plotting method `m`: `.m(` or `.m `.
pub open spec fn calls(t: Seq<char>, open: Seq<char>, spaced: Seq<char>) -> bool {
    contains(t, open) || contains(t, spaced)
}

/// What one trimmed line adds to the settings found so far.
pub open spec fn parse_line(v: Parsed, t: Seq<char>) -> Parsed {
    let v = Parsed { variable_name: newer(enclosed_after(t, "ds[\""@, '"'), v.variable_name), ..v };
    let v = parse_isel(v, t);
    let v = Parsed { colormap: newer(enclosed_after(t, "cmap=\""@, '"'), v.colormap), ..v };
    let v = Parsed { vmin: newer(number_after(t, "vmin="@), v.vmin), ..v };
    let v = Parsed { vmax: newer(number_after(t, "vmax="@), v.vmax), ..v };
    let v = parse_orthographic(v, t);
    let v = map_projection_call(v, t, "ccrs.PlateCarree()"@, "PlateCarree"@);
    let v = map_projection_call(v, t, "ccrs.Mollweide()"@, "Mollweide"@);
    let v = map_projection_call(v, t, "ccrs.NorthPolarStereo()"@, "NorthPolarStereo"@);
    let v = map_projection_call(v, t, "ccrs.SouthPolarStereo()"@, "SouthPolarStereo"@);
    let v = if calls(t, ".contour("@, ".contour "@) {
        Parsed { contour_enabled: Some(true), ..v }
    } else {
        v
    };
    let v = if calls(t, ".quiver("@, ".quiver "@) {
        Parsed { vector_enabled: Some(true), ..v }
    } else {
        v
    };
    if calls(t, ".streamplot("@, ".streamplot "@) {
        Parsed { streamline_enabled: Some(true), ..v }
    } else {
        v
    }
}

/// The settings that the lines `ls` express, later lines overriding earlier ones.
pub open spec fn parse_lines(ls: Seq<Seq<char>>) -> Parsed
    decreases ls.len(),
{
    if ls.len() == 0 {
        nothing_parsed()
    } else {
        parse_line(parse_lines(ls.drop_last()), trim(ls.last()))
    }
}

/// The settings a Python script expresses.
pub open spec fn parse_code(code: Seq<char>) -> Parsed {
    parse_lines(lines(code))
}

// ---------------------------------------------------------------------------
// Executable parsing
// ---------------------------------------------------------------------------

pub open spec fn chars_opt(o: Option<Vec<char>>) -> Option<Seq<char>> {
    match o {
        Some(v) => Some(v@),
        None => None,
    }
}

fn string_opt(o: Option<Vec<char>>) -> (r: Option<String>)
    ensures
        opt_view(r) == chars_opt(o),
{
    match o {
        Some(v) => Some(string_from_chars(v.as_slice())),
        None => None,
    }
}

fn enclosed_after_exec(t: &[char], pat: &str, close: char) -> (r: Option<Vec<char>>)
    ensures
        chars_opt(r) == enclosed_after(t@, pat@, close),
{
    let p = chars_of(pat);
    match find_exec(t, p.as_slice()) {
        Some(k) => {
            proof {
                crate::text::lemma_find_from_bounds(t@, p@, 0);
                assert(crate::text::occurs_at(t@, p@, k as int));
            }
            let n = t.len();
            let rest = sub_chars(t, k + p.len(), n);
            assert(rest@ =~= t@.skip(k + p@.len()));
            match char_index_exec(rest.as_slice(), close) {
                Some(e) => {
                    proof {
                        crate::text::lemma_char_index(rest@, close);
                    }
                    let v = sub_chars(rest.as_slice(), 0, e);
                    assert(v@ =~= rest@.take(e as int));
                    Some(v)
                },
                None => None,
            }
        },
        None => None,
    }
}

pub proof fn lemma_value_len(s: Seq<char>, i: int)
    requires
        0 <= i <= s.len(),
        forall|j: int| 0 <= j < i ==> !ends_value(#[trigger] s[j]),
        i == s.len() || ends_value(s[i]),
    ensures
        value_len(s) == i,
    decreases i,
{
    if i > 0 {
        let d = s.drop_first();
        assert forall|j: int| 0 <= j < i - 1 implies !ends_value(#[trigger] d[j]) by {
            assert(d[j] == s[j + 1]);
        }
        if i < s.len() {
            assert(d[i - 1] == s[i]);
        }
        lemma_value_len(d, i - 1);
    }
}

fn float_text_exec(s: Vec<char>) -> (r: Option<Vec<char>>)
    ensures
        chars_opt(r) == float_text(s@),
{
    if is_float_literal(s.as_slice()) {
        Some(s)
    } else {
        None
    }
}

fn number_after_exec(t: &[char], pat: &str) -> (r: Option<Vec<char>>)
    ensures
        chars_opt(r) == number_after(t@, pat@),
{
    let p = chars_of(pat);
    match find_exec(t, p.as_slice()) {
        Some(k) => {
            proof {
                crate::text::lemma_find_from_bounds(t@, p@, 0);
                assert(crate::text::occurs_at(t@, p@, k as int));
                assert(k + p@.len() <= t@.len());
            }
            let n = t.len();
            let start = k + p.len();
            let ghost rest = t@.skip(start as int);
            let mut i: usize = start;
            while i < t.len() && !(t[i] == ',' || t[i] == ')' || t[i] == ' ')
                invariant
                    start <= i <= t@.len(),
                    rest == t@.skip(start as int),
                    forall|j: int| 0 <= j < i - start ==> !ends_value(#[trigger] rest[j]),
                decreases t@.len() - i,
            {
                i = i + 1;
            }
            proof {
                if i < t@.len() {
                    assert(rest[i - start] == t@[i as int]);
                }
                lemma_value_len(rest, i - start);
            }
            let v = sub_chars(t, start, i);
            assert(v@ =~= rest.take(i - start));
            float_text_exec(v)
        },
        None => None,
    }
}

fn isel_arg_exec(s: &mut ParsedSettings, part: &[char])
    ensures
        final(s)@ == isel_arg(old(s)@, part@),
{
    let p = trim_exec(part);
    let time = chars_of("time=");
    let level = chars_of("level=");
    if starts_with_exec(p.as_slice(), time.as_slice()) {
        let rest = sub_chars(p.as_slice(), time.len(), p.len());
        assert(rest@ =~= p@.skip(time@.len() as int));
        let v = trim_exec(rest.as_slice());
        if let Some(n) = parse_usize(v.as_slice()) {
            s.time_index = Some(n);
        }
    } else if starts_with_exec(p.as_slice(), level.as_slice()) {
        let rest = sub_chars(p.as_slice(), level.len(), p.len());
        assert(rest@ =~= p@.skip(level@.len() as int));
        let v = trim_exec(rest.as_slice());
        if let Some(n) = parse_usize(v.as_slice()) {
            s.level_index = Some(n);
        }
    }
}

fn parse_isel_exec(s: &mut ParsedSettings, t: &[char])
    ensures
        final(s)@ == parse_isel(old(s)@, t@),
{
    let args = match enclosed_after_exec(t, ".isel(", ')') {
        Some(a) => a,
        None => return ,
    };
    let parts = split_exec(args.as_slice(), ',');
    let ghost pv = views(parts@);
    let ghost v0 = s@;
    let mut i: usize = 0;
    while i < parts.len()
        invariant
            i <= parts@.len(),
            pv == views(parts@),
            pv == split_char(args@, ','),
            s@ == isel_args(v0, pv.take(i as int)),
        decreases parts@.len() - i,
    {
        assert(pv.take(i + 1).drop_last() =~= pv.take(i as int));
        assert(pv[i as int] == parts@[i as int]@);
        isel_arg_exec(s, parts[i].as_slice());
        i = i + 1;
    }
    assert(pv.take(i as int) =~= pv);
}

fn parse_orthographic_exec(s: &mut ParsedSettings, t: &[char])
    ensures
        final(s)@ == parse_orthographic(old(s)@, t@),
{
    let pat = chars_of("ccrs.Orthographic(");
    let k = match find_exec(t, pat.as_slice()) {
        Some(k) => k,
        None => return ,
    };
    proof {
        crate::text::lemma_find_from_bounds(t@, pat@, 0);
        assert(crate::text::occurs_at(t@, pat@, k as int));
    }
    s.view_mode = Some("Globe".to_owned());
    s.projection = Some("Orthographic".to_owned());
    let n = t.len();
    let rest = sub_chars(t, k + pat.len(), n);
    assert(rest@ =~= t@.skip(k + pat@.len()));
    let e = match char_index_exec(rest.as_slice(), ')') {
        Some(e) => e,
        None => return ,
    };
    proof {
        crate::text::lemma_char_index(rest@, ')');
    }
    let args = sub_chars(rest.as_slice(), 0, e);
    assert(args@ =~= rest@.take(e as int));
    let parts = split_exec(args.as_slice(), ',');
    assert(views(parts@).len() == parts@.len());
    if parts.len() >= 2 {
        assert(views(parts@)[0] == parts@[0]@);
        assert(views(parts@)[1] == parts@[1]@);
        let lon = float_text_exec(trim_exec(parts[0].as_slice()));
        let lat = float_text_exec(trim_exec(parts[1].as_slice()));
        if let Some(v) = lon {
            s.camera_lon = Some(string_from_chars(v.as_slice()));
        }
        if let Some(v) = lat {
            s.camera_lat = Some(string_from_chars(v.as_slice()));
        }
    }
}

fn map_projection_call_exec(s: &mut ParsedSettings, t: &[char], call: &str, name: &str)
    ensures
        final(s)@ == map_projection_call(old(s)@, t@, call@, name@),
{
    let c = chars_of(call);
    let pr = chars_of("projection=");
    if contains_exec(t, c.as_slice()) && contains_exec(t, pr.as_slice()) {
        s.view_mode = Some("Map".to_owned());
        s.projection = Some(name.to_owned());
    }
}

fn calls_exec(t: &[char], open: &str, spaced: &str) -> (r: bool)
    ensures
        r == calls(t@, open@, spaced@),
{
    let o = chars_of(open);
    let sp = chars_of(spaced);
    contains_exec(t, o.as_slice()) || contains_exec(t, sp.as_slice())
}

fn parse_values_exec(s: &mut ParsedSettings, t: &[char])
    ensures
        final(s)@ == ({
            let v = old(s)@;
            let v = Parsed { variable_name: newer(enclosed_after(t@, "ds[\""@, '"'), v.variable_name), ..v };
            let v = parse_isel(v, t@);
            let v = Parsed { colormap: newer(enclosed_after(t@, "cmap=\""@, '"'), v.colormap), ..v };
            let v = Parsed { vmin: newer(number_after(t@, "vmin="@), v.vmin), ..v };
            Parsed { vmax: newer(number_after(t@, "vmax="@), v.vmax), ..v }
        }),
{
    if let Some(v) = string_opt(enclosed_after_exec(t, "ds[\"", '"')) {
        s.variable_name = Some(v);
    }
    parse_isel_exec(s, t);
    if let Some(v) = string_opt(enclosed_after_exec(t, "cmap=\"", '"')) {
        s.colormap = Some(v);
    }
    if let Some(v) = string_opt(number_after_exec(t, "vmin=")) {
        s.vmin = Some(v);
    }
    if let Some(v) = string_opt(number_after_exec(t, "vmax=")) {
        s.vmax = Some(v);
    }
}

fn parse_views_exec(s: &mut ParsedSettings, t: &[char])
    ensures
        final(s)@ == ({
            let v = parse_orthographic(old(s)@, t@);
            let v = map_projection_call(v, t@, "ccrs.PlateCarree()"@, "PlateCarree"@);
            let v = map_projection_call(v, t@, "ccrs.Mollweide()"@, "Mollweide"@);
            let v = map_projection_call(v, t@, "ccrs.NorthPolarStereo()"@, "NorthPolarStereo"@);
            map_projection_call(v, t@, "ccrs.SouthPolarStereo()"@, "SouthPolarStereo"@)
        }),
{
    parse_orthographic_exec(s, t);
    map_projection_call_exec(s, t, "ccrs.PlateCarree()", "PlateCarree");
    map_projection_call_exec(s, t, "ccrs.Mollweide()", "Mollweide");
    map_projection_call_exec(s, t, "ccrs.NorthPolarStereo()", "NorthPolarStereo");
    map_projection_call_exec(s, t, "ccrs.SouthPolarStereo()", "SouthPolarStereo");
}

fn parse_line_exec(s: &mut ParsedSettings, t: &[char])
    ensures
        final(s)@ == parse_line(old(s)@, t@),
{
    parse_values_exec(s, t);
    parse_views_exec(s, t);
    if calls_exec(t, ".contour(", ".contour ") {
        s.contour_enabled = Some(true);
    }
    if calls_exec(t, ".quiver(", ".quiver ") {
        s.vector_enabled = Some(true);
    }
    if calls_exec(t, ".streamplot(", ".streamplot ") {
        s.streamline_enabled = Some(true);
    }
}

/// Parse a Python code string for known patterns.
pub fn parse_python(code: &str) -> (r: ParsedSettings)
    ensures
        r@ == parse_code(code@),
{
    let cs = chars_of(code);
    let ls = lines_exec(cs.as_slice());
    let ghost lv = views(ls@);
    let mut s = ParsedSettings::default();
    let mut i: usize = 0;
    while i < ls.len()
        invariant
            i <= ls@.len(),
            lv == views(ls@),
            lv == lines(code@),
            s@ == parse_lines(lv.take(i as int)),
        decreases ls@.len() - i,
    {
        assert(lv.take(i + 1).drop_last() =~= lv.take(i as int));
        assert(lv[i as int] == ls@[i as int]@);
        let t = trim_exec(ls[i].as_slice());
        parse_line_exec(&mut s, t.as_slice());
        i = i + 1;
    }
    assert(lv.take(i as int) =~= lv);
    s
}

// ---------------------------------------------------------------------------
// Applying parsed settings
// ---------------------------------------------------------------------------

/// The colormap a matplotlib colormap name denotes.
pub open spec fn matplotlib_colormap(n: Seq<char>) -> Option<Colormap> {
    if n == "viridis"@ {
        Some(Colormap::Viridis)
    } else if n == "plasma"@ {
        Some(Colormap::Plasma)
    } else if n == "inferno"@ {
        Some(Colormap::Inferno)
    } else if n == "magma"@ {
        Some(Colormap::Magma)
    } else if n == "cividis"@ {
        Some(Colormap::Cividis)
    } else if n == "turbo"@ {
        Some(Colormap::Turbo)
    } else if n == "RdBu_r"@ {
        Some(Colormap::RdBuR)
    } else if n == "coolwarm"@ {
        Some(Colormap::Coolwarm)
    } else if n == "Spectral"@ {
        Some(Colormap::Spectral)
    } else if n == "BrBG"@ {
        Some(Colormap::BrBG)
    } else {
        None
    }
}

/// Map a matplotlib colormap name to our Colormap enum.
pub fn matplotlib_to_colormap(name: &str) -> (r: Option<Colormap>)
    ensures
        r == matplotlib_colormap(name@),
{
    if str_eq(name, "viridis") {
        Some(Colormap::Viridis)
    } else if str_eq(name, "plasma") {
        Some(Colormap::Plasma)
    } else if str_eq(name, "inferno") {
        Some(Colormap::Inferno)
    } else if str_eq(name, "magma") {
        Some(Colormap::Magma)
    } else if str_eq(name, "cividis") {
        Some(Colormap::Cividis)
    } else if str_eq(name, "turbo") {
        Some(Colormap::Turbo)
    } else if str_eq(name, "RdBu_r") {
        Some(Colormap::RdBuR)
    } else if str_eq(name, "coolwarm") {
        Some(Colormap::Coolwarm)
    } else if str_eq(name, "Spectral") {
        Some(Colormap::Spectral)
    } else if str_eq(name, "BrBG") {
        Some(Colormap::BrBG)
    } else {
        None
    }
}

/// Reading back the matplotlib name written for a colormap gives the colormap.
pub proof fn lemma_matplotlib_round_trip(c: Colormap)
    ensures
        matplotlib_colormap(matplotlib_name(c)) == Some(c),
{
    reveal_strlit("viridis");
    assert("viridis"@.len() == 7 && "viridis"@[0] == 'v');
    reveal_strlit("plasma");
    assert("plasma"@.len() == 6 && "plasma"@[0] == 'p');
    reveal_strlit("inferno");
    assert("inferno"@.len() == 7 && "inferno"@[0] == 'i');
    reveal_strlit("magma");
    assert("magma"@.len() == 5 && "magma"@[0] == 'm');
    reveal_strlit("cividis");
    assert("cividis"@.len() == 7 && "cividis"@[0] == 'c');
    reveal_strlit("turbo");
    assert("turbo"@.len() == 5 && "turbo"@[0] == 't');
    reveal_strlit("RdBu_r");
    assert("RdBu_r"@.len() == 6 && "RdBu_r"@[0] == 'R');
    reveal_strlit("coolwarm");
    assert("coolwarm"@.len() == 8 && "coolwarm"@[0] == 'c');
    reveal_strlit("Spectral");
    assert("Spectral"@.len() == 8 && "Spectral"@[0] == 'S');
    reveal_strlit("BrBG");
    assert("BrBG"@.len() == 4 && "BrBG"@[0] == 'B');
}

/// The map projection a cartopy projection name denotes.
pub open spec fn cartopy_projection(n: Seq<char>) -> Option<MapProjection> {
    if n == "PlateCarree"@ {
        Some(MapProjection::Equirectangular)
    } else if n == "Mollweide"@ {
        Some(MapProjection::Mollweide)
    } else if n == "NorthPolarStereo"@ {
        Some(MapProjection::PolarNorth)
    } else if n == "SouthPolarStereo"@ {
        Some(MapProjection::PolarSouth)
    } else {
        None
    }
}

fn cartopy_to_projection(name: &str) -> (r: Option<MapProjection>)
    ensures
        r == cartopy_projection(name@),
{
    if str_eq(name, "PlateCarree") {
        Some(MapProjection::Equirectangular)
    } else if str_eq(name, "Mollweide") {
        Some(MapProjection::Mollweide)
    } else if str_eq(name, "NorthPolarStereo") {
        Some(MapProjection::PolarNorth)
    } else if str_eq(name, "SouthPolarStereo") {
        Some(MapProjection::PolarSouth)
    } else {
        None
    }
}

pub open spec fn opt_matplotlib(n: Option<Seq<char>>) -> Option<Colormap> {
    match n {
        Some(n) => matplotlib_colormap(n),
        None => None,
    }
}

/// Switching to the globe view.
pub open spec fn step_globe(s: Step) -> Step {
    if s.0.view_mode != ViewMode::Globe {
        (UiState { view_mode: ViewMode::Globe, ..s.0 }, s.1.push(Changed::View("Globe"@)))
    } else {
        s
    }
}

/// Switching to the map view, with the projection of the cartopy name `proj`.
pub open spec fn step_map(s: Step, proj: Option<Seq<char>>) -> Step {
    let s1 = if s.0.view_mode != ViewMode::MapView {
        (UiState { view_mode: ViewMode::MapView, ..s.0 }, s.1.push(Changed::View("Map"@)))
    } else {
        s
    };
    match proj {
        Some(p) => match cartopy_projection(p) {
            Some(mp) => if s1.0.map_projection != mp {
                (UiState { map_projection: mp, ..s1.0 }, s1.1.push(Changed::Projection(p)))
            } else {
                s1
            },
            None => s1,
        },
        None => s1,
    }
}

/// The view a script's figure sets up: `Globe`, or `Map` with the named
/// projection.
pub open spec fn step_parsed_view(s: Step, vm: Option<Seq<char>>, proj: Option<Seq<char>>) -> Step {
    match vm {
        Some(v) => if v == "Globe"@ {
            step_globe(s)
        } else if v == "Map"@ {
            step_map(s, proj)
        } else {
            s
        },
        None => s,
    }
}

fn apply_globe(ui: &mut UiState, changes: &mut Vec<Change>)
    ensures
        (*final(ui), changes_of(final(changes)@)) == step_globe((*old(ui), changes_of(old(changes)@))),
{
    if ui.view_mode != ViewMode::Globe {
        ui.view_mode = ViewMode::Globe;
        push_change(changes, Change::View("Globe".to_owned()));
    }
}

fn apply_map(ui: &mut UiState, changes: &mut Vec<Change>, proj: &Option<String>)
    ensures
        (*final(ui), changes_of(final(changes)@)) == step_map(
            (*old(ui), changes_of(old(changes)@)),
            opt_view(*proj),
        ),
{
    if ui.view_mode != ViewMode::MapView {
        ui.view_mode = ViewMode::MapView;
        push_change(changes, Change::View("Map".to_owned()));
    }
    if let Some(p) = proj {
        if let Some(mp) = cartopy_to_projection(p.as_str()) {
            if ui.map_projection != mp {
                ui.map_projection = mp;
                push_change(changes, Change::Projection(p.clone()));
            }
        }
    }
}

fn apply_parsed_view(ui: &mut UiState, changes: &mut Vec<Change>, vm: &Option<String>, proj: &Option<String>)
    ensures
        (*final(ui), changes_of(final(changes)@)) == step_parsed_view(
            (*old(ui), changes_of(old(changes)@)),
            opt_view(*vm),
            opt_view(*proj),
        ),
{
    let v = match vm {
        Some(v) => v,
        None => return ,
    };
    if str_eq(v.as_str(), "Globe") {
        apply_globe(ui, changes);
    } else if str_eq(v.as_str(), "Map") {
        apply_map(ui, changes, proj);
    }
}

/// The UI state and changes after applying parsed settings, the range
/// bounds being the values of the parsed `vmin` / `vmax` texts.
pub open spec fn apply_parsed_spec(
    p: Parsed,
    ui: UiState,
    vc: Seq<Changed>,
    vmin: Option<F32Bits>,
    vmax: Option<F32Bits>,
) -> Step {
    let s = (ui, vc);
    let s = step_time(s, p.time_index);
    let s = step_level(s, p.level_index);
    let s = step_colormap(s, p.colormap, opt_matplotlib(p.colormap));
    let s = step_range(s, vmin, vmax);
    let s = step_parsed_view(s, p.view_mode, p.projection);
    step_overlays(s, p.contour_enabled, p.vector_enabled, p.streamline_enabled)
}

fn resolve_matplotlib(n: &Option<String>) -> (r: Option<Colormap>)
    ensures
        r == opt_matplotlib(opt_view(*n)),
{
    match n {
        Some(n) => matplotlib_to_colormap(n.as_str()),
        None => None,
    }
}

/// Apply parsed settings to the UI state.  `vmin` and `vmax` are the values
/// of `parsed.vmin` and `parsed.vmax`.  Returns the changes made, in order,
/// and the field to load when the variable changed.
pub fn apply_to_ui_state(
    parsed: &ParsedSettings,
    ui_state: &mut UiState,
    data_store: &mut DataStore,
    vmin: Option<F32Bits>,
    vmax: Option<F32Bits>,
) -> (r: Applied)
    ensures
        ({
            let vc = variable_changes(*old(data_store), parsed.variable_name);
            let s = apply_parsed_spec(parsed@, *old(ui_state), vc, vmin, vmax);
            &&& *final(ui_state) == s.0
            &&& changes_of(r.changes@) == s.1
        }),
        final(data_store).files@ == (match parsed.variable_name {
            Some(n) => after_selection(*old(data_store), n@),
            None => old(data_store).files@,
        }),
        final(data_store).active_file == old(data_store).active_file,
        r.load == (match parsed.variable_name {
            Some(n) => match selection_for(*old(data_store), n@) {
                Some((fi, vi)) => Some((fi as usize, vi as usize)),
                None => None,
            },
            None => None,
        }),
{
    let mut changes: Vec<Change> = Vec::new();
    let mut load: Option<(usize, usize)> = None;
    if let Some(var_name) = &parsed.variable_name {
        let sel = select_variable_named(data_store, var_name.as_str());
        if let Some(p) = sel {
            load = Some(p);
            push_change(&mut changes, Change::Variable(var_name.clone()));
            assert(changes_of(changes@) =~= seq![Changed::Variable(var_name@)]);
        }
    }
    assert(changes_of(changes@) =~= variable_changes(*old(data_store), parsed.variable_name));
    apply_time(ui_state, &mut changes, parsed.time_index);
    apply_level(ui_state, &mut changes, parsed.level_index);
    apply_colormap(ui_state, &mut changes, &parsed.colormap, resolve_matplotlib(&parsed.colormap));
    apply_range(ui_state, &mut changes, vmin, vmax);
    apply_parsed_view(ui_state, &mut changes, &parsed.view_mode, &parsed.projection);
    apply_overlays(
        ui_state,
        &mut changes,
        parsed.contour_enabled,
        parsed.vector_enabled,
        parsed.streamline_enabled,
    );
    Applied { changes, load }
}

/// The range change, when a bound is given.
pub open spec fn bound_changes(vmin: Option<F32Bits>, vmax: Option<F32Bits>) -> Seq<Changed> {
    if vmin is Some || vmax is Some {
        seq![Changed::Range]
    } else {
        seq![]
    }
}

/// The projection a parsed map view asks for.
pub open spec fn map_target(p: Parsed) -> Option<MapProjection> {
    if p.view_mode == Some("Map"@) && p.view_mode != Some("Globe"@) {
        match p.projection {
            Some(n) => cartopy_projection(n),
            None => None,
        }
    } else {
        None
    }
}

/// The UI state already holds every parsed setting that applies.
pub open spec fn parsed_settled(p: Parsed, u: UiState, vmin: Option<F32Bits>, vmax: Option<F32Bits>) -> bool {
    &&& (p.time_index matches Some(t) ==> u.time_index == t)
    &&& (p.level_index matches Some(l) ==> u.level_index == l)
    &&& (opt_matplotlib(p.colormap) matches Some(c) ==> u.colormap == c)
    &&& (vmin matches Some(v) ==> u.manual_min == v)
    &&& (vmax matches Some(v) ==> u.manual_max == v)
    &&& (vmin is Some || vmax is Some ==> u.range_mode == RangeMode::Manual)
    &&& (p.view_mode == Some("Globe"@) ==> u.view_mode == ViewMode::Globe)
    &&& (p.view_mode == Some("Map"@) && p.view_mode != Some("Globe"@) ==> u.view_mode == ViewMode::MapView)
    &&& (map_target(p) matches Some(mp) ==> u.map_projection == mp)
    &&& (p.contour_enabled matches Some(e) ==> u.contour_enabled == e)
    &&& (p.vector_enabled matches Some(e) ==> u.vector_overlay_enabled == e)
    &&& (p.streamline_enabled matches Some(e) ==> u.streamline_enabled == e)
}

#[verifier::rlimit(100)]
#[verifier::spinoff_prover]
proof fn lemma_parsed_apply_settles(p: Parsed, ui: UiState, vc: Seq<Changed>, vmin: Option<F32Bits>, vmax: Option<F32Bits>)
    ensures
        parsed_settled(p, apply_parsed_spec(p, ui, vc, vmin, vmax).0, vmin, vmax),
{
    let s0 = (ui, vc);
    let s1 = step_time(s0, p.time_index);
    let s2 = step_level(s1, p.level_index);
    let s3 = step_colormap(s2, p.colormap, opt_matplotlib(p.colormap));
    let s4 = step_range(s3, vmin, vmax);
    let s5 = step_parsed_view(s4, p.view_mode, p.projection);
    let s6 = step_overlays(s5, p.contour_enabled, p.vector_enabled, p.streamline_enabled);
    assert(s6 == apply_parsed_spec(p, ui, vc, vmin, vmax));
    assert(s2.0.time_index == s1.0.time_index);
    assert(s3.0.time_index == s2.0.time_index && s3.0.level_index == s2.0.level_index);
    assert(s4.0.time_index == s3.0.time_index && s4.0.level_index == s3.0.level_index && s4.0.colormap
        == s3.0.colormap);
    assert(s5.0.manual_min == s4.0.manual_min && s5.0.manual_max == s4.0.manual_max && s5.0.range_mode
        == s4.0.range_mode && s5.0.time_index == s4.0.time_index && s5.0.level_index
        == s4.0.level_index && s5.0.colormap == s4.0.colormap);
    let t1 = step_contour(s5, p.contour_enabled);
    let t2 = step_vector(t1, p.vector_enabled);
    assert(s6 == step_streamline(t2, p.streamline_enabled));
    assert(p.contour_enabled matches Some(e) ==> t1.0.contour_enabled == e);
    assert(p.vector_enabled matches Some(e) ==> t2.0.vector_overlay_enabled == e);
    assert(t2.0.contour_enabled == t1.0.contour_enabled);
}

#[verifier::rlimit(100)]
proof fn lemma_parsed_settled_unchanged(p: Parsed, u: UiState, vc2: Seq<Changed>, vmin: Option<F32Bits>, vmax: Option<F32Bits>)
    requires
        parsed_settled(p, u, vmin, vmax),
    ensures
        apply_parsed_spec(p, u, vc2, vmin, vmax) == (u, vc2 + bound_changes(vmin, vmax)),
{
    let s0 = (u, vc2);
    let s1 = step_time(s0, p.time_index);
    assert(s1 == s0);
    let s2 = step_level(s1, p.level_index);
    assert(s2 == s0);
    let s3 = step_colormap(s2, p.colormap, opt_matplotlib(p.colormap));
    assert(s3 == s0);
    let s4 = step_range(s3, vmin, vmax);
    assert(s4.0 == u);
    assert(s4.1 =~= vc2 + bound_changes(vmin, vmax));
    let s5 = step_parsed_view(s4, p.view_mode, p.projection);
    assert(s5 == s4);
    let s6 = step_overlays(s5, p.contour_enabled, p.vector_enabled, p.streamline_enabled);
    assert(s6 == s4);
}

/// Applying the same parsed script a second time leaves the UI state as the
/// first application left it, and reports no change but the range.
pub proof fn lemma_parsed_settings_idempotent(
    p: Parsed,
    ui: UiState,
    vc: Seq<Changed>,
    vc2: Seq<Changed>,
    vmin: Option<F32Bits>,
    vmax: Option<F32Bits>,
)
    ensures
        ({
            let once = apply_parsed_spec(p, ui, vc, vmin, vmax);
            let twice = apply_parsed_spec(p, once.0, vc2, vmin, vmax);
            twice.0 == once.0 && twice.1 == vc2 + bound_changes(vmin, vmax)
        }),
{
    lemma_parsed_apply_settles(p, ui, vc, vmin, vmax);
    lemma_parsed_settled_unchanged(p, apply_parsed_spec(p, ui, vc, vmin, vmax).0, vc2, vmin, vmax);
}

} // verus!
