//! Variable inference engine (3-level fallback) and wind-pair detection.
use vstd::prelude::*;

use crate::data::{opt_view, ColormapHint, VariableInfo};
use crate::text::{ascii_lower, chars_of, contains, contains_exec, eq_ignore_ascii_case, eq_ignore_case, starts_with, starts_with_exec, str_eq, to_ascii_lower};

verus! {

broadcast use vstd::string::group_string_axioms;

#[derive(Debug, Clone)]
pub struct InferenceResult {
    pub category: VariableCategory,
    pub suggested_colormap: ColormapHint,
    pub description: String,
    pub confidence: InferenceLevel,
}

#[derive(Debug, Clone, Copy, PartialEq, Eq, Structural)]
pub enum VariableCategory {
    Vorticity,
    Divergence,
    WindSpeed,
    Temperature,
    Pressure,
    Geopotential,
    Humidity,
    StreamFunction,
    VelocityPotential,
    SurfaceHeight,
    Generic,
}

#[derive(Debug, Clone, Copy, PartialEq, Eq, Structural)]
pub enum InferenceLevel {
    L1StandardName,
    L2NamePattern,
    L3Statistics,
}

/// An inference outcome: category, colormap family, description and level.
pub type Inferred = (VariableCategory, ColormapHint, Seq<char>, InferenceLevel);

/// L1: the CF standard name, compared after ASCII lowercasing.
pub open spec fn by_standard_name(sn: Seq<char>) -> Option<Inferred> {
    let s = ascii_lower(sn);
    let l = InferenceLevel::L1StandardName;
    if s == "atmosphere_relative_vorticity"@ {
        Some((VariableCategory::Vorticity, ColormapHint::Diverging, "Relative vorticity (CF)"@, l))
    } else if s == "divergence_of_wind"@ {
        Some((VariableCategory::Divergence, ColormapHint::Diverging, "Wind divergence (CF)"@, l))
    } else if s == "air_temperature"@ {
        Some((VariableCategory::Temperature, ColormapHint::Sequential, "Air temperature (CF)"@, l))
    } else if s == "surface_air_pressure"@ || s == "air_pressure"@ {
        Some((VariableCategory::Pressure, ColormapHint::Sequential, "Air pressure (CF)"@, l))
    } else if s == "geopotential_height"@ {
        Some((VariableCategory::Geopotential, ColormapHint::Sequential, "Geopotential height (CF)"@, l))
    } else if s == "specific_humidity"@ || s == "relative_humidity"@ {
        Some((VariableCategory::Humidity, ColormapHint::Sequential, "Humidity (CF)"@, l))
    } else if s == "atmosphere_horizontal_streamfunction"@ {
        Some((VariableCategory::StreamFunction, ColormapHint::Diverging, "Stream function (CF)"@, l))
    } else if s == "atmosphere_horizontal_velocity_potential"@ {
        Some(
            (
                VariableCategory::VelocityPotential,
                ColormapHint::Diverging,
                "Velocity potential (CF)"@,
                l,
            ),
        )
    } else {
        None
    }
}

/// An optional text, or the empty text.
pub open spec fn or_empty(o: Option<Seq<char>>) -> Seq<char> {
    match o {
        Some(s) => s,
        None => seq![],
    }
}

/// L2: the variable name, long name and units, all lowercased in ASCII.
pub open spec fn by_name_pattern(name: Seq<char>, long_name: Option<Seq<char>>, units: Option<Seq<char>>) -> Option<Inferred> {
    let n = ascii_lower(name);
    let lg = ascii_lower(or_empty(long_name));
    let u = ascii_lower(or_empty(units));
    let l = InferenceLevel::L2NamePattern;
    if starts_with(n, "vor"@) || contains(lg, "vorticity"@) {
        Some((VariableCategory::Vorticity, ColormapHint::Diverging, "Vorticity (name pattern)"@, l))
    } else if starts_with(n, "div"@) || contains(lg, "divergence"@) {
        Some((VariableCategory::Divergence, ColormapHint::Diverging, "Divergence (name pattern)"@, l))
    } else if starts_with(n, "temp"@) || (n == "t"@ && contains(u, "k"@)) || contains(lg, "temperature"@) {
        Some((VariableCategory::Temperature, ColormapHint::Sequential, "Temperature (name pattern)"@, l))
    } else if starts_with(n, "ps"@) || n == "pressure"@ || contains(lg, "pressure"@) {
        Some((VariableCategory::Pressure, ColormapHint::Sequential, "Pressure (name pattern)"@, l))
    } else if contains(n, "stream"@) || n == "psi"@ || contains(lg, "stream"@) {
        Some(
            (
                VariableCategory::StreamFunction,
                ColormapHint::Diverging,
                "Stream function (name pattern)"@,
                l,
            ),
        )
    } else if contains(n, "chi"@) || n == "velocity_potential"@ || contains(lg, "velocity potential"@) {
        Some(
            (
                VariableCategory::VelocityPotential,
                ColormapHint::Diverging,
                "Velocity potential (name pattern)"@,
                l,
            ),
        )
    } else if contains(n, "height"@) || contains(n, "phi"@) || contains(n, "geopot"@) || contains(
        lg,
        "geopotential"@,
    ) {
        Some((VariableCategory::Geopotential, ColormapHint::Sequential, "Geopotential (name pattern)"@, l))
    } else if contains(n, "wind"@) || contains(n, "speed"@) || n == "u"@ || n == "v"@ {
        Some((VariableCategory::WindSpeed, ColormapHint::Sequential, "Wind speed (name pattern)"@, l))
    } else if contains(n, "humid"@) || n == "q"@ || contains(lg, "humidity"@) {
        Some((VariableCategory::Humidity, ColormapHint::Sequential, "Humidity (name pattern)"@, l))
    } else {
        None
    }
}

/// L3: the sign of the loaded data.
pub open spec fn by_statistics(spans_zero: bool) -> Inferred {
    if spans_zero {
        (
            VariableCategory::Generic,
            ColormapHint::Diverging,
            "Data spans zero (statistics)"@,
            InferenceLevel::L3Statistics,
        )
    } else {
        (
            VariableCategory::Generic,
            ColormapHint::Sequential,
            "Generic field (statistics)"@,
            InferenceLevel::L3Statistics,
        )
    }
}

/// The 3-level fallback.
pub open spec fn infer_spec(
    name: Seq<char>,
    long_name: Option<Seq<char>>,
    units: Option<Seq<char>>,
    standard_name: Option<Seq<char>>,
    spans_zero: bool,
) -> Inferred {
    match standard_name {
        Some(sn) if by_standard_name(sn) is Some => by_standard_name(sn)->0,
        _ => match by_name_pattern(name, long_name, units) {
            Some(r) => r,
            None => by_statistics(spans_zero),
        },
    }
}

/// The outcome an `InferenceResult` holds.
pub open spec fn result_view(r: InferenceResult) -> Inferred {
    (r.category, r.suggested_colormap, r.description@, r.confidence)
}

fn result(c: VariableCategory, h: ColormapHint, d: &str, l: InferenceLevel) -> (r: InferenceResult)
    ensures
        result_view(r) == (c, h, d@, l),
{
    InferenceResult { category: c, suggested_colormap: h, description: d.to_string(), confidence: l }
}

fn eq_lit(a: &Vec<char>, s: &str) -> (r: bool)
    ensures
        r == (a@ == s@),
{
    let b = chars_of(s);
    crate::text::chars_equal(a.as_slice(), b.as_slice())
}

fn has(a: &Vec<char>, s: &str) -> (r: bool)
    ensures
        r == contains(a@, s@),
{
    let b = chars_of(s);
    contains_exec(a.as_slice(), b.as_slice())
}

fn begins(a: &Vec<char>, s: &str) -> (r: bool)
    ensures
        r == starts_with(a@, s@),
{
    let b = chars_of(s);
    starts_with_exec(a.as_slice(), b.as_slice())
}

/// L1 inference from a CF standard name.
pub fn try_standard_name(standard_name: &str) -> (r: Option<InferenceResult>)
    ensures
        r is Some <==> by_standard_name(standard_name@) is Some,
        r matches Some(x) ==> by_standard_name(standard_name@) == Some(result_view(x)),
{
    let c = chars_of(standard_name);
    let s = to_ascii_lower(c.as_slice());
    let l = InferenceLevel::L1StandardName;
    if eq_lit(&s, "atmosphere_relative_vorticity") {
        Some(result(VariableCategory::Vorticity, ColormapHint::Diverging, "Relative vorticity (CF)", l))
    } else if eq_lit(&s, "divergence_of_wind") {
        Some(result(VariableCategory::Divergence, ColormapHint::Diverging, "Wind divergence (CF)", l))
    } else if eq_lit(&s, "air_temperature") {
        Some(result(VariableCategory::Temperature, ColormapHint::Sequential, "Air temperature (CF)", l))
    } else if eq_lit(&s, "surface_air_pressure") || eq_lit(&s, "air_pressure") {
        Some(result(VariableCategory::Pressure, ColormapHint::Sequential, "Air pressure (CF)", l))
    } else if eq_lit(&s, "geopotential_height") {
        Some(result(VariableCategory::Geopotential, ColormapHint::Sequential, "Geopotential height (CF)", l))
    } else if eq_lit(&s, "specific_humidity") || eq_lit(&s, "relative_humidity") {
        Some(result(VariableCategory::Humidity, ColormapHint::Sequential, "Humidity (CF)", l))
    } else if eq_lit(&s, "atmosphere_horizontal_streamfunction") {
        Some(result(VariableCategory::StreamFunction, ColormapHint::Diverging, "Stream function (CF)", l))
    } else if eq_lit(&s, "atmosphere_horizontal_velocity_potential") {
        Some(
            result(
                VariableCategory::VelocityPotential,
                ColormapHint::Diverging,
                "Velocity potential (CF)",
                l,
            ),
        )
    } else {
        None
    }
}

fn lower_or_empty(o: &Option<String>) -> (r: Vec<char>)
    ensures
        r@ == ascii_lower(or_empty(opt_view(*o))),
{
    match o {
        Some(s) => {
            let c = chars_of(s.as_str());
            to_ascii_lower(c.as_slice())
        },
        None => {
            assert(ascii_lower(Seq::<char>::empty()) =~= Seq::<char>::empty());
            Vec::new()
        },
    }
}

/// L2 inference from the variable name, long name and units.
pub fn try_name_pattern(var: &VariableInfo) -> (r: Option<InferenceResult>)
    ensures
        r is Some <==> by_name_pattern(var.name@, opt_view(var.long_name), opt_view(var.units)) is Some,
        r matches Some(x) ==> by_name_pattern(var.name@, opt_view(var.long_name), opt_view(var.units))
            == Some(result_view(x)),
{
    let nc = chars_of(var.name.as_str());
    let n = to_ascii_lower(nc.as_slice());
    let lg = lower_or_empty(&var.long_name);
    let u = lower_or_empty(&var.units);
    let l = InferenceLevel::L2NamePattern;
    if begins(&n, "vor") || has(&lg, "vorticity") {
        Some(result(VariableCategory::Vorticity, ColormapHint::Diverging, "Vorticity (name pattern)", l))
    } else if begins(&n, "div") || has(&lg, "divergence") {
        Some(result(VariableCategory::Divergence, ColormapHint::Diverging, "Divergence (name pattern)", l))
    } else if begins(&n, "temp") || (eq_lit(&n, "t") && has(&u, "k")) || has(&lg, "temperature") {
        Some(result(VariableCategory::Temperature, ColormapHint::Sequential, "Temperature (name pattern)", l))
    } else if begins(&n, "ps") || eq_lit(&n, "pressure") || has(&lg, "pressure") {
        Some(result(VariableCategory::Pressure, ColormapHint::Sequential, "Pressure (name pattern)", l))
    } else if has(&n, "stream") || eq_lit(&n, "psi") || has(&lg, "stream") {
        Some(
            result(
                VariableCategory::StreamFunction,
                ColormapHint::Diverging,
                "Stream function (name pattern)",
                l,
            ),
        )
    } else if has(&n, "chi") || eq_lit(&n, "velocity_potential") || has(&lg, "velocity potential") {
        Some(
            result(
                VariableCategory::VelocityPotential,
                ColormapHint::Diverging,
                "Velocity potential (name pattern)",
                l,
            ),
        )
    } else if has(&n, "height") || has(&n, "phi") || has(&n, "geopot") || has(&lg, "geopotential") {
        Some(result(VariableCategory::Geopotential, ColormapHint::Sequential, "Geopotential (name pattern)", l))
    } else if has(&n, "wind") || has(&n, "speed") || eq_lit(&n, "u") || eq_lit(&n, "v") {
        Some(result(VariableCategory::WindSpeed, ColormapHint::Sequential, "Wind speed (name pattern)", l))
    } else if has(&n, "humid") || eq_lit(&n, "q") || has(&lg, "humidity") {
        Some(result(VariableCategory::Humidity, ColormapHint::Sequential, "Humidity (name pattern)", l))
    } else {
        None
    }
}

/// L3 inference from whether the loaded data spans zero (min * max < 0).
pub fn infer_from_statistics(spans_zero: bool) -> (r: InferenceResult)
    ensures
        result_view(r) == by_statistics(spans_zero),
{
    if spans_zero {
        result(
            VariableCategory::Generic,
            ColormapHint::Diverging,
            "Data spans zero (statistics)",
            InferenceLevel::L3Statistics,
        )
    } else {
        result(
            VariableCategory::Generic,
            ColormapHint::Sequential,
            "Generic field (statistics)",
            InferenceLevel::L3Statistics,
        )
    }
}

/// Infer variable category and colormap from metadata and data statistics.
///
/// Uses a 3-level fallback:
/// - L1: CF standard_name (highest confidence)
/// - L2: Variable name pattern + long_name + units
/// - L3: Data statistics (`spans_zero`: the loaded field has min * max < 0)
pub fn infer_variable(var: &VariableInfo, spans_zero: bool) -> (r: InferenceResult)
    ensures
        result_view(r) == infer_spec(
            var.name@,
            opt_view(var.long_name),
            opt_view(var.units),
            opt_view(var.standard_name),
            spans_zero,
        ),
{
    if let Some(sn) = &var.standard_name {
        if let Some(result) = try_standard_name(sn.as_str()) {
            return result;
        }
    }
    if let Some(result) = try_name_pattern(var) {
        return result;
    }
    infer_from_statistics(spans_zero)
}

/// No CF standard name decides: there is none, or it is not one the first
/// level knows.
pub open spec fn no_standard_name(standard_name: Option<Seq<char>>) -> bool {
    standard_name matches Some(sn) ==> by_standard_name(sn) is None
}

proof fn lemma_lead_differs(n: Seq<char>, p: Seq<char>, q: Seq<char>)
    requires
        starts_with(n, p),
        p.len() >= 1,
        q.len() >= 1,
        p[0] != q[0],
    ensures
        !starts_with(n, q),
{
    assert(n.take(p.len() as int)[0] == p[0]);
    if starts_with(n, q) {
        assert(n.take(q.len() as int)[0] == q[0]);
    }
}

/// A variable whose name (in lower case) starts with `ps`, with no CF
/// standard name that decides and no long name speaking of vorticity,
/// divergence or temperature, is a pressure field shown with a sequential
/// colormap, found by its name.
pub proof fn lemma_ps_names_are_pressure(
    name: Seq<char>,
    long_name: Option<Seq<char>>,
    units: Option<Seq<char>>,
    standard_name: Option<Seq<char>>,
    spans_zero: bool,
)
    requires
        no_standard_name(standard_name),
        starts_with(ascii_lower(name), "ps"@),
        !contains(ascii_lower(or_empty(long_name)), "vorticity"@),
        !contains(ascii_lower(or_empty(long_name)), "divergence"@),
        !contains(ascii_lower(or_empty(long_name)), "temperature"@),
    ensures
        infer_spec(name, long_name, units, standard_name, spans_zero).0 == VariableCategory::Pressure,
        infer_spec(name, long_name, units, standard_name, spans_zero).1 == ColormapHint::Sequential,
        infer_spec(name, long_name, units, standard_name, spans_zero).3 == InferenceLevel::L2NamePattern,
{
    reveal_strlit("ps");
    reveal_strlit("vor");
    reveal_strlit("div");
    reveal_strlit("temp");
    reveal_strlit("t");
    let n = ascii_lower(name);
    lemma_lead_differs(n, "ps"@, "vor"@);
    lemma_lead_differs(n, "ps"@, "div"@);
    lemma_lead_differs(n, "ps"@, "temp"@);
    assert(n != "t"@) by {
        assert(n.len() >= 2);
    }
}

/// A variable whose name (in lower case) starts with `vor`, with no CF
/// standard name that decides, is a vorticity field shown with a diverging
/// colormap.
pub proof fn lemma_vor_names_are_vorticity(
    name: Seq<char>,
    long_name: Option<Seq<char>>,
    units: Option<Seq<char>>,
    standard_name: Option<Seq<char>>,
    spans_zero: bool,
)
    requires
        no_standard_name(standard_name),
        starts_with(ascii_lower(name), "vor"@),
    ensures
        infer_spec(name, long_name, units, standard_name, spans_zero).0 == VariableCategory::Vorticity,
        infer_spec(name, long_name, units, standard_name, spans_zero).1 == ColormapHint::Diverging,
{
}

/// A variable whose name (in lower case) starts with `div`, with no CF
/// standard name that decides and no long name speaking of vorticity, is a
/// divergence field shown with a diverging colormap.
pub proof fn lemma_div_names_are_divergence(
    name: Seq<char>,
    long_name: Option<Seq<char>>,
    units: Option<Seq<char>>,
    standard_name: Option<Seq<char>>,
    spans_zero: bool,
)
    requires
        no_standard_name(standard_name),
        starts_with(ascii_lower(name), "div"@),
        !contains(ascii_lower(or_empty(long_name)), "vorticity"@),
    ensures
        infer_spec(name, long_name, units, standard_name, spans_zero).0 == VariableCategory::Divergence,
        infer_spec(name, long_name, units, standard_name, spans_zero).1 == ColormapHint::Diverging,
{
    reveal_strlit("div");
    reveal_strlit("vor");
    lemma_lead_differs(ascii_lower(name), "div"@, "vor"@);
}

/// A variable whose name (in lower case) starts with `temp`, with no CF
/// standard name that decides and no long name speaking of vorticity or
/// divergence, is a temperature field shown with a sequential colormap.
pub proof fn lemma_temp_names_are_temperature(
    name: Seq<char>,
    long_name: Option<Seq<char>>,
    units: Option<Seq<char>>,
    standard_name: Option<Seq<char>>,
    spans_zero: bool,
)
    requires
        no_standard_name(standard_name),
        starts_with(ascii_lower(name), "temp"@),
        !contains(ascii_lower(or_empty(long_name)), "vorticity"@),
        !contains(ascii_lower(or_empty(long_name)), "divergence"@),
    ensures
        infer_spec(name, long_name, units, standard_name, spans_zero).0 == VariableCategory::Temperature,
        infer_spec(name, long_name, units, standard_name, spans_zero).1 == ColormapHint::Sequential,
{
    reveal_strlit("temp");
    reveal_strlit("vor");
    reveal_strlit("div");
    lemma_lead_differs(ascii_lower(name), "temp"@, "vor"@);
    lemma_lead_differs(ascii_lower(name), "temp"@, "div"@);
}

/// The CF standard names decide first, whatever the name: air temperature
/// is temperature, (surface) air pressure is pressure, relative vorticity is
/// vorticity, each at the first level.
pub proof fn lemma_cf_names_decide(
    name: Seq<char>,
    long_name: Option<Seq<char>>,
    units: Option<Seq<char>>,
    sn: Seq<char>,
    spans_zero: bool,
)
    ensures
        ascii_lower(sn) == "air_temperature"@ ==> infer_spec(name, long_name, units, Some(sn), spans_zero).0
            == VariableCategory::Temperature && infer_spec(name, long_name, units, Some(sn), spans_zero).3
            == InferenceLevel::L1StandardName,
        ascii_lower(sn) == "air_pressure"@ || ascii_lower(sn) == "surface_air_pressure"@ ==> infer_spec(
            name,
            long_name,
            units,
            Some(sn),
            spans_zero,
        ).0 == VariableCategory::Pressure && infer_spec(name, long_name, units, Some(sn), spans_zero).3
            == InferenceLevel::L1StandardName,
        ascii_lower(sn) == "atmosphere_relative_vorticity"@ ==> infer_spec(name, long_name, units, Some(sn), spans_zero).0
            == VariableCategory::Vorticity && infer_spec(name, long_name, units, Some(sn), spans_zero).3
            == InferenceLevel::L1StandardName,
{
    reveal_strlit("air_temperature");
    reveal_strlit("air_pressure");
    reveal_strlit("surface_air_pressure");
    reveal_strlit("atmosphere_relative_vorticity");
    reveal_strlit("divergence_of_wind");
    let s = ascii_lower(sn);
    assert("air_temperature"@.len() == 15);
    assert("air_pressure"@.len() == 12);
    assert("surface_air_pressure"@.len() == 20);
    assert("atmosphere_relative_vorticity"@.len() == 29);
    assert("divergence_of_wind"@.len() == 18);
    if s == "air_temperature"@ {
        assert(s != "atmosphere_relative_vorticity"@);
        assert(s != "divergence_of_wind"@);
        assert(by_standard_name(sn) is Some);
    }
    if s == "air_pressure"@ || s == "surface_air_pressure"@ {
        assert(s != "atmosphere_relative_vorticity"@);
        assert(s != "divergence_of_wind"@);
        assert(s != "air_temperature"@);
        assert(by_standard_name(sn) is Some);
    }
    if s == "atmosphere_relative_vorticity"@ {
        assert(by_standard_name(sn) is Some);
    }
}

// ---------------------------------------------------------------------------
// Wind pair detection
// ---------------------------------------------------------------------------

/// The first variable whose standard name is `sn`.
pub open spec fn first_with_standard_name(vars: Seq<VariableInfo>, sn: Seq<char>) -> Option<int>
    decreases vars.len(),
{
    if vars.len() == 0 {
        None
    } else if opt_view(vars[0].standard_name) == Some(sn) {
        Some(0)
    } else {
        match first_with_standard_name(vars.drop_first(), sn) {
            Some(k) => Some(k + 1),
            None => None,
        }
    }
}

/// The first variable whose name equals `n` ignoring ASCII case.
pub open spec fn first_named_ignore_case(vars: Seq<VariableInfo>, n: Seq<char>) -> Option<int>
    decreases vars.len(),
{
    if vars.len() == 0 {
        None
    } else if eq_ignore_case(vars[0].name@, n) {
        Some(0)
    } else {
        match first_named_ignore_case(vars.drop_first(), n) {
            Some(k) => Some(k + 1),
            None => None,
        }
    }
}

/// Two variables have the same dimension list (names and sizes).
pub open spec fn same_dims(vars: Seq<VariableInfo>, a: int, b: int) -> bool {
    crate::data::dims_view(vars[a].dimensions@) == crate::data::dims_view(vars[b].dimensions@)
}

/// The pair a lookup gives when both are found with equal dimensions.
pub open spec fn pair_if_same(vars: Seq<VariableInfo>, u: Option<int>, v: Option<int>) -> Option<(int, int)> {
    match (u, v) {
        (Some(a), Some(b)) => if same_dims(vars, a, b) {
            Some((a, b))
        } else {
            None
        },
        _ => None,
    }
}

/// The wind pair: L1 by standard names `eastward_wind` / `northward_wind`,
/// then L2 by the name pairs `u`/`v`, `u_cos`/`v_cos`, `uwnd`/`vwnd` (ASCII
/// case ignored); a pair counts only when both have the same dimensions.
pub open spec fn wind_pair(vars: Seq<VariableInfo>) -> Option<(int, int)> {
    let l1 = pair_if_same(
        vars,
        first_with_standard_name(vars, "eastward_wind"@),
        first_with_standard_name(vars, "northward_wind"@),
    );
    let p1 = pair_if_same(vars, first_named_ignore_case(vars, "u"@), first_named_ignore_case(vars, "v"@));
    let p2 = pair_if_same(
        vars,
        first_named_ignore_case(vars, "u_cos"@),
        first_named_ignore_case(vars, "v_cos"@),
    );
    let p3 = pair_if_same(
        vars,
        first_named_ignore_case(vars, "uwnd"@),
        first_named_ignore_case(vars, "vwnd"@),
    );
    if l1 is Some {
        l1
    } else if p1 is Some {
        p1
    } else if p2 is Some {
        p2
    } else {
        p3
    }
}

proof fn lemma_first_with_standard_name(vars: Seq<VariableInfo>, sn: Seq<char>, i: int)
    requires
        0 <= i <= vars.len(),
        forall|j: int| 0 <= j < i ==> opt_view(#[trigger] vars[j].standard_name) != Some(sn),
    ensures
        i < vars.len() && opt_view(vars[i].standard_name) == Some(sn) ==> first_with_standard_name(vars, sn) == Some(i),
        i == vars.len() ==> first_with_standard_name(vars, sn) is None,
    decreases i,
{
    if i > 0 {
        let t = vars.drop_first();
        assert forall|j: int| 0 <= j < i - 1 implies opt_view(#[trigger] t[j].standard_name) != Some(sn) by {
            assert(t[j] == vars[j + 1]);
        }
        lemma_first_with_standard_name(t, sn, i - 1);
    }
}

proof fn lemma_first_named(vars: Seq<VariableInfo>, n: Seq<char>, i: int)
    requires
        0 <= i <= vars.len(),
        forall|j: int| 0 <= j < i ==> !eq_ignore_case(#[trigger] vars[j].name@, n),
    ensures
        i < vars.len() && eq_ignore_case(vars[i].name@, n) ==> first_named_ignore_case(vars, n) == Some(i),
        i == vars.len() ==> first_named_ignore_case(vars, n) is None,
    decreases i,
{
    if i > 0 {
        let t = vars.drop_first();
        assert forall|j: int| 0 <= j < i - 1 implies !eq_ignore_case(#[trigger] t[j].name@, n) by {
            assert(t[j] == vars[j + 1]);
        }
        lemma_first_named(t, n, i - 1);
    }
}

/// The CF standard names come first: when `a` is the first variable whose
/// standard name is `eastward_wind`, `b` the first whose standard name is
/// `northward_wind`, and the two have the same dimensions, the wind pair is
/// `(a, b)`, whatever the variables are named.
pub proof fn lemma_standard_names_give_the_wind_pair(vars: Seq<VariableInfo>, a: int, b: int)
    requires
        0 <= a < vars.len(),
        0 <= b < vars.len(),
        opt_view(vars[a].standard_name) == Some("eastward_wind"@),
        forall|j: int| 0 <= j < a ==> opt_view(#[trigger] vars[j].standard_name) != Some("eastward_wind"@),
        opt_view(vars[b].standard_name) == Some("northward_wind"@),
        forall|j: int| 0 <= j < b ==> opt_view(#[trigger] vars[j].standard_name) != Some("northward_wind"@),
        crate::data::dims_view(vars[a].dimensions@) == crate::data::dims_view(vars[b].dimensions@),
    ensures
        wind_pair(vars) == Some((a, b)),
{
    lemma_first_with_standard_name(vars, "eastward_wind"@, a);
    lemma_first_with_standard_name(vars, "northward_wind"@, b);
}

/// Without the CF standard names, the names `u` and `v` (any case) give the
/// pair: when no variable has the standard name `eastward_wind`, `a` is the
/// first variable named `u` and `b` the first named `v`, with the same
/// dimensions, the wind pair is `(a, b)`.
pub proof fn lemma_u_v_names_give_the_wind_pair(vars: Seq<VariableInfo>, a: int, b: int)
    requires
        forall|j: int| 0 <= j < vars.len() ==> opt_view(#[trigger] vars[j].standard_name) != Some("eastward_wind"@),
        0 <= a < vars.len(),
        0 <= b < vars.len(),
        eq_ignore_case(vars[a].name@, "u"@),
        forall|j: int| 0 <= j < a ==> !eq_ignore_case(#[trigger] vars[j].name@, "u"@),
        eq_ignore_case(vars[b].name@, "v"@),
        forall|j: int| 0 <= j < b ==> !eq_ignore_case(#[trigger] vars[j].name@, "v"@),
        crate::data::dims_view(vars[a].dimensions@) == crate::data::dims_view(vars[b].dimensions@),
    ensures
        wind_pair(vars) == Some((a, b)),
{
    lemma_first_with_standard_name(vars, "eastward_wind"@, vars.len() as int);
    lemma_first_named(vars, "u"@, a);
    lemma_first_named(vars, "v"@, b);
}

fn position_standard_name(vars: &[VariableInfo], sn: &str) -> (r: Option<usize>)
    ensures
        r matches Some(k) ==> first_with_standard_name(vars@, sn@) == Some(k as int),
        r is None ==> first_with_standard_name(vars@, sn@) is None,
{
    let mut i: usize = 0;
    while i < vars.len()
        invariant
            i <= vars@.len(),
            forall|j: int| 0 <= j < i ==> opt_view(#[trigger] vars@[j].standard_name) != Some(sn@),
        decreases vars@.len() - i,
    {
        let hit = match &vars[i].standard_name {
            Some(s) => str_eq(s.as_str(), sn),
            None => false,
        };
        if hit {
            proof {
                lemma_first_with_standard_name(vars@, sn@, i as int);
            }
            return Some(i);
        }
        i = i + 1;
    }
    proof {
        lemma_first_with_standard_name(vars@, sn@, i as int);
    }
    None
}

fn position_ignore_case(vars: &[VariableInfo], n: &str) -> (r: Option<usize>)
    ensures
        r matches Some(k) ==> first_named_ignore_case(vars@, n@) == Some(k as int),
        r is None ==> first_named_ignore_case(vars@, n@) is None,
{
    let target = chars_of(n);
    let mut i: usize = 0;
    while i < vars.len()
        invariant
            i <= vars@.len(),
            target@ == n@,
            forall|j: int| 0 <= j < i ==> !eq_ignore_case(#[trigger] vars@[j].name@, n@),
        decreases vars@.len() - i,
    {
        let name = chars_of(vars[i].name.as_str());
        if eq_ignore_ascii_case(name.as_slice(), target.as_slice()) {
            proof {
                lemma_first_named(vars@, n@, i as int);
            }
            return Some(i);
        }
        i = i + 1;
    }
    proof {
        lemma_first_named(vars@, n@, i as int);
    }
    None
}

fn dims_equal(a: &Vec<(String, usize)>, b: &Vec<(String, usize)>) -> (r: bool)
    ensures
        r == (crate::data::dims_view(a@) == crate::data::dims_view(b@)),
{
    if a.len() != b.len() {
        assert(crate::data::dims_view(a@).len() != crate::data::dims_view(b@).len());
        return false;
    }
    let mut i: usize = 0;
    while i < a.len()
        invariant
            a@.len() == b@.len(),
            i <= a@.len(),
            forall|j: int| 0 <= j < i ==> crate::data::dims_view(a@)[j] == crate::data::dims_view(b@)[j],
        decreases a@.len() - i,
    {
        if !str_eq(a[i].0.as_str(), b[i].0.as_str()) || a[i].1 != b[i].1 {
            assert(crate::data::dims_view(a@)[i as int] != crate::data::dims_view(b@)[i as int]);
            return false;
        }
        i = i + 1;
    }
    assert(crate::data::dims_view(a@) =~= crate::data::dims_view(b@));
    true
}

fn pair_same(vars: &[VariableInfo], u: Option<usize>, v: Option<usize>) -> (r: Option<(usize, usize)>)
    requires
        u matches Some(a) ==> a < vars@.len(),
        v matches Some(b) ==> b < vars@.len(),
    ensures
        r matches Some((a, b)) ==> pair_if_same(
            vars@,
            match u { Some(a) => Some(a as int), None => None },
            match v { Some(b) => Some(b as int), None => None },
        ) == Some((a as int, b as int)),
        r is None ==> pair_if_same(
            vars@,
            match u { Some(a) => Some(a as int), None => None },
            match v { Some(b) => Some(b as int), None => None },
        ) is None,
{
    match (u, v) {
        (Some(a), Some(b)) => {
            if dims_equal(&vars[a].dimensions, &vars[b].dimensions) {
                Some((a, b))
            } else {
                None
            }
        },
        _ => None,
    }
}

proof fn lemma_first_bounds(vars: Seq<VariableInfo>, n: Seq<char>, sn: Seq<char>)
    ensures
        first_named_ignore_case(vars, n) matches Some(k) ==> 0 <= k < vars.len(),
        first_with_standard_name(vars, sn) matches Some(k) ==> 0 <= k < vars.len(),
    decreases vars.len(),
{
    if vars.len() > 0 {
        lemma_first_bounds(vars.drop_first(), n, sn);
    }
}

/// Detect a wind u/v pair from the variable list.
/// Returns (u_var_idx, v_var_idx) if found.
///
/// L1: standard_name "eastward_wind" / "northward_wind"
/// L2: name patterns: "u"/"v", "u_cos"/"v_cos", "uwnd"/"vwnd"
/// Condition: both must have the same dimension structure.
pub fn detect_wind_pair(variables: &[VariableInfo]) -> (r: Option<(usize, usize)>)
    ensures
        r matches Some((a, b)) ==> wind_pair(variables@) == Some((a as int, b as int)),
        r is None ==> wind_pair(variables@) is None,
{
    let ghost vs = variables@;
    proof {
        lemma_first_bounds(vs, "u"@, "eastward_wind"@);
        lemma_first_bounds(vs, "v"@, "northward_wind"@);
        lemma_first_bounds(vs, "u_cos"@, "eastward_wind"@);
        lemma_first_bounds(vs, "v_cos"@, "eastward_wind"@);
        lemma_first_bounds(vs, "uwnd"@, "eastward_wind"@);
        lemma_first_bounds(vs, "vwnd"@, "eastward_wind"@);
    }
    let l1 = pair_same(
        variables,
        position_standard_name(variables, "eastward_wind"),
        position_standard_name(variables, "northward_wind"),
    );
    if l1.is_some() {
        return l1;
    }
    let p1 = pair_same(variables, position_ignore_case(variables, "u"), position_ignore_case(variables, "v"));
    if p1.is_some() {
        return p1;
    }
    let p2 = pair_same(
        variables,
        position_ignore_case(variables, "u_cos"),
        position_ignore_case(variables, "v_cos"),
    );
    if p2.is_some() {
        return p2;
    }
    pair_same(variables, position_ignore_case(variables, "uwnd"), position_ignore_case(variables, "vwnd"))
}

} // verus!
