//! Reading trajectories from external JSON and CSV files.
//!
//! A trajectory is a named list of (lon, lat) points.  The coordinates are
//! returned as the number texts found in the file, each one that
//! `f64::from_str` accepts; the viewer converts them.
use vstd::prelude::*;

use crate::data::{extension, extension_exec, file_stem, file_stem_exec};
use crate::numeric::{decimal, is_float_literal, is_float_text, usize_to_chars};
use crate::text::{
    ascii_lower, chars_equal, chars_of, contains, contains_exec, lines, lines_exec, push_chars,
    push_str, split_char, split_exec, str_eq, string_from_chars, to_ascii_lower, trim, trim_exec,
    views,
};

verus! {

broadcast use vstd::string::group_string_axioms;

/// A JSON document as the trajectory reader sees it.  Numbers are held as
/// their text.  An object lists its members in order.
#[derive(Debug)]
pub enum JsonValue {
    Null,
    Bool(bool),
    Number(String),
    Str(String),
    Array(Vec<JsonValue>),
    Object(Vec<(String, JsonValue)>),
}

/// A JSON value by its contents: texts as character sequences, arrays and
/// objects as sequences.
pub ghost enum JsonModel {
    Null,
    Bool(bool),
    Number(Seq<char>),
    Str(Seq<char>),
    Array(Seq<JsonModel>),
    Object(Seq<(Seq<char>, JsonModel)>),
}

/// The contents of a JSON value.
pub open spec fn json_model(v: JsonValue) -> JsonModel
    decreases v, 2int,
{
    match v {
        JsonValue::Null => JsonModel::Null,
        JsonValue::Bool(b) => JsonModel::Bool(b),
        JsonValue::Number(t) => JsonModel::Number(t@),
        JsonValue::Str(t) => JsonModel::Str(t@),
        JsonValue::Array(a) => JsonModel::Array(json_models(a@)),
        JsonValue::Object(o) => JsonModel::Object(member_models(o@)),
    }
}

/// The contents of the values `s`.
pub open spec fn json_models(s: Seq<JsonValue>) -> Seq<JsonModel>
    decreases s, 1int,
{
    if s.len() == 0 {
        Seq::empty()
    } else {
        json_models(s.drop_last()).push(json_model(s.last()))
    }
}

/// The contents of the members `s`.
pub open spec fn member_models(s: Seq<(String, JsonValue)>) -> Seq<(Seq<char>, JsonModel)>
    decreases s, 1int,
{
    if s.len() == 0 {
        Seq::empty()
    } else {
        member_models(s.drop_last()).push((s.last().0@, json_model(s.last().1)))
    }
}

/// The contents of values, value by value.
pub proof fn lemma_json_models(s: Seq<JsonValue>)
    ensures
        json_models(s).len() == s.len(),
        forall|j: int| 0 <= j < s.len() ==> #[trigger] json_models(s)[j] == json_model(s[j]),
    decreases s.len(),
{
    if s.len() > 0 {
        lemma_json_models(s.drop_last());
    }
}

/// The contents of members, member by member.
pub proof fn lemma_member_models(s: Seq<(String, JsonValue)>)
    ensures
        member_models(s).len() == s.len(),
        forall|j: int| 0 <= j < s.len() ==> #[trigger] member_models(s)[j] == (s[j].0@, json_model(s[j].1)),
    decreases s.len(),
{
    if s.len() > 0 {
        lemma_member_models(s.drop_last());
    }
}

/// A trajectory: its points as (lon, lat) number texts, and its name.
#[derive(Debug)]
pub struct TrajectoryData {
    pub points: Vec<(String, String)>,
    pub name: String,
}

/// A point as two number texts.
pub type Pt = (Seq<char>, Seq<char>);

pub open spec fn points_view(v: Seq<(String, String)>) -> Seq<Pt> {
    v.map_values(|p: (String, String)| (p.0@, p.1@))
}

/// The file formats a trajectory is read from.
#[derive(Debug, Clone, Copy, PartialEq, Eq, Structural)]
pub enum TrajectoryFormat {
    Json,
    Csv,
}

// ---------------------------------------------------------------------------
// Format by extension
// ---------------------------------------------------------------------------

/// The extension of a path in ASCII lower case, or empty.
pub open spec fn lower_extension(p: Seq<char>) -> Seq<char> {
    match extension(p) {
        Some(e) => ascii_lower(e),
        None => seq![],
    }
}

/// The format a trajectory file is read in, chosen by its extension.
pub open spec fn format_of(p: Seq<char>) -> Result<TrajectoryFormat, Seq<char>> {
    let e = lower_extension(p);
    if e == "json"@ {
        Ok(TrajectoryFormat::Json)
    } else if e == "csv"@ {
        Ok(TrajectoryFormat::Csv)
    } else {
        Err("Unsupported trajectory file extension '."@ + e + "'. Use .json or .csv"@)
    }
}

pub open spec fn format_view(r: Result<TrajectoryFormat, String>) -> Result<TrajectoryFormat, Seq<char>> {
    match r {
        Ok(f) => Ok(f),
        Err(e) => Err(e@),
    }
}

/// Choose the reader of a trajectory file by its extension (`.json` or
/// `.csv`, in any ASCII case).
pub fn trajectory_format(path: &str) -> (r: Result<TrajectoryFormat, String>)
    ensures
        format_view(r) == format_of(path@),
{
    let p = chars_of(path);
    let e: Vec<char> = match extension_exec(p.as_slice()) {
        Some(x) => to_ascii_lower(x.as_slice()),
        None => Vec::new(),
    };
    assert(e@ == lower_extension(path@));
    if chars_equal(e.as_slice(), chars_of("json").as_slice()) {
        Ok(TrajectoryFormat::Json)
    } else if chars_equal(e.as_slice(), chars_of("csv").as_slice()) {
        Ok(TrajectoryFormat::Csv)
    } else {
        let mut m = String::new();
        push_str(&mut m, "Unsupported trajectory file extension '.");
        push_chars(&mut m, e.as_slice());
        push_str(&mut m, "'. Use .json or .csv");
        Err(m)
    }
}

/// The name of a trajectory read from a file: the file's stem, or
/// `External` when the path has none.
pub open spec fn stem_name(p: Seq<char>) -> Seq<char> {
    match file_stem(p) {
        Some(s) => s,
        None => "External"@,
    }
}

fn stem_name_exec(path: &str) -> (r: String)
    ensures
        r@ == stem_name(path@),
{
    let p = chars_of(path);
    match file_stem_exec(p.as_slice()) {
        Some(s) => string_from_chars(s.as_slice()),
        None => "External".to_owned(),
    }
}

// ---------------------------------------------------------------------------
// JSON
// ---------------------------------------------------------------------------

/// The member `key` of an object: the first one so named.
pub open spec fn member(obj: Seq<(String, JsonValue)>, key: Seq<char>) -> Option<JsonValue>
    decreases obj.len(),
{
    if obj.len() == 0 {
        None
    } else if obj[0].0@ == key {
        Some(obj[0].1)
    } else {
        member(obj.drop_first(), key)
    }
}

/// The number text of a value that is a number.
pub open spec fn number_of(v: Option<JsonValue>) -> Option<Seq<char>> {
    match v {
        Some(JsonValue::Number(t)) => Some(t@),
        _ => None,
    }
}

pub open spec fn point_error(i: nat, what: Seq<char>) -> Seq<char> {
    "Point "@ + decimal(i) + what
}

/// Point `i` of a points array: `{"lon": .., "lat": ..}` or `[lon, lat, ..]`.
pub open spec fn point_of(item: JsonValue, i: nat) -> Result<Pt, Seq<char>> {
    match item {
        JsonValue::Object(o) => match number_of(member(o@, "lon"@)) {
            None => Err(point_error(i, ": missing or invalid \"lon\""@)),
            Some(lon) => match number_of(member(o@, "lat"@)) {
                None => Err(point_error(i, ": missing or invalid \"lat\""@)),
                Some(lat) => Ok((lon, lat)),
            },
        },
        JsonValue::Array(pair) => if pair.len() < 2 {
            Err(point_error(i, ": array must have at least 2 elements [lon, lat]"@))
        } else {
            match number_of(Some(pair@[0])) {
                None => Err(point_error(i, ": invalid lon value"@)),
                Some(lon) => match number_of(Some(pair@[1])) {
                    None => Err(point_error(i, ": invalid lat value"@)),
                    Some(lat) => Ok((lon, lat)),
                },
            }
        },
        _ => Err(point_error(i, ": expected object or array"@)),
    }
}

/// The points of the items, or the error of the first item that is not one.
pub open spec fn points_of(items: Seq<JsonValue>) -> Result<Seq<Pt>, Seq<char>>
    decreases items.len(),
{
    if items.len() == 0 {
        Ok(seq![])
    } else {
        match points_of(items.drop_last()) {
            Err(e) => Err(e),
            Ok(ps) => match point_of(items.last(), (items.len() - 1) as nat) {
                Err(e) => Err(e),
                Ok(p) => Ok(ps.push(p)),
            },
        }
    }
}

/// The points of a non-empty JSON array.
pub open spec fn points_array(v: JsonValue) -> Result<Seq<Pt>, Seq<char>> {
    match v {
        JsonValue::Array(items) => if items.len() == 0 {
            Err("Points array is empty"@)
        } else {
            points_of(items@)
        },
        _ => Err("Expected a JSON array of points"@),
    }
}

/// The trajectory a JSON document read from `path` describes: an object
/// with `points` (and an optional `name`), or a bare array of points named
/// after the file.
pub open spec fn json_trajectory(v: JsonValue, path: Seq<char>) -> Result<(Seq<Pt>, Seq<char>), Seq<char>> {
    match v {
        JsonValue::Object(o) => {
            let name = match member(o@, "name"@) {
                Some(JsonValue::Str(s)) => s@,
                _ => "External"@,
            };
            match member(o@, "points"@) {
                None => Err("JSON object must have a \"points\" field"@),
                Some(p) => match points_array(p) {
                    Ok(ps) => Ok((ps, name)),
                    Err(e) => Err(e),
                },
            }
        },
        JsonValue::Array(_) => match points_array(v) {
            Ok(ps) => Ok((ps, stem_name(path))),
            Err(e) => Err(e),
        },
        _ => Err("JSON must be an object or array"@),
    }
}

pub open spec fn data_view(r: Result<TrajectoryData, String>) -> Result<(Seq<Pt>, Seq<char>), Seq<char>> {
    match r {
        Ok(d) => Ok((points_view(d.points@), d.name@)),
        Err(e) => Err(e@),
    }
}

pub(crate) fn member_exec<'a>(obj: &'a Vec<(String, JsonValue)>, key: &str) -> (r: Option<&'a JsonValue>)
    ensures
        match r {
            Some(v) => member(obj@, key@) == Some(*v),
            None => member(obj@, key@) is None,
        },
{
    let mut i: usize = 0;
    assert(obj@.skip(0) =~= obj@);
    while i < obj.len()
        invariant
            i <= obj@.len(),
            member(obj@, key@) == member(obj@.skip(i as int), key@),
        decreases obj@.len() - i,
    {
        assert(obj@.skip(i as int).drop_first() =~= obj@.skip(i + 1));
        assert(obj@.skip(i as int)[0] == obj@[i as int]);
        if str_eq(obj[i].0.as_str(), key) {
            return Some(&obj[i].1);
        }
        i = i + 1;
    }
    None
}

fn number_exec(v: Option<&JsonValue>) -> (r: Option<String>)
    ensures
        match r {
            Some(t) => number_of(match v {
                Some(x) => Some(*x),
                None => None,
            }) == Some(t@),
            None => number_of(match v {
                Some(x) => Some(*x),
                None => None,
            }) is None,
        },
{
    match v {
        Some(JsonValue::Number(t)) => Some(t.clone()),
        _ => None,
    }
}

fn point_error_exec(i: usize, what: &str) -> (r: String)
    ensures
        r@ == point_error(i as nat, what@),
{
    let mut m = String::new();
    push_str(&mut m, "Point ");
    push_chars(&mut m, usize_to_chars(i).as_slice());
    push_str(&mut m, what);
    m
}

fn point_exec(item: &JsonValue, i: usize) -> (r: Result<(String, String), String>)
    ensures
        match r {
            Ok(p) => point_of(*item, i as nat) == Ok::<Pt, Seq<char>>((p.0@, p.1@)),
            Err(e) => point_of(*item, i as nat) == Err::<Pt, Seq<char>>(e@),
        },
{
    match item {
        JsonValue::Object(o) => {
            let lon = match number_exec(member_exec(o, "lon")) {
                Some(t) => t,
                None => return Err(point_error_exec(i, ": missing or invalid \"lon\"")),
            };
            let lat = match number_exec(member_exec(o, "lat")) {
                Some(t) => t,
                None => return Err(point_error_exec(i, ": missing or invalid \"lat\"")),
            };
            Ok((lon, lat))
        },
        JsonValue::Array(pair) => {
            if pair.len() < 2 {
                return Err(point_error_exec(i, ": array must have at least 2 elements [lon, lat]"));
            }
            let lon = match number_exec(Some(&pair[0])) {
                Some(t) => t,
                None => return Err(point_error_exec(i, ": invalid lon value")),
            };
            let lat = match number_exec(Some(&pair[1])) {
                Some(t) => t,
                None => return Err(point_error_exec(i, ": invalid lat value")),
            };
            Ok((lon, lat))
        },
        _ => Err(point_error_exec(i, ": expected object or array")),
    }
}

/// Once an item is not a point, the points of any longer prefix fail with
/// the same error.
proof fn lemma_points_error_stays(items: Seq<JsonValue>, k: int, m: int)
    requires
        0 <= k <= m <= items.len(),
        points_of(items.take(k)) is Err,
    ensures
        points_of(items.take(m)) == points_of(items.take(k)),
    decreases m - k,
{
    if m > k {
        lemma_points_error_stays(items, k, m - 1);
        assert(items.take(m).drop_last() =~= items.take(m - 1));
    }
}

fn points_array_exec(v: &JsonValue) -> (r: Result<Vec<(String, String)>, String>)
    ensures
        match r {
            Ok(ps) => points_array(*v) == Ok::<Seq<Pt>, Seq<char>>(points_view(ps@)),
            Err(e) => points_array(*v) == Err::<Seq<Pt>, Seq<char>>(e@),
        },
{
    let items = match v {
        JsonValue::Array(items) => items,
        _ => return Err("Expected a JSON array of points".to_owned()),
    };
    if items.len() == 0 {
        return Err("Points array is empty".to_owned());
    }
    let mut points: Vec<(String, String)> = Vec::new();
    let mut i: usize = 0;
    assert(items@.take(0).len() == 0);
    assert(points_view(points@) =~= Seq::<Pt>::empty());
    while i < items.len()
        invariant
            i <= items@.len(),
            points_array(*v) == points_of(items@),
            points_of(items@.take(i as int)) == Ok::<Seq<Pt>, Seq<char>>(points_view(points@)),
        decreases items@.len() - i,
    {
        assert(items@.take(i + 1).drop_last() =~= items@.take(i as int));
        assert(items@.take(i + 1).last() == items@[i as int]);
        match point_exec(&items[i], i) {
            Ok(p) => {
                let ghost pv = (p.0@, p.1@);
                let ghost before = points_view(points@);
                points.push(p);
                assert(points_view(points@) =~= before.push(pv));
            },
            Err(e) => {
                proof {
                    assert(points_of(items@.take(i + 1)) == Err::<Seq<Pt>, Seq<char>>(e@));
                    lemma_points_error_stays(items@, i + 1, items@.len() as int);
                    assert(items@.take(items@.len() as int) =~= items@);
                }
                return Err(e);
            },
        }
        i = i + 1;
    }
    assert(items@.take(i as int) =~= items@);
    Ok(points)
}

/// The trajectory a JSON document read from `path` describes.
pub fn trajectory_from_json(value: &JsonValue, path: &str) -> (r: Result<TrajectoryData, String>)
    ensures
        data_view(r) == json_trajectory(*value, path@),
{
    match value {
        JsonValue::Object(o) => {
            let name = match member_exec(o, "name") {
                Some(JsonValue::Str(s)) => s.clone(),
                _ => "External".to_owned(),
            };
            let p = match member_exec(o, "points") {
                Some(p) => p,
                None => return Err("JSON object must have a \"points\" field".to_owned()),
            };
            match points_array_exec(p) {
                Ok(points) => Ok(TrajectoryData { points, name }),
                Err(e) => Err(e),
            }
        },
        JsonValue::Array(_) => match points_array_exec(value) {
            Ok(points) => Ok(TrajectoryData { points, name: stem_name_exec(path) }),
            Err(e) => Err(e),
        },
        _ => Err("JSON must be an object or array".to_owned()),
    }
}

// ---------------------------------------------------------------------------
// CSV
// ---------------------------------------------------------------------------

pub open spec fn line_error(i: nat, what: Seq<char>) -> Seq<char> {
    "Line "@ + decimal(i + 1) + what
}

/// What line `i` of a CSV file adds to the points read so far: nothing for
/// a blank line, a `#` comment or a header (a first line naming `lon` and
/// `lat`); otherwise the first two comma-separated values, which must be
/// numbers.
pub open spec fn csv_line(ps: Seq<Pt>, i: nat, raw: Seq<char>) -> Result<Seq<Pt>, Seq<char>> {
    let t = trim(raw);
    if t.len() == 0 || t[0] == '#' {
        Ok(ps)
    } else if i == 0 && contains(t, "lon"@) && contains(t, "lat"@) {
        Ok(ps)
    } else {
        let parts = split_char(t, ',');
        if parts.len() < 2 {
            Err(line_error(i, ": expected at least 2 comma-separated values"@))
        } else {
            let lon = trim(parts[0]);
            let lat = trim(parts[1]);
            if !is_float_text(lon) {
                Err(line_error(i, ": invalid lon value '"@) + lon + "'"@)
            } else if !is_float_text(lat) {
                Err(line_error(i, ": invalid lat value '"@) + lat + "'"@)
            } else {
                Ok(ps.push((lon, lat)))
            }
        }
    }
}

/// The points of the lines, or the error of the first bad line.
pub open spec fn csv_points(ls: Seq<Seq<char>>) -> Result<Seq<Pt>, Seq<char>>
    decreases ls.len(),
{
    if ls.len() == 0 {
        Ok(seq![])
    } else {
        match csv_points(ls.drop_last()) {
            Err(e) => Err(e),
            Ok(ps) => csv_line(ps, (ls.len() - 1) as nat, ls.last()),
        }
    }
}

/// The trajectory a CSV file read from `path` describes.
pub open spec fn csv_trajectory(content: Seq<char>, path: Seq<char>) -> Result<(Seq<Pt>, Seq<char>), Seq<char>> {
    match csv_points(lines(content)) {
        Err(e) => Err(e),
        Ok(ps) => if ps.len() == 0 {
            Err("CSV file contains no valid data points"@)
        } else {
            Ok((ps, stem_name(path)))
        },
    }
}

proof fn lemma_csv_error_stays(ls: Seq<Seq<char>>, k: int, m: int)
    requires
        0 <= k <= m <= ls.len(),
        csv_points(ls.take(k)) is Err,
    ensures
        csv_points(ls.take(m)) == csv_points(ls.take(k)),
    decreases m - k,
{
    if m > k {
        lemma_csv_error_stays(ls, k, m - 1);
        assert(ls.take(m).drop_last() =~= ls.take(m - 1));
    }
}

fn line_error_exec(i: usize, what: &str) -> (r: String)
    requires
        i < usize::MAX,
    ensures
        r@ == line_error(i as nat, what@),
{
    let mut m = String::new();
    push_str(&mut m, "Line ");
    push_chars(&mut m, usize_to_chars(i + 1).as_slice());
    push_str(&mut m, what);
    m
}

fn value_error(i: usize, what: &str, v: &Vec<char>) -> (r: String)
    requires
        i < usize::MAX,
    ensures
        r@ == line_error(i as nat, what@) + v@ + "'"@,
{
    let mut m = line_error_exec(i, what);
    push_chars(&mut m, v.as_slice());
    push_str(&mut m, "'");
    m
}

fn csv_line_exec(points: &mut Vec<(String, String)>, i: usize, raw: &Vec<char>) -> (r: Result<(), String>)
    requires
        i < usize::MAX,
    ensures
        match r {
            Ok(()) => csv_line(points_view(old(points)@), i as nat, raw@) == Ok::<Seq<Pt>, Seq<char>>(
                points_view(final(points)@),
            ),
            Err(e) => csv_line(points_view(old(points)@), i as nat, raw@) == Err::<Seq<Pt>, Seq<char>>(
                e@,
            ),
        },
{
    let t = trim_exec(raw.as_slice());
    if t.len() == 0 || t[0] == '#' {
        return Ok(());
    }
    if i == 0 && contains_exec(t.as_slice(), chars_of("lon").as_slice()) && contains_exec(
        t.as_slice(),
        chars_of("lat").as_slice(),
    ) {
        return Ok(());
    }
    let parts = split_exec(t.as_slice(), ',');
    assert(views(parts@).len() == parts@.len());
    if parts.len() < 2 {
        return Err(line_error_exec(i, ": expected at least 2 comma-separated values"));
    }
    assert(views(parts@)[0] == parts@[0]@);
    assert(views(parts@)[1] == parts@[1]@);
    let lon = trim_exec(parts[0].as_slice());
    let lat = trim_exec(parts[1].as_slice());
    if !is_float_literal(lon.as_slice()) {
        return Err(value_error(i, ": invalid lon value '", &lon));
    }
    if !is_float_literal(lat.as_slice()) {
        return Err(value_error(i, ": invalid lat value '", &lat));
    }
    let ghost before = points_view(points@);
    points.push((string_from_chars(lon.as_slice()), string_from_chars(lat.as_slice())));
    assert(points_view(points@) =~= before.push((lon@, lat@)));
    Ok(())
}

/// The trajectory a CSV file read from `path` describes: one `lon,lat`
/// point per line, after an optional header.
pub fn trajectory_from_csv(content: &str, path: &str) -> (r: Result<TrajectoryData, String>)
    ensures
        data_view(r) == csv_trajectory(content@, path@),
{
    let cs = chars_of(content);
    let ls = lines_exec(cs.as_slice());
    let ghost lv = views(ls@);
    let mut points: Vec<(String, String)> = Vec::new();
    let mut i: usize = 0;
    assert(lv.take(0).len() == 0);
    assert(points_view(points@) =~= Seq::<Pt>::empty());
    while i < ls.len()
        invariant
            i <= ls@.len(),
            lv == views(ls@),
            lv == lines(content@),
            csv_points(lv.take(i as int)) == Ok::<Seq<Pt>, Seq<char>>(points_view(points@)),
        decreases ls@.len() - i,
    {
        assert(lv.take(i + 1).drop_last() =~= lv.take(i as int));
        assert(lv.take(i + 1).last() == ls@[i as int]@);
        match csv_line_exec(&mut points, i, &ls[i]) {
            Ok(()) => {},
            Err(e) => {
                proof {
                    assert(csv_points(lv.take(i + 1)) == Err::<Seq<Pt>, Seq<char>>(e@));
                    lemma_csv_error_stays(lv, i + 1, lv.len() as int);
                    assert(lv.take(lv.len() as int) =~= lv);
                }
                return Err(e);
            },
        }
        i = i + 1;
    }
    assert(lv.take(i as int) =~= lv);
    if points.len() == 0 {
        return Err("CSV file contains no valid data points".to_owned());
    }
    Ok(TrajectoryData { points, name: stem_name_exec(path) })
}

// ---------------------------------------------------------------------------
// Parsing JSON text
// ---------------------------------------------------------------------------

#[verifier::external_type_specification]
#[verifier::external_body]
pub struct ExSerdeJsonValue(serde_json::Value);

/// What `serde_json::from_str::<serde_json::Value>` makes of a text, in the
/// library's terms: the document, or the parser's error message.
pub uninterp spec fn json_document(text: Seq<char>) -> Result<JsonValue, Seq<char>>;

/// The view of a parse result.
pub open spec fn json_result_view(r: Result<JsonValue, String>) -> Result<JsonValue, Seq<char>> {
    match r {
        Ok(v) => Ok(v),
        Err(e) => Err(e@),
    }
}

/// `serde_json::Value` in the library's terms, variant by variant; a number
/// is kept as the text serde_json writes for it.
#[verifier::external_body]
fn json_from_serde(v: serde_json::Value) -> JsonValue {
    match v {
        serde_json::Value::Null => JsonValue::Null,
        serde_json::Value::Bool(b) => JsonValue::Bool(b),
        serde_json::Value::Number(n) => JsonValue::Number(n.to_string()),
        serde_json::Value::String(s) => JsonValue::Str(s),
        serde_json::Value::Array(a) => JsonValue::Array(a.into_iter().map(json_from_serde).collect()),
        serde_json::Value::Object(o) => JsonValue::Object(o.into_iter().map(|(k, v)| (k, json_from_serde(v))).collect()),
    }
}

/// `serde_json::from_str::<serde_json::Value>`: the document a text holds,
/// or the parser's message.  The result is named by `json_document`, a
/// function of the text alone.
#[verifier::external_body]
pub(crate) fn parse_json(text: &str) -> (r: Result<JsonValue, String>)
    ensures
        json_result_view(r) == json_document(text@),
{
    serde_json::from_str::<serde_json::Value>(text).map(json_from_serde).map_err(|e| e.to_string())
}

/// The library's JSON value as a `serde_json::Value`, variant by variant;
/// a number text that `serde_json::Number` does not read becomes null.
#[verifier::external_body]
fn json_to_serde(v: &JsonValue) -> serde_json::Value {
    match v {
        JsonValue::Null => serde_json::Value::Null,
        JsonValue::Bool(b) => serde_json::Value::Bool(*b),
        JsonValue::Number(t) => t.parse::<serde_json::Number>().map(serde_json::Value::Number).unwrap_or(serde_json::Value::Null),
        JsonValue::Str(t) => serde_json::Value::String(t.clone()),
        JsonValue::Array(a) => serde_json::Value::Array(a.iter().map(json_to_serde).collect()),
        JsonValue::Object(o) => serde_json::Value::Object(o.iter().map(|(k, x)| (k.clone(), json_to_serde(x))).collect()),
    }
}

/// What `serde_json::to_string_pretty` writes for a JSON value with the
/// contents `v`, or `None` where it fails.
pub uninterp spec fn pretty_json(v: JsonModel) -> Option<Seq<char>>;

/// `serde_json::to_string_pretty` of a JSON value: the indented text, or
/// `None` where serialization fails.  The result is named by `pretty_json`,
/// a function of the value's contents.
#[verifier::external_body]
pub(crate) fn pretty_json_text(v: &JsonValue) -> (r: Option<String>)
    ensures
        match r {
            Some(t) => pretty_json(json_model(*v)) == Some(t@),
            None => pretty_json(json_model(*v)) is None,
        },
{
    serde_json::to_string_pretty(&json_to_serde(v)).ok()
}

/// What `serde_json::to_string` writes for a JSON value with the contents
/// `v`, or `None` where it fails.
pub uninterp spec fn compact_json(v: JsonModel) -> Option<Seq<char>>;

/// `serde_json::to_string` of a JSON value: its text on one line, or `None`
/// where serialization fails.  The result is named by `compact_json`, a
/// function of the value's contents.
#[verifier::external_body]
pub(crate) fn compact_json_text(v: &JsonValue) -> (r: Option<String>)
    ensures
        match r {
            Some(t) => compact_json(json_model(*v)) == Some(t@),
            None => compact_json(json_model(*v)) is None,
        },
{
    serde_json::to_string(&json_to_serde(v)).ok()
}

/// The trajectory a file's text holds, read as JSON or CSV by the file's
/// extension.
pub open spec fn text_trajectory(content: Seq<char>, path: Seq<char>) -> Result<(Seq<Pt>, Seq<char>), Seq<char>> {
    match format_of(path) {
        Err(e) => Err(e),
        Ok(TrajectoryFormat::Json) => match json_document(content) {
            Ok(v) => json_trajectory(v, path),
            Err(e) => Err("Invalid JSON: "@ + e),
        },
        Ok(TrajectoryFormat::Csv) => csv_trajectory(content, path),
    }
}

/// Reads a trajectory from the text of the file at `path`.
pub fn trajectory_from_text(content: &str, path: &str) -> (r: Result<TrajectoryData, String>)
    ensures
        data_view(r) == text_trajectory(content@, path@),
{
    match trajectory_format(path) {
        Err(e) => Err(e),
        Ok(TrajectoryFormat::Json) => match parse_json(content) {
            Ok(v) => trajectory_from_json(&v, path),
            Err(e) => {
                let mut m = "Invalid JSON: ".to_owned();
                push_str(&mut m, e.as_str());
                Err(m)
            },
        },
        Ok(TrajectoryFormat::Csv) => trajectory_from_csv(content, path),
    }
}

// ---------------------------------------------------------------------------
// The overlay's trail
// ---------------------------------------------------------------------------

/// The part of a trajectory that the overlay draws at a time step: the point
/// it marks as current and the first segment of the bright trail that leads
/// to it.  Segment `i` joins point `i` to point `i + 1`; the segments before
/// the current point are drawn, those from `bright_start` on brightly.
#[derive(Debug, Clone, Copy, PartialEq, Eq, Structural)]
pub struct TrailWindow {
    pub current: usize,
    pub bright_start: usize,
}

/// The window of a trajectory of `n` points at time step `time` with a trail
/// of `trail` segments: the current point stops at the last point, and the
/// bright trail starts `trail` segments before it (at the first point when
/// there are fewer).
pub open spec fn trail_window_spec(n: usize, time: usize, trail: usize) -> Option<TrailWindow> {
    if n == 0 {
        None
    } else {
        let current = if time <= n - 1 {
            time
        } else {
            (n - 1) as usize
        };
        let bright_start = if current >= trail {
            (current - trail) as usize
        } else {
            0
        };
        Some(TrailWindow { current, bright_start })
    }
}

/// The window the overlay draws for `n_points` points at time step
/// `current_time` with a trail of `trail_length` segments; `None` when there
/// are no points to draw.
pub fn trail_window(n_points: usize, current_time: usize, trail_length: usize) -> (r: Option<TrailWindow>)
    ensures
        r == trail_window_spec(n_points, current_time, trail_length),
{
    if n_points == 0 {
        return None;
    }
    let current = if current_time <= n_points - 1 {
        current_time
    } else {
        n_points - 1
    };
    let bright_start = if current >= trail_length {
        current - trail_length
    } else {
        0
    };
    Some(TrailWindow { current, bright_start })
}

/// Whether segment `i` belongs to the bright trail of window `w`.
pub fn segment_is_recent(w: TrailWindow, i: usize) -> (r: bool)
    ensures
        r == (w.bright_start <= i && i < w.current),
{
    w.bright_start <= i && i < w.current
}

/// The overlay marks a point of the trajectory as current, and its bright
/// trail holds at most `trail` segments, all of them drawn, ending at the
/// current point; a trail at least as long as the time elapsed starts at
/// the first point.
pub proof fn lemma_trail_window_bounds(n: usize, time: usize, trail: usize)
    requires
        n > 0,
    ensures
        trail_window_spec(n, time, trail) matches Some(w) && w.current < n && w.bright_start <= w.current
            && w.current - w.bright_start <= trail && (trail >= w.current ==> w.bright_start == 0),
{
}

} // verus!
