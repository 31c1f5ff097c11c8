//! Reading a generated script back: the settings that the parser finds in
//! the Python script written for a visualization.
use vstd::prelude::*;

use crate::data::{active_open_file, DataStore};
use crate::python::{
    cartopy_call, contour_lines, data_lines, figure_lines, footer_lines, has_level, has_time, header_lines,
    is_geo, isel_parts, matplotlib_name, pcolormesh_line, projection_title, python_lines, python_script,
    script_path, script_var, var_name_at, vector_lines, vector_lines_of, quiver_skip,
};
use crate::ui::{Colormap, RangeMode, UiState, ViewMode};
use crate::ui::MapProjection;
use crate::settings::{step_colormap, step_contour, step_level, step_overlays, step_range, step_streamline, step_time, step_vector, Changed};
use crate::numeric::{F32Bits, all_digits, decimal, digit_char, digit_value, digits_value, is_float_text, usize_from_text};
use crate::parser::{
    apply_parsed_spec, cartopy_projection, lemma_matplotlib_round_trip, opt_matplotlib, parse_code, step_parsed_view, ends_value, enclosed_after, float_text, isel_arg, isel_args, lemma_value_len, nothing_parsed, number_after, parse_isel,
    parse_line, parse_lines, parse_orthographic, value_len, Parsed,
};
use crate::text::{
    char_index, find, find_from, is_ws, join, lemma_char_index_none, lemma_char_index_unique,
    lemma_find_from_bounds, lines, occurs_at, split_char, starts_with, strip_cr, trim, trim_end, trim_start,
    contains,
};

verus! {

/// `c` does not occur in `s`.
pub open spec fn lacks(s: Seq<char>, c: char) -> bool {
    forall|i: int| 0 <= i < s.len() ==> s[i] != c
}

/// `a` directly followed by `b` does not occur in `s`.
pub open spec fn lacks_pair(s: Seq<char>, a: char, b: char) -> bool {
    forall|i: int| 0 <= i && i + 1 < s.len() ==> !(#[trigger] s[i] == a && s[i + 1] == b)
}

proof fn lemma_lacks_char(s: Seq<char>, p: Seq<char>, k: int)
    requires
        0 <= k < p.len(),
        lacks(s, p[k]),
    ensures
        find(s, p) is None,
{
    lemma_find_from_bounds(s, p, 0);
    if let Some(j) = find(s, p) {
        assert(s.subrange(j, j + p.len())[k] == p[k]);
    }
}

proof fn lemma_lacks_pair(s: Seq<char>, p: Seq<char>, k: int)
    requires
        0 <= k && k + 1 < p.len(),
        lacks_pair(s, p[k], p[k + 1]),
    ensures
        find(s, p) is None,
{
    lemma_find_from_bounds(s, p, 0);
    if let Some(j) = find(s, p) {
        assert(s.subrange(j, j + p.len())[k] == p[k]);
        assert(s.subrange(j, j + p.len())[k + 1] == p[k + 1]);
    }
}

/// `a b c` does not occur in `s`.
pub open spec fn lacks_triple(s: Seq<char>, a: char, b: char, c: char) -> bool {
    forall|i: int| 0 <= i && i + 2 < s.len() ==> !(#[trigger] s[i] == a && s[i + 1] == b && s[i + 2] == c)
}

proof fn lemma_lacks_triple(s: Seq<char>, p: Seq<char>, k: int)
    requires
        0 <= k && k + 2 < p.len(),
        lacks_triple(s, p[k], p[k + 1], p[k + 2]),
    ensures
        find(s, p) is None,
{
    lemma_find_from_bounds(s, p, 0);
    if let Some(j) = find(s, p) {
        assert(s.subrange(j, j + p.len())[k] == p[k]);
        assert(s.subrange(j, j + p.len())[k + 1] == p[k + 1]);
        assert(s.subrange(j, j + p.len())[k + 2] == p[k + 2]);
    }
}

/// `a b c d` does not occur in `s`.
pub open spec fn lacks_quad(s: Seq<char>, a: char, b: char, c: char, d: char) -> bool {
    forall|i: int|
        0 <= i && i + 3 < s.len() ==> !(#[trigger] s[i] == a && s[i + 1] == b && s[i + 2] == c && s[i + 3] == d)
}

proof fn lemma_lacks_quad(s: Seq<char>, p: Seq<char>, k: int)
    requires
        0 <= k && k + 3 < p.len(),
        lacks_quad(s, p[k], p[k + 1], p[k + 2], p[k + 3]),
    ensures
        find(s, p) is None,
{
    lemma_find_from_bounds(s, p, 0);
    if let Some(j) = find(s, p) {
        assert(s.subrange(j, j + p.len())[k] == p[k]);
        assert(s.subrange(j, j + p.len())[k + 1] == p[k + 1]);
        assert(s.subrange(j, j + p.len())[k + 2] == p[k + 2]);
        assert(s.subrange(j, j + p.len())[k + 3] == p[k + 3]);
    }
}

/// Every `c` in `s` stands before position `k`.
pub open spec fn early(s: Seq<char>, c: char, k: int) -> bool {
    forall|i: int| 0 <= i < s.len() && #[trigger] s[i] == c ==> i < k
}

proof fn lemma_early(s: Seq<char>, p: Seq<char>, k: int)
    requires
        0 <= k < p.len(),
        early(s, p[k], k),
    ensures
        find(s, p) is None,
{
    lemma_find_from_bounds(s, p, 0);
    if let Some(j) = find(s, p) {
        assert(s.subrange(j, j + p.len())[k] == p[k]);
        assert(s[j + k] == p[k]);
    }
}

/// A line of the script: no line break in it, and no white space at either end.
pub open spec fn plain_line(t: Seq<char>) -> bool {
    lacks(t, '\n') && (t.len() > 0 ==> !is_ws(t[0]) && !is_ws(t.last()))
}

/// A range text of the script: a number `f32::from_str` accepts (such a
/// text holds no comma or closing parenthesis, which end it in the script).
pub open spec fn number_text(x: Seq<char>) -> bool {
    inert(x) && lacks(x, ',') && lacks(x, ')') && is_float_text(x)
}

/// A path or a variable name that the generated script quotes without it
/// reading as code: no quote, opening parenthesis, `=`, space or line break.
pub open spec fn quotable(s: Seq<char>) -> bool {
    &&& lacks(s, '"')
    &&& lacks(s, '(')
    &&& lacks(s, '=')
    &&& lacks(s, ' ')
    &&& lacks(s, '\n')
}

/// Quotable text that holds no opening bracket either.
pub open spec fn inert(s: Seq<char>) -> bool {
    quotable(s) && lacks(s, '[')
}

proof fn lemma_lacks_concat(x: Seq<char>, y: Seq<char>, c: char)
    requires
        lacks(x, c),
        lacks(y, c),
    ensures
        lacks(x + y, c),
{
    assert forall|i: int| 0 <= i < (x + y).len() implies (x + y)[i] != c by {
        if i < x.len() {
            assert((x + y)[i] == x[i]);
        } else {
            assert((x + y)[i] == y[i - x.len()]);
        }
    }
}

/// The first occurrence of `p` in `s` is at `j` when it occurs there and not
/// in the text before `j + |p| - 1`.
proof fn lemma_find_first(s: Seq<char>, p: Seq<char>, j: int)
    requires
        p.len() > 0,
        occurs_at(s, p, j),
        find(s.take(j + p.len() - 1), p) is None,
    ensures
        find(s, p) == Some(j),
{
    let pre = s.take(j + p.len() - 1);
    lemma_find_from_bounds(s, p, 0);
    lemma_find_from_bounds(pre, p, 0);
    match find(s, p) {
        Some(k) => {
            if k < j {
                assert(pre.subrange(k, k + p.len()) =~= s.subrange(k, k + p.len()));
                assert(occurs_at(pre, p, k));
            }
        },
        None => {},
    }
}

/// A text with no white space at either end is its own trim.
proof fn lemma_trim_plain(s: Seq<char>)
    requires
        s.len() > 0 ==> !is_ws(s[0]) && !is_ws(s.last()),
    ensures
        trim(s) == s,
{
    assert(trim_start(s) == s);
    assert(trim_end(s) == s);
}

/// No line break inside any of the lines, and none ends in a carriage return.
pub open spec fn single_lines(ls: Seq<Seq<char>>) -> bool {
    forall|i: int| 0 <= i < ls.len() ==> lacks(#[trigger] ls[i], '\n') && (ls[i].len() > 0 ==> ls[i].last() != '\r')
}

proof fn lemma_join_front(ls: Seq<Seq<char>>, sep: Seq<char>)
    requires
        ls.len() >= 2,
    ensures
        join(ls, sep) == ls[0] + sep + join(ls.drop_first(), sep),
    decreases ls.len(),
{
    if ls.len() == 2 {
        assert(ls.drop_last() =~= seq![ls[0]]);
        assert(ls.drop_first() =~= seq![ls[1]]);
        assert(join(ls.drop_last(), sep) == ls[0]);
        assert(join(ls.drop_first(), sep) == ls[1]);
        assert(join(ls, sep) == join(ls.drop_last(), sep) + sep + ls.last());
    } else {
        lemma_join_front(ls.drop_last(), sep);
        let mid = join(ls.drop_first().drop_last(), sep);
        assert(ls.drop_last().drop_first() =~= ls.drop_first().drop_last());
        assert(ls.drop_first().last() == ls.last());
        assert(ls.drop_last()[0] == ls[0]);
        assert(join(ls, sep) == join(ls.drop_last(), sep) + sep + ls.last());
        assert(join(ls.drop_first(), sep) == mid + sep + ls.last());
        assert(join(ls.drop_last(), sep) == ls[0] + sep + mid);
        assert((ls[0] + sep + mid) + sep + ls.last() =~= ls[0] + sep + (mid + sep + ls.last()));
    }
}

proof fn lemma_split_join(ls: Seq<Seq<char>>)
    requires
        ls.len() >= 1,
        single_lines(ls),
    ensures
        split_char(join(ls, seq!['\n']), '\n') == ls,
    decreases ls.len(),
{
    let nl = seq!['\n'];
    if ls.len() == 1 {
        assert(lacks(ls[0], '\n'));
        lemma_char_index_none(ls[0], '\n');
        assert(ls =~= seq![ls[0]]);
    } else {
        lemma_join_front(ls, nl);
        let rest = join(ls.drop_first(), nl);
        let s = ls[0] + nl + rest;
        assert(lacks(ls[0], '\n'));
        assert(s[ls[0].len() as int] == '\n');
        assert forall|j: int| 0 <= j < ls[0].len() implies s[j] != '\n' by {
            assert(s[j] == ls[0][j]);
        }
        lemma_char_index_unique(s, '\n', ls[0].len() as int);
        assert(s.take(ls[0].len() as int) =~= ls[0]);
        assert(s.skip(ls[0].len() as int + 1) =~= rest);
        assert(single_lines(ls.drop_first())) by {
            assert forall|i: int| 0 <= i < ls.drop_first().len() implies lacks(
                #[trigger] ls.drop_first()[i],
                '\n',
            ) && (ls.drop_first()[i].len() > 0 ==> ls.drop_first()[i].last() != '\r') by {
                assert(ls.drop_first()[i] == ls[i + 1]);
            }
        }
        lemma_split_join(ls.drop_first());
        assert(seq![ls[0]] + ls.drop_first() =~= ls);
    }
}

/// The lines of lines joined with line breaks are those lines, when the
/// last one is not empty.
proof fn lemma_lines_join(ls: Seq<Seq<char>>)
    requires
        ls.len() >= 1,
        single_lines(ls),
        ls.last().len() > 0,
    ensures
        lines(join(ls, seq!['\n'])) == ls,
{
    lemma_split_join(ls);
    let p = split_char(join(ls, seq!['\n']), '\n');
    let init = p.drop_last().map_values(|x: Seq<char>| strip_cr(x));
    assert forall|i: int| 0 <= i < init.len() implies init[i] == ls[i] by {
        assert(ls[i].len() > 0 ==> ls[i].last() != '\r');
    }
    assert(init.push(p.last()) =~= ls);
}

/// What one line adds to the settings `v`; the parser's reading, kept
/// folded so that the proofs over whole sections do not unfold it.
#[verifier::opaque]
pub open spec fn read_line(v: Parsed, t: Seq<char>) -> Parsed {
    parse_line(v, t)
}

/// The settings that lines `ls` express, read after the settings `v`.
pub open spec fn parse_all(v: Parsed, ls: Seq<Seq<char>>) -> Parsed
    decreases ls.len(),
{
    if ls.len() == 0 {
        v
    } else {
        read_line(parse_all(v, ls.drop_last()), trim(ls.last()))
    }
}

proof fn lemma_parse_lines_all(ls: Seq<Seq<char>>)
    ensures
        parse_lines(ls) == parse_all(nothing_parsed(), ls),
    decreases ls.len(),
{
    reveal(read_line);
    if ls.len() > 0 {
        lemma_parse_lines_all(ls.drop_last());
    }
}

proof fn lemma_parse_all_concat(v: Parsed, a: Seq<Seq<char>>, b: Seq<Seq<char>>)
    ensures
        parse_all(v, a + b) == parse_all(parse_all(v, a), b),
    decreases b.len(),
{
    if b.len() == 0 {
        assert(a + b =~= a);
    } else {
        assert((a + b).drop_last() =~= a + b.drop_last());
        assert((a + b).last() == b.last());
        lemma_parse_all_concat(v, a, b.drop_last());
    }
}

/// A line in which none of the parser's patterns occurs.
pub open spec fn silent(t: Seq<char>) -> bool {
    &&& enclosed_after(t, "ds[\""@, '"') is None
    &&& find(t, ".isel("@) is None
    &&& find(t, "cmap=\""@) is None
    &&& find(t, "vmin="@) is None
    &&& find(t, "vmax="@) is None
    &&& find(t, "ccrs.Orthographic("@) is None
    &&& find(t, "projection="@) is None
    &&& find(t, ".contour("@) is None
    &&& find(t, ".contour "@) is None
    &&& find(t, ".quiver("@) is None
    &&& find(t, ".quiver "@) is None
    &&& find(t, ".streamplot("@) is None
    &&& find(t, ".streamplot "@) is None
}

proof fn lemma_silent(v: Parsed, t: Seq<char>)
    requires
        silent(t),
    ensures
        read_line(v, t) == v,
{
    reveal(read_line);
}

proof fn lemma_occurs_contains(s: Seq<char>, p: Seq<char>, j: int)
    requires
        occurs_at(s, p, j),
    ensures
        find(s, p) is Some,
{
    lemma_find_from_bounds(s, p, 0);
}

proof fn lemma_silent_all(v: Parsed, ls: Seq<Seq<char>>)
    requires
        forall|i: int| 0 <= i < ls.len() ==> silent(#[trigger] ls[i]) && plain_line(ls[i]),
    ensures
        parse_all(v, ls) == v,
    decreases ls.len(),
{
    if ls.len() > 0 {
        lemma_silent_all(v, ls.drop_last());
        assert(silent(ls[ls.len() - 1]) && plain_line(ls[ls.len() - 1]));
        lemma_trim_plain(ls.last());
        lemma_silent(v, ls.last());
    }
}

proof fn lemma_decimal_digits(n: nat)
    ensures
        decimal(n).len() > 0,
        all_digits(decimal(n)),
        digits_value(decimal(n)) == n,
    decreases n,
{
    let d = decimal(n);
    if n < 10 {
        assert(digit_value(digit_char(n)) == n);
        assert(d.drop_last() =~= Seq::<char>::empty());
        assert(digits_value(d.drop_last()) == 0);
        assert(digits_value(d) == n);
    } else {
        lemma_decimal_digits(n / 10);
        let r = n % 10;
        assert(digit_value(digit_char(r)) == r);
        assert(d.drop_last() =~= decimal(n / 10));
        assert(d.last() == digit_char(r));
        vstd::arithmetic::div_mod::lemma_fundamental_div_mod(n as int, 10);
        assert(digits_value(d) == digits_value(decimal(n / 10)) * 10 + digit_value(digit_char(r)));
        assert(digits_value(decimal(n / 10)) * 10 == (n / 10) * 10);
        assert(n == 10 * (n / 10) + r);
        assert(digits_value(d) == n);
    }
}

/// The decimal text of an index reads back as that index.
proof fn lemma_decimal_reads_back(n: nat)
    requires
        n <= usize::MAX,
    ensures
        usize_from_text(decimal(n)) == Some(n),
        inert(decimal(n)),
        plain_line(decimal(n)),
        lacks(decimal(n), '.'),
        lacks(decimal(n), ','),
        lacks(decimal(n), ')'),
{
    lemma_decimal_digits(n);
    let d = decimal(n);
    assert(d[0] != '+');
}

/// The line that selects the variable `name`.
proof fn lemma_var_line(v: Parsed, name: Seq<char>)
    requires
        quotable(name),
    ensures
        plain_line("da = ds[\""@ + name + "\"]"@),
        read_line(v, "da = ds[\""@ + name + "\"]"@) == (Parsed { variable_name: Some(name), ..v }),
{
    reveal(read_line);
    reveal_strlit("da = ds[\"");
    reveal_strlit("\"]");
    reveal_strlit("ds[\"");
    reveal_strlit("da = ds[");
    let t = "da = ds[\""@ + name + "\"]"@;
    let p = "ds[\""@;
    lemma_var_line_rest(name);
    lemma_var_line_prefix();
    assert(t.take(8) =~= "da = ds["@);
    assert(t.subrange(5, 9) =~= p);
    lemma_find_first(t, p, 5);
    let rest = t.skip(9);
    assert(rest =~= name + "\"]"@);
    assert forall|j: int| 0 <= j < name.len() implies rest[j] != '"' by {
        assert(rest[j] == name[j]);
    }
    lemma_char_index_unique(rest, '"', name.len() as int);
    assert(rest.take(name.len() as int) =~= name);
    assert(enclosed_after(t, p, '"') == Some(name));
}

proof fn lemma_no_comma_split(a: Seq<char>)
    requires
        lacks(a, ','),
    ensures
        split_char(a, ',') == seq![a],
{
    lemma_char_index_none(a, ',');
}

/// `name=` followed by the decimal text of `n`.
pub open spec fn keyword(name: Seq<char>, n: nat) -> Seq<char> {
    name + decimal(n)
}

proof fn lemma_keyword(name: Seq<char>, n: nat)
    requires
        n <= usize::MAX,
        name.len() > 0,
        !is_ws(name[0]),
        lacks(name, ','),
        lacks(name, ')'),
    ensures
        trim(keyword(name, n)) == keyword(name, n),
        lacks(keyword(name, n), ','),
        lacks(keyword(name, n), ')'),
        keyword(name, n).take(name.len() as int) == name,
        keyword(name, n).skip(name.len() as int) == decimal(n),
{
    lemma_decimal_reads_back(n);
    let k = keyword(name, n);
    lemma_lacks_concat(name, decimal(n), ',');
    lemma_lacks_concat(name, decimal(n), ')');
    assert(k[0] == name[0]);
    assert(k.last() == decimal(n).last());
    lemma_trim_plain(k);
    assert(k.take(name.len() as int) =~= name);
    assert(k.skip(name.len() as int) =~= decimal(n));
}

/// The argument `time=N` of `.isel(...)`.
proof fn lemma_time_arg(v: Parsed, n: nat)
    requires
        n <= usize::MAX,
    ensures
        isel_arg(v, keyword("time="@, n)) == (Parsed { time_index: Some(n as usize), ..v }),
{
    reveal_strlit("time=");
    lemma_keyword("time="@, n);
    lemma_decimal_reads_back(n);
    lemma_trim_plain(decimal(n));
}

/// The argument `level=N` of `.isel(...)`, after a space or not.
proof fn lemma_level_arg(v: Parsed, n: nat, spaced: bool)
    requires
        n <= usize::MAX,
    ensures
        isel_arg(v, (if spaced { " "@ } else { ""@ }) + keyword("level="@, n)) == (Parsed {
            level_index: Some(n as usize),
            ..v
        }),
{
    reveal_strlit("level=");
    reveal_strlit("time=");
    reveal_strlit(" ");
    reveal_strlit("");
    lemma_keyword("level="@, n);
    lemma_decimal_reads_back(n);
    lemma_trim_plain(decimal(n));
    let k = keyword("level="@, n);
    let a = (if spaced { " "@ } else { ""@ }) + k;
    if spaced {
        assert(a.drop_first() =~= k);
        assert(trim_start(a) == trim_start(k));
    } else {
        assert(a =~= k);
    }
    assert(trim_start(k) == k);
    assert(trim(a) == k);
    assert(!starts_with(k, "time="@)) by {
        assert(k.take(5)[0] != "time="@[0]);
    }
}

/// The `.isel(...)` text of an index `n` after `head`, closed by `)`.
proof fn lemma_isel_enclosed(t: Seq<char>, a: Seq<char>, head: Seq<char>)
    requires
        head == "da = da.isel("@,
        t == head + a + ")"@,
        lacks(a, ')'),
        lacks(a, '('),
    ensures
        enclosed_after(t, ".isel("@, ')') == Some(a),
{
    reveal_strlit("da = da.isel(");
    reveal_strlit(")");
    reveal_strlit(".isel(");
    reveal_strlit("da = da.isel");
    let p = ".isel("@;
    lemma_isel_prefix();
    assert(t.take(12) =~= "da = da.isel"@);
    assert(t.subrange(7, 13) =~= p);
    lemma_find_first(t, p, 7);
    let rest = t.skip(13);
    assert(rest =~= a + ")"@);
    assert forall|j: int| 0 <= j < a.len() implies rest[j] != ')' by {
        assert(rest[j] == a[j]);
    }
    lemma_char_index_unique(rest, ')', a.len() as int);
    assert(rest.take(a.len() as int) =~= a);
}

/// The line that picks a time step.
proof fn lemma_isel_time_line(v: Parsed, n: nat)
    requires
        n <= usize::MAX,
    ensures
        plain_line("da = da.isel("@ + keyword("time="@, n) + ")"@),
        read_line(v, "da = da.isel("@ + keyword("time="@, n) + ")"@) == (Parsed {
            time_index: Some(n as usize),
            ..v
        }),
{
    reveal(read_line);
    reveal_strlit("da = da.isel(");
    reveal_strlit("da = da.isel(time=");
    reveal_strlit("time=");
    reveal_strlit(")");
    let tt = decimal(n);
    lemma_decimal_reads_back(n);
    let a = keyword("time="@, n);
    let t = "da = da.isel("@ + a + ")"@;
    assert(t =~= "da = da.isel(time="@ + tt + ")"@);
    lemma_isel_time_rest(tt);
    lemma_keyword("time="@, n);
    lemma_lacks_concat("time="@, tt, '(');
    lemma_isel_enclosed(t, a, "da = da.isel("@);
    lemma_no_comma_split(a);
    assert(seq![a].drop_last() =~= Seq::<Seq<char>>::empty());
    assert(isel_args(v, Seq::<Seq<char>>::empty()) == v);
    assert(isel_args(v, seq![a]) == isel_arg(v, a));
    lemma_time_arg(v, n);
    assert(parse_isel(v, t) == isel_arg(v, a));
}

/// The line that picks a level.
proof fn lemma_isel_level_line(v: Parsed, n: nat)
    requires
        n <= usize::MAX,
    ensures
        plain_line("da = da.isel("@ + keyword("level="@, n) + ")"@),
        read_line(v, "da = da.isel("@ + keyword("level="@, n) + ")"@) == (Parsed {
            level_index: Some(n as usize),
            ..v
        }),
{
    reveal(read_line);
    reveal_strlit("da = da.isel(");
    reveal_strlit("da = da.isel(level=");
    reveal_strlit("level=");
    reveal_strlit(")");
    reveal_strlit("");
    let ll = decimal(n);
    lemma_decimal_reads_back(n);
    let a = keyword("level="@, n);
    let t = "da = da.isel("@ + a + ")"@;
    assert(t =~= "da = da.isel(level="@ + ll + ")"@);
    lemma_isel_level_rest(ll);
    lemma_keyword("level="@, n);
    lemma_lacks_concat("level="@, ll, '(');
    lemma_isel_enclosed(t, a, "da = da.isel("@);
    lemma_no_comma_split(a);
    assert(seq![a].drop_last() =~= Seq::<Seq<char>>::empty());
    assert(isel_args(v, Seq::<Seq<char>>::empty()) == v);
    assert(isel_args(v, seq![a]) == isel_arg(v, a));
    lemma_level_arg(v, n, false);
    assert(""@ + a =~= a);
    assert(parse_isel(v, t) == isel_arg(v, a));
}

/// The arguments `time=N, level=M` of `.isel(...)`.
proof fn lemma_isel_both_args(v: Parsed, n: nat, m: nat)
    requires
        n <= usize::MAX,
        m <= usize::MAX,
    ensures
        isel_args(v, split_char(keyword("time="@, n) + ", "@ + keyword("level="@, m), ',')) == (Parsed {
            time_index: Some(n as usize),
            level_index: Some(m as usize),
            ..v
        }),
{
    reveal_strlit(", ");
    reveal_strlit(" ");
    reveal_strlit("time=");
    reveal_strlit("level=");
    let x = keyword("time="@, n);
    let y = keyword("level="@, m);
    let a = x + ", "@ + y;
    lemma_keyword("time="@, n);
    lemma_keyword("level="@, m);
    assert forall|j: int| 0 <= j < x.len() implies a[j] != ',' by {
        assert(a[j] == x[j]);
    }
    lemma_char_index_unique(a, ',', x.len() as int);
    assert(a.take(x.len() as int) =~= x);
    let second = " "@ + y;
    assert(a.skip(x.len() as int + 1) =~= second);
    lemma_lacks_concat(" "@, y, ',');
    lemma_no_comma_split(second);
    let parts = split_char(a, ',');
    assert(parts =~= seq![x, second]);
    assert(parts.drop_last() =~= seq![x]);
    assert(seq![x].drop_last() =~= Seq::<Seq<char>>::empty());
    assert(isel_args(v, Seq::<Seq<char>>::empty()) == v);
    assert(isel_args(v, seq![x]) == isel_arg(v, x));
    assert(parts.last() == second);
    assert(isel_args(v, parts) == isel_arg(isel_args(v, parts.drop_last()), parts.last()));
    lemma_time_arg(v, n);
    let v1 = Parsed { time_index: Some(n as usize), ..v };
    lemma_level_arg(v1, m, true);
}

/// The line that picks a time step and a level.
#[verifier::spinoff_prover]
proof fn lemma_isel_both_line(v: Parsed, n: nat, m: nat)
    requires
        n <= usize::MAX,
        m <= usize::MAX,
    ensures
        plain_line("da = da.isel("@ + (keyword("time="@, n) + ", "@ + keyword("level="@, m)) + ")"@),
        read_line(v, "da = da.isel("@ + (keyword("time="@, n) + ", "@ + keyword("level="@, m)) + ")"@) == (
        Parsed { time_index: Some(n as usize), level_index: Some(m as usize), ..v }),
{
    reveal(read_line);
    reveal_strlit("da = da.isel(");
    reveal_strlit("da = da.isel(time=");
    reveal_strlit(", level=");
    reveal_strlit("time=");
    reveal_strlit("level=");
    reveal_strlit(", ");
    reveal_strlit(")");
    let tt = decimal(n);
    let ll = decimal(m);
    lemma_decimal_reads_back(n);
    lemma_decimal_reads_back(m);
    let x = keyword("time="@, n);
    let y = keyword("level="@, m);
    let a = x + ", "@ + y;
    let t = "da = da.isel("@ + a + ")"@;
    assert(t =~= "da = da.isel(time="@ + tt + ", level="@ + ll + ")"@);
    lemma_isel_both_rest(tt, ll);
    lemma_keyword("time="@, n);
    lemma_keyword("level="@, m);
    lemma_lacks_concat(x, ", "@, '(');
    lemma_lacks_concat(x + ", "@, y, '(');
    lemma_lacks_concat(x, ", "@, ')');
    lemma_lacks_concat(x + ", "@, y, ')');
    lemma_isel_enclosed(t, a, "da = da.isel("@);
    lemma_isel_both_args(v, n, m);
    assert(parse_isel(v, t) == isel_args(v, split_char(a, ',')));
}

/// `0` is a number `f32::from_str` accepts.
proof fn lemma_zero_is_float()
    ensures
        is_float_text("0"@),
{
    reveal_strlit("0");
    let z = "0"@;
    assert(crate::text::ascii_lower(z) =~= z);
    assert(lacks(z, 'e'));
    lemma_lacks_char(z, seq!['e'], 0);
    assert(z[0] == '0' && seq!['.'][0] == '.');
    assert(z != seq!['.']);
    assert(crate::numeric::is_digit(z[0]));
    assert(crate::numeric::at_most_one_point(z));
    assert(crate::numeric::is_mantissa(z));
    assert(crate::numeric::is_number(z));
}

/// The axes of the globe view: an orthographic projection seen from (0, 0).
proof fn lemma_globe_axes_line(v: Parsed)
    ensures
        plain_line("ax = fig.add_subplot(111, projection=ccrs.Orthographic(0, 0))"@),
        read_line(v, "ax = fig.add_subplot(111, projection=ccrs.Orthographic(0, 0))"@) == (Parsed {
            view_mode: Some("Globe"@),
            projection: Some("Orthographic"@),
            camera_lon: Some("0"@),
            camera_lat: Some("0"@),
            ..v
        }),
{
    reveal(read_line);
    let t = "ax = fig.add_subplot(111, projection=ccrs.Orthographic(0, 0))"@;
    let p = "ccrs.Orthographic("@;
    reveal_strlit("ax = fig.add_subplot(111, projection=ccrs.Orthographic(0, 0))");
    reveal_strlit("ax = fig.add_subplot(111, projection=ccrs.Orthographic");
    reveal_strlit("ccrs.Orthographic(");
    reveal_strlit("0");
    reveal_strlit(" 0");
    lemma_globe_axes_rest();
    lemma_globe_axes_prefix();
    assert(t.take(54) =~= "ax = fig.add_subplot(111, projection=ccrs.Orthographic"@);
    assert(t.subrange(37, 55) =~= p);
    lemma_find_first(t, p, 37);
    let rest = t.skip(55);
    assert(rest =~= seq!['0', ',', ' ', '0', ')', ')']);
    lemma_char_index_unique(rest, ')', 4);
    let inner = rest.take(4);
    assert(inner =~= seq!['0', ',', ' ', '0']);
    lemma_char_index_unique(inner, ',', 1);
    assert(inner.take(1) =~= "0"@);
    assert(inner.skip(2) =~= " 0"@);
    assert(lacks(" 0"@, ','));
    lemma_no_comma_split(" 0"@);
    let parts = split_char(inner, ',');
    assert(parts =~= seq!["0"@, " 0"@]);
    lemma_trim_plain("0"@);
    assert((" 0"@).drop_first() =~= "0"@);
    assert(trim_start(" 0"@) == trim_start("0"@));
    assert(trim(" 0"@) == "0"@);
    lemma_zero_is_float();
    assert(parse_orthographic(v, t) == (Parsed {
        view_mode: Some("Globe"@),
        projection: Some("Orthographic"@),
        camera_lon: Some("0"@),
        camera_lat: Some("0"@),
        ..v
    }));
}

/// The name of a projection's cartopy class.
pub open spec fn cartopy_name(p: MapProjection) -> Seq<char> {
    match p {
        MapProjection::Equirectangular => "PlateCarree"@,
        MapProjection::Mollweide => "Mollweide"@,
        MapProjection::PolarNorth => "NorthPolarStereo"@,
        MapProjection::PolarSouth => "SouthPolarStereo"@,
    }
}

/// The axes of the map view, in the projection `p`.
proof fn lemma_map_axes_line(v: Parsed, p: MapProjection)
    ensures
        plain_line("ax = fig.add_subplot(111, projection="@ + cartopy_call(p) + ")"@),
        read_line(v, "ax = fig.add_subplot(111, projection="@ + cartopy_call(p) + ")"@) == (Parsed {
            view_mode: Some("Map"@),
            projection: Some(cartopy_name(p)),
            ..v
        }),
{
    reveal(read_line);
    reveal_strlit("ax = fig.add_subplot(111, projection=");
    reveal_strlit(")");
    reveal_strlit("projection=");
    let t = "ax = fig.add_subplot(111, projection="@ + cartopy_call(p) + ")"@;
    assert(t.subrange(26, 37) =~= "projection="@);
    lemma_occurs_contains(t, "projection="@, 26);
    match p {
        MapProjection::Equirectangular => {
            reveal_strlit("ccrs.PlateCarree()");
            reveal_strlit("ax = fig.add_subplot(111, projection=ccrs.PlateCarree())");
            assert(t =~= "ax = fig.add_subplot(111, projection=ccrs.PlateCarree())"@);
            lemma_map_axes_0_rest();
            assert(t.subrange(37, 55) =~= "ccrs.PlateCarree()"@);
            lemma_occurs_contains(t, "ccrs.PlateCarree()"@, 37);
        },
        MapProjection::Mollweide => {
            reveal_strlit("ccrs.Mollweide()");
            reveal_strlit("ax = fig.add_subplot(111, projection=ccrs.Mollweide())");
            assert(t =~= "ax = fig.add_subplot(111, projection=ccrs.Mollweide())"@);
            lemma_map_axes_1_rest();
            assert(t.subrange(37, 53) =~= "ccrs.Mollweide()"@);
            lemma_occurs_contains(t, "ccrs.Mollweide()"@, 37);
        },
        MapProjection::PolarNorth => {
            reveal_strlit("ccrs.NorthPolarStereo()");
            reveal_strlit("ax = fig.add_subplot(111, projection=ccrs.NorthPolarStereo())");
            assert(t =~= "ax = fig.add_subplot(111, projection=ccrs.NorthPolarStereo())"@);
            lemma_map_axes_2_rest();
            assert(t.subrange(37, 60) =~= "ccrs.NorthPolarStereo()"@);
            lemma_occurs_contains(t, "ccrs.NorthPolarStereo()"@, 37);
        },
        MapProjection::PolarSouth => {
            reveal_strlit("ccrs.SouthPolarStereo()");
            reveal_strlit("ax = fig.add_subplot(111, projection=ccrs.SouthPolarStereo())");
            assert(t =~= "ax = fig.add_subplot(111, projection=ccrs.SouthPolarStereo())"@);
            lemma_map_axes_3_rest();
            assert(t.subrange(37, 60) =~= "ccrs.SouthPolarStereo()"@);
            lemma_occurs_contains(t, "ccrs.SouthPolarStereo()"@, 37);
        },
    }
}

/// Matplotlib's names of the colormaps are inert text.
proof fn lemma_matplotlib_name_inert(c: Colormap)
    ensures
        inert(matplotlib_name(c)),
        matplotlib_name(c).len() > 0,
{
    reveal_strlit("viridis");
    reveal_strlit("plasma");
    reveal_strlit("inferno");
    reveal_strlit("magma");
    reveal_strlit("cividis");
    reveal_strlit("turbo");
    reveal_strlit("RdBu_r");
    reveal_strlit("coolwarm");
    reveal_strlit("Spectral");
    reveal_strlit("BrBG");
}

/// The text read as a number after `=`, when an inert number text `x` is
/// followed by `tail`, which starts with `,` or `)`.
proof fn lemma_number_text(x: Seq<char>, tail: Seq<char>)
    requires
        number_text(x),
        is_float_text(x),
        tail.len() > 0,
        tail[0] == ',' || tail[0] == ')',
    ensures
        float_text((x + tail).take(value_len(x + tail))) == Some(x),
{
    let r = x + tail;
    assert forall|j: int| 0 <= j < x.len() implies !ends_value(#[trigger] r[j]) by {
        assert(r[j] == x[j]);
    }
    assert(r[x.len() as int] == tail[0]);
    lemma_value_len(r, x.len() as int);
    assert(r.take(x.len() as int) =~= x);
}

/// The colour-mapped plot of the globe and map views, with the manual
/// range bounds `lo` and `hi` when `ranged`.
#[verifier::spinoff_prover]
proof fn lemma_pcolormesh_flat(v: Parsed, cm: Seq<char>, ranged: bool, lo: Seq<char>, hi: Seq<char>)
    requires
        inert(cm),
        ranged ==> number_text(lo) && number_text(hi),
    ensures
        ({
            let t = if ranged {
                "da.plot.pcolormesh(ax=ax, cmap=\""@ + cm + "\", transform=ccrs.PlateCarree(), vmin="@ + lo
                    + ", vmax="@ + hi + ")"@
            } else {
                "da.plot.pcolormesh(ax=ax, cmap=\""@ + cm + "\", transform=ccrs.PlateCarree())"@
            };
            &&& plain_line(t)
            &&& read_line(v, t) == (Parsed {
                colormap: Some(cm),
                vmin: if ranged { Some(lo) } else { v.vmin },
                vmax: if ranged { Some(hi) } else { v.vmax },
                ..v
            })
        }),
{
    reveal(read_line);
    reveal_strlit("da.plot.pcolormesh(ax=ax, cmap=\"");
    reveal_strlit("da.plot.pcolormesh(ax=ax, cmap=");
    reveal_strlit("cmap=\"");
    reveal_strlit("vmin=");
    reveal_strlit("vmax=");
    reveal_strlit("\", transform=ccrs.PlateCarree())");
    reveal_strlit("\", transform=ccrs.PlateCarree(), vmin=");
    reveal_strlit("\", transform=ccrs.PlateCarree(), vmin");
    reveal_strlit(", vmax=");
    reveal_strlit(", vmax");
    reveal_strlit(")");
    let a = "da.plot.pcolormesh(ax=ax, cmap=\""@;
    let t = if ranged {
        a + cm + "\", transform=ccrs.PlateCarree(), vmin="@ + lo + ", vmax="@ + hi + ")"@
    } else {
        a + cm + "\", transform=ccrs.PlateCarree())"@
    };
    if ranged {
        lemma_pcolormesh_range_rest(cm, lo, hi);
    } else {
        lemma_pcolormesh_rest(cm);
    }
    // cmap="
    lemma_cmap_prefix();
    assert(a.len() == 32);
    assert forall|i: int| 0 <= i < 32 implies t[i] == a[i] by {}
    assert(t.take(31) =~= a.take(31));
    assert(a.take(31) =~= "da.plot.pcolormesh(ax=ax, cmap="@);
    assert(t.subrange(26, 32) =~= "cmap=\""@);
    lemma_find_first(t, "cmap=\""@, 26);
    let rest = t.skip(32);
    assert(rest.take(cm.len() as int) =~= cm);
    assert(rest[cm.len() as int] == '"');
    assert forall|j: int| 0 <= j < cm.len() implies rest[j] != '"' by {
        assert(rest[j] == cm[j]);
    }
    lemma_char_index_unique(rest, '"', cm.len() as int);
    assert(enclosed_after(t, "cmap=\""@, '"') == Some(cm));
    if ranged {
        let b = "\", transform=ccrs.PlateCarree(), vmin="@;
        let j: int = 32 + cm.len() as int + 33;
        lemma_vmin_prefix(cm);
        assert(t.take(j + 4) =~= a + cm + "\", transform=ccrs.PlateCarree(), vmin"@);
        assert(t.subrange(j, j + 5) =~= "vmin="@);
        lemma_find_first(t, "vmin="@, j);
        assert(t.skip(j + 5) =~= lo + (", vmax="@ + hi + ")"@));
        lemma_number_text(lo, ", vmax="@ + hi + ")"@);
        assert(number_after(t, "vmin="@) == Some(lo));
        let k: int = j + 5 + lo.len() + 2;
        lemma_vmax_prefix(cm, lo);
        assert(t.take(k + 4) =~= a + cm + b + lo + ", vmax"@);
        assert(t.subrange(k, k + 5) =~= "vmax="@);
        lemma_find_first(t, "vmax="@, k);
        assert(t.skip(k + 5) =~= hi + ")"@);
        lemma_number_text(hi, ")"@);
        assert(number_after(t, "vmax="@) == Some(hi));
    }
}

/// The plot of the other views, in the colormap `cm`.
proof fn lemma_plot_line(v: Parsed, cm: Seq<char>)
    requires
        inert(cm),
    ensures
        plain_line("da.plot(ax=ax, cmap=\""@ + cm + "\")"@),
        read_line(v, "da.plot(ax=ax, cmap=\""@ + cm + "\")"@) == (Parsed { colormap: Some(cm), ..v }),
{
    reveal(read_line);
    reveal_strlit("da.plot(ax=ax, cmap=\"");
    reveal_strlit("da.plot(ax=ax, cmap=");
    reveal_strlit("cmap=\"");
    reveal_strlit("\")");
    let a = "da.plot(ax=ax, cmap=\""@;
    let t = a + cm + "\")"@;
    lemma_plot_rest(cm);
    lemma_plot_cmap_prefix();
    assert(t.take(20) =~= "da.plot(ax=ax, cmap="@);
    assert(t.subrange(15, 21) =~= "cmap=\""@);
    lemma_find_first(t, "cmap=\""@, 15);
    let rest = t.skip(21);
    assert(rest =~= cm + "\")"@);
    assert forall|j: int| 0 <= j < cm.len() implies rest[j] != '"' by {
        assert(rest[j] == cm[j]);
    }
    lemma_char_index_unique(rest, '"', cm.len() as int);
    assert(rest.take(cm.len() as int) =~= cm);
}

/// The contour overlay, drawn with `n` levels.
proof fn lemma_contour_line(v: Parsed, n: nat)
    requires
        n <= usize::MAX,
    ensures
        plain_line(
            "da.plot.contour(ax=ax, levels="@ + decimal(n)
                + ", colors=\"k\", linewidths=0.5, transform=ccrs.PlateCarree())"@,
        ),
        read_line(
            v,
            "da.plot.contour(ax=ax, levels="@ + decimal(n)
                + ", colors=\"k\", linewidths=0.5, transform=ccrs.PlateCarree())"@,
        ) == (Parsed { contour_enabled: Some(true), ..v }),
{
    reveal(read_line);
    reveal_strlit("da.plot.contour(ax=ax, levels=");
    reveal_strlit(".contour(");
    let t = "da.plot.contour(ax=ax, levels="@ + decimal(n)
        + ", colors=\"k\", linewidths=0.5, transform=ccrs.PlateCarree())"@;
    lemma_decimal_reads_back(n);
    lemma_contour_rest(decimal(n));
    assert(t.subrange(7, 16) =~= ".contour("@);
    lemma_occurs_contains(t, ".contour("@, 7);
}

/// Every line is a plain line.
pub open spec fn all_plain(ls: Seq<Seq<char>>) -> bool {
    forall|i: int| 0 <= i < ls.len() ==> plain_line(#[trigger] ls[i])
}

proof fn lemma_all_plain_concat(a: Seq<Seq<char>>, b: Seq<Seq<char>>)
    requires
        all_plain(a),
        all_plain(b),
    ensures
        all_plain(a + b),
{
    assert forall|i: int| 0 <= i < (a + b).len() implies plain_line(#[trigger] (a + b)[i]) by {
        if i < a.len() {
            assert((a + b)[i] == a[i]);
        } else {
            assert((a + b)[i] == b[i - a.len()]);
        }
    }
}

proof fn lemma_plain_single(ls: Seq<Seq<char>>)
    requires
        all_plain(ls),
    ensures
        single_lines(ls),
{
    assert forall|i: int| 0 <= i < ls.len() implies lacks(#[trigger] ls[i], '\n') && (ls[i].len() > 0
        ==> ls[i].last() != '\r') by {
        assert(plain_line(ls[i]));
    }
}

proof fn lemma_parse_one(v: Parsed, l: Seq<char>)
    requires
        plain_line(l),
    ensures
        parse_all(v, seq![l]) == read_line(v, l),
{
    assert(seq![l].drop_last() =~= Seq::<Seq<char>>::empty());
    assert(parse_all(v, Seq::<Seq<char>>::empty()) == v);
    assert(seq![l].last() == l);
    lemma_trim_plain(l);
}

/// The empty line.
proof fn lemma_empty_line()
    ensures
        plain_line(""@),
        silent(""@),
{
    reveal_strlit("");
    reveal_strlit("ds[\"");
    reveal_strlit(".isel(");
    reveal_strlit("cmap=\"");
    reveal_strlit("vmin=");
    reveal_strlit("vmax=");
    reveal_strlit("ccrs.Orthographic(");
    reveal_strlit("projection=");
    reveal_strlit(".contour(");
    reveal_strlit(".contour ");
    reveal_strlit(".quiver(");
    reveal_strlit(".quiver ");
    reveal_strlit(".streamplot(");
    reveal_strlit(".streamplot ");
    let e = ""@;
    assert(lacks(e, '['));
    lemma_lacks_char(e, "ds[\""@, 2);
    lemma_lacks_char(e, ".isel("@, 0);
    lemma_lacks_char(e, "cmap=\""@, 0);
    lemma_lacks_char(e, "vmin="@, 0);
    lemma_lacks_char(e, "vmax="@, 0);
    lemma_lacks_char(e, "ccrs.Orthographic("@, 0);
    lemma_lacks_char(e, "projection="@, 0);
    lemma_lacks_char(e, ".contour("@, 0);
    lemma_lacks_char(e, ".contour "@, 0);
    lemma_lacks_char(e, ".quiver("@, 0);
    lemma_lacks_char(e, ".quiver "@, 0);
    lemma_lacks_char(e, ".streamplot("@, 0);
    lemma_lacks_char(e, ".streamplot "@, 0);
}

/// A section made of lines that set nothing.
proof fn lemma_quiet_section(v: Parsed, ls: Seq<Seq<char>>)
    requires
        forall|i: int| 0 <= i < ls.len() ==> silent(#[trigger] ls[i]) && plain_line(ls[i]),
    ensures
        parse_all(v, ls) == v,
        all_plain(ls),
{
    lemma_silent_all(v, ls);
}

proof fn lemma_header_section(v: Parsed, ui: UiState)
    ensures
        parse_all(v, header_lines(ui)) == v,
        all_plain(header_lines(ui)),
{
    lemma_fixed_line_0();
    lemma_fixed_line_1();
    lemma_fixed_line_2();
    lemma_empty_line();
    let ls = header_lines(ui);
    assert forall|i: int| 0 <= i < ls.len() implies silent(#[trigger] ls[i]) && plain_line(ls[i]) by {
        if is_geo(ui.view_mode) {
            assert(ls =~= seq!["import xarray as xr"@, "import matplotlib.pyplot as plt"@, "import cartopy.crs as ccrs"@, ""@]);
        } else {
            assert(ls =~= seq!["import xarray as xr"@, "import matplotlib.pyplot as plt"@, ""@]);
        }
    }
    lemma_quiet_section(v, ls);
}

proof fn lemma_footer_section(v: Parsed, ds: DataStore)
    requires
        quotable(script_var(ds)),
    ensures
        parse_all(v, footer_lines(ds)) == v,
        all_plain(footer_lines(ds)),
{
    lemma_empty_line();
    lemma_title_line(script_var(ds));
    lemma_fixed_line_18();
    lemma_fixed_line_19();
    let ls = footer_lines(ds);
    assert forall|i: int| 0 <= i < ls.len() implies silent(#[trigger] ls[i]) && plain_line(ls[i]) by {}
    lemma_quiet_section(v, ls);
}

proof fn lemma_join_push(ls: Seq<Seq<char>>, x: Seq<char>, sep: Seq<char>)
    requires
        ls.len() > 0,
    ensures
        join(ls.push(x), sep) == join(ls, sep) + sep + x,
{
    assert(ls.push(x).drop_last() =~= ls);
}

/// What the data section sets: the variable and the indices of the
/// dimensions the variable has.
pub open spec fn data_effect(v: Parsed, ds: DataStore, ui: UiState) -> Parsed {
    Parsed {
        variable_name: Some(script_var(ds)),
        time_index: if has_time(ds) {
            Some(ui.time_index)
        } else {
            v.time_index
        },
        level_index: if has_level(ds) {
            Some(ui.level_index)
        } else {
            v.level_index
        },
        ..v
    }
}

#[verifier::spinoff_prover]
proof fn lemma_data_section(v: Parsed, ds: DataStore, ui: UiState)
    requires
        quotable(script_path(ds)),
        quotable(script_var(ds)),
    ensures
        parse_all(v, data_lines(ds, ui)) == data_effect(v, ds, ui),
        all_plain(data_lines(ds, ui)),
{
    reveal_strlit("time=");
    reveal_strlit("level=");
    reveal_strlit(", ");
    let ht = has_time(ds);
    let hl = has_level(ds);
    let parts = isel_parts(ht, hl, ui);
    let pl = "ds = xr.open_dataset(\""@ + script_path(ds) + "\")"@;
    let vl = "da = ds[\""@ + script_var(ds) + "\"]"@;
    let tn = ui.time_index as nat;
    let ln = ui.level_index as nat;
    lemma_path_line(script_path(ds));
    lemma_var_line(v, script_var(ds));
    lemma_empty_line();
    let mid = if parts.len() > 0 {
        seq!["da = da.isel("@ + join(parts, ", "@) + ")"@]
    } else {
        seq![]
    };
    let ls = data_lines(ds, ui);
    assert(ls =~= seq![pl] + seq![vl] + mid + seq![""@]);
    lemma_parse_one(v, pl);
    lemma_silent(v, pl);
    let v1 = Parsed { variable_name: Some(script_var(ds)), ..v };
    lemma_parse_one(v, vl);
    lemma_parse_all_concat(v, seq![pl], seq![vl]);
    assert(parse_all(v, seq![pl] + seq![vl]) == v1);
    let v2 = data_effect(v, ds, ui);
    if ht && hl {
        assert(parts =~= seq![keyword("time="@, tn), keyword("level="@, ln)]);
        lemma_join_push(seq![keyword("time="@, tn)], keyword("level="@, ln), ", "@);
        assert(seq![keyword("time="@, tn)].push(keyword("level="@, ln)) =~= parts);
        lemma_isel_both_line(v1, tn, ln);
        let il = "da = da.isel("@ + (keyword("time="@, tn) + ", "@ + keyword("level="@, ln)) + ")"@;
        assert(mid =~= seq![il]);
        lemma_parse_one(v1, il);
    } else if ht {
        assert(parts =~= seq![keyword("time="@, tn)]);
        lemma_isel_time_line(v1, tn);
        let il = "da = da.isel("@ + keyword("time="@, tn) + ")"@;
        assert(mid =~= seq![il]);
        lemma_parse_one(v1, il);
    } else if hl {
        assert(parts =~= seq![keyword("level="@, ln)]);
        lemma_isel_level_line(v1, ln);
        let il = "da = da.isel("@ + keyword("level="@, ln) + ")"@;
        assert(mid =~= seq![il]);
        lemma_parse_one(v1, il);
    } else {
        assert(parts =~= Seq::<Seq<char>>::empty());
        assert(mid =~= Seq::<Seq<char>>::empty());
    }
    assert(parse_all(v1, mid) == v2);
    lemma_parse_all_concat(v, seq![pl] + seq![vl], mid);
    lemma_parse_one(v2, ""@);
    lemma_silent(v2, ""@);
    lemma_parse_all_concat(v, seq![pl] + seq![vl] + mid, seq![""@]);
    assert(all_plain(ls)) by {
        assert forall|i: int| 0 <= i < ls.len() implies plain_line(#[trigger] ls[i]) by {
            if i >= 2 && i < ls.len() - 1 {
                assert(ls[i] == mid[i - 2]);
            }
        }
    }
}

/// The colour-mapped plot line written for the globe and map views.
#[verifier::spinoff_prover]
proof fn lemma_pcolormesh_line(v: Parsed, ui: UiState, min: Seq<char>, max: Seq<char>)
    requires
        ui.range_mode == RangeMode::Manual ==> number_text(min) && number_text(max),
    ensures
        plain_line(pcolormesh_line(ui, min, max)),
        read_line(v, pcolormesh_line(ui, min, max)) == (Parsed {
            colormap: Some(matplotlib_name(ui.colormap)),
            vmin: if ui.range_mode == RangeMode::Manual { Some(min) } else { v.vmin },
            vmax: if ui.range_mode == RangeMode::Manual { Some(max) } else { v.vmax },
            ..v
        }),
{
    reveal(read_line);
    reveal_strlit("ax=ax");
    reveal_strlit("cmap=\"");
    reveal_strlit("\"");
    reveal_strlit("transform=ccrs.PlateCarree()");
    reveal_strlit("vmin=");
    reveal_strlit("vmax=");
    reveal_strlit(", ");
    reveal_strlit("da.plot.pcolormesh(");
    reveal_strlit(")");
    reveal_strlit("da.plot.pcolormesh(ax=ax, cmap=\"");
    reveal_strlit("\", transform=ccrs.PlateCarree())");
    reveal_strlit("\", transform=ccrs.PlateCarree(), vmin=");
    reveal_strlit(", vmax=");
    let cm = matplotlib_name(ui.colormap);
    lemma_matplotlib_name_inert(ui.colormap);
    let sep = ", "@;
    let k0 = "ax=ax"@;
    let k1 = "cmap=\""@ + cm + "\""@;
    let k2 = "transform=ccrs.PlateCarree()"@;
    let three = seq![k0, k1, k2];
    lemma_join_push(seq![k0], k1, sep);
    assert(seq![k0].push(k1) =~= seq![k0, k1]);
    lemma_join_push(seq![k0, k1], k2, sep);
    assert(seq![k0, k1].push(k2) =~= three);
    let ranged = ui.range_mode == RangeMode::Manual;
    if ranged {
        let k3 = "vmin="@ + min;
        let k4 = "vmax="@ + max;
        lemma_join_push(three, k3, sep);
        assert(three.push(k3) =~= seq![k0, k1, k2, k3]);
        lemma_join_push(seq![k0, k1, k2, k3], k4, sep);
        assert(seq![k0, k1, k2, k3].push(k4) =~= three + seq![k3, k4]);
        assert(pcolormesh_line(ui, min, max) =~= "da.plot.pcolormesh(ax=ax, cmap=\""@ + cm
            + "\", transform=ccrs.PlateCarree(), vmin="@ + min + ", vmax="@ + max + ")"@);
    } else {
        assert(three + Seq::<Seq<char>>::empty() =~= three);
        assert(pcolormesh_line(ui, min, max) =~= "da.plot.pcolormesh(ax=ax, cmap=\""@ + cm
            + "\", transform=ccrs.PlateCarree())"@);
    }
    lemma_pcolormesh_flat(v, cm, ranged, min, max);
}

proof fn lemma_parse_all_push(v: Parsed, ls: Seq<Seq<char>>, l: Seq<char>)
    requires
        plain_line(l),
    ensures
        parse_all(v, ls.push(l)) == read_line(parse_all(v, ls), l),
{
    assert(ls.push(l).drop_last() =~= ls);
    lemma_trim_plain(l);
}

/// What the figure section sets: the view, its projection and camera, the
/// colormap, and the manual range of the geographic views.
pub open spec fn figure_effect(v: Parsed, ui: UiState, min: Seq<char>, max: Seq<char>) -> Parsed {
    let cm = matplotlib_name(ui.colormap);
    let ranged = ui.range_mode == RangeMode::Manual;
    let lo = if ranged { Some(min) } else { v.vmin };
    let hi = if ranged { Some(max) } else { v.vmax };
    match ui.view_mode {
        ViewMode::Globe => Parsed {
            view_mode: Some("Globe"@),
            projection: Some("Orthographic"@),
            camera_lon: Some("0"@),
            camera_lat: Some("0"@),
            colormap: Some(cm),
            vmin: lo,
            vmax: hi,
            ..v
        },
        ViewMode::MapView => Parsed {
            view_mode: Some("Map"@),
            projection: Some(cartopy_name(ui.map_projection)),
            colormap: Some(cm),
            vmin: lo,
            vmax: hi,
            ..v
        },
        _ => Parsed { colormap: Some(cm), ..v },
    }
}

#[verifier::spinoff_prover]
proof fn lemma_globe_figure(v: Parsed, ui: UiState, min: Seq<char>, max: Seq<char>)
    requires
        ui.view_mode == ViewMode::Globe,
        ui.range_mode == RangeMode::Manual ==> number_text(min) && number_text(max),
    ensures
        parse_all(v, figure_lines(ui, min, max)) == figure_effect(v, ui, min, max),
        all_plain(figure_lines(ui, min, max)),
{
    let l0 = "# Globe (Orthographic projection)"@;
    let l1 = "fig = plt.figure(figsize=(8, 8))"@;
    let l2 = "ax = fig.add_subplot(111, projection=ccrs.Orthographic(0, 0))"@;
    let l3 = "ax.set_global()"@;
    let l4 = pcolormesh_line(ui, min, max);
    let l5 = "ax.coastlines()"@;
    lemma_fixed_line_3();
    lemma_fixed_line_4();
    lemma_fixed_line_5();
    lemma_fixed_line_6();
    let e = Seq::<Seq<char>>::empty();
    lemma_parse_all_push(v, e, l0);
    lemma_silent(v, l0);
    lemma_parse_all_push(v, e.push(l0), l1);
    lemma_silent(v, l1);
    lemma_globe_axes_line(v);
    lemma_parse_all_push(v, e.push(l0).push(l1), l2);
    let v2 = Parsed {
        view_mode: Some("Globe"@),
        projection: Some("Orthographic"@),
        camera_lon: Some("0"@),
        camera_lat: Some("0"@),
        ..v
    };
    lemma_parse_all_push(v, e.push(l0).push(l1).push(l2), l3);
    lemma_silent(v2, l3);
    lemma_pcolormesh_line(v2, ui, min, max);
    lemma_parse_all_push(v, e.push(l0).push(l1).push(l2).push(l3), l4);
    let v4 = figure_effect(v, ui, min, max);
    lemma_parse_all_push(v, e.push(l0).push(l1).push(l2).push(l3).push(l4), l5);
    lemma_silent(v4, l5);
    let ls = figure_lines(ui, min, max);
    assert(ls =~= e.push(l0).push(l1).push(l2).push(l3).push(l4).push(l5));
}

#[verifier::spinoff_prover]
proof fn lemma_map_figure(v: Parsed, ui: UiState, min: Seq<char>, max: Seq<char>)
    requires
        ui.view_mode == ViewMode::MapView,
        ui.range_mode == RangeMode::Manual ==> number_text(min) && number_text(max),
    ensures
        parse_all(v, figure_lines(ui, min, max)) == figure_effect(v, ui, min, max),
        all_plain(figure_lines(ui, min, max)),
{
    reveal_strlit("# Map (");
    reveal_strlit(" projection)");
    reveal_strlit("Equirectangular (PlateCarree)");
    reveal_strlit("Mollweide");
    reveal_strlit("North Polar Stereographic");
    reveal_strlit("South Polar Stereographic");
    reveal_strlit("# Map (Equirectangular (PlateCarree) projection)");
    reveal_strlit("# Map (Mollweide projection)");
    reveal_strlit("# Map (North Polar Stereographic projection)");
    reveal_strlit("# Map (South Polar Stereographic projection)");
    let l0 = "# Map ("@ + projection_title(ui.map_projection) + " projection)"@;
    let l1 = "fig = plt.figure(figsize=(12, 6))"@;
    let l2 = "ax = fig.add_subplot(111, projection="@ + cartopy_call(ui.map_projection) + ")"@;
    let l3 = "ax.set_global()"@;
    let l4 = pcolormesh_line(ui, min, max);
    let l5 = "ax.coastlines()"@;
    match ui.map_projection {
        MapProjection::Equirectangular => {
            assert(l0 =~= "# Map (Equirectangular (PlateCarree) projection)"@);
            lemma_fixed_line_7();
        },
        MapProjection::Mollweide => {
            assert(l0 =~= "# Map (Mollweide projection)"@);
            lemma_fixed_line_8();
        },
        MapProjection::PolarNorth => {
            assert(l0 =~= "# Map (North Polar Stereographic projection)"@);
            lemma_fixed_line_9();
        },
        MapProjection::PolarSouth => {
            assert(l0 =~= "# Map (South Polar Stereographic projection)"@);
            lemma_fixed_line_10();
        },
    }
    assert(silent(l0) && plain_line(l0));
    lemma_fixed_line_11();
    lemma_fixed_line_5();
    lemma_fixed_line_6();
    let e = Seq::<Seq<char>>::empty();
    lemma_parse_all_push(v, e, l0);
    lemma_silent(v, l0);
    lemma_parse_all_push(v, e.push(l0), l1);
    lemma_silent(v, l1);
    lemma_map_axes_line(v, ui.map_projection);
    lemma_parse_all_push(v, e.push(l0).push(l1), l2);
    let v2 = Parsed { view_mode: Some("Map"@), projection: Some(cartopy_name(ui.map_projection)), ..v };
    lemma_parse_all_push(v, e.push(l0).push(l1).push(l2), l3);
    lemma_silent(v2, l3);
    lemma_pcolormesh_line(v2, ui, min, max);
    lemma_parse_all_push(v, e.push(l0).push(l1).push(l2).push(l3), l4);
    let v4 = figure_effect(v, ui, min, max);
    lemma_parse_all_push(v, e.push(l0).push(l1).push(l2).push(l3).push(l4), l5);
    lemma_silent(v4, l5);
    let ls = figure_lines(ui, min, max);
    assert(ls =~= e.push(l0).push(l1).push(l2).push(l3).push(l4).push(l5));
}

#[verifier::spinoff_prover]
proof fn lemma_plain_figure(v: Parsed, ui: UiState, min: Seq<char>, max: Seq<char>)
    requires
        !is_geo(ui.view_mode),
    ensures
        parse_all(v, figure_lines(ui, min, max)) == figure_effect(v, ui, min, max),
        all_plain(figure_lines(ui, min, max)),
{
    let cm = matplotlib_name(ui.colormap);
    lemma_matplotlib_name_inert(ui.colormap);
    let pl = "da.plot(ax=ax, cmap=\""@ + cm + "\")"@;
    lemma_plot_line(v, cm);
    let e = Seq::<Seq<char>>::empty();
    let ls = figure_lines(ui, min, max);
    if ui.view_mode == ViewMode::Hovmoller {
        let l0 = "# Hovmoller diagram"@;
        let l1 = "fig, ax = plt.subplots(figsize=(12, 6))"@;
        let l3 = "ax.set_xlabel(\"Longitude\")"@;
        let l4 = "ax.set_ylabel(\"Time\")"@;
        lemma_fixed_line_12();
        lemma_fixed_line_13();
        lemma_fixed_line_14();
        lemma_fixed_line_15();
        lemma_parse_all_push(v, e, l0);
        lemma_silent(v, l0);
        lemma_parse_all_push(v, e.push(l0), l1);
        lemma_silent(v, l1);
        lemma_parse_all_push(v, e.push(l0).push(l1), pl);
        let v2 = Parsed { colormap: Some(cm), ..v };
        lemma_parse_all_push(v, e.push(l0).push(l1).push(pl), l3);
        lemma_silent(v2, l3);
        lemma_parse_all_push(v, e.push(l0).push(l1).push(pl).push(l3), l4);
        lemma_silent(v2, l4);
        assert(ls =~= e.push(l0).push(l1).push(pl).push(l3).push(l4));
    } else {
        let l0 = "fig, ax = plt.subplots(figsize=(10, 6))"@;
        lemma_fixed_line_16();
        lemma_parse_all_push(v, e, l0);
        lemma_silent(v, l0);
        lemma_parse_all_push(v, e.push(l0), pl);
        assert(ls =~= e.push(l0).push(pl));
    }
}

proof fn lemma_contour_section(v: Parsed, ui: UiState)
    ensures
        parse_all(v, contour_lines(ui)) == (if ui.contour_enabled && is_geo(ui.view_mode) {
            Parsed { contour_enabled: Some(true), ..v }
        } else {
            v
        }),
        all_plain(contour_lines(ui)),
{
    let ls = contour_lines(ui);
    if ui.contour_enabled && is_geo(ui.view_mode) {
        reveal_strlit("da.plot.contour(ax=ax, levels=");
        reveal_strlit(", colors=\"k\", linewidths=0.5, transform=ccrs.PlateCarree())");
        let l2 = "da.plot.contour(ax=ax, levels="@ + decimal(ui.contour_levels as nat)
            + ", colors=\"k\", linewidths=0.5, transform=ccrs.PlateCarree())"@;
        lemma_empty_line();
        lemma_fixed_line_17();
        lemma_contour_line(v, ui.contour_levels as nat);
        let e = Seq::<Seq<char>>::empty();
        lemma_parse_all_push(v, e, ""@);
        lemma_silent(v, ""@);
        lemma_parse_all_push(v, e.push(""@), "# Contour overlay"@);
        lemma_silent(v, "# Contour overlay"@);
        lemma_parse_all_push(v, e.push(""@).push("# Contour overlay"@), l2);
        assert(ls =~= e.push(""@).push("# Contour overlay"@).push(l2));
    } else {
        assert(ls =~= Seq::<Seq<char>>::empty());
    }
}

/// A vector overlay is drawn: it is on, the view is geographic and a file is open.
pub open spec fn vector_drawn(ds: DataStore, ui: UiState) -> bool {
    ui.vector_overlay_enabled && is_geo(ui.view_mode) && active_open_file(ds) is Some
}

/// The names the script loads the eastward and northward components by.
pub open spec fn u_name(ds: DataStore, ui: UiState) -> Seq<char> {
    var_name_at(active_open_file(ds)->0, ui.vector_u_var, "u"@)
}

pub open spec fn v_name(ds: DataStore, ui: UiState) -> Seq<char> {
    var_name_at(active_open_file(ds)->0, ui.vector_v_var, "v"@)
}

/// What the vector section sets: the loaded components (the last loaded one
/// named), their selections and the arrows.
pub open spec fn vector_effect(v: Parsed, ds: DataStore, ui: UiState) -> Parsed {
    if vector_drawn(ds, ui) {
        Parsed {
            variable_name: Some(v_name(ds, ui)),
            time_index: if has_time(ds) {
                Some(ui.time_index)
            } else {
                v.time_index
            },
            level_index: if has_level(ds) {
                Some(ui.level_index)
            } else {
                v.level_index
            },
            vector_enabled: Some(true),
            ..v
        }
    } else {
        v
    }
}

#[verifier::spinoff_prover]
proof fn lemma_vector_section(v: Parsed, ds: DataStore, ui: UiState)
    requires
        vector_drawn(ds, ui) ==> quotable(u_name(ds, ui)) && quotable(v_name(ds, ui)),
    ensures
        parse_all(v, vector_lines(ds, ui)) == vector_effect(v, ds, ui),
        all_plain(vector_lines(ds, ui)),
{
    let ls = vector_lines(ds, ui);
    if vector_drawn(ds, ui) {
        let f = active_open_file(ds)->0;
        let ht = has_time(ds);
        let hl = has_level(ds);
        let tn = ui.time_index as nat;
        let ln = ui.level_index as nat;
        let t = decimal(tn);
        let l = decimal(ln);
        let un = u_name(ds, ui);
        let vn = v_name(ds, ui);
        let k = decimal(quiver_skip(ui.vector_density));
        lemma_decimal_digits(quiver_skip(ui.vector_density));
        let l0 = ""@;
        let l1 = "# Vector overlay"@;
        let l2 = "u = ds[\""@ + un + "\"]"@;
        let l3 = "v = ds[\""@ + vn + "\"]"@;
        let ut = "u = u.isel(time="@ + t + ")"@;
        let vt = "v = v.isel(time="@ + t + ")"@;
        let ul = "u = u.isel(level="@ + l + ")"@;
        let vl = "v = v.isel(level="@ + l + ")"@;
        let q = crate::python::quiver_line(k);
        lemma_empty_line();
        lemma_fixed_line_20();
        lemma_u_var_line(v, un);
        let v1 = Parsed { variable_name: Some(un), ..v };
        lemma_v_var_line(v1, vn);
        let v2 = Parsed { variable_name: Some(vn), ..v };
        let e = Seq::<Seq<char>>::empty();
        let base = e.push(l0).push(l1).push(l2).push(l3);
        lemma_parse_all_push(v, e, l0);
        lemma_silent(v, l0);
        lemma_parse_all_push(v, e.push(l0), l1);
        lemma_silent(v, l1);
        lemma_parse_all_push(v, e.push(l0).push(l1), l2);
        lemma_parse_all_push(v, e.push(l0).push(l1).push(l2), l3);
        assert(parse_all(v, base) == v2);
        let mt = if ht { seq![ut, vt] } else { e };
        let v3 = if ht { Parsed { time_index: Some(ui.time_index), ..v2 } } else { v2 };
        if ht {
            lemma_u_isel_time_line(v2, tn);
            lemma_v_isel_time_line(v3, tn);
            lemma_parse_all_push(v2, e, ut);
            lemma_parse_all_push(v2, e.push(ut), vt);
            assert(e.push(ut).push(vt) =~= mt);
        }
        assert(parse_all(v2, mt) == v3);
        let ml = if hl { seq![ul, vl] } else { e };
        let v4 = if hl { Parsed { level_index: Some(ui.level_index), ..v3 } } else { v3 };
        if hl {
            lemma_u_isel_level_line(v3, ln);
            lemma_v_isel_level_line(v4, ln);
            lemma_parse_all_push(v3, e, ul);
            lemma_parse_all_push(v3, e.push(ul), vl);
            assert(e.push(ul).push(vl) =~= ml);
        }
        assert(parse_all(v3, ml) == v4);
        lemma_quiver_line(v4, k);
        lemma_parse_one(v4, q);
        assert(ls =~= base + mt + ml + seq![q]);
        lemma_parse_all_concat(v, base, mt);
        lemma_parse_all_concat(v, base + mt, ml);
        lemma_parse_all_concat(v, base + mt + ml, seq![q]);
        assert(vector_effect(v, ds, ui) == Parsed { vector_enabled: Some(true), ..v4 });
        assert(all_plain(ls)) by {
            if ht {
                lemma_u_isel_time_line(v2, tn);
                lemma_v_isel_time_line(v2, tn);
            }
            if hl {
                lemma_u_isel_level_line(v2, ln);
                lemma_v_isel_level_line(v2, ln);
            }
            assert forall|i: int| 0 <= i < ls.len() implies plain_line(#[trigger] ls[i]) by {
                assert(ls[i] == (base + mt + ml + seq![q])[i]);
            }
        }
    } else {
        assert(ls =~= Seq::<Seq<char>>::empty());
    }
}

/// The settings the parser reads back from the script generated for the
/// state `ui` of the store `ds`, with the range texts `min` and `max`.
pub open spec fn read_back(ui: UiState, ds: DataStore, min: Seq<char>, max: Seq<char>) -> Parsed {
    let geo = is_geo(ui.view_mode);
    let ranged = geo && ui.range_mode == RangeMode::Manual;
    let globe = ui.view_mode == ViewMode::Globe;
    let map = ui.view_mode == ViewMode::MapView;
    Parsed {
        variable_name: if vector_drawn(ds, ui) {
            Some(v_name(ds, ui))
        } else {
            Some(script_var(ds))
        },
        time_index: if has_time(ds) {
            Some(ui.time_index)
        } else {
            None
        },
        level_index: if has_level(ds) {
            Some(ui.level_index)
        } else {
            None
        },
        colormap: Some(matplotlib_name(ui.colormap)),
        vmin: if ranged {
            Some(min)
        } else {
            None
        },
        vmax: if ranged {
            Some(max)
        } else {
            None
        },
        view_mode: if globe {
            Some("Globe"@)
        } else if map {
            Some("Map"@)
        } else {
            None
        },
        projection: if globe {
            Some("Orthographic"@)
        } else if map {
            Some(cartopy_name(ui.map_projection))
        } else {
            None
        },
        camera_lon: if globe {
            Some("0"@)
        } else {
            None
        },
        camera_lat: if globe {
            Some("0"@)
        } else {
            None
        },
        contour_enabled: if ui.contour_enabled && geo {
            Some(true)
        } else {
            None
        },
        vector_enabled: if vector_drawn(ds, ui) {
            Some(true)
        } else {
            None
        },
        streamline_enabled: None,
    }
}

/// Reading back the script generated for a visualization gives its
/// settings: the variable (the northward component when a vector overlay is
/// drawn, since the script loads the components after it), the time and
/// level indices of the dimensions it has, the colormap, the view with its
/// projection, the manual range of a geographic view, its contours and its
/// vectors.  This holds when the path and the variable names are quotable text
/// and when the range texts of a geographic view in manual mode are numbers.
#[verifier::spinoff_prover]
pub proof fn lemma_generated_script_reads_back(ui: UiState, ds: DataStore, min: Seq<char>, max: Seq<char>)
    requires
        quotable(script_path(ds)),
        quotable(script_var(ds)),
        vector_drawn(ds, ui) ==> quotable(u_name(ds, ui)) && quotable(v_name(ds, ui)),
        is_geo(ui.view_mode) && ui.range_mode == RangeMode::Manual ==> number_text(min) && number_text(max),
    ensures
        parse_code(python_script(ui, ds, min, max)) == read_back(ui, ds, min, max),
{
    reveal_strlit("\n");
    reveal_strlit("plt.show()");
    let h = header_lines(ui);
    let d = data_lines(ds, ui);
    let f = figure_lines(ui, min, max);
    let c = contour_lines(ui);
    let vl = vector_lines(ds, ui);
    let ft = footer_lines(ds);
    let ls = python_lines(ui, ds, min, max);
    assert(ls == h + d + f + c + vl + ft);
    let n0 = nothing_parsed();
    lemma_header_section(n0, ui);
    lemma_data_section(n0, ds, ui);
    let n1 = data_effect(n0, ds, ui);
    if ui.view_mode == ViewMode::Globe {
        lemma_globe_figure(n1, ui, min, max);
    } else if ui.view_mode == ViewMode::MapView {
        lemma_map_figure(n1, ui, min, max);
    } else {
        lemma_plain_figure(n1, ui, min, max);
    }
    let n2 = figure_effect(n1, ui, min, max);
    lemma_contour_section(n2, ui);
    let n3 = parse_all(n2, c);
    lemma_vector_section(n3, ds, ui);
    let n4 = vector_effect(n3, ds, ui);
    lemma_footer_section(n4, ds);
    lemma_parse_all_concat(n0, h, d);
    lemma_parse_all_concat(n0, h + d, f);
    lemma_parse_all_concat(n0, h + d + f, c);
    lemma_parse_all_concat(n0, h + d + f + c, vl);
    lemma_parse_all_concat(n0, h + d + f + c + vl, ft);
    assert(parse_all(n0, ls) == n4);
    assert(n4 == read_back(ui, ds, min, max));
    // the text is these lines
    lemma_all_plain_concat(h, d);
    lemma_all_plain_concat(h + d, f);
    lemma_all_plain_concat(h + d + f, c);
    lemma_all_plain_concat(h + d + f + c, vl);
    lemma_all_plain_concat(h + d + f + c + vl, ft);
    lemma_plain_single(ls);
    assert(ls.last() == "plt.show()"@);
    assert("\n"@ =~= seq!['\n']);
    lemma_lines_join(ls);
    lemma_parse_lines_all(ls);
}

/// The settings read back leave the state as it was when applied to it.
#[verifier::spinoff_prover]
#[verifier::rlimit(40)]
proof fn lemma_read_back_keeps_state(
    ui: UiState,
    ds: DataStore,
    min: Seq<char>,
    max: Seq<char>,
    vc: Seq<Changed>,
)
    ensures
        ({
            let ranged = is_geo(ui.view_mode) && ui.range_mode == RangeMode::Manual;
            let lo = if ranged { Some(ui.manual_min) } else { None::<F32Bits> };
            let hi = if ranged { Some(ui.manual_max) } else { None::<F32Bits> };
            apply_parsed_spec(read_back(ui, ds, min, max), ui, vc, lo, hi).0 == ui
        }),
{
    lemma_matplotlib_round_trip(ui.colormap);
    reveal_strlit("Globe");
    reveal_strlit("Map");
    let p = read_back(ui, ds, min, max);
    let ranged = is_geo(ui.view_mode) && ui.range_mode == RangeMode::Manual;
    let lo = if ranged { Some(ui.manual_min) } else { None::<F32Bits> };
    let hi = if ranged { Some(ui.manual_max) } else { None::<F32Bits> };
    let s0 = (ui, vc);
    let s1 = step_time(s0, p.time_index);
    assert(s1.0 == ui);
    let s2 = step_level(s1, p.level_index);
    assert(s2.0 == ui);
    let s3 = step_colormap(s2, p.colormap, opt_matplotlib(p.colormap));
    assert(s3.0 == ui);
    let s4 = step_range(s3, lo, hi);
    assert(s4.0 == ui);
    let s5 = step_parsed_view(s4, p.view_mode, p.projection);
    assert("Map"@.len() != "Globe"@.len());
    reveal_strlit("PlateCarree");
    reveal_strlit("Mollweide");
    reveal_strlit("NorthPolarStereo");
    reveal_strlit("SouthPolarStereo");
    assert(cartopy_projection(cartopy_name(ui.map_projection)) == Some(ui.map_projection)) by {
        match ui.map_projection {
            MapProjection::Equirectangular => {},
            MapProjection::Mollweide => {
                assert("Mollweide"@.len() != "PlateCarree"@.len());
            },
            MapProjection::PolarNorth => {
                assert("NorthPolarStereo"@.len() != "PlateCarree"@.len());
                assert("NorthPolarStereo"@.len() != "Mollweide"@.len());
            },
            MapProjection::PolarSouth => {
                assert("SouthPolarStereo"@.len() != "PlateCarree"@.len());
                assert("SouthPolarStereo"@.len() != "Mollweide"@.len());
                assert("SouthPolarStereo"@[0] != "NorthPolarStereo"@[0]);
            },
        }
    }
    assert(s5.0 == ui);
    let t1 = step_contour(s5, p.contour_enabled);
    assert(t1.0 == ui);
    let t2 = step_vector(t1, p.vector_enabled);
    assert(t2.0 == ui);
    let t3 = step_streamline(t2, p.streamline_enabled);
    assert(t3.0 == ui);
    assert(step_overlays(s5, p.contour_enabled, p.vector_enabled, p.streamline_enabled) == t3);
    assert(apply_parsed_spec(p, ui, vc, lo, hi) == t3);
}

/// The `.isel(...)` arguments after the head `w = w.isel(` of a component.
proof fn lemma_component_isel_enclosed(t: Seq<char>, a: Seq<char>, u: bool)
    requires
        t == (if u { "u = u.isel("@ } else { "v = v.isel("@ }) + a + ")"@,
        lacks(a, ')'),
    ensures
        enclosed_after(t, ".isel("@, ')') == Some(a),
{
    reveal_strlit("u = u.isel(");
    reveal_strlit("v = v.isel(");
    reveal_strlit("u = u.isel");
    reveal_strlit("v = v.isel");
    reveal_strlit(")");
    reveal_strlit(".isel(");
    let p = ".isel("@;
    if u {
        lemma_u_isel_prefix();
        assert(t.take(10) =~= "u = u.isel"@);
    } else {
        lemma_v_isel_prefix();
        assert(t.take(10) =~= "v = v.isel"@);
    }
    assert(t.subrange(5, 11) =~= p);
    lemma_find_first(t, p, 5);
    let rest = t.skip(11);
    assert(rest =~= a + ")"@);
    assert forall|j: int| 0 <= j < a.len() implies rest[j] != ')' by {
        assert(rest[j] == a[j]);
    }
    lemma_char_index_unique(rest, ')', a.len() as int);
    assert(rest.take(a.len() as int) =~= a);
}

/// The line that picks the time step of the `u` component.
proof fn lemma_u_isel_time_line(v: Parsed, n: nat)
    requires
        n <= usize::MAX,
    ensures
        plain_line("u = u.isel(time="@ + decimal(n) + ")"@),
        read_line(v, "u = u.isel(time="@ + decimal(n) + ")"@) == (Parsed { time_index: Some(n as usize), ..v }),
{
    reveal(read_line);
    reveal_strlit("u = u.isel(");
    reveal_strlit("u = u.isel(time=");
    reveal_strlit("time=");
    reveal_strlit(")");
    let tt = decimal(n);
    lemma_decimal_reads_back(n);
    let a = keyword("time="@, n);
    let t = "u = u.isel(time="@ + tt + ")"@;
    assert(t =~= "u = u.isel("@ + a + ")"@);
    lemma_u_isel_time_rest(tt);
    lemma_keyword("time="@, n);
    lemma_component_isel_enclosed(t, a, true);
    lemma_no_comma_split(a);
    assert(seq![a].drop_last() =~= Seq::<Seq<char>>::empty());
    assert(isel_args(v, Seq::<Seq<char>>::empty()) == v);
    assert(isel_args(v, seq![a]) == isel_arg(v, a));
    lemma_time_arg(v, n);
    assert(parse_isel(v, t) == isel_arg(v, a));
}

/// The line that picks the level of the `u` component.
proof fn lemma_u_isel_level_line(v: Parsed, n: nat)
    requires
        n <= usize::MAX,
    ensures
        plain_line("u = u.isel(level="@ + decimal(n) + ")"@),
        read_line(v, "u = u.isel(level="@ + decimal(n) + ")"@) == (Parsed { level_index: Some(n as usize), ..v }),
{
    reveal(read_line);
    reveal_strlit("u = u.isel(");
    reveal_strlit("u = u.isel(level=");
    reveal_strlit("level=");
    reveal_strlit(")");
    reveal_strlit("");
    let ll = decimal(n);
    lemma_decimal_reads_back(n);
    let a = keyword("level="@, n);
    let t = "u = u.isel(level="@ + ll + ")"@;
    assert(t =~= "u = u.isel("@ + a + ")"@);
    lemma_u_isel_level_rest(ll);
    lemma_keyword("level="@, n);
    lemma_component_isel_enclosed(t, a, true);
    lemma_no_comma_split(a);
    assert(seq![a].drop_last() =~= Seq::<Seq<char>>::empty());
    assert(isel_args(v, Seq::<Seq<char>>::empty()) == v);
    assert(isel_args(v, seq![a]) == isel_arg(v, a));
    lemma_level_arg(v, n, false);
    assert(""@ + a =~= a);
    assert(parse_isel(v, t) == isel_arg(v, a));
}

/// The line that loads the `u` component `name`.
proof fn lemma_u_var_line(v: Parsed, name: Seq<char>)
    requires
        quotable(name),
    ensures
        plain_line("u = ds[\""@ + name + "\"]"@),
        read_line(v, "u = ds[\""@ + name + "\"]"@) == (Parsed { variable_name: Some(name), ..v }),
{
    reveal(read_line);
    reveal_strlit("u = ds[\"");
    reveal_strlit("\"]");
    reveal_strlit("ds[\"");
    reveal_strlit("u = ds[");
    let t = "u = ds[\""@ + name + "\"]"@;
    let p = "ds[\""@;
    lemma_u_var_line_rest(name);
    lemma_u_var_line_prefix();
    assert(t.take(7) =~= "u = ds["@);
    assert(t.subrange(4, 8) =~= p);
    lemma_find_first(t, p, 4);
    let rest = t.skip(8);
    assert(rest =~= name + "\"]"@);
    assert forall|j: int| 0 <= j < name.len() implies rest[j] != '"' by {
        assert(rest[j] == name[j]);
    }
    lemma_char_index_unique(rest, '"', name.len() as int);
    assert(rest.take(name.len() as int) =~= name);
    assert(enclosed_after(t, p, '"') == Some(name));
}

/// The line that picks the time step of the `v` component.
proof fn lemma_v_isel_time_line(v: Parsed, n: nat)
    requires
        n <= usize::MAX,
    ensures
        plain_line("v = v.isel(time="@ + decimal(n) + ")"@),
        read_line(v, "v = v.isel(time="@ + decimal(n) + ")"@) == (Parsed { time_index: Some(n as usize), ..v }),
{
    reveal(read_line);
    reveal_strlit("v = v.isel(");
    reveal_strlit("v = v.isel(time=");
    reveal_strlit("time=");
    reveal_strlit(")");
    let tt = decimal(n);
    lemma_decimal_reads_back(n);
    let a = keyword("time="@, n);
    let t = "v = v.isel(time="@ + tt + ")"@;
    assert(t =~= "v = v.isel("@ + a + ")"@);
    lemma_v_isel_time_rest(tt);
    lemma_keyword("time="@, n);
    lemma_component_isel_enclosed(t, a, false);
    lemma_no_comma_split(a);
    assert(seq![a].drop_last() =~= Seq::<Seq<char>>::empty());
    assert(isel_args(v, Seq::<Seq<char>>::empty()) == v);
    assert(isel_args(v, seq![a]) == isel_arg(v, a));
    lemma_time_arg(v, n);
    assert(parse_isel(v, t) == isel_arg(v, a));
}

/// The line that picks the level of the `v` component.
proof fn lemma_v_isel_level_line(v: Parsed, n: nat)
    requires
        n <= usize::MAX,
    ensures
        plain_line("v = v.isel(level="@ + decimal(n) + ")"@),
        read_line(v, "v = v.isel(level="@ + decimal(n) + ")"@) == (Parsed { level_index: Some(n as usize), ..v }),
{
    reveal(read_line);
    reveal_strlit("v = v.isel(");
    reveal_strlit("v = v.isel(level=");
    reveal_strlit("level=");
    reveal_strlit(")");
    reveal_strlit("");
    let ll = decimal(n);
    lemma_decimal_reads_back(n);
    let a = keyword("level="@, n);
    let t = "v = v.isel(level="@ + ll + ")"@;
    assert(t =~= "v = v.isel("@ + a + ")"@);
    lemma_v_isel_level_rest(ll);
    lemma_keyword("level="@, n);
    lemma_component_isel_enclosed(t, a, false);
    lemma_no_comma_split(a);
    assert(seq![a].drop_last() =~= Seq::<Seq<char>>::empty());
    assert(isel_args(v, Seq::<Seq<char>>::empty()) == v);
    assert(isel_args(v, seq![a]) == isel_arg(v, a));
    lemma_level_arg(v, n, false);
    assert(""@ + a =~= a);
    assert(parse_isel(v, t) == isel_arg(v, a));
}

/// The line that loads the `v` component `name`.
proof fn lemma_v_var_line(v: Parsed, name: Seq<char>)
    requires
        quotable(name),
    ensures
        plain_line("v = ds[\""@ + name + "\"]"@),
        read_line(v, "v = ds[\""@ + name + "\"]"@) == (Parsed { variable_name: Some(name), ..v }),
{
    reveal(read_line);
    reveal_strlit("v = ds[\"");
    reveal_strlit("\"]");
    reveal_strlit("ds[\"");
    reveal_strlit("v = ds[");
    let t = "v = ds[\""@ + name + "\"]"@;
    let p = "ds[\""@;
    lemma_v_var_line_rest(name);
    lemma_v_var_line_prefix();
    assert(t.take(7) =~= "v = ds["@);
    assert(t.subrange(4, 8) =~= p);
    lemma_find_first(t, p, 4);
    let rest = t.skip(8);
    assert(rest =~= name + "\"]"@);
    assert forall|j: int| 0 <= j < name.len() implies rest[j] != '"' by {
        assert(rest[j] == name[j]);
    }
    lemma_char_index_unique(rest, '"', name.len() as int);
    assert(rest.take(name.len() as int) =~= name);
    assert(enclosed_after(t, p, '"') == Some(name));
}

/// The arrows of the vector overlay.
proof fn lemma_quiver_line(v: Parsed, k: Seq<char>)
    requires
        all_digits(k),
        k.len() > 0,
    ensures
        plain_line(crate::python::quiver_line(k)),
        read_line(v, crate::python::quiver_line(k)) == (Parsed { vector_enabled: Some(true), ..v }),
{
    reveal(read_line);
    reveal_strlit("ax.quiver(u.lon[::");
    reveal_strlit(".quiver(");
    let t = crate::python::quiver_line(k);
    lemma_quiver_rest(k);
    assert(t.subrange(2, 10) =~= ".quiver("@);
    lemma_occurs_contains(t, ".quiver("@, 2);
}

/// Applying the settings read back from the script generated for a state
/// leaves that state as it was, when the range bounds handed over are the
/// state's own (the values of its range texts).
pub proof fn lemma_generated_script_keeps_state(
    ui: UiState,
    ds: DataStore,
    min: Seq<char>,
    max: Seq<char>,
    vc: Seq<Changed>,
)
    requires
        quotable(script_path(ds)),
        quotable(script_var(ds)),
        vector_drawn(ds, ui) ==> quotable(u_name(ds, ui)) && quotable(v_name(ds, ui)),
        is_geo(ui.view_mode) && ui.range_mode == RangeMode::Manual ==> number_text(min) && number_text(max),
    ensures
        ({
            let ranged = is_geo(ui.view_mode) && ui.range_mode == RangeMode::Manual;
            let lo = if ranged { Some(ui.manual_min) } else { None::<F32Bits> };
            let hi = if ranged { Some(ui.manual_max) } else { None::<F32Bits> };
            apply_parsed_spec(parse_code(python_script(ui, ds, min, max)), ui, vc, lo, hi).0 == ui
        }),
{
    lemma_generated_script_reads_back(ui, ds, min, max);
    lemma_read_back_keeps_state(ui, ds, min, max, vc);
}

/// A fixed line of the script, which sets nothing.
proof fn lemma_fixed_line_0()
    ensures
        plain_line("import xarray as xr"@),
        silent("import xarray as xr"@),
{
    reveal_strlit("import xarray as xr");
    reveal_strlit("ds[\"");
    reveal_strlit(".isel(");
    reveal_strlit("cmap=\"");
    reveal_strlit("vmin=");
    reveal_strlit("vmax=");
    reveal_strlit("ccrs.Orthographic(");
    reveal_strlit("projection=");
    reveal_strlit(".contour(");
    reveal_strlit(".contour ");
    reveal_strlit(".quiver(");
    reveal_strlit(".quiver ");
    reveal_strlit(".streamplot(");
    reveal_strlit(".streamplot ");
    let t = "import xarray as xr"@;
    assert(lacks(t, '\n'));
    assert(lacks(t, 'd'));
    lemma_lacks_char(t, "ds[\""@, 0);
    assert(lacks(t, '.'));
    lemma_lacks_char(t, ".isel("@, 0);
    assert(lacks(t, 'c'));
    lemma_lacks_char(t, "cmap=\""@, 0);
    assert(lacks(t, 'v'));
    lemma_lacks_char(t, "vmin="@, 0);
    assert(lacks(t, 'v'));
    lemma_lacks_char(t, "vmax="@, 0);
    assert(lacks(t, 'c'));
    lemma_lacks_char(t, "ccrs.Orthographic("@, 0);
    assert(lacks(t, 'j'));
    lemma_lacks_char(t, "projection="@, 3);
    assert(lacks(t, '.'));
    lemma_lacks_char(t, ".contour("@, 0);
    assert(lacks(t, '.'));
    lemma_lacks_char(t, ".contour "@, 0);
    assert(lacks(t, '.'));
    lemma_lacks_char(t, ".quiver("@, 0);
    assert(lacks(t, '.'));
    lemma_lacks_char(t, ".quiver "@, 0);
    assert(lacks(t, '.'));
    lemma_lacks_char(t, ".streamplot("@, 0);
    assert(lacks(t, '.'));
    lemma_lacks_char(t, ".streamplot "@, 0);
}

/// A fixed line of the script, which sets nothing.
proof fn lemma_fixed_line_1()
    ensures
        plain_line("import matplotlib.pyplot as plt"@),
        silent("import matplotlib.pyplot as plt"@),
{
    reveal_strlit("import matplotlib.pyplot as plt");
    reveal_strlit("ds[\"");
    reveal_strlit(".isel(");
    reveal_strlit("cmap=\"");
    reveal_strlit("vmin=");
    reveal_strlit("vmax=");
    reveal_strlit("ccrs.Orthographic(");
    reveal_strlit("projection=");
    reveal_strlit(".contour(");
    reveal_strlit(".contour ");
    reveal_strlit(".quiver(");
    reveal_strlit(".quiver ");
    reveal_strlit(".streamplot(");
    reveal_strlit(".streamplot ");
    let t = "import matplotlib.pyplot as plt"@;
    assert(lacks(t, '\n'));
    assert(lacks(t, 'd'));
    lemma_lacks_char(t, "ds[\""@, 0);
    assert(lacks(t, 'e'));
    lemma_lacks_char(t, ".isel("@, 3);
    assert(lacks(t, 'c'));
    lemma_lacks_char(t, "cmap=\""@, 0);
    assert(lacks(t, 'v'));
    lemma_lacks_char(t, "vmin="@, 0);
    assert(lacks(t, 'v'));
    lemma_lacks_char(t, "vmax="@, 0);
    assert(lacks(t, 'c'));
    lemma_lacks_char(t, "ccrs.Orthographic("@, 0);
    assert(lacks(t, 'j'));
    lemma_lacks_char(t, "projection="@, 3);
    assert(lacks(t, 'c'));
    lemma_lacks_char(t, ".contour("@, 1);
    assert(lacks(t, 'c'));
    lemma_lacks_char(t, ".contour "@, 1);
    assert(lacks(t, 'q'));
    lemma_lacks_char(t, ".quiver("@, 1);
    assert(lacks(t, 'q'));
    lemma_lacks_char(t, ".quiver "@, 1);
    assert(lacks(t, 'e'));
    lemma_lacks_char(t, ".streamplot("@, 4);
    assert(lacks(t, 'e'));
    lemma_lacks_char(t, ".streamplot "@, 4);
}

/// A fixed line of the script, which sets nothing.
proof fn lemma_fixed_line_2()
    ensures
        plain_line("import cartopy.crs as ccrs"@),
        silent("import cartopy.crs as ccrs"@),
{
    reveal_strlit("import cartopy.crs as ccrs");
    reveal_strlit("ds[\"");
    reveal_strlit(".isel(");
    reveal_strlit("cmap=\"");
    reveal_strlit("vmin=");
    reveal_strlit("vmax=");
    reveal_strlit("ccrs.Orthographic(");
    reveal_strlit("projection=");
    reveal_strlit(".contour(");
    reveal_strlit(".contour ");
    reveal_strlit(".quiver(");
    reveal_strlit(".quiver ");
    reveal_strlit(".streamplot(");
    reveal_strlit(".streamplot ");
    let t = "import cartopy.crs as ccrs"@;
    assert(lacks(t, '\n'));
    assert(lacks(t, 'd'));
    lemma_lacks_char(t, "ds[\""@, 0);
    assert(lacks(t, 'e'));
    lemma_lacks_char(t, ".isel("@, 3);
    assert(lacks(t, '='));
    lemma_lacks_char(t, "cmap=\""@, 4);
    assert(lacks(t, 'v'));
    lemma_lacks_char(t, "vmin="@, 0);
    assert(lacks(t, 'v'));
    lemma_lacks_char(t, "vmax="@, 0);
    assert(lacks(t, 'O'));
    lemma_lacks_char(t, "ccrs.Orthographic("@, 5);
    assert(lacks(t, 'j'));
    lemma_lacks_char(t, "projection="@, 3);
    assert(lacks(t, 'n'));
    lemma_lacks_char(t, ".contour("@, 3);
    assert(lacks(t, 'n'));
    lemma_lacks_char(t, ".contour "@, 3);
    assert(lacks(t, 'q'));
    lemma_lacks_char(t, ".quiver("@, 1);
    assert(lacks(t, 'q'));
    lemma_lacks_char(t, ".quiver "@, 1);
    assert(lacks(t, 'e'));
    lemma_lacks_char(t, ".streamplot("@, 4);
    assert(lacks(t, 'e'));
    lemma_lacks_char(t, ".streamplot "@, 4);
}

/// A fixed line of the script, which sets nothing.
proof fn lemma_fixed_line_3()
    ensures
        plain_line("# Globe (Orthographic projection)"@),
        silent("# Globe (Orthographic projection)"@),
{
    reveal_strlit("# Globe (Orthographic projection)");
    reveal_strlit("ds[\"");
    reveal_strlit(".isel(");
    reveal_strlit("cmap=\"");
    reveal_strlit("vmin=");
    reveal_strlit("vmax=");
    reveal_strlit("ccrs.Orthographic(");
    reveal_strlit("projection=");
    reveal_strlit(".contour(");
    reveal_strlit(".contour ");
    reveal_strlit(".quiver(");
    reveal_strlit(".quiver ");
    reveal_strlit(".streamplot(");
    reveal_strlit(".streamplot ");
    let t = "# Globe (Orthographic projection)"@;
    assert(lacks(t, '\n'));
    assert(lacks(t, 'd'));
    lemma_lacks_char(t, "ds[\""@, 0);
    assert(lacks(t, '.'));
    lemma_lacks_char(t, ".isel("@, 0);
    assert(lacks(t, 'm'));
    lemma_lacks_char(t, "cmap=\""@, 1);
    assert(lacks(t, 'v'));
    lemma_lacks_char(t, "vmin="@, 0);
    assert(lacks(t, 'v'));
    lemma_lacks_char(t, "vmax="@, 0);
    assert(lacks(t, 's'));
    lemma_lacks_char(t, "ccrs.Orthographic("@, 3);
    assert(lacks(t, '='));
    lemma_lacks_char(t, "projection="@, 10);
    assert(lacks(t, '.'));
    lemma_lacks_char(t, ".contour("@, 0);
    assert(lacks(t, '.'));
    lemma_lacks_char(t, ".contour "@, 0);
    assert(lacks(t, '.'));
    lemma_lacks_char(t, ".quiver("@, 0);
    assert(lacks(t, '.'));
    lemma_lacks_char(t, ".quiver "@, 0);
    assert(lacks(t, '.'));
    lemma_lacks_char(t, ".streamplot("@, 0);
    assert(lacks(t, '.'));
    lemma_lacks_char(t, ".streamplot "@, 0);
}

/// A fixed line of the script, which sets nothing.
proof fn lemma_fixed_line_4()
    ensures
        plain_line("fig = plt.figure(figsize=(8, 8))"@),
        silent("fig = plt.figure(figsize=(8, 8))"@),
{
    reveal_strlit("fig = plt.figure(figsize=(8, 8))");
    reveal_strlit("ds[\"");
    reveal_strlit(".isel(");
    reveal_strlit("cmap=\"");
    reveal_strlit("vmin=");
    reveal_strlit("vmax=");
    reveal_strlit("ccrs.Orthographic(");
    reveal_strlit("projection=");
    reveal_strlit(".contour(");
    reveal_strlit(".contour ");
    reveal_strlit(".quiver(");
    reveal_strlit(".quiver ");
    reveal_strlit(".streamplot(");
    reveal_strlit(".streamplot ");
    let t = "fig = plt.figure(figsize=(8, 8))"@;
    assert(lacks(t, '\n'));
    assert(lacks(t, 'd'));
    lemma_lacks_char(t, "ds[\""@, 0);
    assert(lacks_pair(t, '.', 'i'));
    lemma_lacks_pair(t, ".isel("@, 0);
    assert(lacks(t, 'c'));
    lemma_lacks_char(t, "cmap=\""@, 0);
    assert(lacks(t, 'v'));
    lemma_lacks_char(t, "vmin="@, 0);
    assert(lacks(t, 'v'));
    lemma_lacks_char(t, "vmax="@, 0);
    assert(lacks(t, 'c'));
    lemma_lacks_char(t, "ccrs.Orthographic("@, 0);
    assert(lacks(t, 'o'));
    lemma_lacks_char(t, "projection="@, 2);
    assert(lacks(t, 'c'));
    lemma_lacks_char(t, ".contour("@, 1);
    assert(lacks(t, 'c'));
    lemma_lacks_char(t, ".contour "@, 1);
    assert(lacks(t, 'q'));
    lemma_lacks_char(t, ".quiver("@, 1);
    assert(lacks(t, 'q'));
    lemma_lacks_char(t, ".quiver "@, 1);
    assert(lacks(t, 'a'));
    lemma_lacks_char(t, ".streamplot("@, 5);
    assert(lacks(t, 'a'));
    lemma_lacks_char(t, ".streamplot "@, 5);
}

/// A fixed line of the script, which sets nothing.
proof fn lemma_fixed_line_5()
    ensures
        plain_line("ax.set_global()"@),
        silent("ax.set_global()"@),
{
    reveal_strlit("ax.set_global()");
    reveal_strlit("ds[\"");
    reveal_strlit(".isel(");
    reveal_strlit("cmap=\"");
    reveal_strlit("vmin=");
    reveal_strlit("vmax=");
    reveal_strlit("ccrs.Orthographic(");
    reveal_strlit("projection=");
    reveal_strlit(".contour(");
    reveal_strlit(".contour ");
    reveal_strlit(".quiver(");
    reveal_strlit(".quiver ");
    reveal_strlit(".streamplot(");
    reveal_strlit(".streamplot ");
    let t = "ax.set_global()"@;
    assert(lacks(t, '\n'));
    assert(lacks(t, 'd'));
    lemma_lacks_char(t, "ds[\""@, 0);
    assert(lacks(t, 'i'));
    lemma_lacks_char(t, ".isel("@, 1);
    assert(lacks(t, 'c'));
    lemma_lacks_char(t, "cmap=\""@, 0);
    assert(lacks(t, 'v'));
    lemma_lacks_char(t, "vmin="@, 0);
    assert(lacks(t, 'v'));
    lemma_lacks_char(t, "vmax="@, 0);
    assert(lacks(t, 'c'));
    lemma_lacks_char(t, "ccrs.Orthographic("@, 0);
    assert(lacks(t, 'p'));
    lemma_lacks_char(t, "projection="@, 0);
    assert(lacks(t, 'c'));
    lemma_lacks_char(t, ".contour("@, 1);
    assert(lacks(t, 'c'));
    lemma_lacks_char(t, ".contour "@, 1);
    assert(lacks(t, 'q'));
    lemma_lacks_char(t, ".quiver("@, 1);
    assert(lacks(t, 'q'));
    lemma_lacks_char(t, ".quiver "@, 1);
    assert(lacks(t, 'r'));
    lemma_lacks_char(t, ".streamplot("@, 3);
    assert(lacks(t, 'r'));
    lemma_lacks_char(t, ".streamplot "@, 3);
}

/// A fixed line of the script, which sets nothing.
proof fn lemma_fixed_line_6()
    ensures
        plain_line("ax.coastlines()"@),
        silent("ax.coastlines()"@),
{
    reveal_strlit("ax.coastlines()");
    reveal_strlit("ds[\"");
    reveal_strlit(".isel(");
    reveal_strlit("cmap=\"");
    reveal_strlit("vmin=");
    reveal_strlit("vmax=");
    reveal_strlit("ccrs.Orthographic(");
    reveal_strlit("projection=");
    reveal_strlit(".contour(");
    reveal_strlit(".contour ");
    reveal_strlit(".quiver(");
    reveal_strlit(".quiver ");
    reveal_strlit(".streamplot(");
    reveal_strlit(".streamplot ");
    let t = "ax.coastlines()"@;
    assert(lacks(t, '\n'));
    assert(lacks(t, 'd'));
    lemma_lacks_char(t, "ds[\""@, 0);
    assert(lacks_pair(t, '.', 'i'));
    lemma_lacks_pair(t, ".isel("@, 0);
    assert(lacks(t, 'm'));
    lemma_lacks_char(t, "cmap=\""@, 1);
    assert(lacks(t, 'v'));
    lemma_lacks_char(t, "vmin="@, 0);
    assert(lacks(t, 'v'));
    lemma_lacks_char(t, "vmax="@, 0);
    assert(lacks(t, 'r'));
    lemma_lacks_char(t, "ccrs.Orthographic("@, 2);
    assert(lacks(t, 'p'));
    lemma_lacks_char(t, "projection="@, 0);
    assert(lacks(t, 'u'));
    lemma_lacks_char(t, ".contour("@, 6);
    assert(lacks(t, 'u'));
    lemma_lacks_char(t, ".contour "@, 6);
    assert(lacks(t, 'q'));
    lemma_lacks_char(t, ".quiver("@, 1);
    assert(lacks(t, 'q'));
    lemma_lacks_char(t, ".quiver "@, 1);
    assert(lacks(t, 'r'));
    lemma_lacks_char(t, ".streamplot("@, 3);
    assert(lacks(t, 'r'));
    lemma_lacks_char(t, ".streamplot "@, 3);
}

/// A fixed line of the script, which sets nothing.
proof fn lemma_fixed_line_7()
    ensures
        plain_line("# Map (Equirectangular (PlateCarree) projection)"@),
        silent("# Map (Equirectangular (PlateCarree) projection)"@),
{
    reveal_strlit("# Map (Equirectangular (PlateCarree) projection)");
    reveal_strlit("ds[\"");
    reveal_strlit(".isel(");
    reveal_strlit("cmap=\"");
    reveal_strlit("vmin=");
    reveal_strlit("vmax=");
    reveal_strlit("ccrs.Orthographic(");
    reveal_strlit("projection=");
    reveal_strlit(".contour(");
    reveal_strlit(".contour ");
    reveal_strlit(".quiver(");
    reveal_strlit(".quiver ");
    reveal_strlit(".streamplot(");
    reveal_strlit(".streamplot ");
    let t = "# Map (Equirectangular (PlateCarree) projection)"@;
    assert(lacks(t, '\n'));
    assert(lacks(t, 'd'));
    lemma_lacks_char(t, "ds[\""@, 0);
    assert(lacks(t, '.'));
    lemma_lacks_char(t, ".isel("@, 0);
    assert(lacks(t, 'm'));
    lemma_lacks_char(t, "cmap=\""@, 1);
    assert(lacks(t, 'v'));
    lemma_lacks_char(t, "vmin="@, 0);
    assert(lacks(t, 'v'));
    lemma_lacks_char(t, "vmax="@, 0);
    assert(lacks(t, 's'));
    lemma_lacks_char(t, "ccrs.Orthographic("@, 3);
    assert(lacks(t, '='));
    lemma_lacks_char(t, "projection="@, 10);
    assert(lacks(t, '.'));
    lemma_lacks_char(t, ".contour("@, 0);
    assert(lacks(t, '.'));
    lemma_lacks_char(t, ".contour "@, 0);
    assert(lacks(t, '.'));
    lemma_lacks_char(t, ".quiver("@, 0);
    assert(lacks(t, '.'));
    lemma_lacks_char(t, ".quiver "@, 0);
    assert(lacks(t, '.'));
    lemma_lacks_char(t, ".streamplot("@, 0);
    assert(lacks(t, '.'));
    lemma_lacks_char(t, ".streamplot "@, 0);
}

/// A fixed line of the script, which sets nothing.
proof fn lemma_fixed_line_8()
    ensures
        plain_line("# Map (Mollweide projection)"@),
        silent("# Map (Mollweide projection)"@),
{
    reveal_strlit("# Map (Mollweide projection)");
    reveal_strlit("ds[\"");
    reveal_strlit(".isel(");
    reveal_strlit("cmap=\"");
    reveal_strlit("vmin=");
    reveal_strlit("vmax=");
    reveal_strlit("ccrs.Orthographic(");
    reveal_strlit("projection=");
    reveal_strlit(".contour(");
    reveal_strlit(".contour ");
    reveal_strlit(".quiver(");
    reveal_strlit(".quiver ");
    reveal_strlit(".streamplot(");
    reveal_strlit(".streamplot ");
    let t = "# Map (Mollweide projection)"@;
    assert(lacks(t, '\n'));
    assert(lacks(t, 's'));
    lemma_lacks_char(t, "ds[\""@, 1);
    assert(lacks(t, '.'));
    lemma_lacks_char(t, ".isel("@, 0);
    assert(lacks(t, 'm'));
    lemma_lacks_char(t, "cmap=\""@, 1);
    assert(lacks(t, 'v'));
    lemma_lacks_char(t, "vmin="@, 0);
    assert(lacks(t, 'v'));
    lemma_lacks_char(t, "vmax="@, 0);
    assert(lacks(t, 's'));
    lemma_lacks_char(t, "ccrs.Orthographic("@, 3);
    assert(lacks(t, '='));
    lemma_lacks_char(t, "projection="@, 10);
    assert(lacks(t, '.'));
    lemma_lacks_char(t, ".contour("@, 0);
    assert(lacks(t, '.'));
    lemma_lacks_char(t, ".contour "@, 0);
    assert(lacks(t, '.'));
    lemma_lacks_char(t, ".quiver("@, 0);
    assert(lacks(t, '.'));
    lemma_lacks_char(t, ".quiver "@, 0);
    assert(lacks(t, '.'));
    lemma_lacks_char(t, ".streamplot("@, 0);
    assert(lacks(t, '.'));
    lemma_lacks_char(t, ".streamplot "@, 0);
}

/// A fixed line of the script, which sets nothing.
proof fn lemma_fixed_line_9()
    ensures
        plain_line("# Map (North Polar Stereographic projection)"@),
        silent("# Map (North Polar Stereographic projection)"@),
{
    reveal_strlit("# Map (North Polar Stereographic projection)");
    reveal_strlit("ds[\"");
    reveal_strlit(".isel(");
    reveal_strlit("cmap=\"");
    reveal_strlit("vmin=");
    reveal_strlit("vmax=");
    reveal_strlit("ccrs.Orthographic(");
    reveal_strlit("projection=");
    reveal_strlit(".contour(");
    reveal_strlit(".contour ");
    reveal_strlit(".quiver(");
    reveal_strlit(".quiver ");
    reveal_strlit(".streamplot(");
    reveal_strlit(".streamplot ");
    let t = "# Map (North Polar Stereographic projection)"@;
    assert(lacks(t, '\n'));
    assert(lacks(t, 'd'));
    lemma_lacks_char(t, "ds[\""@, 0);
    assert(lacks(t, '.'));
    lemma_lacks_char(t, ".isel("@, 0);
    assert(lacks(t, 'm'));
    lemma_lacks_char(t, "cmap=\""@, 1);
    assert(lacks(t, 'v'));
    lemma_lacks_char(t, "vmin="@, 0);
    assert(lacks(t, 'v'));
    lemma_lacks_char(t, "vmax="@, 0);
    assert(lacks(t, 's'));
    lemma_lacks_char(t, "ccrs.Orthographic("@, 3);
    assert(lacks(t, '='));
    lemma_lacks_char(t, "projection="@, 10);
    assert(lacks(t, '.'));
    lemma_lacks_char(t, ".contour("@, 0);
    assert(lacks(t, '.'));
    lemma_lacks_char(t, ".contour "@, 0);
    assert(lacks(t, '.'));
    lemma_lacks_char(t, ".quiver("@, 0);
    assert(lacks(t, '.'));
    lemma_lacks_char(t, ".quiver "@, 0);
    assert(lacks(t, '.'));
    lemma_lacks_char(t, ".streamplot("@, 0);
    assert(lacks(t, '.'));
    lemma_lacks_char(t, ".streamplot "@, 0);
}

/// A fixed line of the script, which sets nothing.
proof fn lemma_fixed_line_10()
    ensures
        plain_line("# Map (South Polar Stereographic projection)"@),
        silent("# Map (South Polar Stereographic projection)"@),
{
    reveal_strlit("# Map (South Polar Stereographic projection)");
    reveal_strlit("ds[\"");
    reveal_strlit(".isel(");
    reveal_strlit("cmap=\"");
    reveal_strlit("vmin=");
    reveal_strlit("vmax=");
    reveal_strlit("ccrs.Orthographic(");
    reveal_strlit("projection=");
    reveal_strlit(".contour(");
    reveal_strlit(".contour ");
    reveal_strlit(".quiver(");
    reveal_strlit(".quiver ");
    reveal_strlit(".streamplot(");
    reveal_strlit(".streamplot ");
    let t = "# Map (South Polar Stereographic projection)"@;
    assert(lacks(t, '\n'));
    assert(lacks(t, 'd'));
    lemma_lacks_char(t, "ds[\""@, 0);
    assert(lacks(t, '.'));
    lemma_lacks_char(t, ".isel("@, 0);
    assert(lacks(t, 'm'));
    lemma_lacks_char(t, "cmap=\""@, 1);
    assert(lacks(t, 'v'));
    lemma_lacks_char(t, "vmin="@, 0);
    assert(lacks(t, 'v'));
    lemma_lacks_char(t, "vmax="@, 0);
    assert(lacks(t, 's'));
    lemma_lacks_char(t, "ccrs.Orthographic("@, 3);
    assert(lacks(t, '='));
    lemma_lacks_char(t, "projection="@, 10);
    assert(lacks(t, '.'));
    lemma_lacks_char(t, ".contour("@, 0);
    assert(lacks(t, '.'));
    lemma_lacks_char(t, ".contour "@, 0);
    assert(lacks(t, '.'));
    lemma_lacks_char(t, ".quiver("@, 0);
    assert(lacks(t, '.'));
    lemma_lacks_char(t, ".quiver "@, 0);
    assert(lacks(t, '.'));
    lemma_lacks_char(t, ".streamplot("@, 0);
    assert(lacks(t, '.'));
    lemma_lacks_char(t, ".streamplot "@, 0);
}

/// A fixed line of the script, which sets nothing.
proof fn lemma_fixed_line_11()
    ensures
        plain_line("fig = plt.figure(figsize=(12, 6))"@),
        silent("fig = plt.figure(figsize=(12, 6))"@),
{
    reveal_strlit("fig = plt.figure(figsize=(12, 6))");
    reveal_strlit("ds[\"");
    reveal_strlit(".isel(");
    reveal_strlit("cmap=\"");
    reveal_strlit("vmin=");
    reveal_strlit("vmax=");
    reveal_strlit("ccrs.Orthographic(");
    reveal_strlit("projection=");
    reveal_strlit(".contour(");
    reveal_strlit(".contour ");
    reveal_strlit(".quiver(");
    reveal_strlit(".quiver ");
    reveal_strlit(".streamplot(");
    reveal_strlit(".streamplot ");
    let t = "fig = plt.figure(figsize=(12, 6))"@;
    assert(lacks(t, '\n'));
    assert(lacks(t, 'd'));
    lemma_lacks_char(t, "ds[\""@, 0);
    assert(lacks_pair(t, '.', 'i'));
    lemma_lacks_pair(t, ".isel("@, 0);
    assert(lacks(t, 'c'));
    lemma_lacks_char(t, "cmap=\""@, 0);
    assert(lacks(t, 'v'));
    lemma_lacks_char(t, "vmin="@, 0);
    assert(lacks(t, 'v'));
    lemma_lacks_char(t, "vmax="@, 0);
    assert(lacks(t, 'c'));
    lemma_lacks_char(t, "ccrs.Orthographic("@, 0);
    assert(lacks(t, 'o'));
    lemma_lacks_char(t, "projection="@, 2);
    assert(lacks(t, 'c'));
    lemma_lacks_char(t, ".contour("@, 1);
    assert(lacks(t, 'c'));
    lemma_lacks_char(t, ".contour "@, 1);
    assert(lacks(t, 'q'));
    lemma_lacks_char(t, ".quiver("@, 1);
    assert(lacks(t, 'q'));
    lemma_lacks_char(t, ".quiver "@, 1);
    assert(lacks(t, 'a'));
    lemma_lacks_char(t, ".streamplot("@, 5);
    assert(lacks(t, 'a'));
    lemma_lacks_char(t, ".streamplot "@, 5);
}

/// A fixed line of the script, which sets nothing.
proof fn lemma_fixed_line_12()
    ensures
        plain_line("# Hovmoller diagram"@),
        silent("# Hovmoller diagram"@),
{
    reveal_strlit("# Hovmoller diagram");
    reveal_strlit("ds[\"");
    reveal_strlit(".isel(");
    reveal_strlit("cmap=\"");
    reveal_strlit("vmin=");
    reveal_strlit("vmax=");
    reveal_strlit("ccrs.Orthographic(");
    reveal_strlit("projection=");
    reveal_strlit(".contour(");
    reveal_strlit(".contour ");
    reveal_strlit(".quiver(");
    reveal_strlit(".quiver ");
    reveal_strlit(".streamplot(");
    reveal_strlit(".streamplot ");
    let t = "# Hovmoller diagram"@;
    assert(lacks(t, '\n'));
    assert(lacks(t, 's'));
    lemma_lacks_char(t, "ds[\""@, 1);
    assert(lacks(t, '.'));
    lemma_lacks_char(t, ".isel("@, 0);
    assert(lacks(t, 'c'));
    lemma_lacks_char(t, "cmap=\""@, 0);
    assert(lacks(t, 'n'));
    lemma_lacks_char(t, "vmin="@, 3);
    assert(lacks(t, 'x'));
    lemma_lacks_char(t, "vmax="@, 3);
    assert(lacks(t, 'c'));
    lemma_lacks_char(t, "ccrs.Orthographic("@, 0);
    assert(lacks(t, 'p'));
    lemma_lacks_char(t, "projection="@, 0);
    assert(lacks(t, '.'));
    lemma_lacks_char(t, ".contour("@, 0);
    assert(lacks(t, '.'));
    lemma_lacks_char(t, ".contour "@, 0);
    assert(lacks(t, '.'));
    lemma_lacks_char(t, ".quiver("@, 0);
    assert(lacks(t, '.'));
    lemma_lacks_char(t, ".quiver "@, 0);
    assert(lacks(t, '.'));
    lemma_lacks_char(t, ".streamplot("@, 0);
    assert(lacks(t, '.'));
    lemma_lacks_char(t, ".streamplot "@, 0);
}

/// A fixed line of the script, which sets nothing.
proof fn lemma_fixed_line_13()
    ensures
        plain_line("fig, ax = plt.subplots(figsize=(12, 6))"@),
        silent("fig, ax = plt.subplots(figsize=(12, 6))"@),
{
    reveal_strlit("fig, ax = plt.subplots(figsize=(12, 6))");
    reveal_strlit("ds[\"");
    reveal_strlit(".isel(");
    reveal_strlit("cmap=\"");
    reveal_strlit("vmin=");
    reveal_strlit("vmax=");
    reveal_strlit("ccrs.Orthographic(");
    reveal_strlit("projection=");
    reveal_strlit(".contour(");
    reveal_strlit(".contour ");
    reveal_strlit(".quiver(");
    reveal_strlit(".quiver ");
    reveal_strlit(".streamplot(");
    reveal_strlit(".streamplot ");
    let t = "fig, ax = plt.subplots(figsize=(12, 6))"@;
    assert(lacks(t, '\n'));
    assert(lacks(t, 'd'));
    lemma_lacks_char(t, "ds[\""@, 0);
    assert(lacks_pair(t, '.', 'i'));
    lemma_lacks_pair(t, ".isel("@, 0);
    assert(lacks(t, 'c'));
    lemma_lacks_char(t, "cmap=\""@, 0);
    assert(lacks(t, 'v'));
    lemma_lacks_char(t, "vmin="@, 0);
    assert(lacks(t, 'v'));
    lemma_lacks_char(t, "vmax="@, 0);
    assert(lacks(t, 'c'));
    lemma_lacks_char(t, "ccrs.Orthographic("@, 0);
    assert(lacks(t, 'r'));
    lemma_lacks_char(t, "projection="@, 1);
    assert(lacks(t, 'c'));
    lemma_lacks_char(t, ".contour("@, 1);
    assert(lacks(t, 'c'));
    lemma_lacks_char(t, ".contour "@, 1);
    assert(lacks(t, 'q'));
    lemma_lacks_char(t, ".quiver("@, 1);
    assert(lacks(t, 'q'));
    lemma_lacks_char(t, ".quiver "@, 1);
    assert(lacks(t, 'r'));
    lemma_lacks_char(t, ".streamplot("@, 3);
    assert(lacks(t, 'r'));
    lemma_lacks_char(t, ".streamplot "@, 3);
}

/// A fixed line of the script, which sets nothing.
proof fn lemma_fixed_line_14()
    ensures
        plain_line("ax.set_xlabel(\"Longitude\")"@),
        silent("ax.set_xlabel(\"Longitude\")"@),
{
    reveal_strlit("ax.set_xlabel(\"Longitude\")");
    reveal_strlit("ds[\"");
    reveal_strlit(".isel(");
    reveal_strlit("cmap=\"");
    reveal_strlit("vmin=");
    reveal_strlit("vmax=");
    reveal_strlit("ccrs.Orthographic(");
    reveal_strlit("projection=");
    reveal_strlit(".contour(");
    reveal_strlit(".contour ");
    reveal_strlit(".quiver(");
    reveal_strlit(".quiver ");
    reveal_strlit(".streamplot(");
    reveal_strlit(".streamplot ");
    let t = "ax.set_xlabel(\"Longitude\")"@;
    assert(lacks(t, '\n'));
    assert(lacks(t, '['));
    lemma_lacks_char(t, "ds[\""@, 2);
    assert(lacks_pair(t, '.', 'i'));
    lemma_lacks_pair(t, ".isel("@, 0);
    assert(lacks(t, 'c'));
    lemma_lacks_char(t, "cmap=\""@, 0);
    assert(lacks(t, 'v'));
    lemma_lacks_char(t, "vmin="@, 0);
    assert(lacks(t, 'v'));
    lemma_lacks_char(t, "vmax="@, 0);
    assert(lacks(t, 'c'));
    lemma_lacks_char(t, "ccrs.Orthographic("@, 0);
    assert(lacks(t, 'p'));
    lemma_lacks_char(t, "projection="@, 0);
    assert(lacks(t, 'c'));
    lemma_lacks_char(t, ".contour("@, 1);
    assert(lacks(t, 'c'));
    lemma_lacks_char(t, ".contour "@, 1);
    assert(lacks(t, 'q'));
    lemma_lacks_char(t, ".quiver("@, 1);
    assert(lacks(t, 'q'));
    lemma_lacks_char(t, ".quiver "@, 1);
    assert(lacks(t, 'r'));
    lemma_lacks_char(t, ".streamplot("@, 3);
    assert(lacks(t, 'r'));
    lemma_lacks_char(t, ".streamplot "@, 3);
}

/// A fixed line of the script, which sets nothing.
proof fn lemma_fixed_line_15()
    ensures
        plain_line("ax.set_ylabel(\"Time\")"@),
        silent("ax.set_ylabel(\"Time\")"@),
{
    reveal_strlit("ax.set_ylabel(\"Time\")");
    reveal_strlit("ds[\"");
    reveal_strlit(".isel(");
    reveal_strlit("cmap=\"");
    reveal_strlit("vmin=");
    reveal_strlit("vmax=");
    reveal_strlit("ccrs.Orthographic(");
    reveal_strlit("projection=");
    reveal_strlit(".contour(");
    reveal_strlit(".contour ");
    reveal_strlit(".quiver(");
    reveal_strlit(".quiver ");
    reveal_strlit(".streamplot(");
    reveal_strlit(".streamplot ");
    let t = "ax.set_ylabel(\"Time\")"@;
    assert(lacks(t, '\n'));
    assert(lacks(t, 'd'));
    lemma_lacks_char(t, "ds[\""@, 0);
    assert(lacks_pair(t, '.', 'i'));
    lemma_lacks_pair(t, ".isel("@, 0);
    assert(lacks(t, 'c'));
    lemma_lacks_char(t, "cmap=\""@, 0);
    assert(lacks(t, 'v'));
    lemma_lacks_char(t, "vmin="@, 0);
    assert(lacks(t, 'v'));
    lemma_lacks_char(t, "vmax="@, 0);
    assert(lacks(t, 'c'));
    lemma_lacks_char(t, "ccrs.Orthographic("@, 0);
    assert(lacks(t, 'p'));
    lemma_lacks_char(t, "projection="@, 0);
    assert(lacks(t, 'c'));
    lemma_lacks_char(t, ".contour("@, 1);
    assert(lacks(t, 'c'));
    lemma_lacks_char(t, ".contour "@, 1);
    assert(lacks(t, 'q'));
    lemma_lacks_char(t, ".quiver("@, 1);
    assert(lacks(t, 'q'));
    lemma_lacks_char(t, ".quiver "@, 1);
    assert(lacks(t, 'r'));
    lemma_lacks_char(t, ".streamplot("@, 3);
    assert(lacks(t, 'r'));
    lemma_lacks_char(t, ".streamplot "@, 3);
}

/// A fixed line of the script, which sets nothing.
proof fn lemma_fixed_line_16()
    ensures
        plain_line("fig, ax = plt.subplots(figsize=(10, 6))"@),
        silent("fig, ax = plt.subplots(figsize=(10, 6))"@),
{
    reveal_strlit("fig, ax = plt.subplots(figsize=(10, 6))");
    reveal_strlit("ds[\"");
    reveal_strlit(".isel(");
    reveal_strlit("cmap=\"");
    reveal_strlit("vmin=");
    reveal_strlit("vmax=");
    reveal_strlit("ccrs.Orthographic(");
    reveal_strlit("projection=");
    reveal_strlit(".contour(");
    reveal_strlit(".contour ");
    reveal_strlit(".quiver(");
    reveal_strlit(".quiver ");
    reveal_strlit(".streamplot(");
    reveal_strlit(".streamplot ");
    let t = "fig, ax = plt.subplots(figsize=(10, 6))"@;
    assert(lacks(t, '\n'));
    assert(lacks(t, 'd'));
    lemma_lacks_char(t, "ds[\""@, 0);
    assert(lacks_pair(t, '.', 'i'));
    lemma_lacks_pair(t, ".isel("@, 0);
    assert(lacks(t, 'c'));
    lemma_lacks_char(t, "cmap=\""@, 0);
    assert(lacks(t, 'v'));
    lemma_lacks_char(t, "vmin="@, 0);
    assert(lacks(t, 'v'));
    lemma_lacks_char(t, "vmax="@, 0);
    assert(lacks(t, 'c'));
    lemma_lacks_char(t, "ccrs.Orthographic("@, 0);
    assert(lacks(t, 'r'));
    lemma_lacks_char(t, "projection="@, 1);
    assert(lacks(t, 'c'));
    lemma_lacks_char(t, ".contour("@, 1);
    assert(lacks(t, 'c'));
    lemma_lacks_char(t, ".contour "@, 1);
    assert(lacks(t, 'q'));
    lemma_lacks_char(t, ".quiver("@, 1);
    assert(lacks(t, 'q'));
    lemma_lacks_char(t, ".quiver "@, 1);
    assert(lacks(t, 'r'));
    lemma_lacks_char(t, ".streamplot("@, 3);
    assert(lacks(t, 'r'));
    lemma_lacks_char(t, ".streamplot "@, 3);
}

/// A fixed line of the script, which sets nothing.
proof fn lemma_fixed_line_17()
    ensures
        plain_line("# Contour overlay"@),
        silent("# Contour overlay"@),
{
    reveal_strlit("# Contour overlay");
    reveal_strlit("ds[\"");
    reveal_strlit(".isel(");
    reveal_strlit("cmap=\"");
    reveal_strlit("vmin=");
    reveal_strlit("vmax=");
    reveal_strlit("ccrs.Orthographic(");
    reveal_strlit("projection=");
    reveal_strlit(".contour(");
    reveal_strlit(".contour ");
    reveal_strlit(".quiver(");
    reveal_strlit(".quiver ");
    reveal_strlit(".streamplot(");
    reveal_strlit(".streamplot ");
    let t = "# Contour overlay"@;
    assert(lacks(t, '\n'));
    assert(lacks(t, 'd'));
    lemma_lacks_char(t, "ds[\""@, 0);
    assert(lacks(t, '.'));
    lemma_lacks_char(t, ".isel("@, 0);
    assert(lacks(t, 'c'));
    lemma_lacks_char(t, "cmap=\""@, 0);
    assert(lacks(t, 'm'));
    lemma_lacks_char(t, "vmin="@, 1);
    assert(lacks(t, 'm'));
    lemma_lacks_char(t, "vmax="@, 1);
    assert(lacks(t, 'c'));
    lemma_lacks_char(t, "ccrs.Orthographic("@, 0);
    assert(lacks(t, 'p'));
    lemma_lacks_char(t, "projection="@, 0);
    assert(lacks(t, '.'));
    lemma_lacks_char(t, ".contour("@, 0);
    assert(lacks(t, '.'));
    lemma_lacks_char(t, ".contour "@, 0);
    assert(lacks(t, '.'));
    lemma_lacks_char(t, ".quiver("@, 0);
    assert(lacks(t, '.'));
    lemma_lacks_char(t, ".quiver "@, 0);
    assert(lacks(t, '.'));
    lemma_lacks_char(t, ".streamplot("@, 0);
    assert(lacks(t, '.'));
    lemma_lacks_char(t, ".streamplot "@, 0);
}

/// A fixed line of the script, which sets nothing.
proof fn lemma_fixed_line_18()
    ensures
        plain_line("plt.tight_layout()"@),
        silent("plt.tight_layout()"@),
{
    reveal_strlit("plt.tight_layout()");
    reveal_strlit("ds[\"");
    reveal_strlit(".isel(");
    reveal_strlit("cmap=\"");
    reveal_strlit("vmin=");
    reveal_strlit("vmax=");
    reveal_strlit("ccrs.Orthographic(");
    reveal_strlit("projection=");
    reveal_strlit(".contour(");
    reveal_strlit(".contour ");
    reveal_strlit(".quiver(");
    reveal_strlit(".quiver ");
    reveal_strlit(".streamplot(");
    reveal_strlit(".streamplot ");
    let t = "plt.tight_layout()"@;
    assert(lacks(t, '\n'));
    assert(lacks(t, 'd'));
    lemma_lacks_char(t, "ds[\""@, 0);
    assert(lacks(t, 's'));
    lemma_lacks_char(t, ".isel("@, 2);
    assert(lacks(t, 'c'));
    lemma_lacks_char(t, "cmap=\""@, 0);
    assert(lacks(t, 'v'));
    lemma_lacks_char(t, "vmin="@, 0);
    assert(lacks(t, 'v'));
    lemma_lacks_char(t, "vmax="@, 0);
    assert(lacks(t, 'c'));
    lemma_lacks_char(t, "ccrs.Orthographic("@, 0);
    assert(lacks(t, 'r'));
    lemma_lacks_char(t, "projection="@, 1);
    assert(lacks(t, 'c'));
    lemma_lacks_char(t, ".contour("@, 1);
    assert(lacks(t, 'c'));
    lemma_lacks_char(t, ".contour "@, 1);
    assert(lacks(t, 'q'));
    lemma_lacks_char(t, ".quiver("@, 1);
    assert(lacks(t, 'q'));
    lemma_lacks_char(t, ".quiver "@, 1);
    assert(lacks(t, 's'));
    lemma_lacks_char(t, ".streamplot("@, 1);
    assert(lacks(t, 's'));
    lemma_lacks_char(t, ".streamplot "@, 1);
}

/// A fixed line of the script, which sets nothing.
proof fn lemma_fixed_line_19()
    ensures
        plain_line("plt.show()"@),
        silent("plt.show()"@),
{
    reveal_strlit("plt.show()");
    reveal_strlit("ds[\"");
    reveal_strlit(".isel(");
    reveal_strlit("cmap=\"");
    reveal_strlit("vmin=");
    reveal_strlit("vmax=");
    reveal_strlit("ccrs.Orthographic(");
    reveal_strlit("projection=");
    reveal_strlit(".contour(");
    reveal_strlit(".contour ");
    reveal_strlit(".quiver(");
    reveal_strlit(".quiver ");
    reveal_strlit(".streamplot(");
    reveal_strlit(".streamplot ");
    let t = "plt.show()"@;
    assert(lacks(t, '\n'));
    assert(lacks(t, 'd'));
    lemma_lacks_char(t, "ds[\""@, 0);
    assert(lacks(t, 'i'));
    lemma_lacks_char(t, ".isel("@, 1);
    assert(lacks(t, 'c'));
    lemma_lacks_char(t, "cmap=\""@, 0);
    assert(lacks(t, 'v'));
    lemma_lacks_char(t, "vmin="@, 0);
    assert(lacks(t, 'v'));
    lemma_lacks_char(t, "vmax="@, 0);
    assert(lacks(t, 'c'));
    lemma_lacks_char(t, "ccrs.Orthographic("@, 0);
    assert(lacks(t, 'r'));
    lemma_lacks_char(t, "projection="@, 1);
    assert(lacks(t, 'c'));
    lemma_lacks_char(t, ".contour("@, 1);
    assert(lacks(t, 'c'));
    lemma_lacks_char(t, ".contour "@, 1);
    assert(lacks(t, 'q'));
    lemma_lacks_char(t, ".quiver("@, 1);
    assert(lacks(t, 'q'));
    lemma_lacks_char(t, ".quiver "@, 1);
    assert(lacks(t, 'r'));
    lemma_lacks_char(t, ".streamplot("@, 3);
    assert(lacks(t, 'r'));
    lemma_lacks_char(t, ".streamplot "@, 3);
}


/// The line that opens the data file sets nothing.
proof fn lemma_path_line(path: Seq<char>)
    requires
        quotable(path),
    ensures
        plain_line("ds = xr.open_dataset(\""@ + path + "\")"@),
        silent("ds = xr.open_dataset(\""@ + path + "\")"@),
{
    reveal_strlit("ds = xr.open_dataset(\"");
    reveal_strlit("\")");
    reveal_strlit("ds[\"");
    reveal_strlit(".isel(");
    reveal_strlit("cmap=\"");
    reveal_strlit("vmin=");
    reveal_strlit("vmax=");
    reveal_strlit("ccrs.Orthographic(");
    reveal_strlit("projection=");
    reveal_strlit(".contour(");
    reveal_strlit(".contour ");
    reveal_strlit(".quiver(");
    reveal_strlit(".quiver ");
    reveal_strlit(".streamplot(");
    reveal_strlit(".streamplot ");
    let t = "ds = xr.open_dataset(\""@ + path + "\")"@;
    assert(lacks(t, '\n'));
    reveal_strlit("ds[");
    let pre = "ds = xr.open_dataset(\""@;
    assert(pre.subrange(pre.len() - 4, pre.len() - 1)[0] != "ds["@[0]);
    assert(lacks(pre.drop_last(), '"'));
    lemma_quoted_selects_nothing(pre, path);
    assert(lacks_pair(t, 'l', '('));
    lemma_lacks_pair(t, ".isel("@, 4);
    assert(lacks_pair(t, 'p', '='));
    lemma_lacks_pair(t, "cmap=\""@, 3);
    assert(lacks_pair(t, 'n', '='));
    lemma_lacks_pair(t, "vmin="@, 3);
    assert(lacks_pair(t, 'x', '='));
    lemma_lacks_pair(t, "vmax="@, 3);
    assert(lacks_pair(t, 'c', '('));
    lemma_lacks_pair(t, "ccrs.Orthographic("@, 16);
    assert(lacks_pair(t, 'n', '='));
    lemma_lacks_pair(t, "projection="@, 9);
    assert(lacks_pair(t, 'r', '('));
    lemma_lacks_pair(t, ".contour("@, 7);
    assert(lacks_pair(t, 'r', ' '));
    lemma_lacks_pair(t, ".contour "@, 7);
    assert(lacks_pair(t, 'r', '('));
    lemma_lacks_pair(t, ".quiver("@, 6);
    assert(lacks_pair(t, 'r', ' '));
    lemma_lacks_pair(t, ".quiver "@, 6);
    assert(lacks_triple(t, 'o', 't', '('));
    lemma_lacks_triple(t, ".streamplot("@, 9);
    assert(lacks_pair(t, 't', ' '));
    lemma_lacks_pair(t, ".streamplot "@, 10);
}

/// A quoted argument `pre` + `x` + `")` selects no variable: the only quote
/// that can follow an occurrence of `ds[` is the closing one, after which
/// no quote is left.
proof fn lemma_quoted_selects_nothing(pre: Seq<char>, x: Seq<char>)
    requires
        quotable(x),
        pre.len() >= 4,
        pre.last() == '"',
        lacks(pre.drop_last(), '"'),
        pre.subrange(pre.len() - 4, pre.len() - 1) != "ds["@,
    ensures
        enclosed_after(pre + x + "\")"@, "ds[\""@, '"') is None,
{
    reveal_strlit("\")");
    reveal_strlit("ds[\"");
    reveal_strlit("ds[");
    let t = pre + x + "\")"@;
    let p = "ds[\""@;
    lemma_find_from_bounds(t, p, 0);
    if let Some(j) = find(t, p) {
        let q = j + 3;
        assert(t.subrange(j, j + 4) == p);
        assert(t[q] == p[3]);
        if q < pre.len() - 1 {
            assert(pre.drop_last()[q] == t[q]);
        } else if q == pre.len() - 1 {
            assert(t.subrange(j, j + 3) =~= pre.subrange(pre.len() - 4, pre.len() - 1));
            assert(t.subrange(j, j + 3) =~= p.take(3));
            assert(p.take(3) =~= "ds["@);
        } else if q < pre.len() + x.len() {
            assert(x[q - pre.len()] == t[q]);
        } else {
            assert(q == t.len() - 2);
            let rest = t.skip(j + 4);
            assert(rest =~= seq![')']);
            lemma_char_index_none(rest, '"');
        }
    }
}

/// The title line sets nothing.
proof fn lemma_title_line(name: Seq<char>)
    requires
        quotable(name),
    ensures
        plain_line("plt.title(\""@ + name + "\")"@),
        silent("plt.title(\""@ + name + "\")"@),
{
    reveal_strlit("plt.title(\"");
    reveal_strlit("\")");
    reveal_strlit("ds[\"");
    reveal_strlit(".isel(");
    reveal_strlit("cmap=\"");
    reveal_strlit("vmin=");
    reveal_strlit("vmax=");
    reveal_strlit("ccrs.Orthographic(");
    reveal_strlit("projection=");
    reveal_strlit(".contour(");
    reveal_strlit(".contour ");
    reveal_strlit(".quiver(");
    reveal_strlit(".quiver ");
    reveal_strlit(".streamplot(");
    reveal_strlit(".streamplot ");
    let t = "plt.title(\""@ + name + "\")"@;
    assert(lacks(t, '\n'));
    reveal_strlit("ds[");
    let pre = "plt.title(\""@;
    assert(pre.subrange(pre.len() - 4, pre.len() - 1)[0] != "ds["@[0]);
    assert(lacks(pre.drop_last(), '"'));
    lemma_quoted_selects_nothing(pre, name);
    assert(lacks_pair(t, 'l', '('));
    lemma_lacks_pair(t, ".isel("@, 4);
    assert(lacks(t, '='));
    lemma_lacks_char(t, "cmap=\""@, 4);
    assert(lacks(t, '='));
    lemma_lacks_char(t, "vmin="@, 4);
    assert(lacks(t, '='));
    lemma_lacks_char(t, "vmax="@, 4);
    assert(lacks_pair(t, 'c', '('));
    lemma_lacks_pair(t, "ccrs.Orthographic("@, 16);
    assert(lacks(t, '='));
    lemma_lacks_char(t, "projection="@, 10);
    assert(lacks_pair(t, 'r', '('));
    lemma_lacks_pair(t, ".contour("@, 7);
    assert(lacks(t, ' '));
    lemma_lacks_char(t, ".contour "@, 8);
    assert(lacks_pair(t, 'r', '('));
    lemma_lacks_pair(t, ".quiver("@, 6);
    assert(lacks(t, ' '));
    lemma_lacks_char(t, ".quiver "@, 7);
    assert(lacks_pair(t, 't', '('));
    lemma_lacks_pair(t, ".streamplot("@, 10);
    assert(lacks(t, ' '));
    lemma_lacks_char(t, ".streamplot "@, 11);
}

/// In the variable line, only the variable pattern occurs.
proof fn lemma_var_line_rest(name: Seq<char>)
    requires
        quotable(name),
    ensures
        plain_line("da = ds[\""@ + name + "\"]"@),
        find("da = ds[\""@ + name + "\"]"@, ".isel("@) is None,
        find("da = ds[\""@ + name + "\"]"@, "cmap=\""@) is None,
        find("da = ds[\""@ + name + "\"]"@, "vmin="@) is None,
        find("da = ds[\""@ + name + "\"]"@, "vmax="@) is None,
        find("da = ds[\""@ + name + "\"]"@, "ccrs.Orthographic("@) is None,
        find("da = ds[\""@ + name + "\"]"@, "projection="@) is None,
        find("da = ds[\""@ + name + "\"]"@, ".contour("@) is None,
        find("da = ds[\""@ + name + "\"]"@, ".contour "@) is None,
        find("da = ds[\""@ + name + "\"]"@, ".quiver("@) is None,
        find("da = ds[\""@ + name + "\"]"@, ".quiver "@) is None,
        find("da = ds[\""@ + name + "\"]"@, ".streamplot("@) is None,
        find("da = ds[\""@ + name + "\"]"@, ".streamplot "@) is None,
{
    reveal_strlit("da = ds[\"");
    reveal_strlit("\"]");
    reveal_strlit(".isel(");
    reveal_strlit("cmap=\"");
    reveal_strlit("vmin=");
    reveal_strlit("vmax=");
    reveal_strlit("ccrs.Orthographic(");
    reveal_strlit("projection=");
    reveal_strlit(".contour(");
    reveal_strlit(".contour ");
    reveal_strlit(".quiver(");
    reveal_strlit(".quiver ");
    reveal_strlit(".streamplot(");
    reveal_strlit(".streamplot ");
    let t = "da = ds[\""@ + name + "\"]"@;
    assert(lacks(t, '\n'));
    assert(lacks(t, '('));
    lemma_lacks_char(t, ".isel("@, 5);
    assert(lacks_pair(t, 'p', '='));
    lemma_lacks_pair(t, "cmap=\""@, 3);
    assert(lacks_pair(t, 'n', '='));
    lemma_lacks_pair(t, "vmin="@, 3);
    assert(lacks_pair(t, 'x', '='));
    lemma_lacks_pair(t, "vmax="@, 3);
    assert(lacks(t, '('));
    lemma_lacks_char(t, "ccrs.Orthographic("@, 17);
    assert(lacks_pair(t, 'n', '='));
    lemma_lacks_pair(t, "projection="@, 9);
    assert(lacks(t, '('));
    lemma_lacks_char(t, ".contour("@, 8);
    assert(lacks_pair(t, 'r', ' '));
    lemma_lacks_pair(t, ".contour "@, 7);
    assert(lacks(t, '('));
    lemma_lacks_char(t, ".quiver("@, 7);
    assert(lacks_pair(t, 'r', ' '));
    lemma_lacks_pair(t, ".quiver "@, 6);
    assert(lacks(t, '('));
    lemma_lacks_char(t, ".streamplot("@, 11);
    assert(lacks_pair(t, 't', ' '));
    lemma_lacks_pair(t, ".streamplot "@, 10);
}

/// The variable pattern does not start before its place.
proof fn lemma_var_line_prefix()
    ensures
        find("da = ds["@, "ds[\""@) is None,
{
    reveal_strlit("da = ds[");
    reveal_strlit("ds[\"");
    let t = "da = ds["@;
    assert(lacks(t, '\"'));
    lemma_lacks_char(t, "ds[\""@, 3);
}

/// In the time selection, only the selection pattern occurs.
proof fn lemma_isel_time_rest(tt: Seq<char>)
    requires
        inert(tt),
    ensures
        plain_line("da = da.isel(time="@ + tt + ")"@),
        find("da = da.isel(time="@ + tt + ")"@, "ds[\""@) is None,
        find("da = da.isel(time="@ + tt + ")"@, "cmap=\""@) is None,
        find("da = da.isel(time="@ + tt + ")"@, "vmin="@) is None,
        find("da = da.isel(time="@ + tt + ")"@, "vmax="@) is None,
        find("da = da.isel(time="@ + tt + ")"@, "ccrs.Orthographic("@) is None,
        find("da = da.isel(time="@ + tt + ")"@, "projection="@) is None,
        find("da = da.isel(time="@ + tt + ")"@, ".contour("@) is None,
        find("da = da.isel(time="@ + tt + ")"@, ".contour "@) is None,
        find("da = da.isel(time="@ + tt + ")"@, ".quiver("@) is None,
        find("da = da.isel(time="@ + tt + ")"@, ".quiver "@) is None,
        find("da = da.isel(time="@ + tt + ")"@, ".streamplot("@) is None,
        find("da = da.isel(time="@ + tt + ")"@, ".streamplot "@) is None,
{
    reveal_strlit("da = da.isel(time=");
    reveal_strlit(")");
    reveal_strlit("ds[\"");
    reveal_strlit("cmap=\"");
    reveal_strlit("vmin=");
    reveal_strlit("vmax=");
    reveal_strlit("ccrs.Orthographic(");
    reveal_strlit("projection=");
    reveal_strlit(".contour(");
    reveal_strlit(".contour ");
    reveal_strlit(".quiver(");
    reveal_strlit(".quiver ");
    reveal_strlit(".streamplot(");
    reveal_strlit(".streamplot ");
    let t = "da = da.isel(time="@ + tt + ")"@;
    assert(lacks(t, '\n'));
    assert(lacks(t, '['));
    lemma_lacks_char(t, "ds[\""@, 2);
    assert(lacks(t, '\"'));
    lemma_lacks_char(t, "cmap=\""@, 5);
    assert(lacks_pair(t, 'n', '='));
    lemma_lacks_pair(t, "vmin="@, 3);
    assert(lacks_pair(t, 'x', '='));
    lemma_lacks_pair(t, "vmax="@, 3);
    assert(lacks_pair(t, 'c', '('));
    lemma_lacks_pair(t, "ccrs.Orthographic("@, 16);
    assert(lacks_pair(t, 'n', '='));
    lemma_lacks_pair(t, "projection="@, 9);
    assert(lacks_pair(t, 'r', '('));
    lemma_lacks_pair(t, ".contour("@, 7);
    assert(lacks_pair(t, 'r', ' '));
    lemma_lacks_pair(t, ".contour "@, 7);
    assert(lacks_pair(t, 'r', '('));
    lemma_lacks_pair(t, ".quiver("@, 6);
    assert(lacks_pair(t, 'r', ' '));
    lemma_lacks_pair(t, ".quiver "@, 6);
    assert(lacks_pair(t, 't', '('));
    lemma_lacks_pair(t, ".streamplot("@, 10);
    assert(lacks_pair(t, 't', ' '));
    lemma_lacks_pair(t, ".streamplot "@, 10);
}

/// In the level selection, only the selection pattern occurs.
proof fn lemma_isel_level_rest(ll: Seq<char>)
    requires
        inert(ll),
    ensures
        plain_line("da = da.isel(level="@ + ll + ")"@),
        find("da = da.isel(level="@ + ll + ")"@, "ds[\""@) is None,
        find("da = da.isel(level="@ + ll + ")"@, "cmap=\""@) is None,
        find("da = da.isel(level="@ + ll + ")"@, "vmin="@) is None,
        find("da = da.isel(level="@ + ll + ")"@, "vmax="@) is None,
        find("da = da.isel(level="@ + ll + ")"@, "ccrs.Orthographic("@) is None,
        find("da = da.isel(level="@ + ll + ")"@, "projection="@) is None,
        find("da = da.isel(level="@ + ll + ")"@, ".contour("@) is None,
        find("da = da.isel(level="@ + ll + ")"@, ".contour "@) is None,
        find("da = da.isel(level="@ + ll + ")"@, ".quiver("@) is None,
        find("da = da.isel(level="@ + ll + ")"@, ".quiver "@) is None,
        find("da = da.isel(level="@ + ll + ")"@, ".streamplot("@) is None,
        find("da = da.isel(level="@ + ll + ")"@, ".streamplot "@) is None,
{
    reveal_strlit("da = da.isel(level=");
    reveal_strlit(")");
    reveal_strlit("ds[\"");
    reveal_strlit("cmap=\"");
    reveal_strlit("vmin=");
    reveal_strlit("vmax=");
    reveal_strlit("ccrs.Orthographic(");
    reveal_strlit("projection=");
    reveal_strlit(".contour(");
    reveal_strlit(".contour ");
    reveal_strlit(".quiver(");
    reveal_strlit(".quiver ");
    reveal_strlit(".streamplot(");
    reveal_strlit(".streamplot ");
    let t = "da = da.isel(level="@ + ll + ")"@;
    assert(lacks(t, '\n'));
    assert(lacks(t, '['));
    lemma_lacks_char(t, "ds[\""@, 2);
    assert(lacks(t, '\"'));
    lemma_lacks_char(t, "cmap=\""@, 5);
    assert(lacks_pair(t, 'n', '='));
    lemma_lacks_pair(t, "vmin="@, 3);
    assert(lacks_pair(t, 'x', '='));
    lemma_lacks_pair(t, "vmax="@, 3);
    assert(lacks_pair(t, 'c', '('));
    lemma_lacks_pair(t, "ccrs.Orthographic("@, 16);
    assert(lacks_pair(t, 'n', '='));
    lemma_lacks_pair(t, "projection="@, 9);
    assert(lacks_pair(t, 'r', '('));
    lemma_lacks_pair(t, ".contour("@, 7);
    assert(lacks_pair(t, 'r', ' '));
    lemma_lacks_pair(t, ".contour "@, 7);
    assert(lacks_pair(t, 'r', '('));
    lemma_lacks_pair(t, ".quiver("@, 6);
    assert(lacks_pair(t, 'r', ' '));
    lemma_lacks_pair(t, ".quiver "@, 6);
    assert(lacks_pair(t, 't', '('));
    lemma_lacks_pair(t, ".streamplot("@, 10);
    assert(lacks_pair(t, 't', ' '));
    lemma_lacks_pair(t, ".streamplot "@, 10);
}

/// In the time and level selection, only the selection pattern occurs.
proof fn lemma_isel_both_rest(tt: Seq<char>, ll: Seq<char>)
    requires
        inert(tt),
        inert(ll),
    ensures
        plain_line("da = da.isel(time="@ + tt + ", level="@ + ll + ")"@),
        find("da = da.isel(time="@ + tt + ", level="@ + ll + ")"@, "ds[\""@) is None,
        find("da = da.isel(time="@ + tt + ", level="@ + ll + ")"@, "cmap=\""@) is None,
        find("da = da.isel(time="@ + tt + ", level="@ + ll + ")"@, "vmin="@) is None,
        find("da = da.isel(time="@ + tt + ", level="@ + ll + ")"@, "vmax="@) is None,
        find("da = da.isel(time="@ + tt + ", level="@ + ll + ")"@, "ccrs.Orthographic("@) is None,
        find("da = da.isel(time="@ + tt + ", level="@ + ll + ")"@, "projection="@) is None,
        find("da = da.isel(time="@ + tt + ", level="@ + ll + ")"@, ".contour("@) is None,
        find("da = da.isel(time="@ + tt + ", level="@ + ll + ")"@, ".contour "@) is None,
        find("da = da.isel(time="@ + tt + ", level="@ + ll + ")"@, ".quiver("@) is None,
        find("da = da.isel(time="@ + tt + ", level="@ + ll + ")"@, ".quiver "@) is None,
        find("da = da.isel(time="@ + tt + ", level="@ + ll + ")"@, ".streamplot("@) is None,
        find("da = da.isel(time="@ + tt + ", level="@ + ll + ")"@, ".streamplot "@) is None,
{
    reveal_strlit("da = da.isel(time=");
    reveal_strlit(", level=");
    reveal_strlit(")");
    reveal_strlit("ds[\"");
    reveal_strlit("cmap=\"");
    reveal_strlit("vmin=");
    reveal_strlit("vmax=");
    reveal_strlit("ccrs.Orthographic(");
    reveal_strlit("projection=");
    reveal_strlit(".contour(");
    reveal_strlit(".contour ");
    reveal_strlit(".quiver(");
    reveal_strlit(".quiver ");
    reveal_strlit(".streamplot(");
    reveal_strlit(".streamplot ");
    let t = "da = da.isel(time="@ + tt + ", level="@ + ll + ")"@;
    assert(lacks(t, '\n'));
    assert(lacks(t, '['));
    lemma_lacks_char(t, "ds[\""@, 2);
    assert(lacks(t, '\"'));
    lemma_lacks_char(t, "cmap=\""@, 5);
    assert(lacks_pair(t, 'n', '='));
    lemma_lacks_pair(t, "vmin="@, 3);
    assert(lacks_pair(t, 'x', '='));
    lemma_lacks_pair(t, "vmax="@, 3);
    assert(lacks_pair(t, 'c', '('));
    lemma_lacks_pair(t, "ccrs.Orthographic("@, 16);
    assert(lacks_pair(t, 'n', '='));
    lemma_lacks_pair(t, "projection="@, 9);
    assert(lacks_pair(t, 'r', '('));
    lemma_lacks_pair(t, ".contour("@, 7);
    assert(lacks_pair(t, 'r', ' '));
    lemma_lacks_pair(t, ".contour "@, 7);
    assert(lacks_pair(t, 'r', '('));
    lemma_lacks_pair(t, ".quiver("@, 6);
    assert(lacks_pair(t, 'r', ' '));
    lemma_lacks_pair(t, ".quiver "@, 6);
    assert(lacks_pair(t, 't', '('));
    lemma_lacks_pair(t, ".streamplot("@, 10);
    assert(lacks_pair(t, 't', ' '));
    lemma_lacks_pair(t, ".streamplot "@, 10);
}

/// The selection pattern does not start before its place.
proof fn lemma_isel_prefix()
    ensures
        find("da = da.isel"@, ".isel("@) is None,
{
    reveal_strlit("da = da.isel");
    reveal_strlit(".isel(");
    let t = "da = da.isel"@;
    assert(lacks(t, '('));
    lemma_lacks_char(t, ".isel("@, 5);
}

/// The globe axes name no other setting.
proof fn lemma_globe_axes_rest()
    ensures
        plain_line("ax = fig.add_subplot(111, projection=ccrs.Orthographic(0, 0))"@),
        find("ax = fig.add_subplot(111, projection=ccrs.Orthographic(0, 0))"@, "ds[\""@) is None,
        find("ax = fig.add_subplot(111, projection=ccrs.Orthographic(0, 0))"@, ".isel("@) is None,
        find("ax = fig.add_subplot(111, projection=ccrs.Orthographic(0, 0))"@, "cmap=\""@) is None,
        find("ax = fig.add_subplot(111, projection=ccrs.Orthographic(0, 0))"@, "vmin="@) is None,
        find("ax = fig.add_subplot(111, projection=ccrs.Orthographic(0, 0))"@, "vmax="@) is None,
        find("ax = fig.add_subplot(111, projection=ccrs.Orthographic(0, 0))"@, ".contour("@) is None,
        find("ax = fig.add_subplot(111, projection=ccrs.Orthographic(0, 0))"@, ".contour "@) is None,
        find("ax = fig.add_subplot(111, projection=ccrs.Orthographic(0, 0))"@, ".quiver("@) is None,
        find("ax = fig.add_subplot(111, projection=ccrs.Orthographic(0, 0))"@, ".quiver "@) is None,
        find("ax = fig.add_subplot(111, projection=ccrs.Orthographic(0, 0))"@, ".streamplot("@) is None,
        find("ax = fig.add_subplot(111, projection=ccrs.Orthographic(0, 0))"@, ".streamplot "@) is None,
        find("ax = fig.add_subplot(111, projection=ccrs.Orthographic(0, 0))"@, "ccrs.PlateCarree()"@) is None,
        find("ax = fig.add_subplot(111, projection=ccrs.Orthographic(0, 0))"@, "ccrs.Mollweide()"@) is None,
        find("ax = fig.add_subplot(111, projection=ccrs.Orthographic(0, 0))"@, "ccrs.NorthPolarStereo()"@) is None,
        find("ax = fig.add_subplot(111, projection=ccrs.Orthographic(0, 0))"@, "ccrs.SouthPolarStereo()"@) is None,
{
    reveal_strlit("ax = fig.add_subplot(111, projection=ccrs.Orthographic(0, 0))");
    reveal_strlit("ds[\"");
    reveal_strlit(".isel(");
    reveal_strlit("cmap=\"");
    reveal_strlit("vmin=");
    reveal_strlit("vmax=");
    reveal_strlit(".contour(");
    reveal_strlit(".contour ");
    reveal_strlit(".quiver(");
    reveal_strlit(".quiver ");
    reveal_strlit(".streamplot(");
    reveal_strlit(".streamplot ");
    reveal_strlit("ccrs.PlateCarree()");
    reveal_strlit("ccrs.Mollweide()");
    reveal_strlit("ccrs.NorthPolarStereo()");
    reveal_strlit("ccrs.SouthPolarStereo()");
    let t = "ax = fig.add_subplot(111, projection=ccrs.Orthographic(0, 0))"@;
    assert(lacks(t, '\n'));
    assert(lacks(t, '['));
    lemma_lacks_char(t, "ds[\""@, 2);
    assert(lacks_pair(t, '.', 'i'));
    lemma_lacks_pair(t, ".isel("@, 0);
    assert(lacks(t, 'm'));
    lemma_lacks_char(t, "cmap=\""@, 1);
    assert(lacks(t, 'v'));
    lemma_lacks_char(t, "vmin="@, 0);
    assert(lacks(t, 'v'));
    lemma_lacks_char(t, "vmax="@, 0);
    assert(lacks_pair(t, '.', 'c'));
    lemma_lacks_pair(t, ".contour("@, 0);
    assert(lacks_pair(t, '.', 'c'));
    lemma_lacks_pair(t, ".contour "@, 0);
    assert(lacks(t, 'q'));
    lemma_lacks_char(t, ".quiver("@, 1);
    assert(lacks(t, 'q'));
    lemma_lacks_char(t, ".quiver "@, 1);
    assert(lacks(t, 'm'));
    lemma_lacks_char(t, ".streamplot("@, 6);
    assert(lacks(t, 'm'));
    lemma_lacks_char(t, ".streamplot "@, 6);
    assert(lacks(t, 'P'));
    lemma_lacks_char(t, "ccrs.PlateCarree()"@, 5);
    assert(lacks(t, 'M'));
    lemma_lacks_char(t, "ccrs.Mollweide()"@, 5);
    assert(lacks(t, 'N'));
    lemma_lacks_char(t, "ccrs.NorthPolarStereo()"@, 5);
    assert(lacks(t, 'S'));
    lemma_lacks_char(t, "ccrs.SouthPolarStereo()"@, 5);
}

/// The orthographic call does not start before its place.
proof fn lemma_globe_axes_prefix()
    ensures
        find("ax = fig.add_subplot(111, projection=ccrs.Orthographic"@, "ccrs.Orthographic("@) is None,
{
    reveal_strlit("ax = fig.add_subplot(111, projection=ccrs.Orthographic");
    reveal_strlit("ccrs.Orthographic(");
    let t = "ax = fig.add_subplot(111, projection=ccrs.Orthographic"@;
    assert(lacks_pair(t, 'c', '('));
    lemma_lacks_pair(t, "ccrs.Orthographic("@, 16);
}

/// The map axes in one projection name no other setting.
proof fn lemma_map_axes_0_rest()
    ensures
        plain_line("ax = fig.add_subplot(111, projection=ccrs.PlateCarree())"@),
        find("ax = fig.add_subplot(111, projection=ccrs.PlateCarree())"@, "ds[\""@) is None,
        find("ax = fig.add_subplot(111, projection=ccrs.PlateCarree())"@, ".isel("@) is None,
        find("ax = fig.add_subplot(111, projection=ccrs.PlateCarree())"@, "cmap=\""@) is None,
        find("ax = fig.add_subplot(111, projection=ccrs.PlateCarree())"@, "vmin="@) is None,
        find("ax = fig.add_subplot(111, projection=ccrs.PlateCarree())"@, "vmax="@) is None,
        find("ax = fig.add_subplot(111, projection=ccrs.PlateCarree())"@, "ccrs.Orthographic("@) is None,
        find("ax = fig.add_subplot(111, projection=ccrs.PlateCarree())"@, ".contour("@) is None,
        find("ax = fig.add_subplot(111, projection=ccrs.PlateCarree())"@, ".contour "@) is None,
        find("ax = fig.add_subplot(111, projection=ccrs.PlateCarree())"@, ".quiver("@) is None,
        find("ax = fig.add_subplot(111, projection=ccrs.PlateCarree())"@, ".quiver "@) is None,
        find("ax = fig.add_subplot(111, projection=ccrs.PlateCarree())"@, ".streamplot("@) is None,
        find("ax = fig.add_subplot(111, projection=ccrs.PlateCarree())"@, ".streamplot "@) is None,
        find("ax = fig.add_subplot(111, projection=ccrs.PlateCarree())"@, "ccrs.Mollweide()"@) is None,
        find("ax = fig.add_subplot(111, projection=ccrs.PlateCarree())"@, "ccrs.NorthPolarStereo()"@) is None,
        find("ax = fig.add_subplot(111, projection=ccrs.PlateCarree())"@, "ccrs.SouthPolarStereo()"@) is None,
{
    reveal_strlit("ax = fig.add_subplot(111, projection=ccrs.PlateCarree())");
    reveal_strlit("ds[\"");
    reveal_strlit(".isel(");
    reveal_strlit("cmap=\"");
    reveal_strlit("vmin=");
    reveal_strlit("vmax=");
    reveal_strlit("ccrs.Orthographic(");
    reveal_strlit(".contour(");
    reveal_strlit(".contour ");
    reveal_strlit(".quiver(");
    reveal_strlit(".quiver ");
    reveal_strlit(".streamplot(");
    reveal_strlit(".streamplot ");
    reveal_strlit("ccrs.Mollweide()");
    reveal_strlit("ccrs.NorthPolarStereo()");
    reveal_strlit("ccrs.SouthPolarStereo()");
    let t = "ax = fig.add_subplot(111, projection=ccrs.PlateCarree())"@;
    assert(lacks(t, '\n'));
    assert(lacks(t, '['));
    lemma_lacks_char(t, "ds[\""@, 2);
    assert(lacks_pair(t, '.', 'i'));
    lemma_lacks_pair(t, ".isel("@, 0);
    assert(lacks(t, 'm'));
    lemma_lacks_char(t, "cmap=\""@, 1);
    assert(lacks(t, 'v'));
    lemma_lacks_char(t, "vmin="@, 0);
    assert(lacks(t, 'v'));
    lemma_lacks_char(t, "vmax="@, 0);
    assert(lacks(t, 'O'));
    lemma_lacks_char(t, "ccrs.Orthographic("@, 5);
    assert(lacks_pair(t, '.', 'c'));
    lemma_lacks_pair(t, ".contour("@, 0);
    assert(lacks_pair(t, '.', 'c'));
    lemma_lacks_pair(t, ".contour "@, 0);
    assert(lacks(t, 'q'));
    lemma_lacks_char(t, ".quiver("@, 1);
    assert(lacks(t, 'q'));
    lemma_lacks_char(t, ".quiver "@, 1);
    assert(lacks(t, 'm'));
    lemma_lacks_char(t, ".streamplot("@, 6);
    assert(lacks(t, 'm'));
    lemma_lacks_char(t, ".streamplot "@, 6);
    assert(lacks(t, 'M'));
    lemma_lacks_char(t, "ccrs.Mollweide()"@, 5);
    assert(lacks(t, 'N'));
    lemma_lacks_char(t, "ccrs.NorthPolarStereo()"@, 5);
    assert(lacks(t, 'S'));
    lemma_lacks_char(t, "ccrs.SouthPolarStereo()"@, 5);
}

/// The map axes in one projection name no other setting.
proof fn lemma_map_axes_1_rest()
    ensures
        plain_line("ax = fig.add_subplot(111, projection=ccrs.Mollweide())"@),
        find("ax = fig.add_subplot(111, projection=ccrs.Mollweide())"@, "ds[\""@) is None,
        find("ax = fig.add_subplot(111, projection=ccrs.Mollweide())"@, ".isel("@) is None,
        find("ax = fig.add_subplot(111, projection=ccrs.Mollweide())"@, "cmap=\""@) is None,
        find("ax = fig.add_subplot(111, projection=ccrs.Mollweide())"@, "vmin="@) is None,
        find("ax = fig.add_subplot(111, projection=ccrs.Mollweide())"@, "vmax="@) is None,
        find("ax = fig.add_subplot(111, projection=ccrs.Mollweide())"@, "ccrs.Orthographic("@) is None,
        find("ax = fig.add_subplot(111, projection=ccrs.Mollweide())"@, ".contour("@) is None,
        find("ax = fig.add_subplot(111, projection=ccrs.Mollweide())"@, ".contour "@) is None,
        find("ax = fig.add_subplot(111, projection=ccrs.Mollweide())"@, ".quiver("@) is None,
        find("ax = fig.add_subplot(111, projection=ccrs.Mollweide())"@, ".quiver "@) is None,
        find("ax = fig.add_subplot(111, projection=ccrs.Mollweide())"@, ".streamplot("@) is None,
        find("ax = fig.add_subplot(111, projection=ccrs.Mollweide())"@, ".streamplot "@) is None,
        find("ax = fig.add_subplot(111, projection=ccrs.Mollweide())"@, "ccrs.PlateCarree()"@) is None,
        find("ax = fig.add_subplot(111, projection=ccrs.Mollweide())"@, "ccrs.NorthPolarStereo()"@) is None,
        find("ax = fig.add_subplot(111, projection=ccrs.Mollweide())"@, "ccrs.SouthPolarStereo()"@) is None,
{
    reveal_strlit("ax = fig.add_subplot(111, projection=ccrs.Mollweide())");
    reveal_strlit("ds[\"");
    reveal_strlit(".isel(");
    reveal_strlit("cmap=\"");
    reveal_strlit("vmin=");
    reveal_strlit("vmax=");
    reveal_strlit("ccrs.Orthographic(");
    reveal_strlit(".contour(");
    reveal_strlit(".contour ");
    reveal_strlit(".quiver(");
    reveal_strlit(".quiver ");
    reveal_strlit(".streamplot(");
    reveal_strlit(".streamplot ");
    reveal_strlit("ccrs.PlateCarree()");
    reveal_strlit("ccrs.NorthPolarStereo()");
    reveal_strlit("ccrs.SouthPolarStereo()");
    let t = "ax = fig.add_subplot(111, projection=ccrs.Mollweide())"@;
    assert(lacks(t, '\n'));
    assert(lacks(t, '['));
    lemma_lacks_char(t, "ds[\""@, 2);
    assert(lacks_pair(t, '.', 'i'));
    lemma_lacks_pair(t, ".isel("@, 0);
    assert(lacks(t, 'm'));
    lemma_lacks_char(t, "cmap=\""@, 1);
    assert(lacks(t, 'v'));
    lemma_lacks_char(t, "vmin="@, 0);
    assert(lacks(t, 'v'));
    lemma_lacks_char(t, "vmax="@, 0);
    assert(lacks(t, 'O'));
    lemma_lacks_char(t, "ccrs.Orthographic("@, 5);
    assert(lacks_pair(t, '.', 'c'));
    lemma_lacks_pair(t, ".contour("@, 0);
    assert(lacks_pair(t, '.', 'c'));
    lemma_lacks_pair(t, ".contour "@, 0);
    assert(lacks(t, 'q'));
    lemma_lacks_char(t, ".quiver("@, 1);
    assert(lacks(t, 'q'));
    lemma_lacks_char(t, ".quiver "@, 1);
    assert(lacks(t, 'm'));
    lemma_lacks_char(t, ".streamplot("@, 6);
    assert(lacks(t, 'm'));
    lemma_lacks_char(t, ".streamplot "@, 6);
    assert(lacks(t, 'P'));
    lemma_lacks_char(t, "ccrs.PlateCarree()"@, 5);
    assert(lacks(t, 'N'));
    lemma_lacks_char(t, "ccrs.NorthPolarStereo()"@, 5);
    assert(lacks(t, 'S'));
    lemma_lacks_char(t, "ccrs.SouthPolarStereo()"@, 5);
}

/// The map axes in one projection name no other setting.
proof fn lemma_map_axes_2_rest()
    ensures
        plain_line("ax = fig.add_subplot(111, projection=ccrs.NorthPolarStereo())"@),
        find("ax = fig.add_subplot(111, projection=ccrs.NorthPolarStereo())"@, "ds[\""@) is None,
        find("ax = fig.add_subplot(111, projection=ccrs.NorthPolarStereo())"@, ".isel("@) is None,
        find("ax = fig.add_subplot(111, projection=ccrs.NorthPolarStereo())"@, "cmap=\""@) is None,
        find("ax = fig.add_subplot(111, projection=ccrs.NorthPolarStereo())"@, "vmin="@) is None,
        find("ax = fig.add_subplot(111, projection=ccrs.NorthPolarStereo())"@, "vmax="@) is None,
        find("ax = fig.add_subplot(111, projection=ccrs.NorthPolarStereo())"@, "ccrs.Orthographic("@) is None,
        find("ax = fig.add_subplot(111, projection=ccrs.NorthPolarStereo())"@, ".contour("@) is None,
        find("ax = fig.add_subplot(111, projection=ccrs.NorthPolarStereo())"@, ".contour "@) is None,
        find("ax = fig.add_subplot(111, projection=ccrs.NorthPolarStereo())"@, ".quiver("@) is None,
        find("ax = fig.add_subplot(111, projection=ccrs.NorthPolarStereo())"@, ".quiver "@) is None,
        find("ax = fig.add_subplot(111, projection=ccrs.NorthPolarStereo())"@, ".streamplot("@) is None,
        find("ax = fig.add_subplot(111, projection=ccrs.NorthPolarStereo())"@, ".streamplot "@) is None,
        find("ax = fig.add_subplot(111, projection=ccrs.NorthPolarStereo())"@, "ccrs.PlateCarree()"@) is None,
        find("ax = fig.add_subplot(111, projection=ccrs.NorthPolarStereo())"@, "ccrs.Mollweide()"@) is None,
        find("ax = fig.add_subplot(111, projection=ccrs.NorthPolarStereo())"@, "ccrs.SouthPolarStereo()"@) is None,
{
    reveal_strlit("ax = fig.add_subplot(111, projection=ccrs.NorthPolarStereo())");
    reveal_strlit("ds[\"");
    reveal_strlit(".isel(");
    reveal_strlit("cmap=\"");
    reveal_strlit("vmin=");
    reveal_strlit("vmax=");
    reveal_strlit("ccrs.Orthographic(");
    reveal_strlit(".contour(");
    reveal_strlit(".contour ");
    reveal_strlit(".quiver(");
    reveal_strlit(".quiver ");
    reveal_strlit(".streamplot(");
    reveal_strlit(".streamplot ");
    reveal_strlit("ccrs.PlateCarree()");
    reveal_strlit("ccrs.Mollweide()");
    reveal_strlit("ccrs.SouthPolarStereo()");
    let t = "ax = fig.add_subplot(111, projection=ccrs.NorthPolarStereo())"@;
    assert(lacks(t, '\n'));
    assert(lacks(t, '['));
    lemma_lacks_char(t, "ds[\""@, 2);
    assert(lacks_pair(t, '.', 'i'));
    lemma_lacks_pair(t, ".isel("@, 0);
    assert(lacks(t, 'm'));
    lemma_lacks_char(t, "cmap=\""@, 1);
    assert(lacks(t, 'v'));
    lemma_lacks_char(t, "vmin="@, 0);
    assert(lacks(t, 'v'));
    lemma_lacks_char(t, "vmax="@, 0);
    assert(lacks(t, 'O'));
    lemma_lacks_char(t, "ccrs.Orthographic("@, 5);
    assert(lacks_pair(t, '.', 'c'));
    lemma_lacks_pair(t, ".contour("@, 0);
    assert(lacks_pair(t, '.', 'c'));
    lemma_lacks_pair(t, ".contour "@, 0);
    assert(lacks(t, 'q'));
    lemma_lacks_char(t, ".quiver("@, 1);
    assert(lacks(t, 'q'));
    lemma_lacks_char(t, ".quiver "@, 1);
    assert(lacks(t, 'm'));
    lemma_lacks_char(t, ".streamplot("@, 6);
    assert(lacks(t, 'm'));
    lemma_lacks_char(t, ".streamplot "@, 6);
    assert(lacks(t, 'C'));
    lemma_lacks_char(t, "ccrs.PlateCarree()"@, 10);
    assert(lacks(t, 'M'));
    lemma_lacks_char(t, "ccrs.Mollweide()"@, 5);
    assert(lacks_pair(t, '.', 'S'));
    lemma_lacks_pair(t, "ccrs.SouthPolarStereo()"@, 4);
}

/// The map axes in one projection name no other setting.
proof fn lemma_map_axes_3_rest()
    ensures
        plain_line("ax = fig.add_subplot(111, projection=ccrs.SouthPolarStereo())"@),
        find("ax = fig.add_subplot(111, projection=ccrs.SouthPolarStereo())"@, "ds[\""@) is None,
        find("ax = fig.add_subplot(111, projection=ccrs.SouthPolarStereo())"@, ".isel("@) is None,
        find("ax = fig.add_subplot(111, projection=ccrs.SouthPolarStereo())"@, "cmap=\""@) is None,
        find("ax = fig.add_subplot(111, projection=ccrs.SouthPolarStereo())"@, "vmin="@) is None,
        find("ax = fig.add_subplot(111, projection=ccrs.SouthPolarStereo())"@, "vmax="@) is None,
        find("ax = fig.add_subplot(111, projection=ccrs.SouthPolarStereo())"@, "ccrs.Orthographic("@) is None,
        find("ax = fig.add_subplot(111, projection=ccrs.SouthPolarStereo())"@, ".contour("@) is None,
        find("ax = fig.add_subplot(111, projection=ccrs.SouthPolarStereo())"@, ".contour "@) is None,
        find("ax = fig.add_subplot(111, projection=ccrs.SouthPolarStereo())"@, ".quiver("@) is None,
        find("ax = fig.add_subplot(111, projection=ccrs.SouthPolarStereo())"@, ".quiver "@) is None,
        find("ax = fig.add_subplot(111, projection=ccrs.SouthPolarStereo())"@, ".streamplot("@) is None,
        find("ax = fig.add_subplot(111, projection=ccrs.SouthPolarStereo())"@, ".streamplot "@) is None,
        find("ax = fig.add_subplot(111, projection=ccrs.SouthPolarStereo())"@, "ccrs.PlateCarree()"@) is None,
        find("ax = fig.add_subplot(111, projection=ccrs.SouthPolarStereo())"@, "ccrs.Mollweide()"@) is None,
        find("ax = fig.add_subplot(111, projection=ccrs.SouthPolarStereo())"@, "ccrs.NorthPolarStereo()"@) is None,
{
    reveal_strlit("ax = fig.add_subplot(111, projection=ccrs.SouthPolarStereo())");
    reveal_strlit("ds[\"");
    reveal_strlit(".isel(");
    reveal_strlit("cmap=\"");
    reveal_strlit("vmin=");
    reveal_strlit("vmax=");
    reveal_strlit("ccrs.Orthographic(");
    reveal_strlit(".contour(");
    reveal_strlit(".contour ");
    reveal_strlit(".quiver(");
    reveal_strlit(".quiver ");
    reveal_strlit(".streamplot(");
    reveal_strlit(".streamplot ");
    reveal_strlit("ccrs.PlateCarree()");
    reveal_strlit("ccrs.Mollweide()");
    reveal_strlit("ccrs.NorthPolarStereo()");
    let t = "ax = fig.add_subplot(111, projection=ccrs.SouthPolarStereo())"@;
    assert(lacks(t, '\n'));
    assert(lacks(t, '['));
    lemma_lacks_char(t, "ds[\""@, 2);
    assert(lacks_pair(t, '.', 'i'));
    lemma_lacks_pair(t, ".isel("@, 0);
    assert(lacks(t, 'm'));
    lemma_lacks_char(t, "cmap=\""@, 1);
    assert(lacks(t, 'v'));
    lemma_lacks_char(t, "vmin="@, 0);
    assert(lacks(t, 'v'));
    lemma_lacks_char(t, "vmax="@, 0);
    assert(lacks(t, 'O'));
    lemma_lacks_char(t, "ccrs.Orthographic("@, 5);
    assert(lacks_pair(t, '.', 'c'));
    lemma_lacks_pair(t, ".contour("@, 0);
    assert(lacks_pair(t, '.', 'c'));
    lemma_lacks_pair(t, ".contour "@, 0);
    assert(lacks(t, 'q'));
    lemma_lacks_char(t, ".quiver("@, 1);
    assert(lacks(t, 'q'));
    lemma_lacks_char(t, ".quiver "@, 1);
    assert(lacks(t, 'm'));
    lemma_lacks_char(t, ".streamplot("@, 6);
    assert(lacks(t, 'm'));
    lemma_lacks_char(t, ".streamplot "@, 6);
    assert(lacks(t, 'C'));
    lemma_lacks_char(t, "ccrs.PlateCarree()"@, 10);
    assert(lacks(t, 'M'));
    lemma_lacks_char(t, "ccrs.Mollweide()"@, 5);
    assert(lacks(t, 'N'));
    lemma_lacks_char(t, "ccrs.NorthPolarStereo()"@, 5);
}

/// The colour-mapped plot without a range names only its colormap.
proof fn lemma_pcolormesh_rest(cm: Seq<char>)
    requires
        inert(cm),
    ensures
        plain_line("da.plot.pcolormesh(ax=ax, cmap=\""@ + cm + "\", transform=ccrs.PlateCarree())"@),
        find("da.plot.pcolormesh(ax=ax, cmap=\""@ + cm + "\", transform=ccrs.PlateCarree())"@, "ds[\""@) is None,
        find("da.plot.pcolormesh(ax=ax, cmap=\""@ + cm + "\", transform=ccrs.PlateCarree())"@, ".isel("@) is None,
        find("da.plot.pcolormesh(ax=ax, cmap=\""@ + cm + "\", transform=ccrs.PlateCarree())"@, "vmin="@) is None,
        find("da.plot.pcolormesh(ax=ax, cmap=\""@ + cm + "\", transform=ccrs.PlateCarree())"@, "vmax="@) is None,
        find("da.plot.pcolormesh(ax=ax, cmap=\""@ + cm + "\", transform=ccrs.PlateCarree())"@, "ccrs.Orthographic("@) is None,
        find("da.plot.pcolormesh(ax=ax, cmap=\""@ + cm + "\", transform=ccrs.PlateCarree())"@, "projection="@) is None,
        find("da.plot.pcolormesh(ax=ax, cmap=\""@ + cm + "\", transform=ccrs.PlateCarree())"@, ".contour("@) is None,
        find("da.plot.pcolormesh(ax=ax, cmap=\""@ + cm + "\", transform=ccrs.PlateCarree())"@, ".contour "@) is None,
        find("da.plot.pcolormesh(ax=ax, cmap=\""@ + cm + "\", transform=ccrs.PlateCarree())"@, ".quiver("@) is None,
        find("da.plot.pcolormesh(ax=ax, cmap=\""@ + cm + "\", transform=ccrs.PlateCarree())"@, ".quiver "@) is None,
        find("da.plot.pcolormesh(ax=ax, cmap=\""@ + cm + "\", transform=ccrs.PlateCarree())"@, ".streamplot("@) is None,
        find("da.plot.pcolormesh(ax=ax, cmap=\""@ + cm + "\", transform=ccrs.PlateCarree())"@, ".streamplot "@) is None,
        find("da.plot.pcolormesh(ax=ax, cmap=\""@ + cm + "\", transform=ccrs.PlateCarree())"@, "ccrs.Mollweide()"@) is None,
        find("da.plot.pcolormesh(ax=ax, cmap=\""@ + cm + "\", transform=ccrs.PlateCarree())"@, "ccrs.NorthPolarStereo()"@) is None,
        find("da.plot.pcolormesh(ax=ax, cmap=\""@ + cm + "\", transform=ccrs.PlateCarree())"@, "ccrs.SouthPolarStereo()"@) is None,
{
    reveal_strlit("da.plot.pcolormesh(ax=ax, cmap=\"");
    reveal_strlit("\", transform=ccrs.PlateCarree())");
    reveal_strlit("ds[\"");
    reveal_strlit(".isel(");
    reveal_strlit("vmin=");
    reveal_strlit("vmax=");
    reveal_strlit("ccrs.Orthographic(");
    reveal_strlit("projection=");
    reveal_strlit(".contour(");
    reveal_strlit(".contour ");
    reveal_strlit(".quiver(");
    reveal_strlit(".quiver ");
    reveal_strlit(".streamplot(");
    reveal_strlit(".streamplot ");
    reveal_strlit("ccrs.Mollweide()");
    reveal_strlit("ccrs.NorthPolarStereo()");
    reveal_strlit("ccrs.SouthPolarStereo()");
    let t = "da.plot.pcolormesh(ax=ax, cmap=\""@ + cm + "\", transform=ccrs.PlateCarree())"@;
    assert(lacks(t, '\n'));
    assert(lacks(t, '['));
    lemma_lacks_char(t, "ds[\""@, 2);
    assert(lacks_pair(t, 'l', '('));
    lemma_lacks_pair(t, ".isel("@, 4);
    assert(lacks_pair(t, 'n', '='));
    lemma_lacks_pair(t, "vmin="@, 3);
    assert(lacks_quad(t, 'm', 'a', 'x', '='));
    lemma_lacks_quad(t, "vmax="@, 1);
    assert(lacks_pair(t, 'c', '('));
    lemma_lacks_pair(t, "ccrs.Orthographic("@, 16);
    assert(lacks_pair(t, 'n', '='));
    lemma_lacks_pair(t, "projection="@, 9);
    assert(lacks_pair(t, 'r', '('));
    lemma_lacks_pair(t, ".contour("@, 7);
    assert(lacks_pair(t, 'r', ' '));
    lemma_lacks_pair(t, ".contour "@, 7);
    assert(lacks_pair(t, 'r', '('));
    lemma_lacks_pair(t, ".quiver("@, 6);
    assert(lacks_pair(t, 'r', ' '));
    lemma_lacks_pair(t, ".quiver "@, 6);
    assert(lacks_pair(t, 't', '('));
    lemma_lacks_pair(t, ".streamplot("@, 10);
    assert(lacks_pair(t, 't', ' '));
    lemma_lacks_pair(t, ".streamplot "@, 10);
    assert(lacks_triple(t, 'd', 'e', '('));
    lemma_lacks_triple(t, "ccrs.Mollweide()"@, 12);
    assert(lacks_pair(t, 'o', '('));
    lemma_lacks_pair(t, "ccrs.NorthPolarStereo()"@, 20);
    assert(lacks_pair(t, 'o', '('));
    lemma_lacks_pair(t, "ccrs.SouthPolarStereo()"@, 20);
}

/// The colour-mapped plot with a range names only its colormap and bounds.
proof fn lemma_pcolormesh_range_rest(cm: Seq<char>, lo: Seq<char>, hi: Seq<char>)
    requires
        inert(cm),
        inert(lo),
        inert(hi),
    ensures
        plain_line("da.plot.pcolormesh(ax=ax, cmap=\""@ + cm + "\", transform=ccrs.PlateCarree(), vmin="@ + lo + ", vmax="@ + hi + ")"@),
        find("da.plot.pcolormesh(ax=ax, cmap=\""@ + cm + "\", transform=ccrs.PlateCarree(), vmin="@ + lo + ", vmax="@ + hi + ")"@, "ds[\""@) is None,
        find("da.plot.pcolormesh(ax=ax, cmap=\""@ + cm + "\", transform=ccrs.PlateCarree(), vmin="@ + lo + ", vmax="@ + hi + ")"@, ".isel("@) is None,
        find("da.plot.pcolormesh(ax=ax, cmap=\""@ + cm + "\", transform=ccrs.PlateCarree(), vmin="@ + lo + ", vmax="@ + hi + ")"@, "ccrs.Orthographic("@) is None,
        find("da.plot.pcolormesh(ax=ax, cmap=\""@ + cm + "\", transform=ccrs.PlateCarree(), vmin="@ + lo + ", vmax="@ + hi + ")"@, "projection="@) is None,
        find("da.plot.pcolormesh(ax=ax, cmap=\""@ + cm + "\", transform=ccrs.PlateCarree(), vmin="@ + lo + ", vmax="@ + hi + ")"@, ".contour("@) is None,
        find("da.plot.pcolormesh(ax=ax, cmap=\""@ + cm + "\", transform=ccrs.PlateCarree(), vmin="@ + lo + ", vmax="@ + hi + ")"@, ".contour "@) is None,
        find("da.plot.pcolormesh(ax=ax, cmap=\""@ + cm + "\", transform=ccrs.PlateCarree(), vmin="@ + lo + ", vmax="@ + hi + ")"@, ".quiver("@) is None,
        find("da.plot.pcolormesh(ax=ax, cmap=\""@ + cm + "\", transform=ccrs.PlateCarree(), vmin="@ + lo + ", vmax="@ + hi + ")"@, ".quiver "@) is None,
        find("da.plot.pcolormesh(ax=ax, cmap=\""@ + cm + "\", transform=ccrs.PlateCarree(), vmin="@ + lo + ", vmax="@ + hi + ")"@, ".streamplot("@) is None,
        find("da.plot.pcolormesh(ax=ax, cmap=\""@ + cm + "\", transform=ccrs.PlateCarree(), vmin="@ + lo + ", vmax="@ + hi + ")"@, ".streamplot "@) is None,
{
    reveal_strlit("da.plot.pcolormesh(ax=ax, cmap=\"");
    reveal_strlit("\", transform=ccrs.PlateCarree(), vmin=");
    reveal_strlit(", vmax=");
    reveal_strlit(")");
    reveal_strlit("ds[\"");
    reveal_strlit(".isel(");
    reveal_strlit("ccrs.Orthographic(");
    reveal_strlit("projection=");
    reveal_strlit(".contour(");
    reveal_strlit(".contour ");
    reveal_strlit(".quiver(");
    reveal_strlit(".quiver ");
    reveal_strlit(".streamplot(");
    reveal_strlit(".streamplot ");
    let t = "da.plot.pcolormesh(ax=ax, cmap=\""@ + cm + "\", transform=ccrs.PlateCarree(), vmin="@ + lo + ", vmax="@ + hi + ")"@;
    assert(lacks(t, '\n'));
    assert(lacks(t, '['));
    lemma_lacks_char(t, "ds[\""@, 2);
    assert(lacks_pair(t, 'l', '('));
    lemma_lacks_pair(t, ".isel("@, 4);
    assert(lacks_pair(t, 'c', '('));
    lemma_lacks_pair(t, "ccrs.Orthographic("@, 16);
    assert(lacks_triple(t, 'o', 'n', '='));
    lemma_lacks_triple(t, "projection="@, 8);
    assert(lacks_pair(t, 'r', '('));
    lemma_lacks_pair(t, ".contour("@, 7);
    assert(lacks_pair(t, 'r', ' '));
    lemma_lacks_pair(t, ".contour "@, 7);
    assert(lacks_pair(t, 'r', '('));
    lemma_lacks_pair(t, ".quiver("@, 6);
    assert(lacks_pair(t, 'r', ' '));
    lemma_lacks_pair(t, ".quiver "@, 6);
    assert(lacks_pair(t, 't', '('));
    lemma_lacks_pair(t, ".streamplot("@, 10);
    assert(lacks_pair(t, 't', ' '));
    lemma_lacks_pair(t, ".streamplot "@, 10);
}

/// The colormap pattern does not start before its place.
proof fn lemma_cmap_prefix()
    ensures
        find("da.plot.pcolormesh(ax=ax, cmap="@, "cmap=\""@) is None,
{
    reveal_strlit("da.plot.pcolormesh(ax=ax, cmap=");
    reveal_strlit("cmap=\"");
    let t = "da.plot.pcolormesh(ax=ax, cmap="@;
    assert(lacks(t, '\"'));
    lemma_lacks_char(t, "cmap=\""@, 5);
}

/// The lower bound pattern does not start before its place.
proof fn lemma_vmin_prefix(cm: Seq<char>)
    requires
        inert(cm),
    ensures
        find("da.plot.pcolormesh(ax=ax, cmap=\""@ + cm + "\", transform=ccrs.PlateCarree(), vmin"@, "vmin="@) is None,
{
    reveal_strlit("da.plot.pcolormesh(ax=ax, cmap=\"");
    reveal_strlit("\", transform=ccrs.PlateCarree(), vmin");
    reveal_strlit("vmin=");
    let t = "da.plot.pcolormesh(ax=ax, cmap=\""@ + cm + "\", transform=ccrs.PlateCarree(), vmin"@;
    assert(lacks_pair(t, 'n', '='));
    lemma_lacks_pair(t, "vmin="@, 3);
}

/// The upper bound pattern does not start before its place.
proof fn lemma_vmax_prefix(cm: Seq<char>, lo: Seq<char>)
    requires
        inert(cm),
        inert(lo),
    ensures
        find("da.plot.pcolormesh(ax=ax, cmap=\""@ + cm + "\", transform=ccrs.PlateCarree(), vmin="@ + lo + ", vmax"@, "vmax="@) is None,
{
    reveal_strlit("da.plot.pcolormesh(ax=ax, cmap=\"");
    reveal_strlit("\", transform=ccrs.PlateCarree(), vmin=");
    reveal_strlit(", vmax");
    reveal_strlit("vmax=");
    let t = "da.plot.pcolormesh(ax=ax, cmap=\""@ + cm + "\", transform=ccrs.PlateCarree(), vmin="@ + lo + ", vmax"@;
    assert(lacks_quad(t, 'm', 'a', 'x', '='));
    lemma_lacks_quad(t, "vmax="@, 1);
}

/// The plot of the other views names only its colormap.
proof fn lemma_plot_rest(cm: Seq<char>)
    requires
        inert(cm),
    ensures
        plain_line("da.plot(ax=ax, cmap=\""@ + cm + "\")"@),
        find("da.plot(ax=ax, cmap=\""@ + cm + "\")"@, "ds[\""@) is None,
        find("da.plot(ax=ax, cmap=\""@ + cm + "\")"@, ".isel("@) is None,
        find("da.plot(ax=ax, cmap=\""@ + cm + "\")"@, "vmin="@) is None,
        find("da.plot(ax=ax, cmap=\""@ + cm + "\")"@, "vmax="@) is None,
        find("da.plot(ax=ax, cmap=\""@ + cm + "\")"@, "ccrs.Orthographic("@) is None,
        find("da.plot(ax=ax, cmap=\""@ + cm + "\")"@, "projection="@) is None,
        find("da.plot(ax=ax, cmap=\""@ + cm + "\")"@, ".contour("@) is None,
        find("da.plot(ax=ax, cmap=\""@ + cm + "\")"@, ".contour "@) is None,
        find("da.plot(ax=ax, cmap=\""@ + cm + "\")"@, ".quiver("@) is None,
        find("da.plot(ax=ax, cmap=\""@ + cm + "\")"@, ".quiver "@) is None,
        find("da.plot(ax=ax, cmap=\""@ + cm + "\")"@, ".streamplot("@) is None,
        find("da.plot(ax=ax, cmap=\""@ + cm + "\")"@, ".streamplot "@) is None,
{
    reveal_strlit("da.plot(ax=ax, cmap=\"");
    reveal_strlit("\")");
    reveal_strlit("ds[\"");
    reveal_strlit(".isel(");
    reveal_strlit("vmin=");
    reveal_strlit("vmax=");
    reveal_strlit("ccrs.Orthographic(");
    reveal_strlit("projection=");
    reveal_strlit(".contour(");
    reveal_strlit(".contour ");
    reveal_strlit(".quiver(");
    reveal_strlit(".quiver ");
    reveal_strlit(".streamplot(");
    reveal_strlit(".streamplot ");
    let t = "da.plot(ax=ax, cmap=\""@ + cm + "\")"@;
    assert(lacks(t, '\n'));
    assert(lacks(t, '['));
    lemma_lacks_char(t, "ds[\""@, 2);
    assert(lacks_pair(t, 'l', '('));
    lemma_lacks_pair(t, ".isel("@, 4);
    assert(lacks_pair(t, 'n', '='));
    lemma_lacks_pair(t, "vmin="@, 3);
    assert(lacks_quad(t, 'm', 'a', 'x', '='));
    lemma_lacks_quad(t, "vmax="@, 1);
    assert(lacks_pair(t, 'c', '('));
    lemma_lacks_pair(t, "ccrs.Orthographic("@, 16);
    assert(lacks_pair(t, 'n', '='));
    lemma_lacks_pair(t, "projection="@, 9);
    assert(lacks_pair(t, 'r', '('));
    lemma_lacks_pair(t, ".contour("@, 7);
    assert(lacks_pair(t, 'r', ' '));
    lemma_lacks_pair(t, ".contour "@, 7);
    assert(lacks_pair(t, 'r', '('));
    lemma_lacks_pair(t, ".quiver("@, 6);
    assert(lacks_pair(t, 'r', ' '));
    lemma_lacks_pair(t, ".quiver "@, 6);
    assert(early(t, '(', 11));
    lemma_early(t, ".streamplot("@, 11);
    assert(lacks_pair(t, 't', ' '));
    lemma_lacks_pair(t, ".streamplot "@, 10);
}

/// The colormap pattern does not start before its place.
proof fn lemma_plot_cmap_prefix()
    ensures
        find("da.plot(ax=ax, cmap="@, "cmap=\""@) is None,
{
    reveal_strlit("da.plot(ax=ax, cmap=");
    reveal_strlit("cmap=\"");
    let t = "da.plot(ax=ax, cmap="@;
    assert(lacks(t, '\"'));
    lemma_lacks_char(t, "cmap=\""@, 5);
}

/// The contour line names no setting but the contours.
proof fn lemma_contour_rest(n: Seq<char>)
    requires
        inert(n),
    ensures
        plain_line("da.plot.contour(ax=ax, levels="@ + n + ", colors=\"k\", linewidths=0.5, transform=ccrs.PlateCarree())"@),
        find("da.plot.contour(ax=ax, levels="@ + n + ", colors=\"k\", linewidths=0.5, transform=ccrs.PlateCarree())"@, "ds[\""@) is None,
        find("da.plot.contour(ax=ax, levels="@ + n + ", colors=\"k\", linewidths=0.5, transform=ccrs.PlateCarree())"@, ".isel("@) is None,
        find("da.plot.contour(ax=ax, levels="@ + n + ", colors=\"k\", linewidths=0.5, transform=ccrs.PlateCarree())"@, "cmap=\""@) is None,
        find("da.plot.contour(ax=ax, levels="@ + n + ", colors=\"k\", linewidths=0.5, transform=ccrs.PlateCarree())"@, "vmin="@) is None,
        find("da.plot.contour(ax=ax, levels="@ + n + ", colors=\"k\", linewidths=0.5, transform=ccrs.PlateCarree())"@, "vmax="@) is None,
        find("da.plot.contour(ax=ax, levels="@ + n + ", colors=\"k\", linewidths=0.5, transform=ccrs.PlateCarree())"@, "ccrs.Orthographic("@) is None,
        find("da.plot.contour(ax=ax, levels="@ + n + ", colors=\"k\", linewidths=0.5, transform=ccrs.PlateCarree())"@, "projection="@) is None,
        find("da.plot.contour(ax=ax, levels="@ + n + ", colors=\"k\", linewidths=0.5, transform=ccrs.PlateCarree())"@, ".quiver("@) is None,
        find("da.plot.contour(ax=ax, levels="@ + n + ", colors=\"k\", linewidths=0.5, transform=ccrs.PlateCarree())"@, ".quiver "@) is None,
        find("da.plot.contour(ax=ax, levels="@ + n + ", colors=\"k\", linewidths=0.5, transform=ccrs.PlateCarree())"@, ".streamplot("@) is None,
        find("da.plot.contour(ax=ax, levels="@ + n + ", colors=\"k\", linewidths=0.5, transform=ccrs.PlateCarree())"@, ".streamplot "@) is None,
{
    reveal_strlit("da.plot.contour(ax=ax, levels=");
    reveal_strlit(", colors=\"k\", linewidths=0.5, transform=ccrs.PlateCarree())");
    reveal_strlit("ds[\"");
    reveal_strlit(".isel(");
    reveal_strlit("cmap=\"");
    reveal_strlit("vmin=");
    reveal_strlit("vmax=");
    reveal_strlit("ccrs.Orthographic(");
    reveal_strlit("projection=");
    reveal_strlit(".quiver(");
    reveal_strlit(".quiver ");
    reveal_strlit(".streamplot(");
    reveal_strlit(".streamplot ");
    let t = "da.plot.contour(ax=ax, levels="@ + n + ", colors=\"k\", linewidths=0.5, transform=ccrs.PlateCarree())"@;
    assert(lacks(t, '\n'));
    assert(lacks(t, '['));
    lemma_lacks_char(t, "ds[\""@, 2);
    assert(lacks_pair(t, 'l', '('));
    lemma_lacks_pair(t, ".isel("@, 4);
    assert(lacks_pair(t, 'p', '='));
    lemma_lacks_pair(t, "cmap=\""@, 3);
    assert(lacks_pair(t, 'n', '='));
    lemma_lacks_pair(t, "vmin="@, 3);
    assert(lacks_quad(t, 'm', 'a', 'x', '='));
    lemma_lacks_quad(t, "vmax="@, 1);
    assert(lacks_pair(t, 'c', '('));
    lemma_lacks_pair(t, "ccrs.Orthographic("@, 16);
    assert(lacks_pair(t, 'n', '='));
    lemma_lacks_pair(t, "projection="@, 9);
    assert(lacks_triple(t, 'e', 'r', '('));
    lemma_lacks_triple(t, ".quiver("@, 5);
    assert(lacks_pair(t, 'r', ' '));
    lemma_lacks_pair(t, ".quiver "@, 6);
    assert(lacks_pair(t, 't', '('));
    lemma_lacks_pair(t, ".streamplot("@, 10);
    assert(lacks_pair(t, 't', ' '));
    lemma_lacks_pair(t, ".streamplot "@, 10);
}


/// In the line that loads the eastward component, only the variable pattern occurs.
proof fn lemma_u_var_line_rest(name: Seq<char>)
    requires
        quotable(name),
    ensures
        plain_line("u = ds[\""@ + name + "\"]"@),
        find("u = ds[\""@ + name + "\"]"@, ".isel("@) is None,
        find("u = ds[\""@ + name + "\"]"@, "cmap=\""@) is None,
        find("u = ds[\""@ + name + "\"]"@, "vmin="@) is None,
        find("u = ds[\""@ + name + "\"]"@, "vmax="@) is None,
        find("u = ds[\""@ + name + "\"]"@, "ccrs.Orthographic("@) is None,
        find("u = ds[\""@ + name + "\"]"@, "projection="@) is None,
        find("u = ds[\""@ + name + "\"]"@, ".contour("@) is None,
        find("u = ds[\""@ + name + "\"]"@, ".contour "@) is None,
        find("u = ds[\""@ + name + "\"]"@, ".quiver("@) is None,
        find("u = ds[\""@ + name + "\"]"@, ".quiver "@) is None,
        find("u = ds[\""@ + name + "\"]"@, ".streamplot("@) is None,
        find("u = ds[\""@ + name + "\"]"@, ".streamplot "@) is None,
{
    reveal_strlit("u = ds[\"");
    reveal_strlit("\"]");
    reveal_strlit(".isel(");
    reveal_strlit("cmap=\"");
    reveal_strlit("vmin=");
    reveal_strlit("vmax=");
    reveal_strlit("ccrs.Orthographic(");
    reveal_strlit("projection=");
    reveal_strlit(".contour(");
    reveal_strlit(".contour ");
    reveal_strlit(".quiver(");
    reveal_strlit(".quiver ");
    reveal_strlit(".streamplot(");
    reveal_strlit(".streamplot ");
    let t = "u = ds[\""@ + name + "\"]"@;
    assert(lacks(t, '\n'));
    assert(lacks(t, '('));
    lemma_lacks_char(t, ".isel("@, 5);
    assert(lacks_pair(t, 'p', '='));
    lemma_lacks_pair(t, "cmap=\""@, 3);
    assert(lacks_pair(t, 'n', '='));
    lemma_lacks_pair(t, "vmin="@, 3);
    assert(lacks_pair(t, 'x', '='));
    lemma_lacks_pair(t, "vmax="@, 3);
    assert(lacks(t, '('));
    lemma_lacks_char(t, "ccrs.Orthographic("@, 17);
    assert(lacks_pair(t, 'n', '='));
    lemma_lacks_pair(t, "projection="@, 9);
    assert(lacks(t, '('));
    lemma_lacks_char(t, ".contour("@, 8);
    assert(lacks_pair(t, 'r', ' '));
    lemma_lacks_pair(t, ".contour "@, 7);
    assert(lacks(t, '('));
    lemma_lacks_char(t, ".quiver("@, 7);
    assert(lacks_pair(t, 'r', ' '));
    lemma_lacks_pair(t, ".quiver "@, 6);
    assert(lacks(t, '('));
    lemma_lacks_char(t, ".streamplot("@, 11);
    assert(lacks_pair(t, 't', ' '));
    lemma_lacks_pair(t, ".streamplot "@, 10);
}

/// The variable pattern does not start before its place.
proof fn lemma_u_var_line_prefix()
    ensures
        find("u = ds["@, "ds[\""@) is None,
{
    reveal_strlit("u = ds[");
    reveal_strlit("ds[\"");
    let t = "u = ds["@;
    assert(lacks(t, '\"'));
    lemma_lacks_char(t, "ds[\""@, 3);
}

/// In a component's time selection, only the selection pattern occurs.
proof fn lemma_u_isel_time_rest(tt: Seq<char>)
    requires
        inert(tt),
    ensures
        plain_line("u = u.isel(time="@ + tt + ")"@),
        find("u = u.isel(time="@ + tt + ")"@, "ds[\""@) is None,
        find("u = u.isel(time="@ + tt + ")"@, "cmap=\""@) is None,
        find("u = u.isel(time="@ + tt + ")"@, "vmin="@) is None,
        find("u = u.isel(time="@ + tt + ")"@, "vmax="@) is None,
        find("u = u.isel(time="@ + tt + ")"@, "ccrs.Orthographic("@) is None,
        find("u = u.isel(time="@ + tt + ")"@, "projection="@) is None,
        find("u = u.isel(time="@ + tt + ")"@, ".contour("@) is None,
        find("u = u.isel(time="@ + tt + ")"@, ".contour "@) is None,
        find("u = u.isel(time="@ + tt + ")"@, ".quiver("@) is None,
        find("u = u.isel(time="@ + tt + ")"@, ".quiver "@) is None,
        find("u = u.isel(time="@ + tt + ")"@, ".streamplot("@) is None,
        find("u = u.isel(time="@ + tt + ")"@, ".streamplot "@) is None,
{
    reveal_strlit("u = u.isel(time=");
    reveal_strlit(")");
    reveal_strlit("ds[\"");
    reveal_strlit("cmap=\"");
    reveal_strlit("vmin=");
    reveal_strlit("vmax=");
    reveal_strlit("ccrs.Orthographic(");
    reveal_strlit("projection=");
    reveal_strlit(".contour(");
    reveal_strlit(".contour ");
    reveal_strlit(".quiver(");
    reveal_strlit(".quiver ");
    reveal_strlit(".streamplot(");
    reveal_strlit(".streamplot ");
    let t = "u = u.isel(time="@ + tt + ")"@;
    assert(lacks(t, '\n'));
    assert(lacks(t, '['));
    lemma_lacks_char(t, "ds[\""@, 2);
    assert(lacks(t, '\"'));
    lemma_lacks_char(t, "cmap=\""@, 5);
    assert(lacks_pair(t, 'n', '='));
    lemma_lacks_pair(t, "vmin="@, 3);
    assert(lacks_pair(t, 'x', '='));
    lemma_lacks_pair(t, "vmax="@, 3);
    assert(lacks_pair(t, 'c', '('));
    lemma_lacks_pair(t, "ccrs.Orthographic("@, 16);
    assert(lacks_pair(t, 'n', '='));
    lemma_lacks_pair(t, "projection="@, 9);
    assert(lacks_pair(t, 'r', '('));
    lemma_lacks_pair(t, ".contour("@, 7);
    assert(lacks_pair(t, 'r', ' '));
    lemma_lacks_pair(t, ".contour "@, 7);
    assert(lacks_pair(t, 'r', '('));
    lemma_lacks_pair(t, ".quiver("@, 6);
    assert(lacks_pair(t, 'r', ' '));
    lemma_lacks_pair(t, ".quiver "@, 6);
    assert(lacks_pair(t, 't', '('));
    lemma_lacks_pair(t, ".streamplot("@, 10);
    assert(lacks_pair(t, 't', ' '));
    lemma_lacks_pair(t, ".streamplot "@, 10);
}

/// In a component's level selection, only the selection pattern occurs.
proof fn lemma_u_isel_level_rest(ll: Seq<char>)
    requires
        inert(ll),
    ensures
        plain_line("u = u.isel(level="@ + ll + ")"@),
        find("u = u.isel(level="@ + ll + ")"@, "ds[\""@) is None,
        find("u = u.isel(level="@ + ll + ")"@, "cmap=\""@) is None,
        find("u = u.isel(level="@ + ll + ")"@, "vmin="@) is None,
        find("u = u.isel(level="@ + ll + ")"@, "vmax="@) is None,
        find("u = u.isel(level="@ + ll + ")"@, "ccrs.Orthographic("@) is None,
        find("u = u.isel(level="@ + ll + ")"@, "projection="@) is None,
        find("u = u.isel(level="@ + ll + ")"@, ".contour("@) is None,
        find("u = u.isel(level="@ + ll + ")"@, ".contour "@) is None,
        find("u = u.isel(level="@ + ll + ")"@, ".quiver("@) is None,
        find("u = u.isel(level="@ + ll + ")"@, ".quiver "@) is None,
        find("u = u.isel(level="@ + ll + ")"@, ".streamplot("@) is None,
        find("u = u.isel(level="@ + ll + ")"@, ".streamplot "@) is None,
{
    reveal_strlit("u = u.isel(level=");
    reveal_strlit(")");
    reveal_strlit("ds[\"");
    reveal_strlit("cmap=\"");
    reveal_strlit("vmin=");
    reveal_strlit("vmax=");
    reveal_strlit("ccrs.Orthographic(");
    reveal_strlit("projection=");
    reveal_strlit(".contour(");
    reveal_strlit(".contour ");
    reveal_strlit(".quiver(");
    reveal_strlit(".quiver ");
    reveal_strlit(".streamplot(");
    reveal_strlit(".streamplot ");
    let t = "u = u.isel(level="@ + ll + ")"@;
    assert(lacks(t, '\n'));
    assert(lacks(t, '['));
    lemma_lacks_char(t, "ds[\""@, 2);
    assert(lacks(t, '\"'));
    lemma_lacks_char(t, "cmap=\""@, 5);
    assert(lacks_pair(t, 'n', '='));
    lemma_lacks_pair(t, "vmin="@, 3);
    assert(lacks_pair(t, 'x', '='));
    lemma_lacks_pair(t, "vmax="@, 3);
    assert(lacks_pair(t, 'c', '('));
    lemma_lacks_pair(t, "ccrs.Orthographic("@, 16);
    assert(lacks_pair(t, 'n', '='));
    lemma_lacks_pair(t, "projection="@, 9);
    assert(lacks_pair(t, 'r', '('));
    lemma_lacks_pair(t, ".contour("@, 7);
    assert(lacks_pair(t, 'r', ' '));
    lemma_lacks_pair(t, ".contour "@, 7);
    assert(lacks_pair(t, 'r', '('));
    lemma_lacks_pair(t, ".quiver("@, 6);
    assert(lacks_pair(t, 'r', ' '));
    lemma_lacks_pair(t, ".quiver "@, 6);
    assert(lacks_pair(t, 't', '('));
    lemma_lacks_pair(t, ".streamplot("@, 10);
    assert(lacks_pair(t, 't', ' '));
    lemma_lacks_pair(t, ".streamplot "@, 10);
}

/// The selection pattern does not start before its place.
proof fn lemma_u_isel_prefix()
    ensures
        find("u = u.isel"@, ".isel("@) is None,
{
    reveal_strlit("u = u.isel");
    reveal_strlit(".isel(");
    let t = "u = u.isel"@;
    assert(lacks(t, '('));
    lemma_lacks_char(t, ".isel("@, 5);
}

/// In the line that loads the northward component, only the variable pattern occurs.
proof fn lemma_v_var_line_rest(name: Seq<char>)
    requires
        quotable(name),
    ensures
        plain_line("v = ds[\""@ + name + "\"]"@),
        find("v = ds[\""@ + name + "\"]"@, ".isel("@) is None,
        find("v = ds[\""@ + name + "\"]"@, "cmap=\""@) is None,
        find("v = ds[\""@ + name + "\"]"@, "vmin="@) is None,
        find("v = ds[\""@ + name + "\"]"@, "vmax="@) is None,
        find("v = ds[\""@ + name + "\"]"@, "ccrs.Orthographic("@) is None,
        find("v = ds[\""@ + name + "\"]"@, "projection="@) is None,
        find("v = ds[\""@ + name + "\"]"@, ".contour("@) is None,
        find("v = ds[\""@ + name + "\"]"@, ".contour "@) is None,
        find("v = ds[\""@ + name + "\"]"@, ".quiver("@) is None,
        find("v = ds[\""@ + name + "\"]"@, ".quiver "@) is None,
        find("v = ds[\""@ + name + "\"]"@, ".streamplot("@) is None,
        find("v = ds[\""@ + name + "\"]"@, ".streamplot "@) is None,
{
    reveal_strlit("v = ds[\"");
    reveal_strlit("\"]");
    reveal_strlit(".isel(");
    reveal_strlit("cmap=\"");
    reveal_strlit("vmin=");
    reveal_strlit("vmax=");
    reveal_strlit("ccrs.Orthographic(");
    reveal_strlit("projection=");
    reveal_strlit(".contour(");
    reveal_strlit(".contour ");
    reveal_strlit(".quiver(");
    reveal_strlit(".quiver ");
    reveal_strlit(".streamplot(");
    reveal_strlit(".streamplot ");
    let t = "v = ds[\""@ + name + "\"]"@;
    assert(lacks(t, '\n'));
    assert(lacks(t, '('));
    lemma_lacks_char(t, ".isel("@, 5);
    assert(lacks_pair(t, 'p', '='));
    lemma_lacks_pair(t, "cmap=\""@, 3);
    assert(lacks_pair(t, 'n', '='));
    lemma_lacks_pair(t, "vmin="@, 3);
    assert(lacks_pair(t, 'x', '='));
    lemma_lacks_pair(t, "vmax="@, 3);
    assert(lacks(t, '('));
    lemma_lacks_char(t, "ccrs.Orthographic("@, 17);
    assert(lacks_pair(t, 'n', '='));
    lemma_lacks_pair(t, "projection="@, 9);
    assert(lacks(t, '('));
    lemma_lacks_char(t, ".contour("@, 8);
    assert(lacks_pair(t, 'r', ' '));
    lemma_lacks_pair(t, ".contour "@, 7);
    assert(lacks(t, '('));
    lemma_lacks_char(t, ".quiver("@, 7);
    assert(lacks_pair(t, 'r', ' '));
    lemma_lacks_pair(t, ".quiver "@, 6);
    assert(lacks(t, '('));
    lemma_lacks_char(t, ".streamplot("@, 11);
    assert(lacks_pair(t, 't', ' '));
    lemma_lacks_pair(t, ".streamplot "@, 10);
}

/// The variable pattern does not start before its place.
proof fn lemma_v_var_line_prefix()
    ensures
        find("v = ds["@, "ds[\""@) is None,
{
    reveal_strlit("v = ds[");
    reveal_strlit("ds[\"");
    let t = "v = ds["@;
    assert(lacks(t, '\"'));
    lemma_lacks_char(t, "ds[\""@, 3);
}

/// In a component's time selection, only the selection pattern occurs.
proof fn lemma_v_isel_time_rest(tt: Seq<char>)
    requires
        inert(tt),
    ensures
        plain_line("v = v.isel(time="@ + tt + ")"@),
        find("v = v.isel(time="@ + tt + ")"@, "ds[\""@) is None,
        find("v = v.isel(time="@ + tt + ")"@, "cmap=\""@) is None,
        find("v = v.isel(time="@ + tt + ")"@, "vmin="@) is None,
        find("v = v.isel(time="@ + tt + ")"@, "vmax="@) is None,
        find("v = v.isel(time="@ + tt + ")"@, "ccrs.Orthographic("@) is None,
        find("v = v.isel(time="@ + tt + ")"@, "projection="@) is None,
        find("v = v.isel(time="@ + tt + ")"@, ".contour("@) is None,
        find("v = v.isel(time="@ + tt + ")"@, ".contour "@) is None,
        find("v = v.isel(time="@ + tt + ")"@, ".quiver("@) is None,
        find("v = v.isel(time="@ + tt + ")"@, ".quiver "@) is None,
        find("v = v.isel(time="@ + tt + ")"@, ".streamplot("@) is None,
        find("v = v.isel(time="@ + tt + ")"@, ".streamplot "@) is None,
{
    reveal_strlit("v = v.isel(time=");
    reveal_strlit(")");
    reveal_strlit("ds[\"");
    reveal_strlit("cmap=\"");
    reveal_strlit("vmin=");
    reveal_strlit("vmax=");
    reveal_strlit("ccrs.Orthographic(");
    reveal_strlit("projection=");
    reveal_strlit(".contour(");
    reveal_strlit(".contour ");
    reveal_strlit(".quiver(");
    reveal_strlit(".quiver ");
    reveal_strlit(".streamplot(");
    reveal_strlit(".streamplot ");
    let t = "v = v.isel(time="@ + tt + ")"@;
    assert(lacks(t, '\n'));
    assert(lacks(t, '['));
    lemma_lacks_char(t, "ds[\""@, 2);
    assert(lacks(t, '\"'));
    lemma_lacks_char(t, "cmap=\""@, 5);
    assert(lacks_pair(t, 'n', '='));
    lemma_lacks_pair(t, "vmin="@, 3);
    assert(lacks_pair(t, 'x', '='));
    lemma_lacks_pair(t, "vmax="@, 3);
    assert(lacks_pair(t, 'c', '('));
    lemma_lacks_pair(t, "ccrs.Orthographic("@, 16);
    assert(lacks_pair(t, 'n', '='));
    lemma_lacks_pair(t, "projection="@, 9);
    assert(lacks_pair(t, 'r', '('));
    lemma_lacks_pair(t, ".contour("@, 7);
    assert(lacks_pair(t, 'r', ' '));
    lemma_lacks_pair(t, ".contour "@, 7);
    assert(lacks_pair(t, 'r', '('));
    lemma_lacks_pair(t, ".quiver("@, 6);
    assert(lacks_pair(t, 'r', ' '));
    lemma_lacks_pair(t, ".quiver "@, 6);
    assert(lacks_pair(t, 't', '('));
    lemma_lacks_pair(t, ".streamplot("@, 10);
    assert(lacks_pair(t, 't', ' '));
    lemma_lacks_pair(t, ".streamplot "@, 10);
}

/// In a component's level selection, only the selection pattern occurs.
proof fn lemma_v_isel_level_rest(ll: Seq<char>)
    requires
        inert(ll),
    ensures
        plain_line("v = v.isel(level="@ + ll + ")"@),
        find("v = v.isel(level="@ + ll + ")"@, "ds[\""@) is None,
        find("v = v.isel(level="@ + ll + ")"@, "cmap=\""@) is None,
        find("v = v.isel(level="@ + ll + ")"@, "vmin="@) is None,
        find("v = v.isel(level="@ + ll + ")"@, "vmax="@) is None,
        find("v = v.isel(level="@ + ll + ")"@, "ccrs.Orthographic("@) is None,
        find("v = v.isel(level="@ + ll + ")"@, "projection="@) is None,
        find("v = v.isel(level="@ + ll + ")"@, ".contour("@) is None,
        find("v = v.isel(level="@ + ll + ")"@, ".contour "@) is None,
        find("v = v.isel(level="@ + ll + ")"@, ".quiver("@) is None,
        find("v = v.isel(level="@ + ll + ")"@, ".quiver "@) is None,
        find("v = v.isel(level="@ + ll + ")"@, ".streamplot("@) is None,
        find("v = v.isel(level="@ + ll + ")"@, ".streamplot "@) is None,
{
    reveal_strlit("v = v.isel(level=");
    reveal_strlit(")");
    reveal_strlit("ds[\"");
    reveal_strlit("cmap=\"");
    reveal_strlit("vmin=");
    reveal_strlit("vmax=");
    reveal_strlit("ccrs.Orthographic(");
    reveal_strlit("projection=");
    reveal_strlit(".contour(");
    reveal_strlit(".contour ");
    reveal_strlit(".quiver(");
    reveal_strlit(".quiver ");
    reveal_strlit(".streamplot(");
    reveal_strlit(".streamplot ");
    let t = "v = v.isel(level="@ + ll + ")"@;
    assert(lacks(t, '\n'));
    assert(lacks(t, '['));
    lemma_lacks_char(t, "ds[\""@, 2);
    assert(lacks(t, '\"'));
    lemma_lacks_char(t, "cmap=\""@, 5);
    assert(lacks_pair(t, 'n', '='));
    lemma_lacks_pair(t, "vmin="@, 3);
    assert(lacks_pair(t, 'x', '='));
    lemma_lacks_pair(t, "vmax="@, 3);
    assert(lacks_pair(t, 'c', '('));
    lemma_lacks_pair(t, "ccrs.Orthographic("@, 16);
    assert(lacks_pair(t, 'n', '='));
    lemma_lacks_pair(t, "projection="@, 9);
    assert(lacks_pair(t, 'r', '('));
    lemma_lacks_pair(t, ".contour("@, 7);
    assert(lacks_pair(t, 'r', ' '));
    lemma_lacks_pair(t, ".contour "@, 7);
    assert(lacks_pair(t, 'r', '('));
    lemma_lacks_pair(t, ".quiver("@, 6);
    assert(lacks_pair(t, 'r', ' '));
    lemma_lacks_pair(t, ".quiver "@, 6);
    assert(lacks_pair(t, 't', '('));
    lemma_lacks_pair(t, ".streamplot("@, 10);
    assert(lacks_pair(t, 't', ' '));
    lemma_lacks_pair(t, ".streamplot "@, 10);
}

/// The selection pattern does not start before its place.
proof fn lemma_v_isel_prefix()
    ensures
        find("v = v.isel"@, ".isel("@) is None,
{
    reveal_strlit("v = v.isel");
    reveal_strlit(".isel(");
    let t = "v = v.isel"@;
    assert(lacks(t, '('));
    lemma_lacks_char(t, ".isel("@, 5);
}

/// The arrows line names no setting but the vectors.
proof fn lemma_quiver_rest(k: Seq<char>)
    requires
        all_digits(k),
        k.len() > 0,
    ensures
        plain_line("ax.quiver(u.lon[::"@ + k + "], u.lat[::"@ + k + "], u[::"@ + k + ",::"@ + k + " ], v[::"@ + k + ",::"@ + k + " ], transform=ccrs.PlateCarree())"@),
        find("ax.quiver(u.lon[::"@ + k + "], u.lat[::"@ + k + "], u[::"@ + k + ",::"@ + k + " ], v[::"@ + k + ",::"@ + k + " ], transform=ccrs.PlateCarree())"@, "ds[\""@) is None,
        find("ax.quiver(u.lon[::"@ + k + "], u.lat[::"@ + k + "], u[::"@ + k + ",::"@ + k + " ], v[::"@ + k + ",::"@ + k + " ], transform=ccrs.PlateCarree())"@, ".isel("@) is None,
        find("ax.quiver(u.lon[::"@ + k + "], u.lat[::"@ + k + "], u[::"@ + k + ",::"@ + k + " ], v[::"@ + k + ",::"@ + k + " ], transform=ccrs.PlateCarree())"@, "cmap=\""@) is None,
        find("ax.quiver(u.lon[::"@ + k + "], u.lat[::"@ + k + "], u[::"@ + k + ",::"@ + k + " ], v[::"@ + k + ",::"@ + k + " ], transform=ccrs.PlateCarree())"@, "vmin="@) is None,
        find("ax.quiver(u.lon[::"@ + k + "], u.lat[::"@ + k + "], u[::"@ + k + ",::"@ + k + " ], v[::"@ + k + ",::"@ + k + " ], transform=ccrs.PlateCarree())"@, "vmax="@) is None,
        find("ax.quiver(u.lon[::"@ + k + "], u.lat[::"@ + k + "], u[::"@ + k + ",::"@ + k + " ], v[::"@ + k + ",::"@ + k + " ], transform=ccrs.PlateCarree())"@, "ccrs.Orthographic("@) is None,
        find("ax.quiver(u.lon[::"@ + k + "], u.lat[::"@ + k + "], u[::"@ + k + ",::"@ + k + " ], v[::"@ + k + ",::"@ + k + " ], transform=ccrs.PlateCarree())"@, "projection="@) is None,
        find("ax.quiver(u.lon[::"@ + k + "], u.lat[::"@ + k + "], u[::"@ + k + ",::"@ + k + " ], v[::"@ + k + ",::"@ + k + " ], transform=ccrs.PlateCarree())"@, ".contour("@) is None,
        find("ax.quiver(u.lon[::"@ + k + "], u.lat[::"@ + k + "], u[::"@ + k + ",::"@ + k + " ], v[::"@ + k + ",::"@ + k + " ], transform=ccrs.PlateCarree())"@, ".contour "@) is None,
        find("ax.quiver(u.lon[::"@ + k + "], u.lat[::"@ + k + "], u[::"@ + k + ",::"@ + k + " ], v[::"@ + k + ",::"@ + k + " ], transform=ccrs.PlateCarree())"@, ".streamplot("@) is None,
        find("ax.quiver(u.lon[::"@ + k + "], u.lat[::"@ + k + "], u[::"@ + k + ",::"@ + k + " ], v[::"@ + k + ",::"@ + k + " ], transform=ccrs.PlateCarree())"@, ".streamplot "@) is None,
{
    reveal_strlit("ax.quiver(u.lon[::");
    reveal_strlit("], u.lat[::");
    reveal_strlit("], u[::");
    reveal_strlit(",::");
    reveal_strlit(" ], v[::");
    reveal_strlit(",::");
    reveal_strlit(" ], transform=ccrs.PlateCarree())");
    reveal_strlit("ds[\"");
    reveal_strlit(".isel(");
    reveal_strlit("cmap=\"");
    reveal_strlit("vmin=");
    reveal_strlit("vmax=");
    reveal_strlit("ccrs.Orthographic(");
    reveal_strlit("projection=");
    reveal_strlit(".contour(");
    reveal_strlit(".contour ");
    reveal_strlit(".streamplot(");
    reveal_strlit(".streamplot ");
    let t = "ax.quiver(u.lon[::"@ + k + "], u.lat[::"@ + k + "], u[::"@ + k + ",::"@ + k + " ], v[::"@ + k + ",::"@ + k + " ], transform=ccrs.PlateCarree())"@;
    assert(lacks(t, '\n'));
    assert(lacks(t, 'd'));
    lemma_lacks_char(t, "ds[\""@, 0);
    assert(lacks_pair(t, '.', 'i'));
    lemma_lacks_pair(t, ".isel("@, 0);
    assert(lacks(t, 'p'));
    lemma_lacks_char(t, "cmap=\""@, 3);
    assert(lacks_pair(t, 'v', 'm'));
    lemma_lacks_pair(t, "vmin="@, 0);
    assert(lacks_pair(t, 'v', 'm'));
    lemma_lacks_pair(t, "vmax="@, 0);
    assert(lacks(t, 'O'));
    lemma_lacks_char(t, "ccrs.Orthographic("@, 5);
    assert(lacks(t, 'p'));
    lemma_lacks_char(t, "projection="@, 0);
    assert(lacks_pair(t, '.', 'c'));
    lemma_lacks_pair(t, ".contour("@, 0);
    assert(lacks_pair(t, '.', 'c'));
    lemma_lacks_pair(t, ".contour "@, 0);
    assert(lacks(t, 'p'));
    lemma_lacks_char(t, ".streamplot("@, 7);
    assert(lacks(t, 'p'));
    lemma_lacks_char(t, ".streamplot "@, 7);
}

/// A fixed line of the script, which sets nothing.
proof fn lemma_fixed_line_20()
    ensures
        plain_line("# Vector overlay"@),
        silent("# Vector overlay"@),
{
    reveal_strlit("# Vector overlay");
    reveal_strlit("ds[\"");
    reveal_strlit(".isel(");
    reveal_strlit("cmap=\"");
    reveal_strlit("vmin=");
    reveal_strlit("vmax=");
    reveal_strlit("ccrs.Orthographic(");
    reveal_strlit("projection=");
    reveal_strlit(".contour(");
    reveal_strlit(".contour ");
    reveal_strlit(".quiver(");
    reveal_strlit(".quiver ");
    reveal_strlit(".streamplot(");
    reveal_strlit(".streamplot ");
    let t = "# Vector overlay"@;
    assert(lacks(t, '\n'));
    assert(lacks(t, 'd'));
    lemma_lacks_char(t, "ds[\""@, 0);
    assert(lacks(t, '.'));
    lemma_lacks_char(t, ".isel("@, 0);
    assert(lacks(t, 'm'));
    lemma_lacks_char(t, "cmap=\""@, 1);
    assert(lacks(t, 'm'));
    lemma_lacks_char(t, "vmin="@, 1);
    assert(lacks(t, 'm'));
    lemma_lacks_char(t, "vmax="@, 1);
    assert(lacks(t, 's'));
    lemma_lacks_char(t, "ccrs.Orthographic("@, 3);
    assert(lacks(t, 'p'));
    lemma_lacks_char(t, "projection="@, 0);
    assert(lacks(t, '.'));
    lemma_lacks_char(t, ".contour("@, 0);
    assert(lacks(t, '.'));
    lemma_lacks_char(t, ".contour "@, 0);
    assert(lacks(t, '.'));
    lemma_lacks_char(t, ".quiver("@, 0);
    assert(lacks(t, '.'));
    lemma_lacks_char(t, ".quiver "@, 0);
    assert(lacks(t, '.'));
    lemma_lacks_char(t, ".streamplot("@, 0);
    assert(lacks(t, '.'));
    lemma_lacks_char(t, ".streamplot "@, 0);
}


} // verus!
