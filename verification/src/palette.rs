//! The command palette: matching typed input against the known commands and
//! the variables of the active file, and carrying out a chosen command.
use vstd::prelude::*;

use crate::data::{active_file_of, active_open_file, opt_view, DataStore, VariableInfo};
use crate::export::{ExportFormat, ExportSettings};
use crate::numeric::{decimal, usize_to_chars};
use crate::settings::{
    colormap_named, name_to_colormap, name_to_projection, name_to_view_mode, projection_named,
    after_selection, select_variable_named, selection_for, view_mode_named,
};
use crate::text::{
    char_index, char_index_exec, chars_of, contains, contains_exec, push_chars, push_str,
    to_lowercase, unicode_lower,
};
use crate::ui::{colormap_label, view_mode_debug, Colormap, MapProjection, UiState, ViewMode};

verus! {

broadcast use vstd::string::group_string_axioms;

/// What a palette command does.
#[derive(Debug)]
pub enum PaletteAction {
    SetVariable(String),
    SetColormap(String),
    SetViewMode(String),
    SetProjection(String),
    SetTimeIndex(usize),
    SetLevelIndex(usize),
    ToggleContours,
    ToggleVectors,
    ToggleStreamlines,
    ToggleWavenumberFilter,
    ExportPng,
    ExportGif,
}

/// A command offered by the palette.
#[derive(Debug)]
pub struct PaletteCommand {
    pub icon: &'static str,
    pub label: String,
    pub action: PaletteAction,
}

/// The model of a `PaletteAction`.
pub enum Act {
    SetVariable(Seq<char>),
    SetColormap(Seq<char>),
    SetViewMode(Seq<char>),
    SetProjection(Seq<char>),
    SetTimeIndex(usize),
    SetLevelIndex(usize),
    ToggleContours,
    ToggleVectors,
    ToggleStreamlines,
    ToggleWavenumberFilter,
    ExportPng,
    ExportGif,
}

impl View for PaletteAction {
    type V = Act;

    open spec fn view(&self) -> Act {
        match *self {
            PaletteAction::SetVariable(s) => Act::SetVariable(s@),
            PaletteAction::SetColormap(s) => Act::SetColormap(s@),
            PaletteAction::SetViewMode(s) => Act::SetViewMode(s@),
            PaletteAction::SetProjection(s) => Act::SetProjection(s@),
            PaletteAction::SetTimeIndex(t) => Act::SetTimeIndex(t),
            PaletteAction::SetLevelIndex(l) => Act::SetLevelIndex(l),
            PaletteAction::ToggleContours => Act::ToggleContours,
            PaletteAction::ToggleVectors => Act::ToggleVectors,
            PaletteAction::ToggleStreamlines => Act::ToggleStreamlines,
            PaletteAction::ToggleWavenumberFilter => Act::ToggleWavenumberFilter,
            PaletteAction::ExportPng => Act::ExportPng,
            PaletteAction::ExportGif => Act::ExportGif,
        }
    }
}

/// The model of a `PaletteCommand`.
pub struct Command {
    pub icon: Seq<char>,
    pub label: Seq<char>,
    pub action: Act,
}

impl View for PaletteCommand {
    type V = Command;

    open spec fn view(&self) -> Command {
        Command { icon: self.icon@, label: self.label@, action: self.action@ }
    }
}

impl PaletteAction {
    /// A copy of this action.
    pub fn duplicate(&self) -> (r: PaletteAction)
        ensures
            r@ == self@,
    {
        match self {
            PaletteAction::SetVariable(s) => PaletteAction::SetVariable(s.clone()),
            PaletteAction::SetColormap(s) => PaletteAction::SetColormap(s.clone()),
            PaletteAction::SetViewMode(s) => PaletteAction::SetViewMode(s.clone()),
            PaletteAction::SetProjection(s) => PaletteAction::SetProjection(s.clone()),
            PaletteAction::SetTimeIndex(t) => PaletteAction::SetTimeIndex(*t),
            PaletteAction::SetLevelIndex(l) => PaletteAction::SetLevelIndex(*l),
            PaletteAction::ToggleContours => PaletteAction::ToggleContours,
            PaletteAction::ToggleVectors => PaletteAction::ToggleVectors,
            PaletteAction::ToggleStreamlines => PaletteAction::ToggleStreamlines,
            PaletteAction::ToggleWavenumberFilter => PaletteAction::ToggleWavenumberFilter,
            PaletteAction::ExportPng => PaletteAction::ExportPng,
            PaletteAction::ExportGif => PaletteAction::ExportGif,
        }
    }
}

// ---------------------------------------------------------------------------
// Fuzzy matching
// ---------------------------------------------------------------------------

/// The non-space characters of `input` occur in `target` in order, each
/// matched at the first occurrence after the previous match.
pub open spec fn fuzzy(input: Seq<char>, target: Seq<char>) -> bool
    decreases input.len(),
{
    if input.len() == 0 {
        true
    } else if input[0] == ' ' {
        fuzzy(input.drop_first(), target)
    } else {
        match char_index(target, input[0]) {
            Some(k) => fuzzy(input.drop_first(), target.skip(k + 1)),
            None => false,
        }
    }
}

fn fuzzy_chars(input: &[char], target: &[char]) -> (r: bool)
    ensures
        r == fuzzy(input@, target@),
{
    let n = input.len();
    let m = target.len();
    let mut i: usize = 0;
    let mut pos: usize = 0;
    assert(input@.skip(0) =~= input@);
    assert(target@.skip(0) =~= target@);
    while i < n
        invariant
            n == input@.len(),
            m == target@.len(),
            i <= n,
            pos <= m,
            fuzzy(input@, target@) == fuzzy(input@.skip(i as int), target@.skip(pos as int)),
        decreases n - i,
    {
        let ghost a = input@.skip(i as int);
        let ghost t = target@.skip(pos as int);
        assert(a.drop_first() =~= input@.skip(i + 1));
        assert(a[0] == input@[i as int]);
        let c = input[i];
        if c != ' ' {
            let rest = crate::text::sub_chars(target, pos, m);
            assert(rest@ =~= t);
            match char_index_exec(rest.as_slice(), c) {
                Some(k) => {
                    proof {
                        crate::text::lemma_char_index(t, c);
                    }
                    assert(t.skip(k + 1) =~= target@.skip(pos + k + 1));
                    pos = pos + k + 1;
                },
                None => {
                    return false;
                },
            }
        }
        i = i + 1;
    }
    assert(input@.skip(i as int).len() == 0);
    true
}

/// Whether the non-space characters of `input` occur in `target` in order.
pub fn fuzzy_match(input: &str, target: &str) -> (r: bool)
    ensures
        r == fuzzy(input@, target@),
{
    let a = chars_of(input);
    let b = chars_of(target);
    fuzzy_chars(a.as_slice(), b.as_slice())
}

/// A text matches every text that ends with it, whatever comes before.
pub proof fn lemma_fuzzy_suffix(a: Seq<char>, p: Seq<char>)
    ensures
        fuzzy(a, p + a),
    decreases a.len(),
{
    if a.len() > 0 {
        let c = a[0];
        let a1 = a.drop_first();
        if c == ' ' {
            assert(p + a =~= (p + seq![' ']) + a1);
            lemma_fuzzy_suffix(a1, p + seq![' ']);
        } else {
            let t = p + a;
            crate::text::lemma_char_index(t, c);
            assert(t[p.len() as int] == c);
            let k = char_index(t, c)->0;
            assert(k <= p.len());
            if k < p.len() {
                assert(t.skip(k + 1) =~= (p.skip(k + 1) + seq![c]) + a1);
                lemma_fuzzy_suffix(a1, p.skip(k + 1) + seq![c]);
            } else {
                assert(t.skip(k + 1) =~= Seq::<char>::empty() + a1);
                lemma_fuzzy_suffix(a1, Seq::<char>::empty());
            }
        }
    }
}

/// Every input matches itself.
pub proof fn lemma_fuzzy_reflexive(s: Seq<char>)
    ensures
        fuzzy(s, s),
{
    lemma_fuzzy_suffix(s, Seq::<char>::empty());
    assert(Seq::<char>::empty() + s =~= s);
}

// ---------------------------------------------------------------------------
// The commands
// ---------------------------------------------------------------------------

/// A static command: its keyword, icon, label and action.
pub type Entry = (Seq<char>, Seq<char>, Seq<char>, Act);

/// The commands that are always offered.
pub open spec fn static_table() -> Seq<Entry> {
    seq![
        ("globe"@, "🌐"@, "Switch to Globe view"@, Act::SetViewMode("Globe"@)),
        ("map"@, "🗺"@, "Switch to Map view"@, Act::SetViewMode("Map"@)),
        ("hovmoller"@, "📊"@, "Switch to Hovmoller view"@, Act::SetViewMode("Hovmoller"@)),
        ("spectrum"@, "📈"@, "Switch to Spectrum view"@, Act::SetViewMode("Spectrum"@)),
        ("section"@, "🔪"@, "Switch to CrossSection view"@, Act::SetViewMode("CrossSection"@)),
        ("profile"@, "📍"@, "Switch to Profile view"@, Act::SetViewMode("Profile"@)),
        ("viridis"@, "🎨"@, "Set colormap: Viridis"@, Act::SetColormap("Viridis"@)),
        ("rdbu"@, "🎨"@, "Set colormap: RdBu_r"@, Act::SetColormap("RdBu_r"@)),
        ("plasma"@, "🎨"@, "Set colormap: Plasma"@, Act::SetColormap("Plasma"@)),
        ("inferno"@, "🎨"@, "Set colormap: Inferno"@, Act::SetColormap("Inferno"@)),
        ("magma"@, "🎨"@, "Set colormap: Magma"@, Act::SetColormap("Magma"@)),
        ("cividis"@, "🎨"@, "Set colormap: Cividis"@, Act::SetColormap("Cividis"@)),
        ("turbo"@, "🎨"@, "Set colormap: Turbo"@, Act::SetColormap("Turbo"@)),
        ("coolwarm"@, "🎨"@, "Set colormap: Coolwarm"@, Act::SetColormap("Coolwarm"@)),
        ("spectral colormap"@, "🎨"@, "Set colormap: Spectral"@, Act::SetColormap("Spectral"@)),
        ("brbg"@, "🎨"@, "Set colormap: BrBG"@, Act::SetColormap("BrBG"@)),
        ("equirect"@, "🗺"@, "Projection: Equirectangular"@, Act::SetProjection("Equirectangular"@)),
        ("mollweide"@, "🗺"@, "Projection: Mollweide"@, Act::SetProjection("Mollweide"@)),
        ("polar north"@, "🗺"@, "Projection: Polar North"@, Act::SetProjection("PolarNorth"@)),
        ("polar south"@, "🗺"@, "Projection: Polar South"@, Act::SetProjection("PolarSouth"@)),
        ("contour"@, "📐"@, "Toggle contour lines"@, Act::ToggleContours),
        ("vector"@, "➡"@, "Toggle vector overlay"@, Act::ToggleVectors),
        ("streamline"@, "🌊"@, "Toggle streamlines"@, Act::ToggleStreamlines),
        ("wavenumber"@, "🔬"@, "Toggle wavenumber filter"@, Act::ToggleWavenumberFilter),
        ("export png"@, "💾"@, "Export as PNG"@, Act::ExportPng),
        ("export gif"@, "🎬"@, "Export as GIF"@, Act::ExportGif),
    ]
}

/// The words a projection command's label names a projection by.
pub open spec fn projection_words(p: MapProjection) -> Seq<char> {
    match p {
        MapProjection::Equirectangular => "Equirectangular"@,
        MapProjection::Mollweide => "Mollweide"@,
        MapProjection::PolarNorth => "Polar North"@,
        MapProjection::PolarSouth => "Polar South"@,
    }
}

/// The label of the command that switches to projection `p`.
pub open spec fn projection_label(p: MapProjection) -> Seq<char> {
    "Projection: "@ + projection_words(p)
}

proof fn lemma_texts_differ_at(a: Seq<char>, b: Seq<char>, k: int)
    requires
        0 <= k < a.len(),
        0 <= k < b.len(),
        a[k] != b[k],
    ensures
        a != b,
{
}

proof fn lemma_static_labels()
    ensures
        static_table()[0].2 == "Switch to Globe view"@,
        static_table()[1].2 == "Switch to Map view"@,
        static_table()[2].2 == "Switch to Hovmoller view"@,
        static_table()[3].2 == "Switch to Spectrum view"@,
        static_table()[4].2 == "Switch to CrossSection view"@,
        static_table()[5].2 == "Switch to Profile view"@,
        static_table()[6].2 == "Set colormap: Viridis"@,
        static_table()[7].2 == "Set colormap: RdBu_r"@,
        static_table()[8].2 == "Set colormap: Plasma"@,
        static_table()[9].2 == "Set colormap: Inferno"@,
        static_table()[10].2 == "Set colormap: Magma"@,
        static_table()[11].2 == "Set colormap: Cividis"@,
        static_table()[12].2 == "Set colormap: Turbo"@,
        static_table()[13].2 == "Set colormap: Coolwarm"@,
        static_table()[14].2 == "Set colormap: Spectral"@,
        static_table()[15].2 == "Set colormap: BrBG"@,
        static_table()[16].2 == "Projection: Equirectangular"@,
        static_table()[17].2 == "Projection: Mollweide"@,
        static_table()[18].2 == "Projection: Polar North"@,
        static_table()[19].2 == "Projection: Polar South"@,
        static_table()[20].2 == "Toggle contour lines"@,
        static_table()[21].2 == "Toggle vector overlay"@,
        static_table()[22].2 == "Toggle streamlines"@,
        static_table()[23].2 == "Toggle wavenumber filter"@,
        static_table()[24].2 == "Export as PNG"@,
        static_table()[25].2 == "Export as GIF"@,
{
    reveal_strlit("Switch to Globe view");
    reveal_strlit("Switch to Map view");
    reveal_strlit("Switch to Hovmoller view");
    reveal_strlit("Switch to Spectrum view");
    reveal_strlit("Switch to CrossSection view");
    reveal_strlit("Switch to Profile view");
    reveal_strlit("Set colormap: Viridis");
    reveal_strlit("Set colormap: RdBu_r");
    reveal_strlit("Set colormap: Plasma");
    reveal_strlit("Set colormap: Inferno");
    reveal_strlit("Set colormap: Magma");
    reveal_strlit("Set colormap: Cividis");
    reveal_strlit("Set colormap: Turbo");
    reveal_strlit("Set colormap: Coolwarm");
    reveal_strlit("Set colormap: Spectral");
    reveal_strlit("Set colormap: BrBG");
    reveal_strlit("Projection: Equirectangular");
    reveal_strlit("Projection: Mollweide");
    reveal_strlit("Projection: Polar North");
    reveal_strlit("Projection: Polar South");
    reveal_strlit("Toggle contour lines");
    reveal_strlit("Toggle vector overlay");
    reveal_strlit("Toggle streamlines");
    reveal_strlit("Toggle wavenumber filter");
    reveal_strlit("Export as PNG");
    reveal_strlit("Export as GIF");
}

/// Every static command labelled "Projection: <P>" switches to the
/// projection <P> names: its action is `SetProjection` with a name that
/// selects that projection (the "Polar South" command selects
/// `PolarSouth`, and so on).
pub proof fn lemma_projection_commands_select_their_projection(i: int, p: MapProjection)
    requires
        0 <= i < static_table().len(),
        static_table()[i].2 == projection_label(p),
    ensures
        static_table()[i].3 matches Act::SetProjection(n) && projection_named(n) == Some(p),
{
    lemma_static_labels();
    reveal_strlit("Switch to Globe view");
    reveal_strlit("Switch to Map view");
    reveal_strlit("Switch to Hovmoller view");
    reveal_strlit("Switch to Spectrum view");
    reveal_strlit("Switch to CrossSection view");
    reveal_strlit("Switch to Profile view");
    reveal_strlit("Set colormap: Viridis");
    reveal_strlit("Set colormap: RdBu_r");
    reveal_strlit("Set colormap: Plasma");
    reveal_strlit("Set colormap: Inferno");
    reveal_strlit("Set colormap: Magma");
    reveal_strlit("Set colormap: Cividis");
    reveal_strlit("Set colormap: Turbo");
    reveal_strlit("Set colormap: Coolwarm");
    reveal_strlit("Set colormap: Spectral");
    reveal_strlit("Set colormap: BrBG");
    reveal_strlit("Projection: Equirectangular");
    reveal_strlit("Projection: Mollweide");
    reveal_strlit("Projection: Polar North");
    reveal_strlit("Projection: Polar South");
    reveal_strlit("Toggle contour lines");
    reveal_strlit("Toggle vector overlay");
    reveal_strlit("Toggle streamlines");
    reveal_strlit("Toggle wavenumber filter");
    reveal_strlit("Export as PNG");
    reveal_strlit("Export as GIF");
    reveal_strlit("Projection: ");
    reveal_strlit("Equirectangular");
    reveal_strlit("Mollweide");
    reveal_strlit("Polar North");
    reveal_strlit("Polar South");
    reveal_strlit("PolarNorth");
    reveal_strlit("PolarSouth");
    let l = static_table()[i].2;
    let target = projection_label(p);
    assert(target[0] == 'P');
    if i < 16 || i >= 20 {
        assert(l[0] != 'P');
        lemma_texts_differ_at(l, target, 0);
    } else {
        crate::settings::lemma_projection_name_selects(p);
        assert(target.len() == 12 + projection_words(p).len());
        if i == 18 || i == 19 {
            assert(l[18] == (if i == 18 { 'N' } else { 'S' }));
            if p == MapProjection::PolarNorth || p == MapProjection::PolarSouth {
                assert(target[18] == projection_words(p)[6]);
            }
        }
    }
}

/// The label of the command that switches to view `m`.
pub open spec fn view_label(m: ViewMode) -> Seq<char> {
    "Switch to "@ + view_mode_debug(m) + " view"@
}

/// Every static command labelled "Switch to <V> view" switches to the view
/// <V> names: its action is `SetViewMode` with a name that selects it.
pub proof fn lemma_view_commands_select_their_view(i: int, m: ViewMode)
    requires
        0 <= i < static_table().len(),
        static_table()[i].2 == view_label(m),
    ensures
        static_table()[i].3 matches Act::SetViewMode(n) && view_mode_named(n) == Some(m),
{
    lemma_static_labels();
    reveal_strlit("Switch to Globe view");
    reveal_strlit("Switch to Map view");
    reveal_strlit("Switch to Hovmoller view");
    reveal_strlit("Switch to Spectrum view");
    reveal_strlit("Switch to CrossSection view");
    reveal_strlit("Switch to Profile view");
    reveal_strlit("Set colormap: Viridis");
    reveal_strlit("Set colormap: RdBu_r");
    reveal_strlit("Set colormap: Plasma");
    reveal_strlit("Set colormap: Inferno");
    reveal_strlit("Set colormap: Magma");
    reveal_strlit("Set colormap: Cividis");
    reveal_strlit("Set colormap: Turbo");
    reveal_strlit("Set colormap: Coolwarm");
    reveal_strlit("Set colormap: Spectral");
    reveal_strlit("Set colormap: BrBG");
    reveal_strlit("Projection: Equirectangular");
    reveal_strlit("Projection: Mollweide");
    reveal_strlit("Projection: Polar North");
    reveal_strlit("Projection: Polar South");
    reveal_strlit("Toggle contour lines");
    reveal_strlit("Toggle vector overlay");
    reveal_strlit("Toggle streamlines");
    reveal_strlit("Toggle wavenumber filter");
    reveal_strlit("Export as PNG");
    reveal_strlit("Export as GIF");
    reveal_strlit("Switch to ");
    reveal_strlit(" view");
    reveal_strlit("Globe");
    reveal_strlit("Map");
    reveal_strlit("Hovmoller");
    reveal_strlit("Spectrum");
    reveal_strlit("CrossSection");
    reveal_strlit("Profile");
    let l = static_table()[i].2;
    let target = view_label(m);
    assert(target[0] == 'S' && target[1] == 'w');
    assert(target.len() == 15 + view_mode_debug(m).len());
    if i >= 6 {
        if 6 <= i < 16 {
            assert(l[1] != 'w');
            lemma_texts_differ_at(l, target, 1);
        } else {
            assert(l[0] != 'S');
            lemma_texts_differ_at(l, target, 0);
        }
    } else {
        crate::settings::lemma_view_mode_name_selects(m);
    }
}

/// The label of the command that selects colormap `c`.
pub open spec fn colormap_command_label(c: Colormap) -> Seq<char> {
    "Set colormap: "@ + colormap_label(c)
}

/// Every static command labelled "Set colormap: <C>" selects the colormap
/// <C> names: its action is `SetColormap` with a name that selects it.
pub proof fn lemma_colormap_commands_select_their_colormap(i: int, c: Colormap)
    requires
        0 <= i < static_table().len(),
        static_table()[i].2 == colormap_command_label(c),
    ensures
        static_table()[i].3 matches Act::SetColormap(n) && colormap_named(n) == Some(c),
{
    lemma_static_labels();
    reveal_strlit("Switch to Globe view");
    reveal_strlit("Switch to Map view");
    reveal_strlit("Switch to Hovmoller view");
    reveal_strlit("Switch to Spectrum view");
    reveal_strlit("Switch to CrossSection view");
    reveal_strlit("Switch to Profile view");
    reveal_strlit("Set colormap: Viridis");
    reveal_strlit("Set colormap: RdBu_r");
    reveal_strlit("Set colormap: Plasma");
    reveal_strlit("Set colormap: Inferno");
    reveal_strlit("Set colormap: Magma");
    reveal_strlit("Set colormap: Cividis");
    reveal_strlit("Set colormap: Turbo");
    reveal_strlit("Set colormap: Coolwarm");
    reveal_strlit("Set colormap: Spectral");
    reveal_strlit("Set colormap: BrBG");
    reveal_strlit("Projection: Equirectangular");
    reveal_strlit("Projection: Mollweide");
    reveal_strlit("Projection: Polar North");
    reveal_strlit("Projection: Polar South");
    reveal_strlit("Toggle contour lines");
    reveal_strlit("Toggle vector overlay");
    reveal_strlit("Toggle streamlines");
    reveal_strlit("Toggle wavenumber filter");
    reveal_strlit("Export as PNG");
    reveal_strlit("Export as GIF");
    reveal_strlit("Set colormap: ");
    reveal_strlit("Viridis");
    reveal_strlit("RdBu_r");
    reveal_strlit("Plasma");
    reveal_strlit("Inferno");
    reveal_strlit("Magma");
    reveal_strlit("Cividis");
    reveal_strlit("Turbo");
    reveal_strlit("Coolwarm");
    reveal_strlit("Spectral");
    reveal_strlit("BrBG");
    let l = static_table()[i].2;
    let target = colormap_command_label(c);
    assert(target[0] == 'S' && target[1] == 'e');
    assert(target.len() == 14 + colormap_label(c).len());
    assert(target[14] == colormap_label(c)[0]);
    if i < 6 {
        assert(l[1] != 'e');
        lemma_texts_differ_at(l, target, 1);
    } else if i >= 16 {
        assert(l[0] != 'S');
        lemma_texts_differ_at(l, target, 0);
    } else {
        crate::settings::lemma_colormap_label_selects(c);
        if l.len() == target.len() && l[14] != target[14] {
            lemma_texts_differ_at(l, target, 14);
        }
    }
}

/// The toggle commands flip what they name: "Toggle contour lines" the
/// contours, "Toggle vector overlay" the vector overlay, "Toggle
/// streamlines" the streamlines, "Toggle wavenumber filter" the filter.
pub proof fn lemma_toggle_commands_flip_what_they_name(i: int, ui: UiState, ds: DataStore)
    requires
        0 <= i < static_table().len(),
    ensures
        static_table()[i].2 == "Toggle contour lines"@ ==> action_ui(static_table()[i].3, ui, ds).0.contour_enabled
            == !ui.contour_enabled,
        static_table()[i].2 == "Toggle vector overlay"@ ==> action_ui(static_table()[i].3, ui, ds).0.vector_overlay_enabled
            == !ui.vector_overlay_enabled,
        static_table()[i].2 == "Toggle streamlines"@ ==> action_ui(static_table()[i].3, ui, ds).0.streamline_enabled
            == !ui.streamline_enabled,
        static_table()[i].2 == "Toggle wavenumber filter"@ ==> action_ui(static_table()[i].3, ui, ds).0.wavenumber_filter_enabled
            == !ui.wavenumber_filter_enabled,
{
    lemma_static_labels();
    reveal_strlit("Switch to Globe view");
    reveal_strlit("Switch to Map view");
    reveal_strlit("Switch to Hovmoller view");
    reveal_strlit("Switch to Spectrum view");
    reveal_strlit("Switch to CrossSection view");
    reveal_strlit("Switch to Profile view");
    reveal_strlit("Set colormap: Viridis");
    reveal_strlit("Set colormap: RdBu_r");
    reveal_strlit("Set colormap: Plasma");
    reveal_strlit("Set colormap: Inferno");
    reveal_strlit("Set colormap: Magma");
    reveal_strlit("Set colormap: Cividis");
    reveal_strlit("Set colormap: Turbo");
    reveal_strlit("Set colormap: Coolwarm");
    reveal_strlit("Set colormap: Spectral");
    reveal_strlit("Set colormap: BrBG");
    reveal_strlit("Projection: Equirectangular");
    reveal_strlit("Projection: Mollweide");
    reveal_strlit("Projection: Polar North");
    reveal_strlit("Projection: Polar South");
    reveal_strlit("Toggle contour lines");
    reveal_strlit("Toggle vector overlay");
    reveal_strlit("Toggle streamlines");
    reveal_strlit("Toggle wavenumber filter");
    reveal_strlit("Export as PNG");
    reveal_strlit("Export as GIF");
    let l = static_table()[i].2;
    assert("Toggle contour lines"@.len() == 20);
    assert("Toggle vector overlay"@.len() == 21);
    assert("Toggle streamlines"@.len() == 18);
    assert("Toggle wavenumber filter"@.len() == 24);
    if i < 20 || i >= 24 {
        assert(l[0] != 'T');
        assert(l.len() >= 1);
        lemma_texts_differ_at(l, "Toggle contour lines"@, 0);
        lemma_texts_differ_at(l, "Toggle vector overlay"@, 0);
        lemma_texts_differ_at(l, "Toggle streamlines"@, 0);
        lemma_texts_differ_at(l, "Toggle wavenumber filter"@, 0);
    } else {
        assert(l.len() == [20int, 21, 18, 24][i - 20]);
    }
}

/// The models of the static command table.
pub open spec fn table_view(t: Seq<(&str, &str, &str, PaletteAction)>) -> Seq<Entry> {
    t.map_values(|e: (&str, &str, &str, PaletteAction)| (e.0@, e.1@, e.2@, e.3@))
}

fn static_commands() -> (r: Vec<(&'static str, &'static str, &'static str, PaletteAction)>)
    ensures
        table_view(r@) == static_table(),
{
    let r: Vec<(&'static str, &'static str, &'static str, PaletteAction)> = vec![
        ("globe", "🌐", "Switch to Globe view", PaletteAction::SetViewMode("Globe".to_owned())),
        ("map", "🗺", "Switch to Map view", PaletteAction::SetViewMode("Map".to_owned())),
        ("hovmoller", "📊", "Switch to Hovmoller view", PaletteAction::SetViewMode("Hovmoller".to_owned())),
        ("spectrum", "📈", "Switch to Spectrum view", PaletteAction::SetViewMode("Spectrum".to_owned())),
        ("section", "🔪", "Switch to CrossSection view", PaletteAction::SetViewMode("CrossSection".to_owned())),
        ("profile", "📍", "Switch to Profile view", PaletteAction::SetViewMode("Profile".to_owned())),
        ("viridis", "🎨", "Set colormap: Viridis", PaletteAction::SetColormap("Viridis".to_owned())),
        ("rdbu", "🎨", "Set colormap: RdBu_r", PaletteAction::SetColormap("RdBu_r".to_owned())),
        ("plasma", "🎨", "Set colormap: Plasma", PaletteAction::SetColormap("Plasma".to_owned())),
        ("inferno", "🎨", "Set colormap: Inferno", PaletteAction::SetColormap("Inferno".to_owned())),
        ("magma", "🎨", "Set colormap: Magma", PaletteAction::SetColormap("Magma".to_owned())),
        ("cividis", "🎨", "Set colormap: Cividis", PaletteAction::SetColormap("Cividis".to_owned())),
        ("turbo", "🎨", "Set colormap: Turbo", PaletteAction::SetColormap("Turbo".to_owned())),
        ("coolwarm", "🎨", "Set colormap: Coolwarm", PaletteAction::SetColormap("Coolwarm".to_owned())),
        ("spectral colormap", "🎨", "Set colormap: Spectral", PaletteAction::SetColormap("Spectral".to_owned())),
        ("brbg", "🎨", "Set colormap: BrBG", PaletteAction::SetColormap("BrBG".to_owned())),
        ("equirect", "🗺", "Projection: Equirectangular", PaletteAction::SetProjection("Equirectangular".to_owned())),
        ("mollweide", "🗺", "Projection: Mollweide", PaletteAction::SetProjection("Mollweide".to_owned())),
        ("polar north", "🗺", "Projection: Polar North", PaletteAction::SetProjection("PolarNorth".to_owned())),
        ("polar south", "🗺", "Projection: Polar South", PaletteAction::SetProjection("PolarSouth".to_owned())),
        ("contour", "📐", "Toggle contour lines", PaletteAction::ToggleContours),
        ("vector", "➡", "Toggle vector overlay", PaletteAction::ToggleVectors),
        ("streamline", "🌊", "Toggle streamlines", PaletteAction::ToggleStreamlines),
        ("wavenumber", "🔬", "Toggle wavenumber filter", PaletteAction::ToggleWavenumberFilter),
        ("export png", "💾", "Export as PNG", PaletteAction::ExportPng),
        ("export gif", "🎬", "Export as GIF", PaletteAction::ExportGif),
    ];
    assert(table_view(r@) =~= static_table());
    r
}

/// A keyword matches the lowercased input when either contains the other,
/// or the input fuzzily matches the keyword.
pub open spec fn keyword_hit(kw: Seq<char>, input: Seq<char>) -> bool {
    contains(kw, input) || contains(input, kw) || fuzzy(input, kw)
}

/// The static commands whose keyword matches, in table order.
pub open spec fn static_hits(table: Seq<Entry>, input: Seq<char>) -> Seq<Command>
    decreases table.len(),
{
    if table.len() == 0 {
        seq![]
    } else {
        let e = table.last();
        static_hits(table.drop_last(), input) + (if keyword_hit(e.0, input) {
            seq![Command { icon: e.1, label: e.2, action: e.3 }]
        } else {
            seq![]
        })
    }
}

/// The command that selects a variable.
pub open spec fn variable_command(name: Seq<char>) -> Command {
    Command { icon: "🔍"@, label: "Select variable: "@ + name, action: Act::SetVariable(name) }
}

/// The variables whose lowercased name contains the input or is contained in it.
pub open spec fn variable_hits(vars: Seq<VariableInfo>, input: Seq<char>) -> Seq<Command>
    decreases vars.len(),
{
    if vars.len() == 0 {
        seq![]
    } else {
        let v = vars.last();
        let l = unicode_lower(v.name@);
        variable_hits(vars.drop_last(), input) + (if contains(l, input) || contains(input, l) {
            seq![variable_command(v.name@)]
        } else {
            seq![]
        })
    }
}

/// The commands offered for `input`: the matching static commands, then the
/// matching variables of the active file, at most eight in all.
pub open spec fn palette_matches(input: Seq<char>, ds: DataStore) -> Seq<Command> {
    lowered_matches(unicode_lower(input), ds)
}

/// The commands offered for an input already in lower case.
pub open spec fn lowered_matches(lower: Seq<char>, ds: DataStore) -> Seq<Command> {
    let all = static_hits(static_table(), lower) + match active_open_file(ds) {
        Some(f) => variable_hits(f.variables@, lower),
        None => seq![],
    };
    if all.len() > 8 {
        all.take(8)
    } else {
        all
    }
}

/// The palette never offers more than eight commands.
pub proof fn lemma_at_most_eight(input: Seq<char>, ds: DataStore)
    ensures
        palette_matches(input, ds).len() <= 8,
{
}

/// The models of a list of commands.
pub open spec fn commands_view(v: Seq<PaletteCommand>) -> Seq<Command> {
    v.map_values(|c: PaletteCommand| c@)
}

fn push_command(v: &mut Vec<PaletteCommand>, c: PaletteCommand)
    ensures
        commands_view(final(v)@) == commands_view(old(v)@).push(c@),
{
    let ghost cv = c@;
    v.push(c);
    assert(commands_view(v@) =~= commands_view(old(v)@).push(cv));
}

fn keyword_hit_exec(kw: &str, input: &[char]) -> (r: bool)
    ensures
        r == keyword_hit(kw@, input@),
{
    let k = chars_of(kw);
    contains_exec(k.as_slice(), input) || contains_exec(input, k.as_slice()) || fuzzy_chars(
        input,
        k.as_slice(),
    )
}

fn add_static_hits(results: &mut Vec<PaletteCommand>, input: &[char])
    ensures
        commands_view(final(results)@) == commands_view(old(results)@) + static_hits(static_table(), input@),
{
    let table = static_commands();
    let ghost tv = table_view(table@);
    let ghost r0 = commands_view(results@);
    let mut i: usize = 0;
    while i < table.len()
        invariant
            i <= table@.len(),
            tv == table_view(table@),
            tv == static_table(),
            commands_view(results@) == r0 + static_hits(tv.take(i as int), input@),
        decreases table@.len() - i,
    {
        assert(tv.take(i + 1).drop_last() =~= tv.take(i as int));
        assert(tv[i as int] == (table@[i as int].0@, table@[i as int].1@, table@[i as int].2@, table@[i as int].3@));
        let (kw, icon, label, action) = &table[i];
        if keyword_hit_exec(kw, input) {
            push_command(
                results,
                PaletteCommand { icon: *icon, label: (*label).to_owned(), action: action.duplicate() },
            );
        }
        i = i + 1;
        assert(commands_view(results@) =~= r0 + static_hits(tv.take(i as int), input@));
    }
    assert(tv.take(i as int) =~= tv);
}

fn variable_label(name: &str) -> (r: String)
    ensures
        r@ == "Select variable: "@ + name@,
{
    let mut s = String::new();
    push_str(&mut s, "Select variable: ");
    push_str(&mut s, name);
    s
}

fn add_variable_hits(results: &mut Vec<PaletteCommand>, vars: &Vec<VariableInfo>, input: &[char])
    ensures
        commands_view(final(results)@) == commands_view(old(results)@) + variable_hits(vars@, input@),
{
    let ghost r0 = commands_view(results@);
    let mut i: usize = 0;
    while i < vars.len()
        invariant
            i <= vars@.len(),
            commands_view(results@) == r0 + variable_hits(vars@.take(i as int), input@),
        decreases vars@.len() - i,
    {
        assert(vars@.take(i + 1).drop_last() =~= vars@.take(i as int));
        let name = vars[i].name.as_str();
        let lower = to_lowercase(name);
        let l = chars_of(lower.as_str());
        if contains_exec(l.as_slice(), input) || contains_exec(input, l.as_slice()) {
            push_command(
                results,
                PaletteCommand {
                    icon: "🔍",
                    label: variable_label(name),
                    action: PaletteAction::SetVariable(vars[i].name.clone()),
                },
            );
        }
        i = i + 1;
        assert(commands_view(results@) =~= r0 + variable_hits(vars@.take(i as int), input@));
    }
    assert(vars@.take(i as int) =~= vars@);
}

/// Match user input against known commands.  Returns at most eight matches:
/// the static commands first, in table order, then the variables.
pub fn match_commands(input: &str, _ui_state: &UiState, data_store: &DataStore) -> (r: Vec<PaletteCommand>)
    ensures
        commands_view(r@) == palette_matches(input@, *data_store),
{
    let lower = to_lowercase(input);
    match_lowered(lower.as_str(), data_store)
}

/// The commands offered for `lower`, the input in lower case: the matching
/// static commands first, in table order, then the variables, at most eight.
pub fn match_lowered(lower: &str, data_store: &DataStore) -> (r: Vec<PaletteCommand>)
    ensures
        commands_view(r@) == lowered_matches(lower@, *data_store),
{
    let l = chars_of(lower);
    let mut results: Vec<PaletteCommand> = Vec::new();
    assert(commands_view(results@) =~= Seq::<Command>::empty());
    add_static_hits(&mut results, l.as_slice());
    if let Some(file) = active_file_of(data_store) {
        add_variable_hits(&mut results, &file.variables, l.as_slice());
    }
    let ghost all = commands_view(results@);
    results.truncate(8);
    assert(commands_view(results@) =~= (if all.len() > 8 {
        all.take(8)
    } else {
        all
    }));
    results
}

// ---------------------------------------------------------------------------
// Carrying out a command
// ---------------------------------------------------------------------------

/// What carrying out a command did: the message shown, if something was
/// done, and the (file, variable) whose field must now be loaded, if any.
#[derive(Debug)]
pub struct ActionOutcome {
    pub message: Option<String>,
    pub load: Option<(usize, usize)>,
}

pub open spec fn on_off(b: bool) -> Seq<char> {
    if b {
        "ON"@
    } else {
        "OFF"@
    }
}

/// The UI state after an action, and the message it reports.
pub open spec fn action_ui(a: Act, ui: UiState, ds: DataStore) -> (UiState, Option<Seq<char>>) {
    match a {
        Act::SetVariable(name) => (ui, match selection_for(ds, name) {
            Some(_) => Some("Variable: "@ + name),
            None => None,
        }),
        Act::SetColormap(n) => match colormap_named(n) {
            Some(cm) => if ui.colormap != cm {
                (UiState { colormap: cm, ..ui }, Some("Colormap: "@ + n))
            } else {
                (ui, None)
            },
            None => (ui, None),
        },
        Act::SetViewMode(n) => match view_mode_named(n) {
            Some(m) => if ui.view_mode != m {
                (UiState { view_mode: m, ..ui }, Some("View: "@ + n))
            } else {
                (ui, None)
            },
            None => (ui, None),
        },
        Act::SetProjection(n) => match projection_named(n) {
            Some(p) => if ui.map_projection != p {
                (UiState { map_projection: p, ..ui }, Some("Projection: "@ + n))
            } else {
                (ui, None)
            },
            None => (ui, None),
        },
        Act::SetTimeIndex(t) => if ui.time_index != t {
            (UiState { time_index: t, ..ui }, Some("Time: "@ + decimal(t as nat)))
        } else {
            (ui, None)
        },
        Act::SetLevelIndex(l) => if ui.level_index != l {
            (UiState { level_index: l, ..ui }, Some("Level: "@ + decimal(l as nat)))
        } else {
            (ui, None)
        },
        Act::ToggleContours => {
            let e = !ui.contour_enabled;
            (UiState { contour_enabled: e, ..ui }, Some("Contours: "@ + on_off(e)))
        },
        Act::ToggleVectors => {
            let e = !ui.vector_overlay_enabled;
            (UiState { vector_overlay_enabled: e, ..ui }, Some("Vectors: "@ + on_off(e)))
        },
        Act::ToggleStreamlines => {
            let e = !ui.streamline_enabled;
            (UiState { streamline_enabled: e, ..ui }, Some("Streamlines: "@ + on_off(e)))
        },
        Act::ToggleWavenumberFilter => {
            let e = !ui.wavenumber_filter_enabled;
            (UiState { wavenumber_filter_enabled: e, ..ui }, Some("Wavenumber filter: "@ + on_off(e)))
        },
        Act::ExportPng => (
            UiState {
                export_settings: ExportSettings { format: ExportFormat::Png, ..ui.export_settings },
                export_dialog_open: true,
                ..ui
            },
            Some("Opening PNG export dialog"@),
        ),
        Act::ExportGif => (
            UiState {
                export_settings: ExportSettings { format: ExportFormat::Gif, ..ui.export_settings },
                export_dialog_open: true,
                ..ui
            },
            Some("Opening GIF export dialog"@),
        ),
    }
}

fn message(prefix: &str, s: &str) -> (r: Option<String>)
    ensures
        r matches Some(m) && m@ == prefix@ + s@,
{
    let mut m = String::new();
    push_str(&mut m, prefix);
    push_str(&mut m, s);
    Some(m)
}

fn number_message(prefix: &str, n: usize) -> (r: Option<String>)
    ensures
        r matches Some(m) && m@ == prefix@ + decimal(n as nat),
{
    let mut m = String::new();
    push_str(&mut m, prefix);
    push_chars(&mut m, usize_to_chars(n).as_slice());
    Some(m)
}

fn switch_message(prefix: &str, b: bool) -> (r: Option<String>)
    ensures
        r matches Some(m) && m@ == prefix@ + on_off(b),
{
    if b {
        message(prefix, "ON")
    } else {
        message(prefix, "OFF")
    }
}

fn apply_choice(action: &PaletteAction, ui_state: &mut UiState) -> (r: Option<String>)
    requires
        action@ matches Act::SetColormap(_) || action@ matches Act::SetViewMode(_) || action@ matches Act::SetProjection(_),
    ensures
        forall|ds: DataStore| (*final(ui_state), opt_view(r)) == #[trigger] action_ui(action@, *old(ui_state), ds),
{
    match action {
        PaletteAction::SetColormap(n) => {
            if let Some(cm) = name_to_colormap(n.as_str()) {
                if ui_state.colormap != cm {
                    ui_state.colormap = cm;
                    return message("Colormap: ", n.as_str());
                }
            }
            None
        },
        PaletteAction::SetViewMode(n) => {
            if let Some(m) = name_to_view_mode(n.as_str()) {
                if ui_state.view_mode != m {
                    ui_state.view_mode = m;
                    return message("View: ", n.as_str());
                }
            }
            None
        },
        PaletteAction::SetProjection(n) => {
            if let Some(p) = name_to_projection(n.as_str()) {
                if ui_state.map_projection != p {
                    ui_state.map_projection = p;
                    return message("Projection: ", n.as_str());
                }
            }
            None
        },
        _ => None,
    }
}

fn apply_index(action: &PaletteAction, ui_state: &mut UiState) -> (r: Option<String>)
    requires
        action@ matches Act::SetTimeIndex(_) || action@ matches Act::SetLevelIndex(_),
    ensures
        forall|ds: DataStore| (*final(ui_state), opt_view(r)) == #[trigger] action_ui(action@, *old(ui_state), ds),
{
    match action {
        PaletteAction::SetTimeIndex(t) => {
            if ui_state.time_index != *t {
                ui_state.time_index = *t;
                return number_message("Time: ", *t);
            }
            None
        },
        PaletteAction::SetLevelIndex(l) => {
            if ui_state.level_index != *l {
                ui_state.level_index = *l;
                return number_message("Level: ", *l);
            }
            None
        },
        _ => None,
    }
}

fn apply_toggle(action: &PaletteAction, ui_state: &mut UiState) -> (r: Option<String>)
    requires
        action@ matches Act::ToggleContours || action@ matches Act::ToggleVectors || action@ matches Act::ToggleStreamlines
            || action@ matches Act::ToggleWavenumberFilter,
    ensures
        forall|ds: DataStore| (*final(ui_state), opt_view(r)) == #[trigger] action_ui(action@, *old(ui_state), ds),
{
    match action {
        PaletteAction::ToggleContours => {
            ui_state.contour_enabled = !ui_state.contour_enabled;
            switch_message("Contours: ", ui_state.contour_enabled)
        },
        PaletteAction::ToggleVectors => {
            ui_state.vector_overlay_enabled = !ui_state.vector_overlay_enabled;
            switch_message("Vectors: ", ui_state.vector_overlay_enabled)
        },
        PaletteAction::ToggleStreamlines => {
            ui_state.streamline_enabled = !ui_state.streamline_enabled;
            switch_message("Streamlines: ", ui_state.streamline_enabled)
        },
        PaletteAction::ToggleWavenumberFilter => {
            ui_state.wavenumber_filter_enabled = !ui_state.wavenumber_filter_enabled;
            switch_message("Wavenumber filter: ", ui_state.wavenumber_filter_enabled)
        },
        _ => None,
    }
}

fn apply_export(action: &PaletteAction, ui_state: &mut UiState) -> (r: Option<String>)
    requires
        action@ matches Act::ExportPng || action@ matches Act::ExportGif,
    ensures
        forall|ds: DataStore| (*final(ui_state), opt_view(r)) == #[trigger] action_ui(action@, *old(ui_state), ds),
{
    match action {
        PaletteAction::ExportPng => {
            ui_state.export_settings.format = ExportFormat::Png;
            ui_state.export_dialog_open = true;
            Some("Opening PNG export dialog".to_owned())
        },
        _ => {
            ui_state.export_settings.format = ExportFormat::Gif;
            ui_state.export_dialog_open = true;
            Some("Opening GIF export dialog".to_owned())
        },
    }
}

/// Apply a palette action to the UI state.  Returns the description of
/// what was done, and the field to load when the variable changed.
pub fn apply_action(action: &PaletteAction, ui_state: &mut UiState, data_store: &mut DataStore) -> (r: ActionOutcome)
    ensures
        (*final(ui_state), opt_view(r.message)) == action_ui(action@, *old(ui_state), *old(data_store)),
        final(data_store).files@ == (match action@ {
            Act::SetVariable(name) => after_selection(*old(data_store), name),
            _ => old(data_store).files@,
        }),
        final(data_store).active_file == old(data_store).active_file,
        r.load == (match action@ {
            Act::SetVariable(name) => match selection_for(*old(data_store), name) {
                Some((fi, vi)) => Some((fi as usize, vi as usize)),
                None => None,
            },
            _ => None,
        }),
{
    match action {
        PaletteAction::SetVariable(name) => {
            match select_variable_named(data_store, name.as_str()) {
                Some(p) => ActionOutcome { message: message("Variable: ", name.as_str()), load: Some(p) },
                None => ActionOutcome { message: None, load: None },
            }
        },
        PaletteAction::SetColormap(_) | PaletteAction::SetViewMode(_) | PaletteAction::SetProjection(_) => {
            let m = apply_choice(action, ui_state);
            ActionOutcome { message: m, load: None }
        },
        PaletteAction::SetTimeIndex(_) | PaletteAction::SetLevelIndex(_) => {
            let m = apply_index(action, ui_state);
            ActionOutcome { message: m, load: None }
        },
        PaletteAction::ExportPng | PaletteAction::ExportGif => {
            let m = apply_export(action, ui_state);
            ActionOutcome { message: m, load: None }
        },
        _ => {
            let m = apply_toggle(action, ui_state);
            ActionOutcome { message: m, load: None }
        },
    }
}

/// Toggling an overlay twice gives back the state it started from.
pub proof fn lemma_toggle_twice(a: Act, ui: UiState, ds: DataStore)
    requires
        a matches Act::ToggleContours || a matches Act::ToggleVectors || a matches Act::ToggleStreamlines
            || a matches Act::ToggleWavenumberFilter,
    ensures
        action_ui(a, action_ui(a, ui, ds).0, ds).0 == ui,
{
}

/// A choice that was just made, made again, changes nothing and reports nothing.
pub proof fn lemma_choice_idempotent(a: Act, ui: UiState, ds: DataStore)
    requires
        !(a matches Act::SetVariable(_)),
        !(a matches Act::ToggleContours || a matches Act::ToggleVectors || a matches Act::ToggleStreamlines
            || a matches Act::ToggleWavenumberFilter),
        !(a matches Act::ExportPng || a matches Act::ExportGif),
    ensures
        ({
            let once = action_ui(a, ui, ds).0;
            action_ui(a, once, ds) == (once, Option::<Seq<char>>::None)
        }),
{
}

} // verus!
