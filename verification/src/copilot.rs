//! The assistant's instructions: the system prompt in the chosen language,
//! the description of the current view, and the client and exchange state
//! of the chat.
use vstd::prelude::*;

use crate::data::{active_file_of, active_open_file, opt_view, DataStore, OpenFile, VariableInfo};
use crate::i18n::Lang;
use crate::numeric::{decimal, usize_to_chars};
use crate::settings::bool_text;
use crate::trajectory::{
    compact_json, compact_json_text, json_document, json_model, json_models, lemma_json_models, lemma_member_models, member, member_exec,
    member_models, parse_json, pretty_json, pretty_json_text, JsonModel, JsonValue,
};
use crate::text::{str_eq, string_from_chars};
use crate::text::{join, join_exec, push_chars, push_line, push_str, strings_view};
use crate::ui::{colormap_debug, view_mode_debug, UiState};

verus! {

broadcast use vstd::string::group_string_axioms;

// ---------------------------------------------------------------------------
// System prompt
// ---------------------------------------------------------------------------

/// The instructions given to the assistant whatever the language.
pub open spec fn base_prompt() -> Seq<char> {
    BASE_PROMPT@
}

/// The language section appended to the instructions.
pub open spec fn language_section(lang: Lang) -> Seq<char> {
    match lang {
        Lang::Ja => JA_LANGUAGE_SECTION@,
        Lang::En => EN_LANGUAGE_SECTION@,
    }
}

/// The system prompt: the base instructions, then the language section.
pub open spec fn system_prompt(lang: Lang) -> Seq<char> {
    base_prompt() + language_section(lang)
}

pub fn build_base_system_prompt() -> (r: String)
    ensures
        r@ == base_prompt(),
{
    BASE_PROMPT.to_owned()
}

/// The system prompt for the chosen interface language.
pub fn build_system_prompt(lang: Lang) -> (r: String)
    ensures
        r@ == system_prompt(lang),
{
    let mut prompt = build_base_system_prompt();
    match lang {
        Lang::Ja => push_str(&mut prompt, JA_LANGUAGE_SECTION),
        Lang::En => push_str(&mut prompt, EN_LANGUAGE_SECTION),
    }
    prompt
}

/// The base instructions of the assistant.
pub const BASE_PROMPT: &'static str = r#"You are GeoScope Copilot, an AI assistant for geophysical fluid dynamics (GFD) data visualization.

## Your Role
- Explain physical phenomena visible in the current visualization
- Help users understand their data (vorticity, divergence, temperature, etc.)
- Suggest visualization improvements (colormaps, overlays, projections)
- Answer questions about GFD concepts (spectral methods, Rossby waves, etc.)

## Domain Knowledge
- Spherical harmonic spectral methods: data is represented as sum of Y^m_n basis functions
- Vorticity (zeta): curl of velocity, positive = cyclonic (NH), diverging colormap RdBu_r
- Divergence (D): div of velocity, related to vertical motion
- Geopotential (Phi): related to pressure surfaces
- Rossby-Haurwitz waves: large-scale wave patterns on rotating sphere
- Energy spectrum E(n): kinetic energy per total wavenumber n, typically follows n^(-3) in enstrophy cascade range
- Shallow water equations: zeta, D, Phi as prognostic variables on sphere

## Context You Receive
You receive detailed quantitative context including:
- **Field statistics**: mean, std dev, skewness, zonal mean profile, extrema locations
- **Spectral analysis**: E(n) energy spectrum, peak wavenumber, spectral slope
- **Temporal tendency**: time derivative statistics (if time dimension exists)

Use this data to make specific, quantitative observations about the physical phenomena.
For example: "The dominant wavenumber n=4 with E(4)=2.3e-3 is consistent with a Rossby-Haurwitz wave pattern."

## GeoScope Features You Can Reference
- Views: Globe (3D orthographic), Map (Equirect/Mollweide/Polar), Hovmoller, Spectrum, CrossSection, Profile
- Overlays: contour lines, vector arrows, streamlines, trajectory
- Colormaps: viridis, plasma, inferno (sequential), RdBu_r, coolwarm (diverging)
- Wavenumber filter: truncates spectral coefficients to show only large/small scales
- Code Panel: generates Python (xarray + cartopy) code from current view

Keep responses concise. Use markdown formatting. When suggesting actions, be specific about GeoScope settings."#;

/// The language section for Japanese.
pub const JA_LANGUAGE_SECTION: &'static str = r#"

## Language
Respond in Japanese (日本語) by default. Use natural, concise Japanese suitable for a researcher.
Technical terms (e.g., vorticity, divergence, Rossby wave) may be kept in English or written as カタカナ, whichever is more natural.
However, if the user writes in English or explicitly asks you to respond in English, follow their instruction and respond in English."#;

/// The language section for English.
pub const EN_LANGUAGE_SECTION: &'static str = r#"

## Language
Respond in English by default.
However, if the user writes in Japanese or explicitly asks you to respond in Japanese, follow their instruction and respond in Japanese."#;

// ---------------------------------------------------------------------------
// The current view, described for the assistant
// ---------------------------------------------------------------------------

/// The names of a variable's dimensions.
pub open spec fn dim_names(v: VariableInfo) -> Seq<Seq<char>> {
    v.dimensions@.map_values(|d: (String, usize)| d.0@)
}

pub open spec fn opt_line(label: Seq<char>, o: Option<String>) -> Seq<char> {
    match o {
        Some(x) => label + x@ + "\n"@,
        None => seq![],
    }
}

/// The lines describing a variable.
pub open spec fn variable_context(v: VariableInfo) -> Seq<char> {
    "- Variable: "@ + v.name@ + " ("@ + join(dim_names(v), ", "@) + ")\n"@ + opt_line(
        "- Long name: "@,
        v.long_name,
    ) + opt_line("- Units: "@, v.units)
}

/// The lines describing the selected variable and the loaded field.
pub open spec fn selection_context(f: OpenFile, field: Option<Seq<char>>) -> Seq<char> {
    match f.selected_variable {
        Some(vi) => (if vi < f.variables.len() {
            variable_context(f.variables@[vi as int])
        } else {
            seq![]
        }) + (match field {
            Some(t) => t,
            None => seq![],
        }),
        None => seq![],
    }
}

/// The line describing the time step.
pub open spec fn time_context(f: OpenFile, ui: UiState) -> Seq<char> {
    match f.time_steps {
        Some(n) => "- Time: step "@ + decimal(ui.time_index as nat) + " of "@ + decimal(n as nat)
            + " (playing: "@ + bool_text(ui.playing) + ")\n"@,
        None => seq![],
    }
}

/// The lines describing the active file; `field` is the description of the
/// loaded field, given when a field is loaded.
pub open spec fn file_context(f: OpenFile, ui: UiState, field: Option<Seq<char>>) -> Seq<char> {
    "- File: "@ + f.path@ + "\n"@ + selection_context(f, field) + time_context(f, ui)
}

pub open spec fn flag_line(b: bool, line: Seq<char>) -> Seq<char> {
    if b {
        line
    } else {
        seq![]
    }
}

/// The description of the current view.
pub open spec fn view_context(ui: UiState, ds: DataStore, field: Option<Seq<char>>) -> Seq<char> {
    "\n## Current Visualization State\n"@ + (match active_open_file(ds) {
        Some(f) => file_context(f, ui, field),
        None => seq![],
    }) + "- View: "@ + view_mode_debug(ui.view_mode) + "\n"@ + "- Colormap: "@ + colormap_debug(
        ui.colormap,
    ) + "\n"@ + "- Level index: "@ + decimal(ui.level_index as nat) + "\n"@ + flag_line(
        ui.contour_enabled,
        "- Contours: enabled\n"@,
    ) + flag_line(ui.vector_overlay_enabled, "- Vector overlay: enabled\n"@) + flag_line(
        ui.streamline_enabled,
        "- Streamlines: enabled\n"@,
    )
}

/// The view with every overlay off.
pub open spec fn overlays_off(ui: UiState) -> UiState {
    UiState { contour_enabled: false, vector_overlay_enabled: false, streamline_enabled: false, ..ui }
}

#[verifier::spinoff_prover]
proof fn lemma_view_context_split(ui: UiState, ds: DataStore, field: Option<Seq<char>>)
    ensures
        view_context(ui, ds, field) == view_context(overlays_off(ui), ds, field) + flag_line(
            ui.contour_enabled,
            "- Contours: enabled\n"@,
        ) + flag_line(ui.vector_overlay_enabled, "- Vector overlay: enabled\n"@) + flag_line(
            ui.streamline_enabled,
            "- Streamlines: enabled\n"@,
        ),
{
    let o = overlays_off(ui);
    match active_open_file(ds) {
        Some(f) => {
            assert(time_context(f, o) == time_context(f, ui));
            assert(file_context(f, o, field) == file_context(f, ui, field));
        },
        None => {},
    }
    let e: Seq<char> = seq![];
    assert(flag_line(false, "- Contours: enabled\n"@) == e);
    assert(flag_line(false, "- Vector overlay: enabled\n"@) == e);
    assert(flag_line(false, "- Streamlines: enabled\n"@) == e);
    assert(view_context(ui, ds, field) =~= view_context(o, ds, field) + flag_line(
        ui.contour_enabled,
        "- Contours: enabled\n"@,
    ) + flag_line(ui.vector_overlay_enabled, "- Vector overlay: enabled\n"@) + flag_line(
        ui.streamline_enabled,
        "- Streamlines: enabled\n"@,
    ));
}

/// What the view description says of the overlays: turning streamlines on
/// adds the line "- Streamlines: enabled" at its end; with streamlines off,
/// turning the vector overlay on adds "- Vector overlay: enabled" at its
/// end; with both off, turning contours on adds "- Contours: enabled".
/// Nothing else in the description changes.
pub proof fn lemma_view_context_overlay_lines(ui: UiState, ds: DataStore, field: Option<Seq<char>>)
    ensures
        view_context(UiState { streamline_enabled: true, ..ui }, ds, field) == view_context(
            UiState { streamline_enabled: false, ..ui },
            ds,
            field,
        ) + "- Streamlines: enabled\n"@,
        !ui.streamline_enabled ==> view_context(UiState { vector_overlay_enabled: true, ..ui }, ds, field)
            == view_context(UiState { vector_overlay_enabled: false, ..ui }, ds, field)
            + "- Vector overlay: enabled\n"@,
        !ui.streamline_enabled && !ui.vector_overlay_enabled ==> view_context(
            UiState { contour_enabled: true, ..ui },
            ds,
            field,
        ) == view_context(UiState { contour_enabled: false, ..ui }, ds, field) + "- Contours: enabled\n"@,
{
    let e: Seq<char> = seq![];
    let cl = "- Contours: enabled\n"@;
    let vl = "- Vector overlay: enabled\n"@;
    let sl = "- Streamlines: enabled\n"@;
    let u1 = UiState { streamline_enabled: true, ..ui };
    let u0 = UiState { streamline_enabled: false, ..ui };
    lemma_view_context_split(u1, ds, field);
    lemma_view_context_split(u0, ds, field);
    assert(overlays_off(u1) == overlays_off(u0));
    let h = view_context(overlays_off(u0), ds, field) + flag_line(ui.contour_enabled, cl) + flag_line(
        ui.vector_overlay_enabled,
        vl,
    );
    assert(view_context(u1, ds, field) =~= h + sl);
    assert(view_context(u0, ds, field) =~= h + e);
    if !ui.streamline_enabled {
        let v1 = UiState { vector_overlay_enabled: true, ..ui };
        let v0 = UiState { vector_overlay_enabled: false, ..ui };
        lemma_view_context_split(v1, ds, field);
        lemma_view_context_split(v0, ds, field);
        assert(overlays_off(v1) == overlays_off(v0));
        let hv = view_context(overlays_off(v0), ds, field) + flag_line(ui.contour_enabled, cl);
        assert(view_context(v1, ds, field) =~= hv + vl);
        assert(view_context(v0, ds, field) =~= hv);
        if !ui.vector_overlay_enabled {
            let c1 = UiState { contour_enabled: true, ..ui };
            let c0 = UiState { contour_enabled: false, ..ui };
            lemma_view_context_split(c1, ds, field);
            lemma_view_context_split(c0, ds, field);
            assert(overlays_off(c1) == overlays_off(c0));
            let hc = view_context(overlays_off(c0), ds, field);
            assert(view_context(c1, ds, field) =~= hc + cl);
            assert(view_context(c0, ds, field) =~= hc);
        }
    }
}

proof fn lemma_contains_middle(a: Seq<char>, p: Seq<char>, b: Seq<char>)
    ensures
        crate::text::contains(a + p + b, p),
{
    let s = a + p + b;
    assert(s.subrange(a.len() as int, (a.len() + p.len()) as int) =~= p);
    assert(crate::text::occurs_at(s, p, a.len() as int));
    crate::text::lemma_find_from_bounds(s, p, 0);
}

/// An overlay that is on is named in the view description: the vector
/// overlay by "- Vector overlay: enabled", streamlines by "- Streamlines:
/// enabled", contours by "- Contours: enabled".
pub proof fn lemma_view_context_names_overlays_on(ui: UiState, ds: DataStore, field: Option<Seq<char>>)
    ensures
        ui.vector_overlay_enabled ==> crate::text::contains(view_context(ui, ds, field), "- Vector overlay: enabled\n"@),
        ui.streamline_enabled ==> crate::text::contains(view_context(ui, ds, field), "- Streamlines: enabled\n"@),
        ui.contour_enabled ==> crate::text::contains(view_context(ui, ds, field), "- Contours: enabled\n"@),
{
    lemma_view_context_split(ui, ds, field);
    let head = view_context(overlays_off(ui), ds, field);
    let c = flag_line(ui.contour_enabled, "- Contours: enabled\n"@);
    let v = flag_line(ui.vector_overlay_enabled, "- Vector overlay: enabled\n"@);
    let st = flag_line(ui.streamline_enabled, "- Streamlines: enabled\n"@);
    let ctx = view_context(ui, ds, field);
    if ui.vector_overlay_enabled {
        assert(ctx =~= (head + c) + v + st);
        lemma_contains_middle(head + c, v, st);
    }
    if ui.streamline_enabled {
        assert(ctx =~= (head + c + v) + st + seq![]);
        lemma_contains_middle(head + c + v, st, seq![]);
    }
    if ui.contour_enabled {
        assert(ctx =~= head + c + (v + st));
        lemma_contains_middle(head, c, v + st);
    }
}

fn push_usize(s: &mut String, n: usize)
    ensures
        final(s)@ == old(s)@ + decimal(n as nat),
{
    push_chars(s, usize_to_chars(n).as_slice());
}

fn push_opt_line(s: &mut String, label: &str, o: &Option<String>)
    ensures
        final(s)@ == old(s)@ + opt_line(label@, *o),
{
    if let Some(x) = o {
        push_str(s, label);
        push_str(s, x.as_str());
        push_str(s, "\n");
    } else {
        assert(old(s)@ + opt_line(label@, *o) =~= old(s)@);
    }
}

fn push_variable_context(s: &mut String, v: &VariableInfo)
    ensures
        final(s)@ == old(s)@ + variable_context(*v),
{
    let mut names: Vec<String> = Vec::new();
    let mut i: usize = 0;
    while i < v.dimensions.len()
        invariant
            i <= v.dimensions@.len(),
            strings_view(names@) == dim_names(*v).take(i as int),
        decreases v.dimensions@.len() - i,
    {
        push_line(&mut names, v.dimensions[i].0.clone());
        i = i + 1;
        assert(strings_view(names@) =~= dim_names(*v).take(i as int));
    }
    assert(dim_names(*v).take(i as int) =~= dim_names(*v));
    push_str(s, "- Variable: ");
    push_str(s, v.name.as_str());
    push_str(s, " (");
    push_str(s, join_exec(&names, ", ").as_str());
    push_str(s, ")\n");
    push_opt_line(s, "- Long name: ", &v.long_name);
    push_opt_line(s, "- Units: ", &v.units);
    assert(s@ =~= old(s)@ + variable_context(*v));
}

pub open spec fn opt_str(o: Option<&str>) -> Option<Seq<char>> {
    match o {
        Some(t) => Some(t@),
        None => None,
    }
}

fn push_selection_context(s: &mut String, f: &OpenFile, field: Option<&str>)
    ensures
        final(s)@ == old(s)@ + selection_context(*f, opt_str(field)),
{
    if let Some(vi) = f.selected_variable {
        if vi < f.variables.len() {
            push_variable_context(s, &f.variables[vi]);
        }
        let ghost s1 = s@;
        if let Some(t) = field {
            push_str(s, t);
        }
        assert(s@ =~= s1 + match opt_str(field) {
            Some(t) => t,
            None => seq![],
        });
    }
    assert(s@ =~= old(s)@ + selection_context(*f, opt_str(field)));
}

fn push_time_context(s: &mut String, f: &OpenFile, ui: &UiState)
    ensures
        final(s)@ == old(s)@ + time_context(*f, *ui),
{
    if let Some(n) = f.time_steps {
        push_str(s, "- Time: step ");
        push_usize(s, ui.time_index);
        push_str(s, " of ");
        push_usize(s, n);
        push_str(s, " (playing: ");
        if ui.playing {
            push_str(s, "true");
        } else {
            push_str(s, "false");
        }
        push_str(s, ")\n");
    }
    assert(s@ =~= old(s)@ + time_context(*f, *ui));
}

fn push_file_context(s: &mut String, f: &OpenFile, ui: &UiState, field: Option<&str>)
    ensures
        final(s)@ == old(s)@ + file_context(*f, *ui, opt_str(field)),
{
    push_str(s, "- File: ");
    push_str(s, f.path.as_str());
    push_str(s, "\n");
    push_selection_context(s, f, field);
    push_time_context(s, f, ui);
    assert(s@ =~= old(s)@ + file_context(*f, *ui, opt_str(field)));
}

/// Describe the current view for the assistant.  `field_section` is the
/// description of the loaded field (its range, grid, statistics, spectrum
/// and tendency), which the viewer computes from the field values.
pub fn build_view_context(ui_state: &UiState, data_store: &DataStore, field_section: Option<&str>) -> (r: String)
    ensures
        r@ == view_context(*ui_state, *data_store, opt_str(field_section)),
{
    let mut ctx = String::new();
    push_str(&mut ctx, "\n## Current Visualization State\n");
    let ghost c1 = ctx@;
    if let Some(f) = active_file_of(data_store) {
        push_file_context(&mut ctx, f, ui_state, field_section);
    }
    let ghost c2 = ctx@;
    push_str(&mut ctx, "- View: ");
    push_str(&mut ctx, ui_state.view_mode.debug_name());
    push_str(&mut ctx, "\n");
    push_str(&mut ctx, "- Colormap: ");
    push_str(&mut ctx, ui_state.colormap.debug_name());
    push_str(&mut ctx, "\n");
    push_str(&mut ctx, "- Level index: ");
    push_usize(&mut ctx, ui_state.level_index);
    push_str(&mut ctx, "\n");
    let ghost c3 = ctx@;
    if ui_state.contour_enabled {
        push_str(&mut ctx, "- Contours: enabled\n");
    }
    if ui_state.vector_overlay_enabled {
        push_str(&mut ctx, "- Vector overlay: enabled\n");
    }
    if ui_state.streamline_enabled {
        push_str(&mut ctx, "- Streamlines: enabled\n");
    }
    assert(ctx@ =~= c3 + flag_line(ui_state.contour_enabled, "- Contours: enabled\n"@) + flag_line(
        ui_state.vector_overlay_enabled,
        "- Vector overlay: enabled\n"@,
    ) + flag_line(ui_state.streamline_enabled, "- Streamlines: enabled\n"@));
    ctx
}

// ---------------------------------------------------------------------------
// Chat client state
// ---------------------------------------------------------------------------

/// The chat client: the API key and the model name.
#[derive(Clone, Debug)]
pub struct LlmClient {
    api_key: String,
    model: String,
}

/// One message of a conversation.
#[derive(Clone, Debug)]
pub struct ChatMessage {
    pub role: String,
    pub content: String,
}

/// The key that is used: the `ANTHROPIC_API_KEY` variable, else the
/// `CLAUDE_API_KEY` variable, else the saved key, else none (empty).
pub open spec fn chosen_key(anthropic: Option<Seq<char>>, claude: Option<Seq<char>>, saved: Option<Seq<char>>) -> Seq<char> {
    match anthropic {
        Some(k) => k,
        None => match claude {
            Some(k) => k,
            None => match saved {
                Some(k) => k,
                None => seq![],
            },
        },
    }
}

impl LlmClient {
    pub closed spec fn key(&self) -> Seq<char> {
        self.api_key@
    }

    pub closed spec fn model_name(&self) -> Seq<char> {
        self.model@
    }

    /// A client for `model` with the key found in the environment variables
    /// `ANTHROPIC_API_KEY` and `CLAUDE_API_KEY` or in the saved settings,
    /// in that order of priority.
    pub fn from_sources(anthropic: Option<String>, claude: Option<String>, saved: Option<String>, model: String) -> (r: Self)
        ensures
            r.key() == chosen_key(opt_view(anthropic), opt_view(claude), opt_view(saved)),
            r.model_name() == model@,
    {
        let api_key = match anthropic {
            Some(k) => k,
            None => match claude {
                Some(k) => k,
                None => match saved {
                    Some(k) => k,
                    None => String::new(),
                },
            },
        };
        LlmClient { api_key, model }
    }

    pub fn has_api_key(&self) -> (r: bool)
        ensures
            r == (self.key().len() > 0),
    {
        !self.api_key.as_str().is_empty()
    }

    /// Replaces the key; the viewer also saves it to the settings file.
    pub fn set_api_key(&mut self, key: &str)
        ensures
            final(self).key() == key@,
            final(self).model_name() == old(self).model_name(),
    {
        self.api_key = key.to_owned();
    }

    pub fn api_key(&self) -> (r: &str)
        ensures
            r@ == self.key(),
    {
        self.api_key.as_str()
    }

    pub fn model(&self) -> (r: &str)
        ensures
            r@ == self.model_name(),
    {
        self.model.as_str()
    }
}

/// The state of one request to the assistant: whether the reply is still
/// awaited, and the reply once it came and was not yet taken.
#[derive(Debug)]
pub struct LlmChannel {
    response: Option<Result<String, String>>,
    loading: bool,
}

impl LlmChannel {
    pub closed spec fn pending(&self) -> Option<Result<String, String>> {
        self.response
    }

    pub closed spec fn awaiting(&self) -> bool {
        self.loading
    }

    /// A request just sent: loading, no reply yet.
    pub fn new() -> (r: Self)
        ensures
            r.awaiting(),
            r.pending() is None,
    {
        LlmChannel { response: None, loading: true }
    }

    /// The reply (or the error) arrived.
    pub fn finish(&mut self, result: Result<String, String>)
        ensures
            !final(self).awaiting(),
            final(self).pending() == Some(result),
    {
        self.response = Some(result);
        self.loading = false;
    }

    /// Takes the reply, if it came; later polls give `None`.
    pub fn poll(&mut self) -> (r: Option<Result<String, String>>)
        ensures
            r == old(self).pending(),
            final(self).pending() is None,
            final(self).awaiting() == old(self).awaiting(),
    {
        self.response.take()
    }

    pub fn is_loading(&self) -> (r: bool)
        ensures
            r == self.awaiting(),
    {
        self.loading
    }
}

// ---------------------------------------------------------------------------
// Settings file location
// ---------------------------------------------------------------------------

/// `PathBuf::join` of a relative component on Unix: a separator is put in
/// between unless the base is empty or already ends with one.
pub open spec fn path_join(base: Seq<char>, part: Seq<char>) -> Seq<char> {
    if base.len() == 0 || base.last() == '/' {
        base + part
    } else {
        base + seq!['/'] + part
    }
}

/// The settings directory, `$HOME/.geoscope`.
pub open spec fn config_dir_of(home: Option<Seq<char>>) -> Option<Seq<char>> {
    match home {
        Some(h) => Some(path_join(h, ".geoscope"@)),
        None => None,
    }
}

fn path_join_exec(base: &str, part: &str) -> (r: String)
    ensures
        r@ == path_join(base@, part@),
{
    let mut s = base.to_owned();
    let bc = crate::text::chars_of(base);
    if bc.len() == 0 || bc[bc.len() - 1] == '/' {
        push_str(&mut s, part);
    } else {
        crate::text::push_char(&mut s, '/');
        push_str(&mut s, part);
    }
    s
}

/// The settings directory for the home directory `home`.
pub fn config_dir(home: Option<&str>) -> (r: Option<String>)
    ensures
        opt_view(r) == config_dir_of(match home {
            Some(h) => Some(h@),
            None => None,
        }),
{
    match home {
        Some(h) => Some(path_join_exec(h, ".geoscope")),
        None => None,
    }
}

/// The settings file, `$HOME/.geoscope/config.json`.
pub fn config_path(home: Option<&str>) -> (r: Option<String>)
    ensures
        opt_view(r) == match config_dir_of(match home {
            Some(h) => Some(h@),
            None => None,
        }) {
            Some(d) => Some(path_join(d, "config.json"@)),
            None => None,
        },
{
    match config_dir(home) {
        Some(d) => Some(path_join_exec(d.as_str(), "config.json")),
        None => None,
    }
}

/// The API key a settings file's text holds: the string member
/// `anthropic_api_key` of the JSON object it holds.
pub open spec fn config_api_key(text: Seq<char>) -> Option<Seq<char>> {
    match json_document(text) {
        Ok(JsonValue::Object(o)) => match member(o@, "anthropic_api_key"@) {
            Some(JsonValue::Str(k)) => Some(k@),
            _ => None,
        },
        _ => None,
    }
}

/// The API key saved in a settings file's text, if it holds one.
pub fn api_key_from_config(text: &str) -> (r: Option<String>)
    ensures
        opt_view(r) == config_api_key(text@),
{
    match parse_json(text) {
        Ok(JsonValue::Object(o)) => match member_exec(&o, "anthropic_api_key") {
            Some(JsonValue::Str(k)) => Some(k.clone()),
            _ => None,
        },
        _ => None,
    }
}

/// The name of the settings member that holds the API key.
pub open spec fn api_key_member() -> Seq<char> {
    "anthropic_api_key"@
}

/// The settings document that saving a key starts from: the document the
/// existing text holds, or an empty object where there is no text or it
/// does not parse.
pub open spec fn config_base(existing: Option<Seq<char>>) -> JsonModel {
    match existing {
        Some(t) => match json_document(t) {
            Ok(v) => json_model(v),
            Err(_) => JsonModel::Object(Seq::empty()),
        },
        None => JsonModel::Object(Seq::empty()),
    }
}

/// A member can be set in `doc`: it is an object, or null, which becomes
/// one.
pub open spec fn member_settable(doc: JsonModel) -> bool {
    doc is Null || doc is Object
}

/// `i` is the first member of `ms` named `name`.
pub open spec fn first_named(ms: Seq<(Seq<char>, JsonModel)>, name: Seq<char>, i: int) -> bool {
    &&& 0 <= i < ms.len()
    &&& ms[i].0 == name
    &&& forall|j: int| 0 <= j < i ==> ms[j].0 != name
}

/// The members `ms` with the member `name` set to `x`: the first member of
/// that name takes the value in place; without one, it is appended.
pub open spec fn set_member(ms: Seq<(Seq<char>, JsonModel)>, name: Seq<char>, x: JsonModel) -> Seq<(Seq<char>, JsonModel)> {
    if exists|i: int| first_named(ms, name, i) {
        ms.update(choose|i: int| first_named(ms, name, i), (name, x))
    } else {
        ms.push((name, x))
    }
}

/// `doc` with its API key member set to the text `key`; a null document
/// becomes an object with that member alone.
pub open spec fn with_api_key(doc: JsonModel, key: Seq<char>) -> JsonModel {
    match doc {
        JsonModel::Object(ms) => JsonModel::Object(set_member(ms, api_key_member(), JsonModel::Str(key))),
        _ => JsonModel::Object(seq![(api_key_member(), JsonModel::Str(key))]),
    }
}

/// The settings text that saving `key` writes, from the existing text:
/// the base document with the key set, pretty-printed.
pub open spec fn saved_config(existing: Option<Seq<char>>, key: Seq<char>) -> Option<Seq<char>> {
    pretty_json(with_api_key(config_base(existing), key))
}

/// The view of an optional text slice.
pub open spec fn opt_str_view(o: Option<&str>) -> Option<Seq<char>> {
    match o {
        Some(t) => Some(t@),
        None => None,
    }
}

/// The document of the existing settings text, or an empty object.
fn config_document(existing: Option<&str>) -> (d: JsonValue)
    ensures
        json_model(d) == config_base(opt_str_view(existing)),
{
    let empty = JsonValue::Object(Vec::new());
    proof {
        let e: Seq<(String, JsonValue)> = Seq::empty();
        assert(member_models(e) =~= Seq::empty());
    }
    match existing {
        Some(t) => match parse_json(t) {
            Ok(v) => v,
            Err(_) => empty,
        },
        None => empty,
    }
}

/// `doc` with its API key member set to `key`.
fn document_with_key(doc: JsonValue, key: &str) -> (d: JsonValue)
    requires
        member_settable(json_model(doc)),
    ensures
        json_model(d) == with_api_key(json_model(doc), key@),
{
    let name = "anthropic_api_key";
    match doc {
        JsonValue::Object(o) => {
            let mut o = o;
            let ghost o0 = o@;
            proof {
                lemma_member_models(o0);
            }
            let mut i: usize = 0;
            while i < o.len()
                invariant
                    o@ == o0,
                    i <= o0.len(),
                    forall|j: int| 0 <= j < i ==> o0[j].0@ != name@,
                ensures
                    i <= o0.len(),
                    forall|j: int| 0 <= j < i ==> o0[j].0@ != name@,
                    i < o0.len() ==> o0[i as int].0@ == name@,
                decreases o0.len() - i,
            {
                if str_eq(o[i].0.as_str(), name) {
                    break;
                }
                i = i + 1;
            }
            let entry = (name.to_owned(), JsonValue::Str(key.to_owned()));
            let ghost ms = member_models(o0);
            let ghost x = JsonModel::Str(key@);
            if i < o.len() {
                o.set(i, entry);
                proof {
                    assert(first_named(ms, name@, i as int));
                    let c = choose|c: int| first_named(ms, name@, c);
                    assert(c == i as int);
                    lemma_member_models(o@);
                    assert(member_models(o@) =~= ms.update(i as int, (name@, x)));
                }
            } else {
                o.push(entry);
                proof {
                    assert forall|c: int| !first_named(ms, name@, c) by {}
                    lemma_member_models(o@);
                    assert(member_models(o@) =~= ms.push((name@, x)));
                }
            }
            JsonValue::Object(o)
        },
        _ => {
            let mut o: Vec<(String, JsonValue)> = Vec::new();
            o.push((name.to_owned(), JsonValue::Str(key.to_owned())));
            proof {
                lemma_member_models(o@);
                assert(member_models(o@) =~= seq![(name@, JsonModel::Str(key@))]);
            }
            JsonValue::Object(o)
        },
    }
}

/// The settings text that saving the API key `key` writes, from the
/// existing settings text: the key set in the document it holds (or in an
/// empty object), pretty-printed.
pub fn config_with_api_key(existing: Option<&str>, key: &str) -> (r: Option<String>)
    requires
        member_settable(config_base(opt_str_view(existing))),
    ensures
        opt_view(r) == saved_config(opt_str_view(existing), key@),
{
    let doc = config_document(existing);
    let d = document_with_key(doc, key);
    pretty_json_text(&d)
}

/// Saving the API key `key` over the existing settings text: `None` where
/// the existing text holds a JSON document that is neither an object nor
/// null, in which no member can be set; otherwise the text to write, as
/// `config_with_api_key` gives it.
pub fn api_key_config_text(existing: Option<&str>, key: &str) -> (r: Option<Option<String>>)
    ensures
        match r {
            Some(t) => member_settable(config_base(opt_str_view(existing)))
                && opt_view(t) == saved_config(opt_str_view(existing), key@),
            None => !member_settable(config_base(opt_str_view(existing))),
        },
{
    let doc = config_document(existing);
    let settable = match doc {
        JsonValue::Null => true,
        JsonValue::Object(_) => true,
        _ => false,
    };
    if settable {
        Some(config_with_api_key(existing, key))
    } else {
        None
    }
}

/// The text of an answer document: the string `text` of the first element
/// of its `content` array.
pub open spec fn answer_text(v: JsonValue) -> Option<Seq<char>> {
    match v {
        JsonValue::Object(o) => match member(o@, "content"@) {
            Some(JsonValue::Array(a)) => if a@.len() > 0 {
                match a@[0] {
                    JsonValue::Object(first) => match member(first@, "text"@) {
                        Some(JsonValue::Str(t)) => Some(t@),
                        _ => None,
                    },
                    _ => None,
                }
            } else {
                None
            },
            _ => None,
        },
        _ => None,
    }
}

/// What the assistant shows for a reply body that parses as `doc` (or
/// fails to, with a message): the answer's text, or an error.
pub open spec fn reply_of(doc: Result<JsonValue, Seq<char>>) -> Result<Seq<char>, Seq<char>> {
    match doc {
        Err(m) => Err("JSON parse error: "@ + m),
        Ok(v) => match answer_text(v) {
            Some(t) => Ok(t),
            None => Err("No text in response"@),
        },
    }
}

/// The view of a text result.
pub open spec fn text_result_view(r: Result<String, String>) -> Result<Seq<char>, Seq<char>> {
    match r {
        Ok(t) => Ok(t@),
        Err(e) => Err(e@),
    }
}

fn answer_text_exec(v: &JsonValue) -> (r: Option<String>)
    ensures
        opt_view(r) == answer_text(*v),
{
    match v {
        JsonValue::Object(o) => match member_exec(o, "content") {
            Some(JsonValue::Array(a)) => if a.len() > 0 {
                match &a[0] {
                    JsonValue::Object(first) => match member_exec(first, "text") {
                        Some(JsonValue::Str(t)) => Some(t.as_str().to_owned()),
                        _ => None,
                    },
                    _ => None,
                }
            } else {
                None
            },
            _ => None,
        },
        _ => None,
    }
}

/// The text the assistant shows for the body of the model's reply: the
/// answer's text, the parser's message after "JSON parse error: " where
/// the body is no JSON, or "No text in response".
pub fn reply_text(body: &str) -> (r: Result<String, String>)
    ensures
        text_result_view(r) == reply_of(json_document(body@)),
{
    match parse_json(body) {
        Err(e) => {
            let mut m = "JSON parse error: ".to_owned();
            push_str(&mut m, e.as_str());
            Err(m)
        },
        Ok(v) => match answer_text_exec(&v) {
            Some(t) => Ok(t),
            None => Err("No text in response".to_owned()),
        },
    }
}

/// The largest number of tokens a reply may take.
pub const MAX_REPLY_TOKENS: usize = 2048;

/// A message as a request carries it: its role and its content.
pub open spec fn message_model(m: ChatMessage) -> JsonModel {
    JsonModel::Object(seq![("role"@, JsonModel::Str(m.role@)), ("content"@, JsonModel::Str(m.content@))])
}

/// The request for a reply: the model, the token limit, the system prompt
/// and the messages in order.
pub open spec fn request_model(model: Seq<char>, system: Seq<char>, messages: Seq<ChatMessage>) -> JsonModel {
    JsonModel::Object(
        seq![
            ("model"@, JsonModel::Str(model)),
            ("max_tokens"@, JsonModel::Number(decimal(MAX_REPLY_TOKENS as nat))),
            ("system"@, JsonModel::Str(system)),
            ("messages"@, JsonModel::Array(messages.map_values(|m: ChatMessage| message_model(m)))),
        ],
    )
}

fn text_value(t: &str) -> (r: JsonValue)
    ensures
        json_model(r) == JsonModel::Str(t@),
{
    JsonValue::Str(t.to_owned())
}

fn member_pair(name: &str, v: JsonValue) -> (r: (String, JsonValue))
    ensures
        r.0@ == name@,
        r.1 == v,
{
    (name.to_owned(), v)
}

fn message_value(m: &ChatMessage) -> (r: JsonValue)
    ensures
        json_model(r) == message_model(*m),
{
    let mut o: Vec<(String, JsonValue)> = Vec::new();
    o.push(member_pair("role", text_value(m.role.as_str())));
    o.push(member_pair("content", text_value(m.content.as_str())));
    proof {
        lemma_member_models(o@);
        assert(member_models(o@) =~= seq![("role"@, JsonModel::Str(m.role@)), ("content"@, JsonModel::Str(m.content@))]);
    }
    JsonValue::Object(o)
}

/// The request document for a reply from `model` to `messages` under the
/// system prompt `system`.
pub fn request_document(model: &str, system: &str, messages: &[ChatMessage]) -> (r: JsonValue)
    ensures
        json_model(r) == request_model(model@, system@, messages@),
{
    let mut items: Vec<JsonValue> = Vec::new();
    let mut i: usize = 0;
    while i < messages.len()
        invariant
            i <= messages@.len(),
            items@.len() == i,
            forall|j: int| 0 <= j < i ==> json_model(#[trigger] items@[j]) == message_model(messages@[j]),
        decreases messages@.len() - i,
    {
        items.push(message_value(&messages[i]));
        i = i + 1;
    }
    proof {
        lemma_json_models(items@);
        assert(json_models(items@) =~= messages@.map_values(|m: ChatMessage| message_model(m)));
    }
    let tokens = usize_to_chars(MAX_REPLY_TOKENS);
    let mut o: Vec<(String, JsonValue)> = Vec::new();
    o.push(member_pair("model", text_value(model)));
    o.push(member_pair("max_tokens", JsonValue::Number(string_from_chars(&tokens))));
    o.push(member_pair("system", text_value(system)));
    o.push(member_pair("messages", JsonValue::Array(items)));
    proof {
        lemma_member_models(o@);
        assert(member_models(o@) =~= seq![
            ("model"@, JsonModel::Str(model@)),
            ("max_tokens"@, JsonModel::Number(decimal(MAX_REPLY_TOKENS as nat))),
            ("system"@, JsonModel::Str(system@)),
            ("messages"@, JsonModel::Array(messages@.map_values(|m: ChatMessage| message_model(m)))),
        ]);
    }
    JsonValue::Object(o)
}

/// The body of the request for a reply, as JSON text on one line (`None`
/// where serialization fails).
pub fn request_body(model: &str, system: &str, messages: &[ChatMessage]) -> (r: Option<String>)
    ensures
        opt_view(r) == compact_json(request_model(model@, system@, messages@)),
{
    let d = request_document(model, system, messages);
    compact_json_text(&d)
}

} // verus!
