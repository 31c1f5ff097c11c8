//! Internationalization: the English and Japanese texts of the interface.
//!
//! The language in use is chosen by the viewer; `t` looks a key up in the
//! table of that language.
use vstd::prelude::*;

use crate::text::str_eq;

verus! {

#[derive(Clone, Copy, PartialEq, Eq, Debug, Structural)]
pub enum Lang {
    En,
    Ja,
}

impl Default for Lang {
    fn default() -> (r: Self)
        ensures
            r == Lang::En,
    {
        Lang::En
    }
}

/// The short label of a language.
pub open spec fn lang_label(l: Lang) -> Seq<char> {
    match l {
        Lang::En => "EN"@,
        Lang::Ja => "JA"@,
    }
}

/// The language the toggle switches to.
pub open spec fn lang_next(l: Lang) -> Lang {
    match l {
        Lang::En => Lang::Ja,
        Lang::Ja => Lang::En,
    }
}

impl Lang {
    pub fn label(&self) -> (r: &'static str)
        ensures
            r@ == lang_label(*self),
    {
        match self {
            Lang::En => "EN",
            Lang::Ja => "JA",
        }
    }

    pub fn next(&self) -> (r: Lang)
        ensures
            r == lang_next(*self),
    {
        match self {
            Lang::En => Lang::Ja,
            Lang::Ja => Lang::En,
        }
    }
}

/// The number that stands for a language where the choice is stored as a
/// byte: 0 for English, 1 for Japanese.
pub open spec fn lang_number(l: Lang) -> u8 {
    match l {
        Lang::En => 0,
        Lang::Ja => 1,
    }
}

/// The language a stored byte stands for: 1 is Japanese, anything else English.
pub open spec fn lang_of_number(c: u8) -> Lang {
    if c == 1 {
        Lang::Ja
    } else {
        Lang::En
    }
}

/// The byte under which a language choice is stored.
pub fn lang_code(lang: Lang) -> (r: u8)
    ensures
        r == lang_number(lang),
{
    match lang {
        Lang::En => 0,
        Lang::Ja => 1,
    }
}

/// The language a stored byte stands for.
pub fn lang_from_code(code: u8) -> (r: Lang)
    ensures
        r == lang_of_number(code),
{
    if code == 1 {
        Lang::Ja
    } else {
        Lang::En
    }
}

/// A stored language choice reads back as the language stored.
pub proof fn lemma_lang_code_round_trip(l: Lang)
    ensures
        lang_of_number(lang_number(l)) == l,
{
}

/// Switching language twice gives back the language.
pub proof fn lemma_next_twice(l: Lang)
    ensures
        lang_next(lang_next(l)) == l,
{
}

/// The texts of a table of string pairs.
pub open spec fn pairs_view(v: Seq<(&str, &str)>) -> Seq<(Seq<char>, Seq<char>)> {
    v.map_values(|p: (&str, &str)| (p.0@, p.1@))
}

/// The value paired with the first occurrence of `key`.
pub open spec fn lookup(table: Seq<(Seq<char>, Seq<char>)>, key: Seq<char>) -> Option<Seq<char>>
    decreases table.len(),
{
    if table.len() == 0 {
        None
    } else if table[0].0 == key {
        Some(table[0].1)
    } else {
        lookup(table.drop_first(), key)
    }
}

/// The table of a language.
pub open spec fn table_of(lang: Lang) -> Seq<(Seq<char>, Seq<char>)> {
    match lang {
        Lang::En => en_table(),
        Lang::Ja => ja_table(),
    }
}

/// The text of `key` in `lang`, or `???` when the key is unknown.
pub open spec fn translate(lang: Lang, key: Seq<char>) -> Seq<char> {
    match lookup(table_of(lang), key) {
        Some(v) => v,
        None => "???"@,
    }
}

proof fn lemma_lookup_skip(table: Seq<(Seq<char>, Seq<char>)>, key: Seq<char>, i: int)
    requires
        0 <= i <= table.len(),
        forall|j: int| 0 <= j < i ==> #[trigger] table[j].0 != key,
    ensures
        lookup(table, key) == lookup(table.skip(i), key),
    decreases i,
{
    if i > 0 {
        assert(table.skip(1) =~= table.drop_first());
        let t = table.drop_first();
        assert forall|j: int| 0 <= j < i - 1 implies #[trigger] t[j].0 != key by {
            assert(t[j] == table[j + 1]);
        }
        lemma_lookup_skip(t, key, i - 1);
        assert(t.skip(i - 1) =~= table.skip(i));
    } else {
        assert(table.skip(0) =~= table);
    }
}

/// The keys of a table, in order.
pub open spec fn keys_of(table: Seq<(Seq<char>, Seq<char>)>) -> Seq<Seq<char>> {
    table.map_values(|p: (Seq<char>, Seq<char>)| p.0)
}

proof fn lemma_same_keys_same_lookup(t1: Seq<(Seq<char>, Seq<char>)>, t2: Seq<(Seq<char>, Seq<char>)>, key: Seq<char>)
    requires
        keys_of(t1) == keys_of(t2),
    ensures
        lookup(t1, key) is Some <==> lookup(t2, key) is Some,
    decreases t1.len(),
{
    assert(t1.len() == keys_of(t1).len());
    assert(t2.len() == keys_of(t2).len());
    if t1.len() > 0 {
        assert(keys_of(t1)[0] == t1[0].0);
        assert(keys_of(t2)[0] == t2[0].0);
        assert(keys_of(t1.drop_first()) =~= keys_of(t1).drop_first());
        assert(keys_of(t2.drop_first()) =~= keys_of(t2).drop_first());
        lemma_same_keys_same_lookup(t1.drop_first(), t2.drop_first(), key);
    }
}

/// Every key has a text in both languages or in neither: switching the
/// language never turns a known text into `???`.
pub proof fn lemma_languages_cover_same_keys(key: Seq<char>)
    ensures
        lookup(table_of(Lang::En), key) is Some <==> lookup(table_of(Lang::Ja), key) is Some,
{
    assert(keys_of(en_table()) =~= keys_of(ja_table()));
    lemma_same_keys_same_lookup(en_table(), ja_table(), key);
}

/// No English text is `???`, the text shown for a key without one.
pub proof fn lemma_en_texts_known()
    ensures
        forall|i: int| 0 <= i < en_table().len() ==> #[trigger] en_table()[i].1 != "???"@,
{
    reveal_strlit("???");
    reveal_strlit("Data");
    reveal_strlit("Globe");
    reveal_strlit("Inspector");
    reveal_strlit("Code");
    reveal_strlit("Copilot");
    reveal_strlit("🌐 Globe");
    reveal_strlit("🗺 Map");
    reveal_strlit("📊 Hovmoller");
    reveal_strlit("📈 Spectrum");
    reveal_strlit("🔪 Section");
    reveal_strlit("📍 Profile");
    reveal_strlit("Vertical");
    reveal_strlit("Time");
    reveal_strlit("T-Lev");
    reveal_strlit("Variable");
    reveal_strlit("Projection");
    reveal_strlit("Colormap");
    reveal_strlit("Display");
    reveal_strlit("Spectral Filter");
    reveal_strlit("Range");
    reveal_strlit("Cross Section");
    reveal_strlit("Vector Overlay");
    reveal_strlit("Contour Lines");
    reveal_strlit("Streamlines");
    reveal_strlit("Trajectory");
    reveal_strlit("Suggested");
    reveal_strlit("Inference");
    reveal_strlit("Grid");
    reveal_strlit("Smooth");
    reveal_strlit("Slice");
    reveal_strlit("Global");
    reveal_strlit("Manual");
    reveal_strlit("Apply");
    reveal_strlit("Reset");
    reveal_strlit("▶ Run");
    reveal_strlit("Save");
    reveal_strlit("Load");
    reveal_strlit("Copy");
    reveal_strlit("Export PNG...");
    reveal_strlit("Set");
    reveal_strlit("Explain");
    reveal_strlit("Explore");
    reveal_strlit("Load File...");
    reveal_strlit("Save PNG");
    reveal_strlit("Save GIF");
    reveal_strlit("Enabled");
    reveal_strlit("📍 Profile here");
    reveal_strlit("📊 Open Profile tab");
    reveal_strlit("💾 Export PNG");
    reveal_strlit("🌐 Center here");
    reveal_strlit("Density");
    reveal_strlit("Scale");
    reveal_strlit("Levels");
    reveal_strlit("Trail");
    reveal_strlit("Axis");
    reveal_strlit("Fix Lat");
    reveal_strlit("Fix Lon");
    reveal_strlit("Index");
    reveal_strlit("to");
    reveal_strlit("Format:");
    reveal_strlit("Title:");
    reveal_strlit("Resolution:");
    reveal_strlit("FPS:");
    reveal_strlit("API Key");
    reveal_strlit("Sequential");
    reveal_strlit("Diverging");
    reveal_strlit("Value:");
    reveal_strlit("Wavenumber Filter");
    reveal_strlit("Temporal Filter");
    reveal_strlit("Click a point on Globe/Map");
    reveal_strlit("Include colorbar");
    reveal_strlit("Publication quality");
    reveal_strlit("Symmetric (0-centered)");
    reveal_strlit("Drop a .nc file here\nor click Open");
    reveal_strlit("Drop NetCDF file here");
    reveal_strlit("or use File → Open");
    reveal_strlit("Select a variable");
    reveal_strlit("No file loaded");
    reveal_strlit("No trajectory pair detected");
    reveal_strlit("No cross-section data available\n(requires variable with level dimension)");
    reveal_strlit("No spectral data available");
    reveal_strlit("No matching commands");
    reveal_strlit("Ask me about your data or GFD concepts.");
    reveal_strlit("Click to cycle FPS");
    reveal_strlit("Hide sidebar [");
    reveal_strlit("Show Data [");
    reveal_strlit("Hide sidebar ]");
    reveal_strlit("Show Inspector ]");
    reveal_strlit("Ready");
    reveal_strlit("Thinking...");
    reveal_strlit("Exporting GIF...");
    reveal_strlit("Code copied to clipboard");
    reveal_strlit("No changes detected");
    reveal_strlit("Export PNG");
    reveal_strlit("Export GIF");
    reveal_strlit("You");
    reveal_strlit("Or set ANTHROPIC_API_KEY env var");
    reveal_strlit("Ask about your data...");
    reveal_strlit("Explain what I'm currently looking at and its physical significance.");
    reveal_strlit("What interesting features can you see in this data? Suggest what to explore next.");
    reveal_strlit("Type a command...");
    reveal_strlit("Opened:");
    reveal_strlit("Error:");
    reveal_strlit("Exported");
    reveal_strlit("Export error:");
    reveal_strlit("GIF export error:");
    reveal_strlit("Recipe saved to:");
    reveal_strlit("Save failed:");
    reveal_strlit("Recipe loaded from:");
    reveal_strlit("Load failed:");
    reveal_strlit("Applied:");
    reveal_strlit("Units:");
    reveal_strlit("frames");
    reveal_strlit("Detected:");
    let t = en_table();
    assert forall|i: int| 0 <= i < t.len() implies #[trigger] t[i].1 != "???"@ by {
        assert(t[i].1.len() != 3 || t[i].1[0] != '?');
    }
}

/// No Japanese text is `???`, the text shown for a key without one.
pub proof fn lemma_ja_texts_known()
    ensures
        forall|i: int| 0 <= i < ja_table().len() ==> #[trigger] ja_table()[i].1 != "???"@,
{
    reveal_strlit("???");
    reveal_strlit("データ");
    reveal_strlit("地球儀");
    reveal_strlit("設定");
    reveal_strlit("コード");
    reveal_strlit("Copilot");
    reveal_strlit("🌐 地球儀");
    reveal_strlit("🗺 地図");
    reveal_strlit("📊 ホフメラー");
    reveal_strlit("📈 スペクトル");
    reveal_strlit("🔪 断面");
    reveal_strlit("📍 プロファイル");
    reveal_strlit("鉛直");
    reveal_strlit("時系列");
    reveal_strlit("時×高度");
    reveal_strlit("変数");
    reveal_strlit("投影法");
    reveal_strlit("カラーマップ");
    reveal_strlit("表示");
    reveal_strlit("スペクトルフィルタ");
    reveal_strlit("範囲");
    reveal_strlit("断面");
    reveal_strlit("ベクトルオーバーレイ");
    reveal_strlit("等値線");
    reveal_strlit("流線");
    reveal_strlit("軌跡");
    reveal_strlit("推奨設定");
    reveal_strlit("推論");
    reveal_strlit("格子点");
    reveal_strlit("補間");
    reveal_strlit("スライス");
    reveal_strlit("全体");
    reveal_strlit("手動");
    reveal_strlit("適用");
    reveal_strlit("リセット");
    reveal_strlit("▶ 実行");
    reveal_strlit("保存");
    reveal_strlit("読込");
    reveal_strlit("コピー");
    reveal_strlit("PNGエクスポート...");
    reveal_strlit("解説");
    reveal_strlit("探索");
    reveal_strlit("ファイル読込...");
    reveal_strlit("PNG保存");
    reveal_strlit("GIF保存");
    reveal_strlit("有効");
    reveal_strlit("📍 ここのプロファイル");
    reveal_strlit("📊 プロファイルタブを開く");
    reveal_strlit("💾 PNGエクスポート");
    reveal_strlit("🌐 ここを中心に");
    reveal_strlit("密度");
    reveal_strlit("スケール");
    reveal_strlit("レベル数");
    reveal_strlit("軌跡長");
    reveal_strlit("軸");
    reveal_strlit("緯度固定");
    reveal_strlit("経度固定");
    reveal_strlit("インデックス");
    reveal_strlit("〜");
    reveal_strlit("形式:");
    reveal_strlit("タイトル:");
    reveal_strlit("解像度:");
    reveal_strlit("FPS:");
    reveal_strlit("APIキー");
    reveal_strlit("Sequential");
    reveal_strlit("Diverging");
    reveal_strlit("値:");
    reveal_strlit("波数フィルタ");
    reveal_strlit("時間フィルタ");
    reveal_strlit("Globe/Mapで点をクリック");
    reveal_strlit("カラーバーを含む");
    reveal_strlit("論文品質");
    reveal_strlit("対称 (0中心)");
    reveal_strlit(".ncファイルをドロップ\nまたは「開く」をクリック");
    reveal_strlit("NetCDFファイルをドロップ");
    reveal_strlit("または File → Open");
    reveal_strlit("変数を選択してください");
    reveal_strlit("ファイルが開かれていません");
    reveal_strlit("軌跡ペアが検出されません");
    reveal_strlit("断面データがありません\n（レベル次元を持つ変数が必要です）");
    reveal_strlit("スペクトルデータがありません");
    reveal_strlit("一致するコマンドがありません");
    reveal_strlit("データやGFDの概念について質問できます。");
    reveal_strlit("クリックでFPS切替");
    reveal_strlit("サイドバーを隠す [");
    reveal_strlit("データを表示 [");
    reveal_strlit("サイドバーを隠す ]");
    reveal_strlit("設定を表示 ]");
    reveal_strlit("準備完了");
    reveal_strlit("考え中...");
    reveal_strlit("GIFエクスポート中...");
    reveal_strlit("コードをクリップボードにコピーしました");
    reveal_strlit("変更は検出されませんでした");
    reveal_strlit("PNGエクスポート");
    reveal_strlit("GIFエクスポート");
    reveal_strlit("あなた");
    reveal_strlit("または ANTHROPIC_API_KEY 環境変数を設定");
    reveal_strlit("データについて質問...");
    reveal_strlit("今見ているデータの内容と物理的な意味を説明してください。");
    reveal_strlit("このデータにどんな興味深い特徴がありますか？次に何を探索すべきか提案してください。");
    reveal_strlit("コマンドを入力...");
    reveal_strlit("開いた:");
    reveal_strlit("エラー:");
    reveal_strlit("エクスポート完了");
    reveal_strlit("エクスポートエラー:");
    reveal_strlit("GIFエクスポートエラー:");
    reveal_strlit("レシピ保存先:");
    reveal_strlit("保存失敗:");
    reveal_strlit("レシピ読込元:");
    reveal_strlit("読込失敗:");
    reveal_strlit("適用:");
    reveal_strlit("単位:");
    reveal_strlit("フレーム");
    reveal_strlit("検出:");
    let t = ja_table();
    assert forall|i: int| 0 <= i < t.len() implies #[trigger] t[i].1 != "???"@ by {
        assert(t[i].1.len() != 3 || t[i].1[0] != '?');
    }
}

proof fn lemma_lookup_value(table: Seq<(Seq<char>, Seq<char>)>, key: Seq<char>)
    ensures
        lookup(table, key) matches Some(v) ==> exists|i: int| 0 <= i < table.len() && #[trigger] table[i].1 == v,
    decreases table.len(),
{
    if table.len() > 0 && table[0].0 != key {
        lemma_lookup_value(table.drop_first(), key);
        if let Some(v) = lookup(table, key) {
            let i = choose|i: int| 0 <= i < table.drop_first().len() && #[trigger] table.drop_first()[i].1 == v;
            assert(table[i + 1].1 == v);
        }
    } else if table.len() > 0 {
        assert(table[0].1 == table[0].1);
    }
}

/// The two translation tables list the same keys, in the same order, and
/// no text of either is `???`.
pub proof fn lemma_translation_tables()
    ensures
        keys_of(en_table()) == keys_of(ja_table()),
        forall|i: int| 0 <= i < en_table().len() ==> #[trigger] en_table()[i].1 != "???"@,
        forall|i: int| 0 <= i < ja_table().len() ==> #[trigger] ja_table()[i].1 != "???"@,
{
    assert(keys_of(en_table()) =~= keys_of(ja_table()));
    lemma_en_texts_known();
    lemma_ja_texts_known();
}

/// No text of either language is `???`, so a key shows `???` in English
/// exactly when it shows `???` in Japanese: when neither table has it.
pub proof fn lemma_unknown_keys_agree(key: Seq<char>)
    ensures
        translate(Lang::En, key) == "???"@ <==> lookup(table_of(Lang::En), key) is None,
        translate(Lang::Ja, key) == "???"@ <==> lookup(table_of(Lang::Ja), key) is None,
        translate(Lang::En, key) == "???"@ <==> translate(Lang::Ja, key) == "???"@,
{
    lemma_en_texts_known();
    lemma_ja_texts_known();
    lemma_lookup_value(en_table(), key);
    lemma_lookup_value(ja_table(), key);
    lemma_languages_cover_same_keys(key);
}

/// Translate a key to the given language.
/// Returns `"???"` if the key is not found (visible during development).
pub fn t(lang: Lang, key: &str) -> (r: &'static str)
    ensures
        r@ == translate(lang, key@),
{
    let table = match lang {
        Lang::En => en_translations(),
        Lang::Ja => ja_translations(),
    };
    let ghost tv = pairs_view(table@);
    assert(tv == table_of(lang));
    let mut i: usize = 0;
    while i < table.len()
        invariant
            i <= table@.len(),
            tv == pairs_view(table@),
            tv == table_of(lang),
            forall|j: int| 0 <= j < i ==> #[trigger] tv[j].0 != key@,
        decreases table@.len() - i,
    {
        let (k, v) = table[i];
        if str_eq(k, key) {
            proof {
                lemma_lookup_skip(tv, key@, i as int);
                assert(tv[i as int] == (k@, v@));
                assert(tv.skip(i as int)[0] == tv[i as int]);
                assert(tv.skip(i as int).len() > 0);
            }
            return v;
        }
        assert(tv[i as int] == (k@, v@));
        i = i + 1;
    }
    proof {
        lemma_lookup_skip(tv, key@, i as int);
        assert(tv.skip(i as int).len() == 0);
    }
    "???"
}

pub open spec fn en_table() -> Seq<(Seq<char>, Seq<char>)> {
    seq![
        ("data"@, "Data"@),
        ("globe"@, "Globe"@),
        ("inspector"@, "Inspector"@),
        ("code"@, "Code"@),
        ("copilot"@, "Copilot"@),
        ("view_globe"@, "🌐 Globe"@),
        ("view_map"@, "🗺 Map"@),
        ("view_hovmoller"@, "📊 Hovmoller"@),
        ("view_spectrum"@, "📈 Spectrum"@),
        ("view_section"@, "🔪 Section"@),
        ("view_profile"@, "📍 Profile"@),
        ("vertical"@, "Vertical"@),
        ("time"@, "Time"@),
        ("t_lev"@, "T-Lev"@),
        ("variable"@, "Variable"@),
        ("projection"@, "Projection"@),
        ("colormap_header"@, "Colormap"@),
        ("display"@, "Display"@),
        ("spectral_filter"@, "Spectral Filter"@),
        ("range"@, "Range"@),
        ("cross_section"@, "Cross Section"@),
        ("vector_overlay"@, "Vector Overlay"@),
        ("contour_lines"@, "Contour Lines"@),
        ("streamlines"@, "Streamlines"@),
        ("trajectory"@, "Trajectory"@),
        ("suggested"@, "Suggested"@),
        ("inference"@, "Inference"@),
        ("grid"@, "Grid"@),
        ("smooth"@, "Smooth"@),
        ("slice"@, "Slice"@),
        ("global"@, "Global"@),
        ("manual"@, "Manual"@),
        ("apply"@, "Apply"@),
        ("reset"@, "Reset"@),
        ("run"@, "▶ Run"@),
        ("save"@, "Save"@),
        ("load"@, "Load"@),
        ("copy"@, "Copy"@),
        ("export_png_btn"@, "Export PNG..."@),
        ("set"@, "Set"@),
        ("explain"@, "Explain"@),
        ("explore"@, "Explore"@),
        ("load_file"@, "Load File..."@),
        ("save_png"@, "Save PNG"@),
        ("save_gif"@, "Save GIF"@),
        ("enabled"@, "Enabled"@),
        ("profile_here"@, "📍 Profile here"@),
        ("open_profile_tab"@, "📊 Open Profile tab"@),
        ("ctx_export_png"@, "💾 Export PNG"@),
        ("center_here"@, "🌐 Center here"@),
        ("density"@, "Density"@),
        ("scale"@, "Scale"@),
        ("levels"@, "Levels"@),
        ("trail"@, "Trail"@),
        ("axis"@, "Axis"@),
        ("fix_lat"@, "Fix Lat"@),
        ("fix_lon"@, "Fix Lon"@),
        ("index"@, "Index"@),
        ("to"@, "to"@),
        ("format_label"@, "Format:"@),
        ("title_label"@, "Title:"@),
        ("resolution_label"@, "Resolution:"@),
        ("fps_label"@, "FPS:"@),
        ("api_key"@, "API Key"@),
        ("sequential"@, "Sequential"@),
        ("diverging"@, "Diverging"@),
        ("value_label"@, "Value:"@),
        ("wavenumber_filter"@, "Wavenumber Filter"@),
        ("temporal_filter"@, "Temporal Filter"@),
        ("click_for_spectrum"@, "Click a point on Globe/Map"@),
        ("include_colorbar"@, "Include colorbar"@),
        ("publication_quality"@, "Publication quality"@),
        ("symmetric_centered"@, "Symmetric (0-centered)"@),
        ("drop_nc_sidebar"@, "Drop a .nc file here\nor click Open"@),
        ("drop_nc_main"@, "Drop NetCDF file here"@),
        ("drop_nc_hint"@, "or use File → Open"@),
        ("select_variable"@, "Select a variable"@),
        ("no_file_loaded"@, "No file loaded"@),
        ("no_trajectory_pair"@, "No trajectory pair detected"@),
        ("no_cross_section"@, "No cross-section data available\n(requires variable with level dimension)"@),
        ("no_spectrum"@, "No spectral data available"@),
        ("no_matching_commands"@, "No matching commands"@),
        ("copilot_empty"@, "Ask me about your data or GFD concepts."@),
        ("cycle_fps"@, "Click to cycle FPS"@),
        ("hide_left"@, "Hide sidebar ["@),
        ("show_left"@, "Show Data ["@),
        ("hide_right"@, "Hide sidebar ]"@),
        ("show_right"@, "Show Inspector ]"@),
        ("ready"@, "Ready"@),
        ("thinking"@, "Thinking..."@),
        ("exporting_gif"@, "Exporting GIF..."@),
        ("code_copied"@, "Code copied to clipboard"@),
        ("no_changes"@, "No changes detected"@),
        ("export_png"@, "Export PNG"@),
        ("export_gif"@, "Export GIF"@),
        ("you"@, "You"@),
        ("copilot_name"@, "Copilot"@),
        ("api_key_env_hint"@, "Or set ANTHROPIC_API_KEY env var"@),
        ("ask_data_hint"@, "Ask about your data..."@),
        ("explain_prompt"@, "Explain what I'm currently looking at and its physical significance."@),
        ("explore_prompt"@, "What interesting features can you see in this data? Suggest what to explore next."@),
        ("cmd_placeholder"@, "Type a command..."@),
        ("opened"@, "Opened:"@),
        ("error_prefix"@, "Error:"@),
        ("exported_prefix"@, "Exported"@),
        ("export_error"@, "Export error:"@),
        ("gif_export_error"@, "GIF export error:"@),
        ("recipe_saved"@, "Recipe saved to:"@),
        ("save_failed"@, "Save failed:"@),
        ("recipe_loaded"@, "Recipe loaded from:"@),
        ("load_failed"@, "Load failed:"@),
        ("applied"@, "Applied:"@),
        ("units_label"@, "Units:"@),
        ("frames"@, "frames"@),
        ("detected"@, "Detected:"@),
    ]
}

pub open spec fn ja_table() -> Seq<(Seq<char>, Seq<char>)> {
    seq![
        ("data"@, "データ"@),
        ("globe"@, "地球儀"@),
        ("inspector"@, "設定"@),
        ("code"@, "コード"@),
        ("copilot"@, "Copilot"@),
        ("view_globe"@, "🌐 地球儀"@),
        ("view_map"@, "🗺 地図"@),
        ("view_hovmoller"@, "📊 ホフメラー"@),
        ("view_spectrum"@, "📈 スペクトル"@),
        ("view_section"@, "🔪 断面"@),
        ("view_profile"@, "📍 プロファイル"@),
        ("vertical"@, "鉛直"@),
        ("time"@, "時系列"@),
        ("t_lev"@, "時×高度"@),
        ("variable"@, "変数"@),
        ("projection"@, "投影法"@),
        ("colormap_header"@, "カラーマップ"@),
        ("display"@, "表示"@),
        ("spectral_filter"@, "スペクトルフィルタ"@),
        ("range"@, "範囲"@),
        ("cross_section"@, "断面"@),
        ("vector_overlay"@, "ベクトルオーバーレイ"@),
        ("contour_lines"@, "等値線"@),
        ("streamlines"@, "流線"@),
        ("trajectory"@, "軌跡"@),
        ("suggested"@, "推奨設定"@),
        ("inference"@, "推論"@),
        ("grid"@, "格子点"@),
        ("smooth"@, "補間"@),
        ("slice"@, "スライス"@),
        ("global"@, "全体"@),
        ("manual"@, "手動"@),
        ("apply"@, "適用"@),
        ("reset"@, "リセット"@),
        ("run"@, "▶ 実行"@),
        ("save"@, "保存"@),
        ("load"@, "読込"@),
        ("copy"@, "コピー"@),
        ("export_png_btn"@, "PNGエクスポート..."@),
        ("set"@, "設定"@),
        ("explain"@, "解説"@),
        ("explore"@, "探索"@),
        ("load_file"@, "ファイル読込..."@),
        ("save_png"@, "PNG保存"@),
        ("save_gif"@, "GIF保存"@),
        ("enabled"@, "有効"@),
        ("profile_here"@, "📍 ここのプロファイル"@),
        ("open_profile_tab"@, "📊 プロファイルタブを開く"@),
        ("ctx_export_png"@, "💾 PNGエクスポート"@),
        ("center_here"@, "🌐 ここを中心に"@),
        ("density"@, "密度"@),
        ("scale"@, "スケール"@),
        ("levels"@, "レベル数"@),
        ("trail"@, "軌跡長"@),
        ("axis"@, "軸"@),
        ("fix_lat"@, "緯度固定"@),
        ("fix_lon"@, "経度固定"@),
        ("index"@, "インデックス"@),
        ("to"@, "〜"@),
        ("format_label"@, "形式:"@),
        ("title_label"@, "タイトル:"@),
        ("resolution_label"@, "解像度:"@),
        ("fps_label"@, "FPS:"@),
        ("api_key"@, "APIキー"@),
        ("sequential"@, "Sequential"@),
        ("diverging"@, "Diverging"@),
        ("value_label"@, "値:"@),
        ("wavenumber_filter"@, "波数フィルタ"@),
        ("temporal_filter"@, "時間フィルタ"@),
        ("click_for_spectrum"@, "Globe/Mapで点をクリック"@),
        ("include_colorbar"@, "カラーバーを含む"@),
        ("publication_quality"@, "論文品質"@),
        ("symmetric_centered"@, "対称 (0中心)"@),
        ("drop_nc_sidebar"@, ".ncファイルをドロップ\nまたは「開く」をクリック"@),
        ("drop_nc_main"@, "NetCDFファイルをドロップ"@),
        ("drop_nc_hint"@, "または File → Open"@),
        ("select_variable"@, "変数を選択してください"@),
        ("no_file_loaded"@, "ファイルが開かれていません"@),
        ("no_trajectory_pair"@, "軌跡ペアが検出されません"@),
        ("no_cross_section"@, "断面データがありません\n（レベル次元を持つ変数が必要です）"@),
        ("no_spectrum"@, "スペクトルデータがありません"@),
        ("no_matching_commands"@, "一致するコマンドがありません"@),
        ("copilot_empty"@, "データやGFDの概念について質問できます。"@),
        ("cycle_fps"@, "クリックでFPS切替"@),
        ("hide_left"@, "サイドバーを隠す ["@),
        ("show_left"@, "データを表示 ["@),
        ("hide_right"@, "サイドバーを隠す ]"@),
        ("show_right"@, "設定を表示 ]"@),
        ("ready"@, "準備完了"@),
        ("thinking"@, "考え中..."@),
        ("exporting_gif"@, "GIFエクスポート中..."@),
        ("code_copied"@, "コードをクリップボードにコピーしました"@),
        ("no_changes"@, "変更は検出されませんでした"@),
        ("export_png"@, "PNGエクスポート"@),
        ("export_gif"@, "GIFエクスポート"@),
        ("you"@, "あなた"@),
        ("copilot_name"@, "Copilot"@),
        ("api_key_env_hint"@, "または ANTHROPIC_API_KEY 環境変数を設定"@),
        ("ask_data_hint"@, "データについて質問..."@),
        ("explain_prompt"@, "今見ているデータの内容と物理的な意味を説明してください。"@),
        ("explore_prompt"@, "このデータにどんな興味深い特徴がありますか？次に何を探索すべきか提案してください。"@),
        ("cmd_placeholder"@, "コマンドを入力..."@),
        ("opened"@, "開いた:"@),
        ("error_prefix"@, "エラー:"@),
        ("exported_prefix"@, "エクスポート完了"@),
        ("export_error"@, "エクスポートエラー:"@),
        ("gif_export_error"@, "GIFエクスポートエラー:"@),
        ("recipe_saved"@, "レシピ保存先:"@),
        ("save_failed"@, "保存失敗:"@),
        ("recipe_loaded"@, "レシピ読込元:"@),
        ("load_failed"@, "読込失敗:"@),
        ("applied"@, "適用:"@),
        ("units_label"@, "単位:"@),
        ("frames"@, "フレーム"@),
        ("detected"@, "検出:"@),
    ]
}

/// The English texts, key by key.
pub fn en_translations() -> (r: Vec<(&'static str, &'static str)>)
    ensures
        pairs_view(r@) == en_table(),
{
    let r: Vec<(&'static str, &'static str)> = vec![
        ("data", "Data"),
        ("globe", "Globe"),
        ("inspector", "Inspector"),
        ("code", "Code"),
        ("copilot", "Copilot"),
        ("view_globe", "🌐 Globe"),
        ("view_map", "🗺 Map"),
        ("view_hovmoller", "📊 Hovmoller"),
        ("view_spectrum", "📈 Spectrum"),
        ("view_section", "🔪 Section"),
        ("view_profile", "📍 Profile"),
        ("vertical", "Vertical"),
        ("time", "Time"),
        ("t_lev", "T-Lev"),
        ("variable", "Variable"),
        ("projection", "Projection"),
        ("colormap_header", "Colormap"),
        ("display", "Display"),
        ("spectral_filter", "Spectral Filter"),
        ("range", "Range"),
        ("cross_section", "Cross Section"),
        ("vector_overlay", "Vector Overlay"),
        ("contour_lines", "Contour Lines"),
        ("streamlines", "Streamlines"),
        ("trajectory", "Trajectory"),
        ("suggested", "Suggested"),
        ("inference", "Inference"),
        ("grid", "Grid"),
        ("smooth", "Smooth"),
        ("slice", "Slice"),
        ("global", "Global"),
        ("manual", "Manual"),
        ("apply", "Apply"),
        ("reset", "Reset"),
        ("run", "▶ Run"),
        ("save", "Save"),
        ("load", "Load"),
        ("copy", "Copy"),
        ("export_png_btn", "Export PNG..."),
        ("set", "Set"),
        ("explain", "Explain"),
        ("explore", "Explore"),
        ("load_file", "Load File..."),
        ("save_png", "Save PNG"),
        ("save_gif", "Save GIF"),
        ("enabled", "Enabled"),
        ("profile_here", "📍 Profile here"),
        ("open_profile_tab", "📊 Open Profile tab"),
        ("ctx_export_png", "💾 Export PNG"),
        ("center_here", "🌐 Center here"),
        ("density", "Density"),
        ("scale", "Scale"),
        ("levels", "Levels"),
        ("trail", "Trail"),
        ("axis", "Axis"),
        ("fix_lat", "Fix Lat"),
        ("fix_lon", "Fix Lon"),
        ("index", "Index"),
        ("to", "to"),
        ("format_label", "Format:"),
        ("title_label", "Title:"),
        ("resolution_label", "Resolution:"),
        ("fps_label", "FPS:"),
        ("api_key", "API Key"),
        ("sequential", "Sequential"),
        ("diverging", "Diverging"),
        ("value_label", "Value:"),
        ("wavenumber_filter", "Wavenumber Filter"),
        ("temporal_filter", "Temporal Filter"),
        ("click_for_spectrum", "Click a point on Globe/Map"),
        ("include_colorbar", "Include colorbar"),
        ("publication_quality", "Publication quality"),
        ("symmetric_centered", "Symmetric (0-centered)"),
        ("drop_nc_sidebar", "Drop a .nc file here\nor click Open"),
        ("drop_nc_main", "Drop NetCDF file here"),
        ("drop_nc_hint", "or use File → Open"),
        ("select_variable", "Select a variable"),
        ("no_file_loaded", "No file loaded"),
        ("no_trajectory_pair", "No trajectory pair detected"),
        ("no_cross_section", "No cross-section data available\n(requires variable with level dimension)"),
        ("no_spectrum", "No spectral data available"),
        ("no_matching_commands", "No matching commands"),
        ("copilot_empty", "Ask me about your data or GFD concepts."),
        ("cycle_fps", "Click to cycle FPS"),
        ("hide_left", "Hide sidebar ["),
        ("show_left", "Show Data ["),
        ("hide_right", "Hide sidebar ]"),
        ("show_right", "Show Inspector ]"),
        ("ready", "Ready"),
        ("thinking", "Thinking..."),
        ("exporting_gif", "Exporting GIF..."),
        ("code_copied", "Code copied to clipboard"),
        ("no_changes", "No changes detected"),
        ("export_png", "Export PNG"),
        ("export_gif", "Export GIF"),
        ("you", "You"),
        ("copilot_name", "Copilot"),
        ("api_key_env_hint", "Or set ANTHROPIC_API_KEY env var"),
        ("ask_data_hint", "Ask about your data..."),
        ("explain_prompt", "Explain what I'm currently looking at and its physical significance."),
        ("explore_prompt", "What interesting features can you see in this data? Suggest what to explore next."),
        ("cmd_placeholder", "Type a command..."),
        ("opened", "Opened:"),
        ("error_prefix", "Error:"),
        ("exported_prefix", "Exported"),
        ("export_error", "Export error:"),
        ("gif_export_error", "GIF export error:"),
        ("recipe_saved", "Recipe saved to:"),
        ("save_failed", "Save failed:"),
        ("recipe_loaded", "Recipe loaded from:"),
        ("load_failed", "Load failed:"),
        ("applied", "Applied:"),
        ("units_label", "Units:"),
        ("frames", "frames"),
        ("detected", "Detected:"),
    ];
    assert(pairs_view(r@) =~= en_table());
    r
}

/// The Japanese texts, key by key.
pub fn ja_translations() -> (r: Vec<(&'static str, &'static str)>)
    ensures
        pairs_view(r@) == ja_table(),
{
    let r: Vec<(&'static str, &'static str)> = vec![
        ("data", "データ"),
        ("globe", "地球儀"),
        ("inspector", "設定"),
        ("code", "コード"),
        ("copilot", "Copilot"),
        ("view_globe", "🌐 地球儀"),
        ("view_map", "🗺 地図"),
        ("view_hovmoller", "📊 ホフメラー"),
        ("view_spectrum", "📈 スペクトル"),
        ("view_section", "🔪 断面"),
        ("view_profile", "📍 プロファイル"),
        ("vertical", "鉛直"),
        ("time", "時系列"),
        ("t_lev", "時×高度"),
        ("variable", "変数"),
        ("projection", "投影法"),
        ("colormap_header", "カラーマップ"),
        ("display", "表示"),
        ("spectral_filter", "スペクトルフィルタ"),
        ("range", "範囲"),
        ("cross_section", "断面"),
        ("vector_overlay", "ベクトルオーバーレイ"),
        ("contour_lines", "等値線"),
        ("streamlines", "流線"),
        ("trajectory", "軌跡"),
        ("suggested", "推奨設定"),
        ("inference", "推論"),
        ("grid", "格子点"),
        ("smooth", "補間"),
        ("slice", "スライス"),
        ("global", "全体"),
        ("manual", "手動"),
        ("apply", "適用"),
        ("reset", "リセット"),
        ("run", "▶ 実行"),
        ("save", "保存"),
        ("load", "読込"),
        ("copy", "コピー"),
        ("export_png_btn", "PNGエクスポート..."),
        ("set", "設定"),
        ("explain", "解説"),
        ("explore", "探索"),
        ("load_file", "ファイル読込..."),
        ("save_png", "PNG保存"),
        ("save_gif", "GIF保存"),
        ("enabled", "有効"),
        ("profile_here", "📍 ここのプロファイル"),
        ("open_profile_tab", "📊 プロファイルタブを開く"),
        ("ctx_export_png", "💾 PNGエクスポート"),
        ("center_here", "🌐 ここを中心に"),
        ("density", "密度"),
        ("scale", "スケール"),
        ("levels", "レベル数"),
        ("trail", "軌跡長"),
        ("axis", "軸"),
        ("fix_lat", "緯度固定"),
        ("fix_lon", "経度固定"),
        ("index", "インデックス"),
        ("to", "〜"),
        ("format_label", "形式:"),
        ("title_label", "タイトル:"),
        ("resolution_label", "解像度:"),
        ("fps_label", "FPS:"),
        ("api_key", "APIキー"),
        ("sequential", "Sequential"),
        ("diverging", "Diverging"),
        ("value_label", "値:"),
        ("wavenumber_filter", "波数フィルタ"),
        ("temporal_filter", "時間フィルタ"),
        ("click_for_spectrum", "Globe/Mapで点をクリック"),
        ("include_colorbar", "カラーバーを含む"),
        ("publication_quality", "論文品質"),
        ("symmetric_centered", "対称 (0中心)"),
        ("drop_nc_sidebar", ".ncファイルをドロップ\nまたは「開く」をクリック"),
        ("drop_nc_main", "NetCDFファイルをドロップ"),
        ("drop_nc_hint", "または File → Open"),
        ("select_variable", "変数を選択してください"),
        ("no_file_loaded", "ファイルが開かれていません"),
        ("no_trajectory_pair", "軌跡ペアが検出されません"),
        ("no_cross_section", "断面データがありません\n（レベル次元を持つ変数が必要です）"),
        ("no_spectrum", "スペクトルデータがありません"),
        ("no_matching_commands", "一致するコマンドがありません"),
        ("copilot_empty", "データやGFDの概念について質問できます。"),
        ("cycle_fps", "クリックでFPS切替"),
        ("hide_left", "サイドバーを隠す ["),
        ("show_left", "データを表示 ["),
        ("hide_right", "サイドバーを隠す ]"),
        ("show_right", "設定を表示 ]"),
        ("ready", "準備完了"),
        ("thinking", "考え中..."),
        ("exporting_gif", "GIFエクスポート中..."),
        ("code_copied", "コードをクリップボードにコピーしました"),
        ("no_changes", "変更は検出されませんでした"),
        ("export_png", "PNGエクスポート"),
        ("export_gif", "GIFエクスポート"),
        ("you", "あなた"),
        ("copilot_name", "Copilot"),
        ("api_key_env_hint", "または ANTHROPIC_API_KEY 環境変数を設定"),
        ("ask_data_hint", "データについて質問..."),
        ("explain_prompt", "今見ているデータの内容と物理的な意味を説明してください。"),
        ("explore_prompt", "このデータにどんな興味深い特徴がありますか？次に何を探索すべきか提案してください。"),
        ("cmd_placeholder", "コマンドを入力..."),
        ("opened", "開いた:"),
        ("error_prefix", "エラー:"),
        ("exported_prefix", "エクスポート完了"),
        ("export_error", "エクスポートエラー:"),
        ("gif_export_error", "GIFエクスポートエラー:"),
        ("recipe_saved", "レシピ保存先:"),
        ("save_failed", "保存失敗:"),
        ("recipe_loaded", "レシピ読込元:"),
        ("load_failed", "読込失敗:"),
        ("applied", "適用:"),
        ("units_label", "単位:"),
        ("frames", "フレーム"),
        ("detected", "検出:"),
    ];
    assert(pairs_view(r@) =~= ja_table());
    r
}

} // verus!
