use geoscope::copilot::{reply_text, request_body, ChatMessage, api_key_config_text, api_key_from_config, config_with_api_key, build_system_prompt, build_view_context, config_dir, config_path, LlmChannel, LlmClient, BASE_PROMPT};
use geoscope::colormap::colormap_lut;
use geoscope::data::{active_level_dim, active_time_dim_len, default_variable, new_open_file, slice_extents, tendency_slice_extents, DataStore, VariableInfo};
use geoscope::i18n::{lang_code, lang_from_code, t, Lang};
use geoscope::plot::compute_tick_count;
use geoscope::spectral::{detect_n_trunc, filter_plan, row_order, FilterPlan};
use geoscope::ui::{Colormap, UiState};

fn dims(d: &[(&str, usize)]) -> Vec<(String, usize)> {
    d.iter().map(|(n, s)| (n.to_string(), *s)).collect()
}

fn var(name: &str, d: &[(&str, usize)]) -> VariableInfo {
    VariableInfo { name: name.to_string(), long_name: None, units: None, standard_name: None, dimensions: dims(d) }
}

#[test]
fn truncation_of_grids() {
    assert_eq!(detect_n_trunc(128, 64), Some(42));
    assert_eq!(detect_n_trunc(64, 64), Some(31));
    assert_eq!(detect_n_trunc(6, 4), Some(2));
    assert_eq!(detect_n_trunc(5, 64), None);
    assert_eq!(detect_n_trunc(128, 63), None);
    assert_eq!(detect_n_trunc(128, 2), None);
}

#[test]
fn filter_plans() {
    assert_eq!(filter_plan(10, 4, 2, 1, 0), FilterPlan::Reject);
    assert_eq!(filter_plan(8, 4, 2, 1, 1), FilterPlan::Unchanged);
    assert_eq!(filter_plan(8, 4, 2, 1, 0), FilterPlan::Transform);
    assert_eq!(filter_plan(12, 4, 3, 1, 0), FilterPlan::Reject);
    assert_eq!(filter_plan(8, 4, 2, 2, 0), FilterPlan::Reject);
    assert_eq!(row_order(0, 4, false), 3);
    assert_eq!(row_order(1, 4, true), 1);
}

#[test]
fn tick_counts() {
    assert_eq!(compute_tick_count(0, 7), 2);
    assert_eq!(compute_tick_count(2, 7), 2);
    assert_eq!(compute_tick_count(5, 7), 5);
    assert_eq!(compute_tick_count(100, 6), 6);
    assert_eq!(compute_tick_count(100, 1), 2);
}

#[test]
fn language_codes_and_texts() {
    assert_eq!(lang_code(Lang::Ja), 1);
    assert_eq!(lang_from_code(lang_code(Lang::Ja)), Lang::Ja);
    assert_eq!(lang_from_code(7), Lang::En);
    assert_eq!(Lang::En.next().next(), Lang::En);
    assert_eq!(Lang::Ja.label(), "JA");
    assert_eq!(t(Lang::En, "data"), "Data");
    assert_eq!(t(Lang::Ja, "data"), "データ");
    assert_eq!(t(Lang::Ja, "no_such_key"), "???");
}

#[test]
fn system_prompt_language() {
    let en = build_system_prompt(Lang::En);
    let ja = build_system_prompt(Lang::Ja);
    assert!(en.starts_with(BASE_PROMPT));
    assert!(en.ends_with("respond in Japanese."));
    assert!(ja.contains("Respond in Japanese (日本語) by default."));
}

#[test]
fn view_context_text() {
    let mut ui = UiState::default();
    ui.contour_enabled = true;
    ui.playing = true;
    let mut ds = DataStore::new();
    let mut v = var("zeta", &[("time", 5), ("lat", 4), ("lon", 8)]);
    v.units = Some("1/s".to_string());
    ds.add_file(new_open_file("f.nc".to_string(), vec![v]));
    ds.files[0].selected_variable = Some(0);
    let c = build_view_context(&ui, &ds, Some("- Value range: [x]\n"));
    assert_eq!(
        c,
        "\n## Current Visualization State\n- File: f.nc\n- Variable: zeta (time, lat, lon)\n- Units: 1/s\n- Value range: [x]\n- Time: step 0 of 5 (playing: true)\n- View: Globe\n- Colormap: Viridis\n- Level index: 0\n- Contours: enabled\n"
    );
    let c = build_view_context(&ui, &DataStore::new(), None);
    assert_eq!(c, "\n## Current Visualization State\n- View: Globe\n- Colormap: Viridis\n- Level index: 0\n- Contours: enabled\n");
}

#[test]
fn client_and_channel_state() {
    let c = LlmClient::from_sources(None, Some("k2".to_string()), Some("k3".to_string()), "m".to_string());
    assert_eq!(c.api_key(), "k2");
    assert!(c.has_api_key());
    let mut c = LlmClient::from_sources(None, None, None, "m".to_string());
    assert!(!c.has_api_key());
    c.set_api_key("abc");
    assert_eq!(c.api_key(), "abc");
    assert_eq!(c.model(), "m");
    let mut ch = LlmChannel::new();
    assert!(ch.is_loading());
    assert_eq!(ch.poll(), None);
    ch.finish(Ok("hello".to_string()));
    assert!(!ch.is_loading());
    assert_eq!(ch.poll(), Some(Ok("hello".to_string())));
    assert_eq!(ch.poll(), None);
}

#[test]
fn settings_file_location() {
    assert_eq!(config_dir(Some("/home/me")).as_deref(), Some("/home/me/.geoscope"));
    assert_eq!(config_path(Some("/home/me/")).as_deref(), Some("/home/me/.geoscope/config.json"));
    assert_eq!(config_path(Some("")).as_deref(), Some(".geoscope/config.json"));
    assert_eq!(config_path(None), None);
}

#[test]
fn opening_files() {
    let vars = vec![var("lon", &[("lon", 8)]), var("zeta", &[("t", 5), ("sigma", 3), ("lat", 4), ("lon", 8)])];
    let f = new_open_file("f.nc".to_string(), vars);
    assert_eq!(f.time_steps, Some(5));
    assert_eq!(f.level_count, Some(3));
    assert_eq!(f.selected_variable, None);
    assert_eq!(default_variable(&f.variables), Some(1));
    let mut ds = DataStore::new();
    ds.add_file(f);
    ds.add_file(new_open_file("g.nc".to_string(), vec![]));
    assert_eq!(ds.active_file, Some(1));
    ds.record_loaded(0, 1, 4);
    assert_eq!(ds.files[0].selected_variable, Some(1));
    assert_eq!(ds.files[0].current_time, 4);
}

#[test]
fn slices() {
    let d = dims(&[("TIME", 10), ("lev", 3), ("lat", 4), ("lon", 8)]);
    assert_eq!(slice_extents(&d, 7, 2), Some(vec![(7, 1), (2, 1), (0, 4), (0, 8)]));
    assert_eq!(slice_extents(&dims(&[("x", 3)]), 0, 0), None);
    assert_eq!(slice_extents(&dims(&[("time", 3), ("lon", 8)]), 5, 0), Some(vec![(0, 3), (0, 8)]));
    assert_eq!(tendency_slice_extents(&d, 10, 0), None);
    assert_eq!(tendency_slice_extents(&d, 9, 0), Some(vec![(9, 1), (0, 1), (0, 4), (0, 8)]));
}


#[test]
fn dimensions_of_the_selected_variable() {
    let mut ds = DataStore::new();
    assert_eq!(active_time_dim_len(&ds), None);
    let vars = vec![
        var("zeta", &[("t", 5), ("PRESSURE_lev", 7), ("lat", 4), ("lon", 8)]),
        var("h", &[("time", 3), ("x", 4), ("y", 8)]),
        var("w", &[("Height", 2), ("lat", 4)]),
    ];
    ds.add_file(new_open_file("f.nc".to_string(), vars));
    assert_eq!(active_time_dim_len(&ds), None);
    ds.files[0].selected_variable = Some(0);
    assert_eq!(active_time_dim_len(&ds), Some(5));
    assert_eq!(active_level_dim(&ds), Some(("PRESSURE_lev".to_string(), 7)));
    ds.files[0].selected_variable = Some(1);
    assert_eq!(active_time_dim_len(&ds), Some(3));
    assert_eq!(active_level_dim(&ds), None);
    ds.files[0].selected_variable = Some(2);
    assert_eq!(active_level_dim(&ds), Some(("Height".to_string(), 2)));
}

#[test]
fn colormap_tables() {
    let v = colormap_lut(Colormap::Viridis);
    assert_eq!(v.len(), 1024);
    assert_eq!(&v[0..4], &[68, 1, 84, 255]);
    assert_eq!(&v[1020..1024], &[253, 231, 37, 255]);
    let r = colormap_lut(Colormap::RdBuR);
    // entry 128 lies just past the middle stop (247, 247, 247) towards (244, 165, 130)
    assert_eq!(&r[512..516], &[246, 245, 245, 255]);
    assert!(v.chunks(4).all(|p| p[3] == 255));
}

#[test]
fn reported_names_select_again() {
    use_names();
}

fn use_names() {
    for c in Colormap::sequential().into_iter().chain(Colormap::diverging()) {
        assert_eq!(geoscope::settings::name_to_colormap(c.label()), Some(c));
    }
    for v in [
        geoscope::ui::ViewMode::Globe,
        geoscope::ui::ViewMode::MapView,
        geoscope::ui::ViewMode::Hovmoller,
        geoscope::ui::ViewMode::Spectrum,
        geoscope::ui::ViewMode::CrossSection,
        geoscope::ui::ViewMode::Profile,
    ] {
        assert_eq!(geoscope::settings::name_to_view_mode(v.debug_name()), Some(v));
    }
    for p in [
        geoscope::ui::MapProjection::Equirectangular,
        geoscope::ui::MapProjection::Mollweide,
        geoscope::ui::MapProjection::PolarNorth,
        geoscope::ui::MapProjection::PolarSouth,
    ] {
        assert_eq!(geoscope::settings::name_to_projection(p.debug_name()), Some(p));
    }
}

#[test]
fn both_languages_know_the_same_keys() {
    for key in ["data", "globe", "inspector", "code", "copilot", "units_label", "frames", "detected"] {
        assert_ne!(t(Lang::En, key), "???");
        assert_ne!(t(Lang::Ja, key), "???");
    }
    assert_eq!(t(Lang::En, "nope"), "???");
}

#[test]
fn row_order_twice() {
    for j in 0..6 {
        assert_eq!(row_order(row_order(j, 6, false), 6, false), j);
    }
}

#[test]
fn api_key_in_the_settings_file() {
    assert_eq!(api_key_from_config("{\"anthropic_api_key\": \"sk-1\", \"x\": 2}"), Some("sk-1".to_string()));
    assert_eq!(api_key_from_config("{\"anthropic_api_key\": 3}"), None);
    assert_eq!(api_key_from_config("[\"anthropic_api_key\"]"), None);
    assert_eq!(api_key_from_config("not json"), None);
}

#[test]
fn saving_the_api_key_sets_one_member() {
    assert_eq!(
        config_with_api_key(None, "k1"),
        Some("{\n  \"anthropic_api_key\": \"k1\"\n}".to_string())
    );
    assert_eq!(
        config_with_api_key(Some("{\"model\": \"x\", \"anthropic_api_key\": \"old\", \"n\": 1.5}"), "new"),
        Some("{\n  \"anthropic_api_key\": \"new\",\n  \"model\": \"x\",\n  \"n\": 1.5\n}".to_string())
    );
    assert_eq!(config_with_api_key(Some("not json"), "k"), config_with_api_key(None, "k"));
    assert_eq!(config_with_api_key(Some("null"), "k"), config_with_api_key(None, "k"));
    assert_eq!(api_key_config_text(Some("[1]"), "k"), None);
    assert_eq!(api_key_config_text(Some("3"), "k"), None);
    let text = config_with_api_key(Some("{\"a\": [true, null]}"), "sk").unwrap();
    assert_eq!(api_key_from_config(&text), Some("sk".to_string()));
    assert!(text.contains("\"a\": [\n    true,\n    null\n  ]"));
}

#[test]
fn the_reply_text_is_the_first_content_text() {
    assert_eq!(
        reply_text("{\"content\": [{\"type\": \"text\", \"text\": \"Hello\"}, {\"text\": \"x\"}]}"),
        Ok("Hello".to_string())
    );
    assert_eq!(reply_text("{\"content\": []}"), Err("No text in response".to_string()));
    assert_eq!(reply_text("{\"content\": [{\"text\": 3}]}"), Err("No text in response".to_string()));
    assert_eq!(reply_text("{\"error\": {\"message\": \"bad\"}}"), Err("No text in response".to_string()));
    assert_eq!(reply_text("[1]"), Err("No text in response".to_string()));
    let e = reply_text("{oops").unwrap_err();
    assert!(e.starts_with("JSON parse error: "));
    assert!(e.len() > "JSON parse error: ".len());
}

#[test]
fn the_request_body_holds_model_limit_system_and_messages() {
    let msgs = vec![
        ChatMessage { role: "user".to_string(), content: "hi \"there\"".to_string() },
        ChatMessage { role: "assistant".to_string(), content: "ok".to_string() },
    ];
    assert_eq!(
        request_body("m1", "sys", &msgs),
        Some(
            "{\"max_tokens\":2048,\"messages\":[{\"content\":\"hi \\\"there\\\"\",\"role\":\"user\"},{\"content\":\"ok\",\"role\":\"assistant\"}],\"model\":\"m1\",\"system\":\"sys\"}"
                .to_string()
        )
    );
    assert_eq!(request_body("m", "", &[]), Some("{\"max_tokens\":2048,\"messages\":[],\"model\":\"m\",\"system\":\"\"}".to_string()));
}
