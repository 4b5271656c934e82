use llama_launcher::gpu::GpuLayersMode;
use llama_launcher::panel::{
    calculation_may_start, can_start, CalculationSlot, choice_index, device_list_available, mirostat_choice,
    normalized_choice, segment_row_choice, spec_decoding_params, SegmentRow, SpecDecodingParams,
};
use llama_launcher::search::TargetOs;
use llama_launcher::session::log_record_line;
use llama_launcher::settings::{AppSettings, Preset};

#[test]
fn segment_rows_keep_listed_values() {
    let fa = ["on", "off", "auto"];
    assert_eq!(choice_index(&fa, "off", 2), 1);
    assert_eq!(normalized_choice(&fa, "off", 2), "off");
    assert_eq!(choice_index(&fa, "sometimes", 2), 2);
    assert_eq!(normalized_choice(&fa, "sometimes", 2), "auto");
    let numa = ["", "distribute", "isolate", "numactl"];
    assert_eq!(normalized_choice(&numa, "isolate", 0), "isolate");
    assert_eq!(normalized_choice(&numa, "spread", 0), "");
}

#[test]
fn theme_and_language_rows() {
    let theme = ["light", "dark", "auto"];
    assert_eq!(normalized_choice(&theme, "light", 2), "light");
    assert_eq!(normalized_choice(&theme, "dark", 2), "dark");
    assert_eq!(normalized_choice(&theme, "system", 2), "auto");
    let language = ["zh", "en"];
    assert_eq!(normalized_choice(&language, "en", 0), "en");
    assert_eq!(normalized_choice(&language, "fr", 0), "zh");
}

#[test]
fn normalizing_twice_changes_nothing() {
    let fit = ["on", "off"];
    for v in ["on", "off", "", "maybe"] {
        let once = normalized_choice(&fit, v, 0);
        let twice = normalized_choice(&fit, &once, 0);
        assert_eq!(once, twice);
    }
}

#[test]
fn speculative_decoding_parameter_groups() {
    assert_eq!(
        spec_decoding_params("draft-simple"),
        SpecDecodingParams { draft: true, ngram: false, ngram_mod: false }
    );
    assert_eq!(
        spec_decoding_params("ngram-map-k4v"),
        SpecDecodingParams { draft: false, ngram: true, ngram_mod: false }
    );
    assert_eq!(
        spec_decoding_params("ngram-mod"),
        SpecDecodingParams { draft: false, ngram: false, ngram_mod: true }
    );
    assert_eq!(
        spec_decoding_params("draft"),
        SpecDecodingParams { draft: false, ngram: false, ngram_mod: false }
    );
}

#[test]
fn launch_readiness() {
    assert!(can_start(Some("llama-server"), "/models/a.gguf", TargetOs::Other));
    assert!(!can_start(Some("llama-server"), "", TargetOs::Other));
    assert!(!can_start(Some("llama-server"), "/models/a.gguf", TargetOs::Windows));
    assert!(can_start(Some("llama-server.exe"), "C:\\m.gguf", TargetOs::Windows));
    assert!(!can_start(None, "/models/a.gguf", TargetOs::Other));
    assert!(device_list_available("/opt/llama-server-cuda", Some("llama-server-cuda")));
    assert!(!device_list_available("", None));
    assert!(!device_list_available("/opt/server", Some("server")));
}

#[test]
fn choosing_a_preset_by_name() {
    let mut s = AppSettings::default();
    s.context = 64;
    s.host = "0.0.0.0".to_string();
    let mut p = Preset::from_settings(&s, "big".to_string());
    p.port = 9000;
    s.presets.push(p);
    s.context = 8;
    s.host = "127.0.0.1".to_string();
    s.server_path = "/opt/llama/llama-server".to_string();

    assert_eq!(s.preset_position("big"), Some(0));
    assert_eq!(s.preset_position("small"), None);
    assert!(!s.apply_preset_named("small"));
    assert_eq!(s.context, 8);
    assert!(s.apply_preset_named("big"));
    assert_eq!(s.context, 64);
    assert_eq!(s.host, "0.0.0.0");
    assert_eq!(s.port, 9000);
    assert_eq!(s.server_path, "/opt/llama/llama-server");
    assert_eq!(s.presets.len(), 1);
}

#[test]
fn log_lines() {
    assert_eq!(
        log_record_line("2024-01-02 03:04:05", "server started"),
        "[2024-01-02 03:04:05] server started"
    );
}

#[test]
fn segment_rows_and_their_fallbacks() {
    assert_eq!(segment_row_choice(SegmentRow::FlashAttn, "bogus"), "auto");
    assert_eq!(segment_row_choice(SegmentRow::FlashAttn, "off"), "off");
    assert_eq!(segment_row_choice(SegmentRow::Fit, "bogus"), "on");
    assert_eq!(segment_row_choice(SegmentRow::Reasoning, "off"), "off");
    assert_eq!(segment_row_choice(SegmentRow::ReasoningFormat, "deepseek-legacy"), "deepseek-legacy");
    assert_eq!(segment_row_choice(SegmentRow::ReasoningFormat, "x"), "auto");
    assert_eq!(segment_row_choice(SegmentRow::TensorReadLazy, ""), "auto");
    assert_eq!(segment_row_choice(SegmentRow::SplitMode, "row"), "none");
    assert_eq!(segment_row_choice(SegmentRow::Numa, "numactl"), "numactl");
    assert_eq!(segment_row_choice(SegmentRow::LoadMode, "mmap+mlock"), "mmap+mlock");
    assert_eq!(segment_row_choice(SegmentRow::LoadMode, "mmap+"), "auto");
    assert_eq!(segment_row_choice(SegmentRow::ThemeMode, "system"), "auto");
    assert_eq!(segment_row_choice(SegmentRow::Language, "en"), "en");
    assert_eq!(segment_row_choice(SegmentRow::Language, "de"), "zh");
    assert_eq!(mirostat_choice(2), 2);
    assert_eq!(mirostat_choice(3), 0);
    assert_eq!(mirostat_choice(-1), 0);
}

#[test]
fn gpu_mode_row() {
    assert_eq!(GpuLayersMode::Auto.shown_layers(), 0);
    assert_eq!(GpuLayersMode::All.shown_layers(), 256);
    assert_eq!(GpuLayersMode::Manual(33).mode_segment(), 2);
    assert_eq!(GpuLayersMode::All.with_segment(2), GpuLayersMode::Manual(256));
    assert_eq!(GpuLayersMode::Manual(7).with_segment(0), GpuLayersMode::Auto);
    assert_eq!(GpuLayersMode::Manual(7).with_segment(1), GpuLayersMode::All);
    assert_eq!(GpuLayersMode::Manual(7).with_segment(2), GpuLayersMode::Manual(7));
    assert_eq!(GpuLayersMode::Manual(7).with_segment(9), GpuLayersMode::Manual(7));
}

#[test]
fn background_calculations() {
    assert!(calculation_may_start(true, true, false));
    assert!(!calculation_may_start(true, true, true));
    assert!(!calculation_may_start(true, false, false));
    assert!(!calculation_may_start(false, true, false));

    let mut s = AppSettings::default();
    s.context = 4;
    assert!(s.poll_max_context(None));
    assert_eq!(s.context, 4);
    assert!(!s.poll_max_context(Some(Err("no GPU".to_string()))));
    assert_eq!(s.context, 4);
    assert!(!s.poll_max_context(Some(Ok(48))));
    assert_eq!(s.context, 48);

    assert!(s.poll_kv_cache("KV:", None));
    assert_eq!(s.kv_cache_result, None);
    assert!(!s.poll_kv_cache("KV:", Some(Ok("1.5 GiB".to_string()))));
    assert_eq!(s.kv_cache_result.as_deref(), Some("KV: 1.5 GiB"));
    assert!(!s.poll_kv_cache("KV:", Some(Err("failed".to_string()))));
    assert_eq!(s.kv_cache_result.as_deref(), Some("\u{26a0} failed"));
}

#[test]
fn one_calculation_at_a_time() {
    let mut slot: CalculationSlot<u32> = CalculationSlot::new();
    assert!(!slot.is_running());
    assert!(!slot.may_start(true, false));
    assert!(!slot.may_start(false, true));
    assert!(slot.may_start(true, true));
    slot.start(7);
    assert!(slot.is_running());
    assert!(!slot.may_start(true, true));
    assert_eq!(slot.task(), Some(&7));
    assert_eq!(slot.finish(), Some(7));
    assert!(!slot.is_running());
    assert_eq!(slot.finish(), None);
    assert!(slot.may_start(true, true));
}
