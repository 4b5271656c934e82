use llama_launcher::defaults;
use llama_launcher::gpu::GpuLayersMode;
use llama_launcher::settings::{AppSettings, F32Bits, Preset};
use llama_launcher::states::McpServerStates;

fn bits(x: f32) -> F32Bits {
    F32Bits { bits: x.to_bits() }
}

#[test]
fn default_values() {
    assert_eq!(defaults::default_download_variant(), "cpu");
    assert_eq!(defaults::default_flash_attn(), "auto");
    assert_eq!(defaults::default_accent_color(), "#FF2D55");
    assert_eq!(defaults::default_rocm_gpu_target(), "gfx103X");
    assert_eq!(defaults::default_cache_ram(), 32768);
    assert_eq!(defaults::default_threads(), -1);
    assert_eq!(defaults::default_min_p(), bits(0.05));
    assert_eq!(defaults::default_dry_base(), bits(1.75));
    assert_eq!(defaults::default_top_n_sigma(), bits(-1.0));
    assert_eq!(defaults::default_sampler_seq(), "");
    assert!(defaults::default_true());
}

#[test]
fn default_settings_and_preset() {
    let s = AppSettings::default();
    assert_eq!(s.host, "127.0.0.1");
    assert_eq!(s.port, 9931);
    assert_eq!(s.context, 4);
    assert_eq!(s.batch_size, bits(2.0));
    assert_eq!(s.ubatch_size, bits(0.5));
    assert_eq!(s.temperature, bits(0.8));
    assert_eq!(s.gpu_layers_mode, GpuLayersMode::All);
    assert_eq!(s.rpc_port, 50052);
    assert_eq!(s.download_variant, "cpu");
    assert!(s.mcp_server_states.is_empty());
    assert!(!s.mcp_enabled);
    assert!(s.mcp_config_json.is_empty());
    assert_eq!(s.context_actual(), 4096);
    assert_eq!(s.fit_ctx_actual(), 4096);
    let p = Preset::default();
    assert_eq!(p.name, "");
    assert_eq!(p.cache_type_k, "q8_0");
    assert_eq!(p.rpc_threads, 8);
    assert_eq!(p.rocm_gpu_target, "gfx103X");
    assert!(p.imported_decl.is_none());
}

#[test]
fn preset_snapshot_and_restore() {
    let mut a = AppSettings::default();
    a.host = "0.0.0.0".to_string();
    a.port = 8080;
    a.temperature = bits(0.3);
    a.gpu_layers_mode = GpuLayersMode::Manual(20);
    a.reasoning_preserve = Some(false);
    a.mcp_server_states.insert("fs".to_string(), true);
    a.server_path = "/opt/llama/llama-server".to_string();
    let p = Preset::from_settings(&a, "work".to_string());
    assert_eq!(p.name, "work");
    assert!(!p.imported);
    assert_eq!(p.host, "0.0.0.0");
    assert_eq!(p.port, 8080);

    let mut b = AppSettings::default();
    b.server_path = "/elsewhere/llama-server".to_string();
    b.language = "en".to_string();
    p.clone().apply_to(&mut b);
    assert_eq!(b.host, "0.0.0.0");
    assert_eq!(b.port, 8080);
    assert_eq!(b.temperature, bits(0.3));
    assert_eq!(b.gpu_layers_mode, GpuLayersMode::Manual(20));
    assert_eq!(b.reasoning_preserve, Some(false));
    assert_eq!(b.mcp_server_states.get("fs"), Some(true));
    // Fields a preset does not carry stay as they were.
    assert_eq!(b.server_path, "/elsewhere/llama-server");
    assert_eq!(b.language, "en");

    // A snapshot of the result gives the preset's parameters back.
    let q = Preset::from_settings(&b, "again".to_string());
    assert_eq!(q.host, p.host);
    assert_eq!(q.temperature, p.temperature);
    assert_eq!(q.gpu_layers_mode, p.gpu_layers_mode);
}

#[test]
fn server_states_read_after_write() {
    let mut m = McpServerStates::new();
    assert_eq!(m.get("a"), None);
    m.insert("a".to_string(), true);
    m.insert("b".to_string(), false);
    m.insert("a".to_string(), false);
    assert_eq!(m.get("a"), Some(false));
    assert_eq!(m.get("b"), Some(false));
    assert_eq!(m.len(), 2);
    assert_eq!(m.entry(0), ("a".to_string(), false));
    let c = m.clone();
    assert_eq!(c.get("b"), Some(false));
    assert_eq!(c.len(), 2);
}
