use vstd::prelude::*;

use crate::defaults;
use crate::gpu::GpuLayersMode;
use crate::states::McpServerStates;

verus! {

/// A single-precision setting, carried by its IEEE-754 bit pattern.
///
/// The library copies and compares these values and never computes with them,
/// so the bit pattern is all it needs; the program around it converts with
/// `f32::to_bits` and `f32::from_bits`.
#[derive(Debug, Clone, Copy, PartialEq, Eq, Structural)]
pub struct F32Bits {
    pub bits: u32,
}

/// A named snapshot of the launch parameters of `AppSettings`.
pub struct Preset {
    pub name: String,
    pub host: String,
    pub port: u16,
    pub parallel_slots: i64,
    /// `--ctx-size`
    pub context: usize,
    /// `--batch-size`
    pub batch_size: F32Bits,
    /// `--ubatch-size`
    pub ubatch_size: F32Bits,
    pub temperature: F32Bits,
    pub top_p: F32Bits,
    pub top_k: i32,
    pub repeat_penalty: F32Bits,
    pub presence_penalty: F32Bits,
    pub enable_batch_size: bool,
    pub enable_ubatch_size: bool,
    pub enable_session_timeout: bool,
    pub enable_temperature: bool,
    pub enable_top_p: bool,
    pub enable_top_k: bool,
    pub enable_repeat_penalty: bool,
    pub enable_presence_penalty: bool,
    pub flash_attn: String,
    /// `--fit`
    pub fit: String,
    /// `--fit-target`
    pub fit_target: String,
    /// `--fit-ctx`
    pub fit_ctx: usize,
    pub enable_fit_target: bool,
    pub enable_fit_ctx: bool,
    /// `--load-mode`
    pub load_mode: String,
    /// `--tensor-read-lazy`
    pub tensor_read_lazy: String,
    /// `--threads`
    pub threads: i64,
    /// `--threads-batch`
    pub threads_batch: i64,
    /// `--n-predict`
    pub n_predict: i64,
    /// `--keep`
    pub keep: i64,
    /// `--seed`
    pub seed: i64,
    /// `--main-gpu`
    pub main_gpu: i64,
    /// `--device`
    pub device: String,
    pub enable_min_p: bool,
    /// `--min-p`
    pub min_p: F32Bits,
    pub enable_top_n_sigma: bool,
    /// `--top-n-sigma`
    pub top_n_sigma: F32Bits,
    pub enable_xtc: bool,
    /// `--xtc-probability`
    pub xtc_probability: F32Bits,
    /// `--xtc-threshold`
    pub xtc_threshold: F32Bits,
    pub enable_typical_p: bool,
    /// `--typical-p`
    pub typical_p: F32Bits,
    pub enable_mirostat: bool,
    /// `--mirostat`
    pub mirostat: i32,
    /// `--mirostat-lr`
    pub mirostat_lr: F32Bits,
    /// `--mirostat-ent`
    pub mirostat_ent: F32Bits,
    pub enable_dynatemp: bool,
    /// `--dynatemp-range`
    pub dynatemp_range: F32Bits,
    /// `--dynatemp-exp`
    pub dynatemp_exp: F32Bits,
    /// `--sampler-seq`
    pub sampler_seq: String,
    /// `--cache-prompt` / `--no-cache-prompt`
    pub cache_prompt: bool,
    /// `--cache-reuse`
    pub cache_reuse: i64,
    /// `--context-shift`
    pub context_shift: bool,
    /// `--json-schema`
    pub json_schema: String,
    /// `--grammar`
    pub grammar: String,
    /// `--api-key`
    pub api_key: String,
    /// `--api-prefix`
    pub api_prefix: String,
    /// `--cors-origins`
    pub cors_origins: String,
    /// `--ssl-cert-file`
    pub ssl_cert_file: String,
    /// `--ssl-key-file`
    pub ssl_key_file: String,
    /// `--reuse-port`
    pub reuse_port: bool,
    /// `--numa`
    pub numa: String,
    /// `--cache-ram`
    pub cache_ram_enabled: bool,
    /// `--cache-ram`
    pub cache_ram: usize,
    /// `--no-host`
    pub no_host: bool,
    /// `--rope-scaling`
    pub rope_scaling: String,
    /// `--rope-scale`
    pub rope_scale: F32Bits,
    /// `--rope-freq-base`
    pub rope_freq_base: F32Bits,
    /// `--rope-freq-scale`
    pub rope_freq_scale: F32Bits,
    /// `--yarn-orig-ctx`
    pub yarn_orig_ctx: usize,
    /// `--yarn-ext-factor`
    pub yarn_ext_factor: F32Bits,
    /// `--yarn-attn-factor`
    pub yarn_attn_factor: F32Bits,
    /// `--yarn-beta-slow`
    pub yarn_beta_slow: F32Bits,
    /// `--yarn-beta-fast`
    pub yarn_beta_fast: F32Bits,
    /// `--frequency-penalty`
    pub frequency_penalty: F32Bits,
    /// `--repeat-last-n`
    pub repeat_last_n: i64,
    /// `--dry-multiplier`
    pub dry_multiplier: F32Bits,
    /// `--dry-base`
    pub dry_base: F32Bits,
    /// `--dry-allowed-length`
    pub dry_allowed_length: i64,
    /// `--dry-penalty-last-n`
    pub dry_penalty_last_n: i64,
    /// `--dry-sequence-breaker`
    pub dry_sequence_breaker: String,
    /// `--logit-bias`
    pub logit_bias: String,
    /// `--lora`
    pub lora_path: String,
    /// `--lora-scaled`
    pub lora_scaled: String,
    /// `--control-vector`
    pub control_vector: String,
    /// `--slot-save-path`
    pub slot_save_path: String,
    /// `--sleep-idle-seconds`
    pub sleep_idle_seconds: i64,
    /// `--threads-http`
    pub threads_http: i64,
    /// `--metrics`
    pub metrics_enabled: bool,
    /// `--api-key-file`
    pub api_key_file: String,
    /// `--direct-io` / `--no-direct-io`
    pub direct_io: bool,
    /// `--check-tensors`
    pub check_tensors: bool,
    /// `--override-kv`
    pub override_kv: String,
    /// `--prio`
    pub prio: i64,
    /// `--warmup` / `--no-warmup` / `--no-warmup`
    pub warmup_enabled: bool,
    /// `--cont-batching` / `--no-cont-batching` / `--no-`
    pub cont_batching: bool,
    /// `--grammar-file`
    pub grammar_file: String,
    /// `--json-schema-file`
    pub json_schema_file: String,
    /// `--embeddings`
    pub embeddings_enabled: bool,
    /// `--pooling`
    pub pooling: String,
    /// `--rerank` / `--reranking`
    pub rerank_enabled: bool,
    /// `--spec-type`
    pub spec_type: String,
    /// `--spec-draft-n-max`
    pub spec_draft_n_max: usize,
    /// `--spec-draft-n-min`
    pub spec_draft_n_min: usize,
    /// `--spec-draft-p-min`
    pub spec_draft_p_min: F32Bits,
    /// `--spec-draft-p-split`
    pub spec_draft_p_split: F32Bits,
    /// `--spec-draft-type-k`
    pub spec_draft_type_k: String,
    /// `--spec-draft-type-v`
    pub spec_draft_type_v: String,
    pub enable_spec_draft_n_max: bool,
    pub enable_spec_draft_n_min: bool,
    pub enable_spec_draft_p_min: bool,
    pub enable_spec_draft_p_split: bool,
    pub enable_spec_draft_type_k: bool,
    pub enable_spec_draft_type_v: bool,
    /// `--spec-ngram-`
    pub spec_ngram_size_n: usize,
    /// `--spec-ngram-`
    pub spec_ngram_size_m: usize,
    /// `--spec-ngram-`
    pub spec_ngram_min_hits: usize,
    /// `--spec-ngram-mod-n-min`
    pub spec_ngram_mod_n_min: usize,
    /// `--spec-ngram-mod-n-max`
    pub spec_ngram_mod_n_max: usize,
    /// `--spec-ngram-mod-n-match`
    pub spec_ngram_mod_n_match: usize,
    pub kv_offload: bool,
    pub cache_type_k: String,
    pub cache_type_v: String,
    /// `--kv-unified`
    pub kv_unified: bool,
    /// `--swa-full`
    pub swa_full: bool,
    pub kv_cache_ratio: F32Bits,
    /// `--ctx-checkpoints`
    pub ctx_checkpoints: usize,
    /// `--checkpoint-min-step`
    pub checkpoint_min_step: usize,
    pub gpu_layers_mode: GpuLayersMode,
    pub split_mode: String,
    pub tensor_split: String,
    pub cpu_moe: bool,
    pub n_cpu_moe: usize,
    /// `--override-tensor`
    pub override_tensor: String,
    pub verbose: bool,
    pub offline_mode: bool,
    pub rpc_mode: bool,
    pub rpc_endpoints: String,
    pub model_path: String,
    pub mmproj_path: String,
    pub mmproj_auto: bool,
    pub mmproj_offload: bool,
    pub mmproj_device: String,
    pub image_min_tokens: i64,
    pub image_max_tokens: i64,
    pub mtmd_batch_max_tokens: usize,
    pub video_fps: F32Bits,
    pub video_timestamp_interval: usize,
    pub video_ffmpeg_dir: String,
    pub dflash_path: String,
    pub model_dir: String,
    pub alias: String,
    pub rpc_threads: usize,
    pub rpc_device: String,
    pub rpc_cache: bool,
    pub web_ui_enabled: bool,
    pub log_timestamps: bool,
    pub log_verbosity: usize,
    pub session_timeout: usize,
    /// `--reasoning`
    pub reasoning: String,
    /// `--reasoning-format`
    pub reasoning_format: String,
    /// `--reasoning-effort`
    pub reasoning_effort: String,
    /// `--reasoning-budget`
    pub reasoning_budget: i32,
    /// `--reasoning-preserve` / `--no-reasoning-preserve`
    pub reasoning_preserve: Option<bool>,
    /// `--jinja` / `--no-jinja`
    pub jinja_enabled: bool,
    /// `--chat-template`
    pub chat_template: String,
    /// `--chat-template-file`
    pub chat_template_file: String,
    /// `--rocm-gpu-target`
    pub rocm_gpu_target: String,
    pub mcp_enabled: bool,
    pub mcp_server_states: McpServerStates,
    pub imported: bool,
    pub imported_decl: Option<String>,
}

/// Everything the launcher remembers: launch parameters, paths, presets and
/// the state of the user interface.
#[derive(Clone)]
pub struct AppSettings {
    pub server_path: String,
    pub host: String,
    pub port: u16,
    pub parallel_slots: i64,
    pub model_path: String,
    pub mmproj_path: String,
    pub mmproj_auto: bool,
    pub mmproj_offload: bool,
    pub mmproj_device: String,
    pub image_min_tokens: i64,
    pub image_max_tokens: i64,
    pub mtmd_batch_max_tokens: usize,
    pub video_fps: F32Bits,
    pub video_timestamp_interval: usize,
    pub video_ffmpeg_dir: String,
    pub dflash_path: String,
    pub model_dir: String,
    /// `--alias`
    pub alias: String,
    /// `--ctx-size`
    pub context: usize,
    /// `--batch-size`
    pub batch_size: F32Bits,
    /// `--ubatch-size`
    pub ubatch_size: F32Bits,
    pub temperature: F32Bits,
    pub top_p: F32Bits,
    pub top_k: i32,
    pub repeat_penalty: F32Bits,
    pub presence_penalty: F32Bits,
    pub enable_batch_size: bool,
    pub enable_ubatch_size: bool,
    pub enable_session_timeout: bool,
    pub enable_temperature: bool,
    pub enable_top_p: bool,
    pub enable_top_k: bool,
    pub enable_repeat_penalty: bool,
    pub enable_presence_penalty: bool,
    pub flash_attn: String,
    /// `--fit`
    pub fit: String,
    /// `--fit-target`
    pub fit_target: String,
    /// `--fit-ctx`
    pub fit_ctx: usize,
    pub enable_fit_target: bool,
    pub enable_fit_ctx: bool,
    /// `--load-mode`
    pub load_mode: String,
    /// `--tensor-read-lazy`
    pub tensor_read_lazy: String,
    /// `--threads`
    pub threads: i64,
    /// `--threads-batch`
    pub threads_batch: i64,
    /// `--n-predict`
    pub n_predict: i64,
    /// `--keep`
    pub keep: i64,
    /// `--seed`
    pub seed: i64,
    /// `--main-gpu`
    pub main_gpu: i64,
    /// `--device`
    pub device: String,
    pub enable_min_p: bool,
    /// `--min-p`
    pub min_p: F32Bits,
    pub enable_top_n_sigma: bool,
    /// `--top-n-sigma`
    pub top_n_sigma: F32Bits,
    pub enable_xtc: bool,
    /// `--xtc-probability`
    pub xtc_probability: F32Bits,
    /// `--xtc-threshold`
    pub xtc_threshold: F32Bits,
    pub enable_typical_p: bool,
    /// `--typical-p`
    pub typical_p: F32Bits,
    pub enable_mirostat: bool,
    /// `--mirostat`
    pub mirostat: i32,
    /// `--mirostat-lr`
    pub mirostat_lr: F32Bits,
    /// `--mirostat-ent`
    pub mirostat_ent: F32Bits,
    pub enable_dynatemp: bool,
    /// `--dynatemp-range`
    pub dynatemp_range: F32Bits,
    /// `--dynatemp-exp`
    pub dynatemp_exp: F32Bits,
    /// `--sampler-seq`
    pub sampler_seq: String,
    /// `--cache-prompt` / `--no-cache-prompt`
    pub cache_prompt: bool,
    /// `--cache-reuse`
    pub cache_reuse: i64,
    /// `--context-shift`
    pub context_shift: bool,
    /// `--json-schema`
    pub json_schema: String,
    /// `--grammar`
    pub grammar: String,
    /// `--api-key`
    pub api_key: String,
    /// `--api-prefix`
    pub api_prefix: String,
    /// `--cors-origins`
    pub cors_origins: String,
    /// `--ssl-cert-file`
    pub ssl_cert_file: String,
    /// `--ssl-key-file`
    pub ssl_key_file: String,
    /// `--reuse-port`
    pub reuse_port: bool,
    /// `--numa`
    pub numa: String,
    /// `--cache-ram`
    pub cache_ram_enabled: bool,
    /// `--cache-ram`
    pub cache_ram: usize,
    /// `--no-host`
    pub no_host: bool,
    /// `--rope-scaling`
    pub rope_scaling: String,
    /// `--rope-scale`
    pub rope_scale: F32Bits,
    /// `--rope-freq-base`
    pub rope_freq_base: F32Bits,
    /// `--rope-freq-scale`
    pub rope_freq_scale: F32Bits,
    /// `--yarn-orig-ctx`
    pub yarn_orig_ctx: usize,
    /// `--yarn-ext-factor`
    pub yarn_ext_factor: F32Bits,
    /// `--yarn-attn-factor`
    pub yarn_attn_factor: F32Bits,
    /// `--yarn-beta-slow`
    pub yarn_beta_slow: F32Bits,
    /// `--yarn-beta-fast`
    pub yarn_beta_fast: F32Bits,
    /// `--frequency-penalty`
    pub frequency_penalty: F32Bits,
    /// `--repeat-last-n`
    pub repeat_last_n: i64,
    /// `--dry-multiplier`
    pub dry_multiplier: F32Bits,
    /// `--dry-base`
    pub dry_base: F32Bits,
    /// `--dry-allowed-length`
    pub dry_allowed_length: i64,
    /// `--dry-penalty-last-n`
    pub dry_penalty_last_n: i64,
    /// `--dry-sequence-breaker`
    pub dry_sequence_breaker: String,
    /// `--logit-bias`
    pub logit_bias: String,
    /// `--lora`
    pub lora_path: String,
    /// `--lora-scaled`
    pub lora_scaled: String,
    /// `--control-vector`
    pub control_vector: String,
    /// `--slot-save-path`
    pub slot_save_path: String,
    /// `--sleep-idle-seconds`
    pub sleep_idle_seconds: i64,
    /// `--threads-http`
    pub threads_http: i64,
    /// `--metrics`
    pub metrics_enabled: bool,
    /// `--api-key-file`
    pub api_key_file: String,
    /// `--direct-io` / `--no-direct-io`
    pub direct_io: bool,
    /// `--check-tensors`
    pub check_tensors: bool,
    /// `--override-kv`
    pub override_kv: String,
    /// `--prio`
    pub prio: i64,
    /// `--warmup` / `--no-warmup` / `--no-warmup`
    pub warmup_enabled: bool,
    /// `--cont-batching` / `--no-cont-batching` / `--no-`
    pub cont_batching: bool,
    /// `--grammar-file`
    pub grammar_file: String,
    /// `--json-schema-file`
    pub json_schema_file: String,
    /// `--embeddings`
    pub embeddings_enabled: bool,
    /// `--pooling`
    pub pooling: String,
    /// `--rerank` / `--reranking`
    pub rerank_enabled: bool,
    /// `--spec-type`
    pub spec_type: String,
    /// `--spec-draft-n-max`
    pub spec_draft_n_max: usize,
    /// `--spec-draft-n-min`
    pub spec_draft_n_min: usize,
    /// `--spec-draft-p-min`
    pub spec_draft_p_min: F32Bits,
    /// `--spec-draft-p-split`
    pub spec_draft_p_split: F32Bits,
    /// `--spec-draft-type-k`
    pub spec_draft_type_k: String,
    /// `--spec-draft-type-v`
    pub spec_draft_type_v: String,
    pub enable_spec_draft_n_max: bool,
    pub enable_spec_draft_n_min: bool,
    pub enable_spec_draft_p_min: bool,
    pub enable_spec_draft_p_split: bool,
    pub enable_spec_draft_type_k: bool,
    pub enable_spec_draft_type_v: bool,
    pub spec_ngram_size_n: usize,
    pub spec_ngram_size_m: usize,
    pub spec_ngram_min_hits: usize,
    pub spec_ngram_mod_n_min: usize,
    pub spec_ngram_mod_n_max: usize,
    pub spec_ngram_mod_n_match: usize,
    pub kv_offload: bool,
    pub cache_type_k: String,
    pub cache_type_v: String,
    /// `--kv-unified`
    pub kv_unified: bool,
    /// `--swa-full`
    pub swa_full: bool,
    pub kv_cache_ratio: F32Bits,
    /// `--ctx-checkpoints`
    pub ctx_checkpoints: usize,
    /// `--checkpoint-min-step`
    pub checkpoint_min_step: usize,
    pub gpu_layers_mode: GpuLayersMode,
    pub split_mode: String,
    pub tensor_split: String,
    pub cpu_moe: bool,
    pub n_cpu_moe: usize,
    /// `--override-tensor`
    pub override_tensor: String,
    pub rpc_server_path: String,
    pub rpc_host: String,
    pub rpc_port: u16,
    pub rpc_threads: usize,
    pub rpc_device: String,
    pub rpc_cache: bool,
    pub verbose: bool,
    pub offline_mode: bool,
    pub rpc_mode: bool,
    pub rpc_endpoints: String,
    pub web_ui_enabled: bool,
    pub log_timestamps: bool,
    pub log_verbosity: usize,
    pub session_timeout: usize,
    /// `--reasoning`
    pub reasoning: String,
    /// `--reasoning-format`
    pub reasoning_format: String,
    /// `--reasoning-effort`
    pub reasoning_effort: String,
    /// `--reasoning-budget`
    pub reasoning_budget: i32,
    /// `--reasoning-preserve` / `--no-reasoning-preserve`
    pub reasoning_preserve: Option<bool>,
    /// `--jinja` / `--no-jinja`
    pub jinja_enabled: bool,
    /// `--chat-template`
    pub chat_template: String,
    /// `--chat-template-file`
    pub chat_template_file: String,
    pub mcp_enabled: bool,
    pub mcp_server_states: McpServerStates,
    pub mcp_config_json: String,
    pub mcp_editor_open: bool,
    pub mcp_editor_text: String,
    pub mcp_editor_error: String,
    pub show_device_list: bool,
    pub device_list_output: String,
    pub show_server_device_list: bool,
    pub server_device_list_output: String,
    pub show_linux_service_file: bool,
    pub linux_service_file_copied: bool,
    pub rpc_endpoint_input: String,
    pub rpc_endpoint_multi_gpu: bool,
    pub presets: Vec<Preset>,
    pub new_preset_name: String,
    pub rename_preset_index: Option<usize>,
    pub rename_preset_new_name: String,
    pub auto_start_preset_name: Option<String>,
    pub auto_scroll_logs: bool,
    pub max_log_lines: i32,
    pub auto_start: bool,
    pub silent_start: bool,
    pub linux_compat_mode: bool,
    pub log_to_file: bool,
    pub dark_mode: bool,
    pub theme_mode: String,
    pub accent_color: String,
    pub language: String,
    pub download_variant: String,
    pub llama_branch: String,
    pub release_channel: String,
    pub rocm_gpu_target: String,
    pub download_cuda_lib: bool,
    pub llama_version: String,
    pub update_available: Option<bool>,
    pub new_version_tag: Option<String>,
    pub kv_cache_result: Option<String>,
    pub system_service_selected_preset: String,
    pub show_system_service_details: bool,
}

/// The preset `p` carries exactly the launch parameters of `s`: every field
/// that a preset shares with the settings holds the same value in both.
pub open spec fn preset_matches(p: Preset, s: AppSettings) -> bool {
    &&& p.host@ == s.host@
    &&& p.port == s.port
    &&& p.parallel_slots == s.parallel_slots
    &&& p.context == s.context
    &&& p.batch_size == s.batch_size
    &&& p.ubatch_size == s.ubatch_size
    &&& p.temperature == s.temperature
    &&& p.top_p == s.top_p
    &&& p.top_k == s.top_k
    &&& p.repeat_penalty == s.repeat_penalty
    &&& p.presence_penalty == s.presence_penalty
    &&& p.enable_batch_size == s.enable_batch_size
    &&& p.enable_ubatch_size == s.enable_ubatch_size
    &&& p.enable_session_timeout == s.enable_session_timeout
    &&& p.enable_temperature == s.enable_temperature
    &&& p.enable_top_p == s.enable_top_p
    &&& p.enable_top_k == s.enable_top_k
    &&& p.enable_repeat_penalty == s.enable_repeat_penalty
    &&& p.enable_presence_penalty == s.enable_presence_penalty
    &&& p.flash_attn@ == s.flash_attn@
    &&& p.fit@ == s.fit@
    &&& p.fit_target@ == s.fit_target@
    &&& p.fit_ctx == s.fit_ctx
    &&& p.enable_fit_target == s.enable_fit_target
    &&& p.enable_fit_ctx == s.enable_fit_ctx
    &&& p.load_mode@ == s.load_mode@
    &&& p.tensor_read_lazy@ == s.tensor_read_lazy@
    &&& p.threads == s.threads
    &&& p.threads_batch == s.threads_batch
    &&& p.n_predict == s.n_predict
    &&& p.keep == s.keep
    &&& p.seed == s.seed
    &&& p.main_gpu == s.main_gpu
    &&& p.device@ == s.device@
    &&& p.enable_min_p == s.enable_min_p
    &&& p.min_p == s.min_p
    &&& p.enable_top_n_sigma == s.enable_top_n_sigma
    &&& p.top_n_sigma == s.top_n_sigma
    &&& p.enable_xtc == s.enable_xtc
    &&& p.xtc_probability == s.xtc_probability
    &&& p.xtc_threshold == s.xtc_threshold
    &&& p.enable_typical_p == s.enable_typical_p
    &&& p.typical_p == s.typical_p
    &&& p.enable_mirostat == s.enable_mirostat
    &&& p.mirostat == s.mirostat
    &&& p.mirostat_lr == s.mirostat_lr
    &&& p.mirostat_ent == s.mirostat_ent
    &&& p.enable_dynatemp == s.enable_dynatemp
    &&& p.dynatemp_range == s.dynatemp_range
    &&& p.dynatemp_exp == s.dynatemp_exp
    &&& p.sampler_seq@ == s.sampler_seq@
    &&& p.cache_prompt == s.cache_prompt
    &&& p.cache_reuse == s.cache_reuse
    &&& p.context_shift == s.context_shift
    &&& p.json_schema@ == s.json_schema@
    &&& p.grammar@ == s.grammar@
    &&& p.api_key@ == s.api_key@
    &&& p.api_prefix@ == s.api_prefix@
    &&& p.cors_origins@ == s.cors_origins@
    &&& p.ssl_cert_file@ == s.ssl_cert_file@
    &&& p.ssl_key_file@ == s.ssl_key_file@
    &&& p.reuse_port == s.reuse_port
    &&& p.numa@ == s.numa@
    &&& p.cache_ram_enabled == s.cache_ram_enabled
    &&& p.cache_ram == s.cache_ram
    &&& p.no_host == s.no_host
    &&& p.rope_scaling@ == s.rope_scaling@
    &&& p.rope_scale == s.rope_scale
    &&& p.rope_freq_base == s.rope_freq_base
    &&& p.rope_freq_scale == s.rope_freq_scale
    &&& p.yarn_orig_ctx == s.yarn_orig_ctx
    &&& p.yarn_ext_factor == s.yarn_ext_factor
    &&& p.yarn_attn_factor == s.yarn_attn_factor
    &&& p.yarn_beta_slow == s.yarn_beta_slow
    &&& p.yarn_beta_fast == s.yarn_beta_fast
    &&& p.frequency_penalty == s.frequency_penalty
    &&& p.repeat_last_n == s.repeat_last_n
    &&& p.dry_multiplier == s.dry_multiplier
    &&& p.dry_base == s.dry_base
    &&& p.dry_allowed_length == s.dry_allowed_length
    &&& p.dry_penalty_last_n == s.dry_penalty_last_n
    &&& p.dry_sequence_breaker@ == s.dry_sequence_breaker@
    &&& p.logit_bias@ == s.logit_bias@
    &&& p.lora_path@ == s.lora_path@
    &&& p.lora_scaled@ == s.lora_scaled@
    &&& p.control_vector@ == s.control_vector@
    &&& p.slot_save_path@ == s.slot_save_path@
    &&& p.sleep_idle_seconds == s.sleep_idle_seconds
    &&& p.threads_http == s.threads_http
    &&& p.metrics_enabled == s.metrics_enabled
    &&& p.api_key_file@ == s.api_key_file@
    &&& p.direct_io == s.direct_io
    &&& p.check_tensors == s.check_tensors
    &&& p.override_kv@ == s.override_kv@
    &&& p.prio == s.prio
    &&& p.warmup_enabled == s.warmup_enabled
    &&& p.cont_batching == s.cont_batching
    &&& p.grammar_file@ == s.grammar_file@
    &&& p.json_schema_file@ == s.json_schema_file@
    &&& p.embeddings_enabled == s.embeddings_enabled
    &&& p.pooling@ == s.pooling@
    &&& p.rerank_enabled == s.rerank_enabled
    &&& p.spec_type@ == s.spec_type@
    &&& p.spec_draft_n_max == s.spec_draft_n_max
    &&& p.spec_draft_n_min == s.spec_draft_n_min
    &&& p.spec_draft_p_min == s.spec_draft_p_min
    &&& p.spec_draft_p_split == s.spec_draft_p_split
    &&& p.spec_draft_type_k@ == s.spec_draft_type_k@
    &&& p.spec_draft_type_v@ == s.spec_draft_type_v@
    &&& p.enable_spec_draft_n_max == s.enable_spec_draft_n_max
    &&& p.enable_spec_draft_n_min == s.enable_spec_draft_n_min
    &&& p.enable_spec_draft_p_min == s.enable_spec_draft_p_min
    &&& p.enable_spec_draft_p_split == s.enable_spec_draft_p_split
    &&& p.enable_spec_draft_type_k == s.enable_spec_draft_type_k
    &&& p.enable_spec_draft_type_v == s.enable_spec_draft_type_v
    &&& p.spec_ngram_size_n == s.spec_ngram_size_n
    &&& p.spec_ngram_size_m == s.spec_ngram_size_m
    &&& p.spec_ngram_min_hits == s.spec_ngram_min_hits
    &&& p.spec_ngram_mod_n_min == s.spec_ngram_mod_n_min
    &&& p.spec_ngram_mod_n_max == s.spec_ngram_mod_n_max
    &&& p.spec_ngram_mod_n_match == s.spec_ngram_mod_n_match
    &&& p.kv_offload == s.kv_offload
    &&& p.cache_type_k@ == s.cache_type_k@
    &&& p.cache_type_v@ == s.cache_type_v@
    &&& p.kv_unified == s.kv_unified
    &&& p.swa_full == s.swa_full
    &&& p.kv_cache_ratio == s.kv_cache_ratio
    &&& p.ctx_checkpoints == s.ctx_checkpoints
    &&& p.checkpoint_min_step == s.checkpoint_min_step
    &&& p.gpu_layers_mode == s.gpu_layers_mode
    &&& p.split_mode@ == s.split_mode@
    &&& p.tensor_split@ == s.tensor_split@
    &&& p.cpu_moe == s.cpu_moe
    &&& p.n_cpu_moe == s.n_cpu_moe
    &&& p.override_tensor@ == s.override_tensor@
    &&& p.verbose == s.verbose
    &&& p.offline_mode == s.offline_mode
    &&& p.rpc_mode == s.rpc_mode
    &&& p.rpc_endpoints@ == s.rpc_endpoints@
    &&& p.model_path@ == s.model_path@
    &&& p.mmproj_path@ == s.mmproj_path@
    &&& p.mmproj_auto == s.mmproj_auto
    &&& p.mmproj_offload == s.mmproj_offload
    &&& p.mmproj_device@ == s.mmproj_device@
    &&& p.image_min_tokens == s.image_min_tokens
    &&& p.image_max_tokens == s.image_max_tokens
    &&& p.mtmd_batch_max_tokens == s.mtmd_batch_max_tokens
    &&& p.video_fps == s.video_fps
    &&& p.video_timestamp_interval == s.video_timestamp_interval
    &&& p.video_ffmpeg_dir@ == s.video_ffmpeg_dir@
    &&& p.dflash_path@ == s.dflash_path@
    &&& p.model_dir@ == s.model_dir@
    &&& p.alias@ == s.alias@
    &&& p.rpc_threads == s.rpc_threads
    &&& p.rpc_device@ == s.rpc_device@
    &&& p.rpc_cache == s.rpc_cache
    &&& p.web_ui_enabled == s.web_ui_enabled
    &&& p.log_timestamps == s.log_timestamps
    &&& p.log_verbosity == s.log_verbosity
    &&& p.session_timeout == s.session_timeout
    &&& p.reasoning@ == s.reasoning@
    &&& p.reasoning_format@ == s.reasoning_format@
    &&& p.reasoning_effort@ == s.reasoning_effort@
    &&& p.reasoning_budget == s.reasoning_budget
    &&& p.reasoning_preserve == s.reasoning_preserve
    &&& p.jinja_enabled == s.jinja_enabled
    &&& p.chat_template@ == s.chat_template@
    &&& p.chat_template_file@ == s.chat_template_file@
    &&& p.rocm_gpu_target@ == s.rocm_gpu_target@
    &&& p.mcp_enabled == s.mcp_enabled
    &&& p.mcp_server_states@ == s.mcp_server_states@
}

/// `a` and `b` agree on every launch parameter that a preset carries.
pub open spec fn same_preset_fields(a: AppSettings, b: AppSettings) -> bool {
    &&& a.host@ == b.host@
    &&& a.port == b.port
    &&& a.parallel_slots == b.parallel_slots
    &&& a.context == b.context
    &&& a.batch_size == b.batch_size
    &&& a.ubatch_size == b.ubatch_size
    &&& a.temperature == b.temperature
    &&& a.top_p == b.top_p
    &&& a.top_k == b.top_k
    &&& a.repeat_penalty == b.repeat_penalty
    &&& a.presence_penalty == b.presence_penalty
    &&& a.enable_batch_size == b.enable_batch_size
    &&& a.enable_ubatch_size == b.enable_ubatch_size
    &&& a.enable_session_timeout == b.enable_session_timeout
    &&& a.enable_temperature == b.enable_temperature
    &&& a.enable_top_p == b.enable_top_p
    &&& a.enable_top_k == b.enable_top_k
    &&& a.enable_repeat_penalty == b.enable_repeat_penalty
    &&& a.enable_presence_penalty == b.enable_presence_penalty
    &&& a.flash_attn@ == b.flash_attn@
    &&& a.fit@ == b.fit@
    &&& a.fit_target@ == b.fit_target@
    &&& a.fit_ctx == b.fit_ctx
    &&& a.enable_fit_target == b.enable_fit_target
    &&& a.enable_fit_ctx == b.enable_fit_ctx
    &&& a.load_mode@ == b.load_mode@
    &&& a.tensor_read_lazy@ == b.tensor_read_lazy@
    &&& a.threads == b.threads
    &&& a.threads_batch == b.threads_batch
    &&& a.n_predict == b.n_predict
    &&& a.keep == b.keep
    &&& a.seed == b.seed
    &&& a.main_gpu == b.main_gpu
    &&& a.device@ == b.device@
    &&& a.enable_min_p == b.enable_min_p
    &&& a.min_p == b.min_p
    &&& a.enable_top_n_sigma == b.enable_top_n_sigma
    &&& a.top_n_sigma == b.top_n_sigma
    &&& a.enable_xtc == b.enable_xtc
    &&& a.xtc_probability == b.xtc_probability
    &&& a.xtc_threshold == b.xtc_threshold
    &&& a.enable_typical_p == b.enable_typical_p
    &&& a.typical_p == b.typical_p
    &&& a.enable_mirostat == b.enable_mirostat
    &&& a.mirostat == b.mirostat
    &&& a.mirostat_lr == b.mirostat_lr
    &&& a.mirostat_ent == b.mirostat_ent
    &&& a.enable_dynatemp == b.enable_dynatemp
    &&& a.dynatemp_range == b.dynatemp_range
    &&& a.dynatemp_exp == b.dynatemp_exp
    &&& a.sampler_seq@ == b.sampler_seq@
    &&& a.cache_prompt == b.cache_prompt
    &&& a.cache_reuse == b.cache_reuse
    &&& a.context_shift == b.context_shift
    &&& a.json_schema@ == b.json_schema@
    &&& a.grammar@ == b.grammar@
    &&& a.api_key@ == b.api_key@
    &&& a.api_prefix@ == b.api_prefix@
    &&& a.cors_origins@ == b.cors_origins@
    &&& a.ssl_cert_file@ == b.ssl_cert_file@
    &&& a.ssl_key_file@ == b.ssl_key_file@
    &&& a.reuse_port == b.reuse_port
    &&& a.numa@ == b.numa@
    &&& a.cache_ram_enabled == b.cache_ram_enabled
    &&& a.cache_ram == b.cache_ram
    &&& a.no_host == b.no_host
    &&& a.rope_scaling@ == b.rope_scaling@
    &&& a.rope_scale == b.rope_scale
    &&& a.rope_freq_base == b.rope_freq_base
    &&& a.rope_freq_scale == b.rope_freq_scale
    &&& a.yarn_orig_ctx == b.yarn_orig_ctx
    &&& a.yarn_ext_factor == b.yarn_ext_factor
    &&& a.yarn_attn_factor == b.yarn_attn_factor
    &&& a.yarn_beta_slow == b.yarn_beta_slow
    &&& a.yarn_beta_fast == b.yarn_beta_fast
    &&& a.frequency_penalty == b.frequency_penalty
    &&& a.repeat_last_n == b.repeat_last_n
    &&& a.dry_multiplier == b.dry_multiplier
    &&& a.dry_base == b.dry_base
    &&& a.dry_allowed_length == b.dry_allowed_length
    &&& a.dry_penalty_last_n == b.dry_penalty_last_n
    &&& a.dry_sequence_breaker@ == b.dry_sequence_breaker@
    &&& a.logit_bias@ == b.logit_bias@
    &&& a.lora_path@ == b.lora_path@
    &&& a.lora_scaled@ == b.lora_scaled@
    &&& a.control_vector@ == b.control_vector@
    &&& a.slot_save_path@ == b.slot_save_path@
    &&& a.sleep_idle_seconds == b.sleep_idle_seconds
    &&& a.threads_http == b.threads_http
    &&& a.metrics_enabled == b.metrics_enabled
    &&& a.api_key_file@ == b.api_key_file@
    &&& a.direct_io == b.direct_io
    &&& a.check_tensors == b.check_tensors
    &&& a.override_kv@ == b.override_kv@
    &&& a.prio == b.prio
    &&& a.warmup_enabled == b.warmup_enabled
    &&& a.cont_batching == b.cont_batching
    &&& a.grammar_file@ == b.grammar_file@
    &&& a.json_schema_file@ == b.json_schema_file@
    &&& a.embeddings_enabled == b.embeddings_enabled
    &&& a.pooling@ == b.pooling@
    &&& a.rerank_enabled == b.rerank_enabled
    &&& a.spec_type@ == b.spec_type@
    &&& a.spec_draft_n_max == b.spec_draft_n_max
    &&& a.spec_draft_n_min == b.spec_draft_n_min
    &&& a.spec_draft_p_min == b.spec_draft_p_min
    &&& a.spec_draft_p_split == b.spec_draft_p_split
    &&& a.spec_draft_type_k@ == b.spec_draft_type_k@
    &&& a.spec_draft_type_v@ == b.spec_draft_type_v@
    &&& a.enable_spec_draft_n_max == b.enable_spec_draft_n_max
    &&& a.enable_spec_draft_n_min == b.enable_spec_draft_n_min
    &&& a.enable_spec_draft_p_min == b.enable_spec_draft_p_min
    &&& a.enable_spec_draft_p_split == b.enable_spec_draft_p_split
    &&& a.enable_spec_draft_type_k == b.enable_spec_draft_type_k
    &&& a.enable_spec_draft_type_v == b.enable_spec_draft_type_v
    &&& a.spec_ngram_size_n == b.spec_ngram_size_n
    &&& a.spec_ngram_size_m == b.spec_ngram_size_m
    &&& a.spec_ngram_min_hits == b.spec_ngram_min_hits
    &&& a.spec_ngram_mod_n_min == b.spec_ngram_mod_n_min
    &&& a.spec_ngram_mod_n_max == b.spec_ngram_mod_n_max
    &&& a.spec_ngram_mod_n_match == b.spec_ngram_mod_n_match
    &&& a.kv_offload == b.kv_offload
    &&& a.cache_type_k@ == b.cache_type_k@
    &&& a.cache_type_v@ == b.cache_type_v@
    &&& a.kv_unified == b.kv_unified
    &&& a.swa_full == b.swa_full
    &&& a.kv_cache_ratio == b.kv_cache_ratio
    &&& a.ctx_checkpoints == b.ctx_checkpoints
    &&& a.checkpoint_min_step == b.checkpoint_min_step
    &&& a.gpu_layers_mode == b.gpu_layers_mode
    &&& a.split_mode@ == b.split_mode@
    &&& a.tensor_split@ == b.tensor_split@
    &&& a.cpu_moe == b.cpu_moe
    &&& a.n_cpu_moe == b.n_cpu_moe
    &&& a.override_tensor@ == b.override_tensor@
    &&& a.verbose == b.verbose
    &&& a.offline_mode == b.offline_mode
    &&& a.rpc_mode == b.rpc_mode
    &&& a.rpc_endpoints@ == b.rpc_endpoints@
    &&& a.model_path@ == b.model_path@
    &&& a.mmproj_path@ == b.mmproj_path@
    &&& a.mmproj_auto == b.mmproj_auto
    &&& a.mmproj_offload == b.mmproj_offload
    &&& a.mmproj_device@ == b.mmproj_device@
    &&& a.image_min_tokens == b.image_min_tokens
    &&& a.image_max_tokens == b.image_max_tokens
    &&& a.mtmd_batch_max_tokens == b.mtmd_batch_max_tokens
    &&& a.video_fps == b.video_fps
    &&& a.video_timestamp_interval == b.video_timestamp_interval
    &&& a.video_ffmpeg_dir@ == b.video_ffmpeg_dir@
    &&& a.dflash_path@ == b.dflash_path@
    &&& a.model_dir@ == b.model_dir@
    &&& a.alias@ == b.alias@
    &&& a.rpc_threads == b.rpc_threads
    &&& a.rpc_device@ == b.rpc_device@
    &&& a.rpc_cache == b.rpc_cache
    &&& a.web_ui_enabled == b.web_ui_enabled
    &&& a.log_timestamps == b.log_timestamps
    &&& a.log_verbosity == b.log_verbosity
    &&& a.session_timeout == b.session_timeout
    &&& a.reasoning@ == b.reasoning@
    &&& a.reasoning_format@ == b.reasoning_format@
    &&& a.reasoning_effort@ == b.reasoning_effort@
    &&& a.reasoning_budget == b.reasoning_budget
    &&& a.reasoning_preserve == b.reasoning_preserve
    &&& a.jinja_enabled == b.jinja_enabled
    &&& a.chat_template@ == b.chat_template@
    &&& a.chat_template_file@ == b.chat_template_file@
    &&& a.rocm_gpu_target@ == b.rocm_gpu_target@
    &&& a.mcp_enabled == b.mcp_enabled
    &&& a.mcp_server_states@ == b.mcp_server_states@
}

/// The presets `p` and `q` carry the same launch parameters (their names and
/// import marks may differ).
pub open spec fn same_launch_parameters(p: Preset, q: Preset) -> bool {
    &&& p.host@ == q.host@
    &&& p.port == q.port
    &&& p.parallel_slots == q.parallel_slots
    &&& p.context == q.context
    &&& p.batch_size == q.batch_size
    &&& p.ubatch_size == q.ubatch_size
    &&& p.temperature == q.temperature
    &&& p.top_p == q.top_p
    &&& p.top_k == q.top_k
    &&& p.repeat_penalty == q.repeat_penalty
    &&& p.presence_penalty == q.presence_penalty
    &&& p.enable_batch_size == q.enable_batch_size
    &&& p.enable_ubatch_size == q.enable_ubatch_size
    &&& p.enable_session_timeout == q.enable_session_timeout
    &&& p.enable_temperature == q.enable_temperature
    &&& p.enable_top_p == q.enable_top_p
    &&& p.enable_top_k == q.enable_top_k
    &&& p.enable_repeat_penalty == q.enable_repeat_penalty
    &&& p.enable_presence_penalty == q.enable_presence_penalty
    &&& p.flash_attn@ == q.flash_attn@
    &&& p.fit@ == q.fit@
    &&& p.fit_target@ == q.fit_target@
    &&& p.fit_ctx == q.fit_ctx
    &&& p.enable_fit_target == q.enable_fit_target
    &&& p.enable_fit_ctx == q.enable_fit_ctx
    &&& p.load_mode@ == q.load_mode@
    &&& p.tensor_read_lazy@ == q.tensor_read_lazy@
    &&& p.threads == q.threads
    &&& p.threads_batch == q.threads_batch
    &&& p.n_predict == q.n_predict
    &&& p.keep == q.keep
    &&& p.seed == q.seed
    &&& p.main_gpu == q.main_gpu
    &&& p.device@ == q.device@
    &&& p.enable_min_p == q.enable_min_p
    &&& p.min_p == q.min_p
    &&& p.enable_top_n_sigma == q.enable_top_n_sigma
    &&& p.top_n_sigma == q.top_n_sigma
    &&& p.enable_xtc == q.enable_xtc
    &&& p.xtc_probability == q.xtc_probability
    &&& p.xtc_threshold == q.xtc_threshold
    &&& p.enable_typical_p == q.enable_typical_p
    &&& p.typical_p == q.typical_p
    &&& p.enable_mirostat == q.enable_mirostat
    &&& p.mirostat == q.mirostat
    &&& p.mirostat_lr == q.mirostat_lr
    &&& p.mirostat_ent == q.mirostat_ent
    &&& p.enable_dynatemp == q.enable_dynatemp
    &&& p.dynatemp_range == q.dynatemp_range
    &&& p.dynatemp_exp == q.dynatemp_exp
    &&& p.sampler_seq@ == q.sampler_seq@
    &&& p.cache_prompt == q.cache_prompt
    &&& p.cache_reuse == q.cache_reuse
    &&& p.context_shift == q.context_shift
    &&& p.json_schema@ == q.json_schema@
    &&& p.grammar@ == q.grammar@
    &&& p.api_key@ == q.api_key@
    &&& p.api_prefix@ == q.api_prefix@
    &&& p.cors_origins@ == q.cors_origins@
    &&& p.ssl_cert_file@ == q.ssl_cert_file@
    &&& p.ssl_key_file@ == q.ssl_key_file@
    &&& p.reuse_port == q.reuse_port
    &&& p.numa@ == q.numa@
    &&& p.cache_ram_enabled == q.cache_ram_enabled
    &&& p.cache_ram == q.cache_ram
    &&& p.no_host == q.no_host
    &&& p.rope_scaling@ == q.rope_scaling@
    &&& p.rope_scale == q.rope_scale
    &&& p.rope_freq_base == q.rope_freq_base
    &&& p.rope_freq_scale == q.rope_freq_scale
    &&& p.yarn_orig_ctx == q.yarn_orig_ctx
    &&& p.yarn_ext_factor == q.yarn_ext_factor
    &&& p.yarn_attn_factor == q.yarn_attn_factor
    &&& p.yarn_beta_slow == q.yarn_beta_slow
    &&& p.yarn_beta_fast == q.yarn_beta_fast
    &&& p.frequency_penalty == q.frequency_penalty
    &&& p.repeat_last_n == q.repeat_last_n
    &&& p.dry_multiplier == q.dry_multiplier
    &&& p.dry_base == q.dry_base
    &&& p.dry_allowed_length == q.dry_allowed_length
    &&& p.dry_penalty_last_n == q.dry_penalty_last_n
    &&& p.dry_sequence_breaker@ == q.dry_sequence_breaker@
    &&& p.logit_bias@ == q.logit_bias@
    &&& p.lora_path@ == q.lora_path@
    &&& p.lora_scaled@ == q.lora_scaled@
    &&& p.control_vector@ == q.control_vector@
    &&& p.slot_save_path@ == q.slot_save_path@
    &&& p.sleep_idle_seconds == q.sleep_idle_seconds
    &&& p.threads_http == q.threads_http
    &&& p.metrics_enabled == q.metrics_enabled
    &&& p.api_key_file@ == q.api_key_file@
    &&& p.direct_io == q.direct_io
    &&& p.check_tensors == q.check_tensors
    &&& p.override_kv@ == q.override_kv@
    &&& p.prio == q.prio
    &&& p.warmup_enabled == q.warmup_enabled
    &&& p.cont_batching == q.cont_batching
    &&& p.grammar_file@ == q.grammar_file@
    &&& p.json_schema_file@ == q.json_schema_file@
    &&& p.embeddings_enabled == q.embeddings_enabled
    &&& p.pooling@ == q.pooling@
    &&& p.rerank_enabled == q.rerank_enabled
    &&& p.spec_type@ == q.spec_type@
    &&& p.spec_draft_n_max == q.spec_draft_n_max
    &&& p.spec_draft_n_min == q.spec_draft_n_min
    &&& p.spec_draft_p_min == q.spec_draft_p_min
    &&& p.spec_draft_p_split == q.spec_draft_p_split
    &&& p.spec_draft_type_k@ == q.spec_draft_type_k@
    &&& p.spec_draft_type_v@ == q.spec_draft_type_v@
    &&& p.enable_spec_draft_n_max == q.enable_spec_draft_n_max
    &&& p.enable_spec_draft_n_min == q.enable_spec_draft_n_min
    &&& p.enable_spec_draft_p_min == q.enable_spec_draft_p_min
    &&& p.enable_spec_draft_p_split == q.enable_spec_draft_p_split
    &&& p.enable_spec_draft_type_k == q.enable_spec_draft_type_k
    &&& p.enable_spec_draft_type_v == q.enable_spec_draft_type_v
    &&& p.spec_ngram_size_n == q.spec_ngram_size_n
    &&& p.spec_ngram_size_m == q.spec_ngram_size_m
    &&& p.spec_ngram_min_hits == q.spec_ngram_min_hits
    &&& p.spec_ngram_mod_n_min == q.spec_ngram_mod_n_min
    &&& p.spec_ngram_mod_n_max == q.spec_ngram_mod_n_max
    &&& p.spec_ngram_mod_n_match == q.spec_ngram_mod_n_match
    &&& p.kv_offload == q.kv_offload
    &&& p.cache_type_k@ == q.cache_type_k@
    &&& p.cache_type_v@ == q.cache_type_v@
    &&& p.kv_unified == q.kv_unified
    &&& p.swa_full == q.swa_full
    &&& p.kv_cache_ratio == q.kv_cache_ratio
    &&& p.ctx_checkpoints == q.ctx_checkpoints
    &&& p.checkpoint_min_step == q.checkpoint_min_step
    &&& p.gpu_layers_mode == q.gpu_layers_mode
    &&& p.split_mode@ == q.split_mode@
    &&& p.tensor_split@ == q.tensor_split@
    &&& p.cpu_moe == q.cpu_moe
    &&& p.n_cpu_moe == q.n_cpu_moe
    &&& p.override_tensor@ == q.override_tensor@
    &&& p.verbose == q.verbose
    &&& p.offline_mode == q.offline_mode
    &&& p.rpc_mode == q.rpc_mode
    &&& p.rpc_endpoints@ == q.rpc_endpoints@
    &&& p.model_path@ == q.model_path@
    &&& p.mmproj_path@ == q.mmproj_path@
    &&& p.mmproj_auto == q.mmproj_auto
    &&& p.mmproj_offload == q.mmproj_offload
    &&& p.mmproj_device@ == q.mmproj_device@
    &&& p.image_min_tokens == q.image_min_tokens
    &&& p.image_max_tokens == q.image_max_tokens
    &&& p.mtmd_batch_max_tokens == q.mtmd_batch_max_tokens
    &&& p.video_fps == q.video_fps
    &&& p.video_timestamp_interval == q.video_timestamp_interval
    &&& p.video_ffmpeg_dir@ == q.video_ffmpeg_dir@
    &&& p.dflash_path@ == q.dflash_path@
    &&& p.model_dir@ == q.model_dir@
    &&& p.alias@ == q.alias@
    &&& p.rpc_threads == q.rpc_threads
    &&& p.rpc_device@ == q.rpc_device@
    &&& p.rpc_cache == q.rpc_cache
    &&& p.web_ui_enabled == q.web_ui_enabled
    &&& p.log_timestamps == q.log_timestamps
    &&& p.log_verbosity == q.log_verbosity
    &&& p.session_timeout == q.session_timeout
    &&& p.reasoning@ == q.reasoning@
    &&& p.reasoning_format@ == q.reasoning_format@
    &&& p.reasoning_effort@ == q.reasoning_effort@
    &&& p.reasoning_budget == q.reasoning_budget
    &&& p.reasoning_preserve == q.reasoning_preserve
    &&& p.jinja_enabled == q.jinja_enabled
    &&& p.chat_template@ == q.chat_template@
    &&& p.chat_template_file@ == q.chat_template_file@
    &&& p.rocm_gpu_target@ == q.rocm_gpu_target@
    &&& p.mcp_enabled == q.mcp_enabled
    &&& p.mcp_server_states@ == q.mcp_server_states@
}

/// `a` and `b` agree on every field that a preset does not carry
/// (paths of the executables, RPC server settings, interface state, presets, ...).
pub open spec fn same_outside_preset(a: AppSettings, b: AppSettings) -> bool {
    &&& a.server_path@ == b.server_path@
    &&& a.rpc_server_path@ == b.rpc_server_path@
    &&& a.rpc_host@ == b.rpc_host@
    &&& a.rpc_port == b.rpc_port
    &&& a.mcp_config_json@ == b.mcp_config_json@
    &&& a.mcp_editor_open == b.mcp_editor_open
    &&& a.mcp_editor_text@ == b.mcp_editor_text@
    &&& a.mcp_editor_error@ == b.mcp_editor_error@
    &&& a.show_device_list == b.show_device_list
    &&& a.device_list_output@ == b.device_list_output@
    &&& a.show_server_device_list == b.show_server_device_list
    &&& a.server_device_list_output@ == b.server_device_list_output@
    &&& a.show_linux_service_file == b.show_linux_service_file
    &&& a.linux_service_file_copied == b.linux_service_file_copied
    &&& a.rpc_endpoint_input@ == b.rpc_endpoint_input@
    &&& a.rpc_endpoint_multi_gpu == b.rpc_endpoint_multi_gpu
    &&& a.presets == b.presets
    &&& a.new_preset_name@ == b.new_preset_name@
    &&& a.rename_preset_index == b.rename_preset_index
    &&& a.rename_preset_new_name@ == b.rename_preset_new_name@
    &&& a.auto_start_preset_name == b.auto_start_preset_name
    &&& a.auto_scroll_logs == b.auto_scroll_logs
    &&& a.max_log_lines == b.max_log_lines
    &&& a.auto_start == b.auto_start
    &&& a.silent_start == b.silent_start
    &&& a.linux_compat_mode == b.linux_compat_mode
    &&& a.log_to_file == b.log_to_file
    &&& a.dark_mode == b.dark_mode
    &&& a.theme_mode@ == b.theme_mode@
    &&& a.accent_color@ == b.accent_color@
    &&& a.language@ == b.language@
    &&& a.download_variant@ == b.download_variant@
    &&& a.llama_branch@ == b.llama_branch@
    &&& a.release_channel@ == b.release_channel@
    &&& a.download_cuda_lib == b.download_cuda_lib
    &&& a.llama_version@ == b.llama_version@
    &&& a.update_available == b.update_available
    &&& a.new_version_tag == b.new_version_tag
    &&& a.kv_cache_result == b.kv_cache_result
    &&& a.system_service_selected_preset@ == b.system_service_selected_preset@
    &&& a.show_system_service_details == b.show_system_service_details
}

/// The values of a preset that nobody has edited yet.
pub open spec fn is_default_preset(p: Preset) -> bool {
    &&& p.name@ == Seq::<char>::empty()
    &&& p.host@ == "127.0.0.1"@
    &&& p.port == 9931
    &&& p.parallel_slots == -1
    &&& p.context == 4
    &&& p.batch_size == (F32Bits { bits: 0x40000000 })
    &&& p.ubatch_size == (F32Bits { bits: 0x3F000000 })
    &&& p.temperature == (F32Bits { bits: 0x3F4CCCCD })
    &&& p.top_p == (F32Bits { bits: 0x3F733333 })
    &&& p.top_k == 40
    &&& p.repeat_penalty == (F32Bits { bits: 0x3F8CCCCD })
    &&& p.presence_penalty == (F32Bits { bits: 0x00000000 })
    &&& p.enable_batch_size == false
    &&& p.enable_ubatch_size == false
    &&& p.enable_session_timeout == false
    &&& p.enable_temperature == false
    &&& p.enable_top_p == false
    &&& p.enable_top_k == false
    &&& p.enable_repeat_penalty == false
    &&& p.enable_presence_penalty == false
    &&& p.flash_attn@ == "auto"@
    &&& p.fit@ == "on"@
    &&& p.fit_target@ == "1024"@
    &&& p.fit_ctx == 4
    &&& p.enable_fit_target == false
    &&& p.enable_fit_ctx == false
    &&& p.load_mode@ == "auto"@
    &&& p.tensor_read_lazy@ == "auto"@
    &&& p.threads == -1
    &&& p.threads_batch == -1
    &&& p.n_predict == -1
    &&& p.keep == 0
    &&& p.seed == -1
    &&& p.main_gpu == 0
    &&& p.device@ == Seq::<char>::empty()
    &&& p.enable_min_p == false
    &&& p.min_p == (F32Bits { bits: 0x3D4CCCCD })
    &&& p.enable_top_n_sigma == false
    &&& p.top_n_sigma == (F32Bits { bits: 0xBF800000 })
    &&& p.enable_xtc == false
    &&& p.xtc_probability == (F32Bits { bits: 0x00000000 })
    &&& p.xtc_threshold == (F32Bits { bits: 0x3DCCCCCD })
    &&& p.enable_typical_p == false
    &&& p.typical_p == (F32Bits { bits: 0x3F800000 })
    &&& p.enable_mirostat == false
    &&& p.mirostat == 0
    &&& p.mirostat_lr == (F32Bits { bits: 0x3DCCCCCD })
    &&& p.mirostat_ent == (F32Bits { bits: 0x40A00000 })
    &&& p.enable_dynatemp == false
    &&& p.dynatemp_range == (F32Bits { bits: 0x00000000 })
    &&& p.dynatemp_exp == (F32Bits { bits: 0x3F800000 })
    &&& p.sampler_seq@ == Seq::<char>::empty()
    &&& p.cache_prompt == true
    &&& p.cache_reuse == 0
    &&& p.context_shift == false
    &&& p.json_schema@ == Seq::<char>::empty()
    &&& p.grammar@ == Seq::<char>::empty()
    &&& p.api_key@ == Seq::<char>::empty()
    &&& p.api_prefix@ == Seq::<char>::empty()
    &&& p.cors_origins@ == Seq::<char>::empty()
    &&& p.ssl_cert_file@ == Seq::<char>::empty()
    &&& p.ssl_key_file@ == Seq::<char>::empty()
    &&& p.reuse_port == false
    &&& p.numa@ == Seq::<char>::empty()
    &&& p.cache_ram_enabled == false
    &&& p.cache_ram == 32768
    &&& p.no_host == false
    &&& p.rope_scaling@ == Seq::<char>::empty()
    &&& p.rope_scale == (F32Bits { bits: 0x3F800000 })
    &&& p.rope_freq_base == (F32Bits { bits: 0x00000000 })
    &&& p.rope_freq_scale == (F32Bits { bits: 0x00000000 })
    &&& p.yarn_orig_ctx == 0
    &&& p.yarn_ext_factor == (F32Bits { bits: 0xBF800000 })
    &&& p.yarn_attn_factor == (F32Bits { bits: 0xBF800000 })
    &&& p.yarn_beta_slow == (F32Bits { bits: 0xBF800000 })
    &&& p.yarn_beta_fast == (F32Bits { bits: 0xBF800000 })
    &&& p.frequency_penalty == (F32Bits { bits: 0x00000000 })
    &&& p.repeat_last_n == -1
    &&& p.dry_multiplier == (F32Bits { bits: 0x00000000 })
    &&& p.dry_base == (F32Bits { bits: 0x3FE00000 })
    &&& p.dry_allowed_length == 2
    &&& p.dry_penalty_last_n == 64
    &&& p.dry_sequence_breaker@ == Seq::<char>::empty()
    &&& p.logit_bias@ == Seq::<char>::empty()
    &&& p.lora_path@ == Seq::<char>::empty()
    &&& p.lora_scaled@ == Seq::<char>::empty()
    &&& p.control_vector@ == Seq::<char>::empty()
    &&& p.slot_save_path@ == Seq::<char>::empty()
    &&& p.sleep_idle_seconds == -1
    &&& p.threads_http == -1
    &&& p.metrics_enabled == false
    &&& p.api_key_file@ == Seq::<char>::empty()
    &&& p.direct_io == false
    &&& p.check_tensors == false
    &&& p.override_kv@ == Seq::<char>::empty()
    &&& p.prio == 0
    &&& p.warmup_enabled == true
    &&& p.cont_batching == true
    &&& p.grammar_file@ == Seq::<char>::empty()
    &&& p.json_schema_file@ == Seq::<char>::empty()
    &&& p.embeddings_enabled == false
    &&& p.pooling@ == Seq::<char>::empty()
    &&& p.rerank_enabled == false
    &&& p.spec_type@ == "none"@
    &&& p.spec_draft_n_max == 2
    &&& p.spec_draft_n_min == 0
    &&& p.spec_draft_p_min == (F32Bits { bits: 0x3F400000 })
    &&& p.spec_draft_p_split == (F32Bits { bits: 0x3F800000 })
    &&& p.spec_draft_type_k@ == "f16"@
    &&& p.spec_draft_type_v@ == "f16"@
    &&& p.enable_spec_draft_n_max == false
    &&& p.enable_spec_draft_n_min == false
    &&& p.enable_spec_draft_p_min == false
    &&& p.enable_spec_draft_p_split == false
    &&& p.enable_spec_draft_type_k == false
    &&& p.enable_spec_draft_type_v == false
    &&& p.spec_ngram_size_n == 12
    &&& p.spec_ngram_size_m == 48
    &&& p.spec_ngram_min_hits == 1
    &&& p.spec_ngram_mod_n_min == 48
    &&& p.spec_ngram_mod_n_max == 64
    &&& p.spec_ngram_mod_n_match == 24
    &&& p.kv_offload == true
    &&& p.cache_type_k@ == "q8_0"@
    &&& p.cache_type_v@ == "q8_0"@
    &&& p.kv_unified == true
    &&& p.swa_full == false
    &&& p.kv_cache_ratio == (F32Bits { bits: 0x3F733333 })
    &&& p.ctx_checkpoints == 32
    &&& p.checkpoint_min_step == 512
    &&& p.gpu_layers_mode == GpuLayersMode::All
    &&& p.split_mode@ == "none"@
    &&& p.tensor_split@ == Seq::<char>::empty()
    &&& p.cpu_moe == false
    &&& p.n_cpu_moe == 0
    &&& p.override_tensor@ == Seq::<char>::empty()
    &&& p.verbose == false
    &&& p.offline_mode == false
    &&& p.rpc_mode == false
    &&& p.rpc_endpoints@ == "127.0.0.1:50052"@
    &&& p.model_path@ == Seq::<char>::empty()
    &&& p.mmproj_path@ == Seq::<char>::empty()
    &&& p.mmproj_auto == true
    &&& p.mmproj_offload == true
    &&& p.mmproj_device@ == "auto"@
    &&& p.image_min_tokens == 0
    &&& p.image_max_tokens == 0
    &&& p.mtmd_batch_max_tokens == 1024
    &&& p.video_fps == (F32Bits { bits: 0x40800000 })
    &&& p.video_timestamp_interval == 5000
    &&& p.video_ffmpeg_dir@ == Seq::<char>::empty()
    &&& p.dflash_path@ == Seq::<char>::empty()
    &&& p.model_dir@ == Seq::<char>::empty()
    &&& p.alias@ == Seq::<char>::empty()
    &&& p.rpc_threads == 8
    &&& p.rpc_device@ == Seq::<char>::empty()
    &&& p.rpc_cache == false
    &&& p.web_ui_enabled == true
    &&& p.log_timestamps == true
    &&& p.log_verbosity == 3
    &&& p.session_timeout == 600
    &&& p.reasoning@ == "auto"@
    &&& p.reasoning_format@ == "auto"@
    &&& p.reasoning_effort@ == "default"@
    &&& p.reasoning_budget == -1
    &&& p.reasoning_preserve is None
    &&& p.jinja_enabled == true
    &&& p.chat_template@ == Seq::<char>::empty()
    &&& p.chat_template_file@ == Seq::<char>::empty()
    &&& p.rocm_gpu_target@ == "gfx103X"@
    &&& p.mcp_enabled == false
    &&& p.mcp_server_states@.len() == 0
    &&& p.imported == false
    &&& p.imported_decl is None
}

/// The values of the settings on a first start, before any configuration is read.
pub open spec fn is_default_settings(s: AppSettings) -> bool {
    &&& s.server_path@ == Seq::<char>::empty()
    &&& s.host@ == "127.0.0.1"@
    &&& s.port == 9931
    &&& s.parallel_slots == -1
    &&& s.model_path@ == Seq::<char>::empty()
    &&& s.mmproj_path@ == Seq::<char>::empty()
    &&& s.mmproj_auto == true
    &&& s.mmproj_offload == true
    &&& s.mmproj_device@ == "auto"@
    &&& s.image_min_tokens == 0
    &&& s.image_max_tokens == 0
    &&& s.mtmd_batch_max_tokens == 1024
    &&& s.video_fps == (F32Bits { bits: 0x40800000 })
    &&& s.video_timestamp_interval == 5000
    &&& s.video_ffmpeg_dir@ == Seq::<char>::empty()
    &&& s.dflash_path@ == Seq::<char>::empty()
    &&& s.model_dir@ == Seq::<char>::empty()
    &&& s.alias@ == Seq::<char>::empty()
    &&& s.context == 4
    &&& s.batch_size == (F32Bits { bits: 0x40000000 })
    &&& s.ubatch_size == (F32Bits { bits: 0x3F000000 })
    &&& s.temperature == (F32Bits { bits: 0x3F4CCCCD })
    &&& s.top_p == (F32Bits { bits: 0x3F733333 })
    &&& s.top_k == 40
    &&& s.repeat_penalty == (F32Bits { bits: 0x3F8CCCCD })
    &&& s.presence_penalty == (F32Bits { bits: 0x00000000 })
    &&& s.enable_batch_size == false
    &&& s.enable_ubatch_size == false
    &&& s.enable_session_timeout == false
    &&& s.enable_temperature == false
    &&& s.enable_top_p == false
    &&& s.enable_top_k == false
    &&& s.enable_repeat_penalty == false
    &&& s.enable_presence_penalty == false
    &&& s.flash_attn@ == "auto"@
    &&& s.fit@ == "on"@
    &&& s.fit_target@ == "1024"@
    &&& s.fit_ctx == 4
    &&& s.enable_fit_target == false
    &&& s.enable_fit_ctx == false
    &&& s.load_mode@ == "auto"@
    &&& s.tensor_read_lazy@ == "auto"@
    &&& s.threads == -1
    &&& s.threads_batch == -1
    &&& s.n_predict == -1
    &&& s.keep == 0
    &&& s.seed == -1
    &&& s.main_gpu == 0
    &&& s.device@ == Seq::<char>::empty()
    &&& s.enable_min_p == false
    &&& s.min_p == (F32Bits { bits: 0x3D4CCCCD })
    &&& s.enable_top_n_sigma == false
    &&& s.top_n_sigma == (F32Bits { bits: 0xBF800000 })
    &&& s.enable_xtc == false
    &&& s.xtc_probability == (F32Bits { bits: 0x00000000 })
    &&& s.xtc_threshold == (F32Bits { bits: 0x3DCCCCCD })
    &&& s.enable_typical_p == false
    &&& s.typical_p == (F32Bits { bits: 0x3F800000 })
    &&& s.enable_mirostat == false
    &&& s.mirostat == 0
    &&& s.mirostat_lr == (F32Bits { bits: 0x3DCCCCCD })
    &&& s.mirostat_ent == (F32Bits { bits: 0x40A00000 })
    &&& s.enable_dynatemp == false
    &&& s.dynatemp_range == (F32Bits { bits: 0x00000000 })
    &&& s.dynatemp_exp == (F32Bits { bits: 0x3F800000 })
    &&& s.sampler_seq@ == Seq::<char>::empty()
    &&& s.cache_prompt == true
    &&& s.cache_reuse == 0
    &&& s.context_shift == false
    &&& s.json_schema@ == Seq::<char>::empty()
    &&& s.grammar@ == Seq::<char>::empty()
    &&& s.api_key@ == Seq::<char>::empty()
    &&& s.api_prefix@ == Seq::<char>::empty()
    &&& s.cors_origins@ == Seq::<char>::empty()
    &&& s.ssl_cert_file@ == Seq::<char>::empty()
    &&& s.ssl_key_file@ == Seq::<char>::empty()
    &&& s.reuse_port == false
    &&& s.numa@ == Seq::<char>::empty()
    &&& s.cache_ram_enabled == false
    &&& s.cache_ram == 32768
    &&& s.no_host == false
    &&& s.rope_scaling@ == Seq::<char>::empty()
    &&& s.rope_scale == (F32Bits { bits: 0x3F800000 })
    &&& s.rope_freq_base == (F32Bits { bits: 0x00000000 })
    &&& s.rope_freq_scale == (F32Bits { bits: 0x00000000 })
    &&& s.yarn_orig_ctx == 0
    &&& s.yarn_ext_factor == (F32Bits { bits: 0xBF800000 })
    &&& s.yarn_attn_factor == (F32Bits { bits: 0xBF800000 })
    &&& s.yarn_beta_slow == (F32Bits { bits: 0xBF800000 })
    &&& s.yarn_beta_fast == (F32Bits { bits: 0xBF800000 })
    &&& s.frequency_penalty == (F32Bits { bits: 0x00000000 })
    &&& s.repeat_last_n == -1
    &&& s.dry_multiplier == (F32Bits { bits: 0x00000000 })
    &&& s.dry_base == (F32Bits { bits: 0x3FE00000 })
    &&& s.dry_allowed_length == 2
    &&& s.dry_penalty_last_n == 64
    &&& s.dry_sequence_breaker@ == Seq::<char>::empty()
    &&& s.logit_bias@ == Seq::<char>::empty()
    &&& s.lora_path@ == Seq::<char>::empty()
    &&& s.lora_scaled@ == Seq::<char>::empty()
    &&& s.control_vector@ == Seq::<char>::empty()
    &&& s.slot_save_path@ == Seq::<char>::empty()
    &&& s.sleep_idle_seconds == -1
    &&& s.threads_http == -1
    &&& s.metrics_enabled == false
    &&& s.api_key_file@ == Seq::<char>::empty()
    &&& s.direct_io == false
    &&& s.check_tensors == false
    &&& s.override_kv@ == Seq::<char>::empty()
    &&& s.prio == 0
    &&& s.warmup_enabled == true
    &&& s.cont_batching == true
    &&& s.grammar_file@ == Seq::<char>::empty()
    &&& s.json_schema_file@ == Seq::<char>::empty()
    &&& s.embeddings_enabled == false
    &&& s.pooling@ == Seq::<char>::empty()
    &&& s.rerank_enabled == false
    &&& s.spec_type@ == "none"@
    &&& s.spec_draft_n_max == 2
    &&& s.spec_draft_n_min == 0
    &&& s.spec_draft_p_min == (F32Bits { bits: 0x3F400000 })
    &&& s.spec_draft_p_split == (F32Bits { bits: 0x3F800000 })
    &&& s.spec_draft_type_k@ == "f16"@
    &&& s.spec_draft_type_v@ == "f16"@
    &&& s.enable_spec_draft_n_max == false
    &&& s.enable_spec_draft_n_min == false
    &&& s.enable_spec_draft_p_min == false
    &&& s.enable_spec_draft_p_split == false
    &&& s.enable_spec_draft_type_k == false
    &&& s.enable_spec_draft_type_v == false
    &&& s.spec_ngram_size_n == 12
    &&& s.spec_ngram_size_m == 48
    &&& s.spec_ngram_min_hits == 1
    &&& s.spec_ngram_mod_n_min == 48
    &&& s.spec_ngram_mod_n_max == 64
    &&& s.spec_ngram_mod_n_match == 24
    &&& s.kv_offload == true
    &&& s.cache_type_k@ == "q8_0"@
    &&& s.cache_type_v@ == "q8_0"@
    &&& s.kv_unified == true
    &&& s.swa_full == false
    &&& s.kv_cache_ratio == (F32Bits { bits: 0x3F733333 })
    &&& s.ctx_checkpoints == 32
    &&& s.checkpoint_min_step == 512
    &&& s.gpu_layers_mode == GpuLayersMode::All
    &&& s.split_mode@ == "none"@
    &&& s.tensor_split@ == Seq::<char>::empty()
    &&& s.cpu_moe == false
    &&& s.n_cpu_moe == 0
    &&& s.override_tensor@ == Seq::<char>::empty()
    &&& s.rpc_server_path@ == Seq::<char>::empty()
    &&& s.rpc_host@ == "127.0.0.1"@
    &&& s.rpc_port == 50052
    &&& s.rpc_threads == 8
    &&& s.rpc_device@ == Seq::<char>::empty()
    &&& s.rpc_cache == false
    &&& s.verbose == false
    &&& s.offline_mode == false
    &&& s.rpc_mode == false
    &&& s.rpc_endpoints@ == "127.0.0.1:50052"@
    &&& s.web_ui_enabled == true
    &&& s.log_timestamps == true
    &&& s.log_verbosity == 3
    &&& s.session_timeout == 600
    &&& s.reasoning@ == "auto"@
    &&& s.reasoning_format@ == "auto"@
    &&& s.reasoning_effort@ == "default"@
    &&& s.reasoning_budget == -1
    &&& s.reasoning_preserve is None
    &&& s.jinja_enabled == true
    &&& s.chat_template@ == Seq::<char>::empty()
    &&& s.chat_template_file@ == Seq::<char>::empty()
    &&& s.mcp_enabled == false
    &&& s.mcp_server_states@.len() == 0
    &&& s.mcp_config_json@ == Seq::<char>::empty()
    &&& s.mcp_editor_open == false
    &&& s.mcp_editor_text@ == Seq::<char>::empty()
    &&& s.mcp_editor_error@ == Seq::<char>::empty()
    &&& s.show_device_list == false
    &&& s.device_list_output@ == Seq::<char>::empty()
    &&& s.show_server_device_list == false
    &&& s.server_device_list_output@ == Seq::<char>::empty()
    &&& s.show_linux_service_file == false
    &&& s.linux_service_file_copied == false
    &&& s.rpc_endpoint_input@ == Seq::<char>::empty()
    &&& s.rpc_endpoint_multi_gpu == false
    &&& s.presets@.len() == 0
    &&& s.new_preset_name@ == Seq::<char>::empty()
    &&& s.rename_preset_index is None
    &&& s.rename_preset_new_name@ == Seq::<char>::empty()
    &&& s.auto_start_preset_name is None
    &&& s.auto_scroll_logs == true
    &&& s.max_log_lines == 100
    &&& s.auto_start == false
    &&& s.silent_start == false
    &&& s.linux_compat_mode == true
    &&& s.log_to_file == false
    &&& s.dark_mode == true
    &&& s.theme_mode@ == "auto"@
    &&& s.accent_color@ == "#FF2D55"@
    &&& s.language@ == Seq::<char>::empty()
    &&& s.download_variant@ == "cpu"@
    &&& s.llama_branch@ == "main"@
    &&& s.release_channel@ == "stable"@
    &&& s.rocm_gpu_target@ == "gfx103X"@
    &&& s.download_cuda_lib == true
    &&& s.llama_version@ == Seq::<char>::empty()
    &&& s.update_available is None
    &&& s.new_version_tag is None
    &&& s.kv_cache_result is None
    &&& s.system_service_selected_preset@ == Seq::<char>::empty()
    &&& s.show_system_service_details == false
}

impl Default for Preset {
    fn default() -> (p: Self)
        ensures
            is_default_preset(p),
    {
        Preset {
            name: String::new(),
            host: "127.0.0.1".to_string(),
            port: 9931,
            parallel_slots: -1,
            context: 4,
            batch_size: F32Bits { bits: 0x40000000 },
            ubatch_size: F32Bits { bits: 0x3F000000 },
            temperature: F32Bits { bits: 0x3F4CCCCD },
            top_p: F32Bits { bits: 0x3F733333 },
            top_k: 40,
            repeat_penalty: F32Bits { bits: 0x3F8CCCCD },
            presence_penalty: F32Bits { bits: 0x00000000 },
            enable_batch_size: false,
            enable_ubatch_size: false,
            enable_session_timeout: false,
            enable_temperature: false,
            enable_top_p: false,
            enable_top_k: false,
            enable_repeat_penalty: false,
            enable_presence_penalty: false,
            flash_attn: defaults::default_flash_attn(),
            fit: defaults::default_fit(),
            fit_target: defaults::default_fit_target(),
            fit_ctx: defaults::default_fit_ctx(),
            enable_fit_target: false,
            enable_fit_ctx: false,
            load_mode: defaults::default_load_mode(),
            tensor_read_lazy: defaults::default_tensor_read_lazy(),
            threads: defaults::default_threads(),
            threads_batch: defaults::default_threads_batch(),
            n_predict: defaults::default_n_predict(),
            keep: defaults::default_keep_tokens(),
            seed: defaults::default_seed(),
            main_gpu: defaults::default_main_gpu(),
            device: String::new(),
            enable_min_p: false,
            min_p: defaults::default_min_p(),
            enable_top_n_sigma: false,
            top_n_sigma: defaults::default_top_n_sigma(),
            enable_xtc: false,
            xtc_probability: defaults::default_xtc_probability(),
            xtc_threshold: defaults::default_xtc_threshold(),
            enable_typical_p: false,
            typical_p: defaults::default_typical_p(),
            enable_mirostat: false,
            mirostat: defaults::default_mirostat(),
            mirostat_lr: defaults::default_mirostat_lr(),
            mirostat_ent: defaults::default_mirostat_ent(),
            enable_dynatemp: false,
            dynatemp_range: defaults::default_dynatemp_range(),
            dynatemp_exp: defaults::default_dynatemp_exp(),
            sampler_seq: defaults::default_sampler_seq(),
            cache_prompt: defaults::default_cache_prompt(),
            cache_reuse: defaults::default_cache_reuse(),
            context_shift: defaults::default_context_shift(),
            json_schema: defaults::default_json_schema(),
            grammar: defaults::default_grammar(),
            api_key: defaults::default_api_key(),
            api_prefix: defaults::default_api_prefix(),
            cors_origins: defaults::default_cors_origins(),
            ssl_cert_file: String::new(),
            ssl_key_file: String::new(),
            reuse_port: false,
            numa: defaults::default_numa(),
            cache_ram_enabled: defaults::default_cache_ram_enabled(),
            cache_ram: defaults::default_cache_ram(),
            no_host: defaults::default_no_host(),
            rope_scaling: defaults::default_rope_scaling(),
            rope_scale: defaults::default_rope_scale(),
            rope_freq_base: defaults::default_rope_freq_base(),
            rope_freq_scale: defaults::default_rope_freq_scale(),
            yarn_orig_ctx: defaults::default_yarn_orig_ctx(),
            yarn_ext_factor: defaults::default_yarn_ext_factor(),
            yarn_attn_factor: defaults::default_yarn_attn_factor(),
            yarn_beta_slow: defaults::default_yarn_beta_slow(),
            yarn_beta_fast: defaults::default_yarn_beta_fast(),
            frequency_penalty: defaults::default_frequency_penalty(),
            repeat_last_n: defaults::default_repeat_last_n(),
            dry_multiplier: defaults::default_dry_multiplier(),
            dry_base: defaults::default_dry_base(),
            dry_allowed_length: defaults::default_dry_allowed_length(),
            dry_penalty_last_n: defaults::default_dry_penalty_last_n(),
            dry_sequence_breaker: defaults::default_dry_sequence_breaker(),
            logit_bias: defaults::default_logit_bias(),
            lora_path: defaults::default_lora_path(),
            lora_scaled: defaults::default_lora_scaled(),
            control_vector: defaults::default_control_vector(),
            slot_save_path: defaults::default_slot_save_path(),
            sleep_idle_seconds: defaults::default_sleep_idle_seconds(),
            threads_http: defaults::default_threads_http(),
            metrics_enabled: defaults::default_metrics_enabled(),
            api_key_file: defaults::default_api_key_file(),
            direct_io: defaults::default_direct_io(),
            check_tensors: defaults::default_check_tensors(),
            override_kv: defaults::default_override_kv(),
            prio: defaults::default_prio(),
            warmup_enabled: defaults::default_warmup_enabled(),
            cont_batching: defaults::default_cont_batching(),
            grammar_file: defaults::default_grammar_file(),
            json_schema_file: defaults::default_json_schema_file(),
            embeddings_enabled: defaults::default_embeddings_enabled(),
            pooling: defaults::default_pooling(),
            rerank_enabled: defaults::default_rerank_enabled(),
            spec_type: defaults::default_spec_type(),
            spec_draft_n_max: defaults::default_spec_draft_n_max(),
            spec_draft_n_min: 0,
            spec_draft_p_min: defaults::default_spec_draft_p_min(),
            spec_draft_p_split: defaults::default_spec_draft_p_split(),
            spec_draft_type_k: defaults::default_spec_draft_type_k(),
            spec_draft_type_v: defaults::default_spec_draft_type_v(),
            enable_spec_draft_n_max: false,
            enable_spec_draft_n_min: false,
            enable_spec_draft_p_min: false,
            enable_spec_draft_p_split: false,
            enable_spec_draft_type_k: false,
            enable_spec_draft_type_v: false,
            spec_ngram_size_n: defaults::default_spec_ngram_size_n(),
            spec_ngram_size_m: defaults::default_spec_ngram_size_m(),
            spec_ngram_min_hits: defaults::default_spec_ngram_min_hits(),
            spec_ngram_mod_n_min: defaults::default_spec_ngram_mod_n_min(),
            spec_ngram_mod_n_max: defaults::default_spec_ngram_mod_n_max(),
            spec_ngram_mod_n_match: defaults::default_spec_ngram_mod_n_match(),
            kv_offload: true,
            cache_type_k: "q8_0".to_string(),
            cache_type_v: "q8_0".to_string(),
            kv_unified: true,
            swa_full: false,
            kv_cache_ratio: defaults::default_kv_cache_ratio(),
            ctx_checkpoints: defaults::default_ctx_checkpoints(),
            checkpoint_min_step: defaults::default_checkpoint_min_step(),
            gpu_layers_mode: GpuLayersMode::All,
            split_mode: "none".to_string(),
            tensor_split: String::new(),
            cpu_moe: false,
            n_cpu_moe: 0,
            override_tensor: String::new(),
            verbose: false,
            offline_mode: false,
            rpc_mode: false,
            rpc_endpoints: "127.0.0.1:50052".to_string(),
            model_path: String::new(),
            mmproj_path: String::new(),
            mmproj_auto: defaults::default_mmproj_auto(),
            mmproj_offload: defaults::default_mmproj_offload(),
            mmproj_device: defaults::default_mmproj_device(),
            image_min_tokens: defaults::default_image_min_tokens(),
            image_max_tokens: defaults::default_image_max_tokens(),
            mtmd_batch_max_tokens: defaults::default_mtmd_batch_max_tokens(),
            video_fps: defaults::default_video_fps(),
            video_timestamp_interval: defaults::default_video_timestamp_interval(),
            video_ffmpeg_dir: String::new(),
            dflash_path: String::new(),
            model_dir: String::new(),
            alias: String::new(),
            rpc_threads: 8,
            rpc_device: String::new(),
            rpc_cache: false,
            web_ui_enabled: defaults::default_web_ui_enabled(),
            log_timestamps: defaults::default_log_timestamps(),
            log_verbosity: defaults::default_log_verbosity(),
            session_timeout: defaults::default_session_timeout(),
            reasoning: defaults::default_reasoning(),
            reasoning_format: defaults::default_reasoning_format(),
            reasoning_effort: defaults::default_reasoning_effort(),
            reasoning_budget: defaults::default_reasoning_budget(),
            reasoning_preserve: None,
            jinja_enabled: defaults::default_jinja_enabled(),
            chat_template: String::new(),
            chat_template_file: String::new(),
            rocm_gpu_target: defaults::default_rocm_gpu_target(),
            mcp_enabled: false,
            mcp_server_states: McpServerStates::new(),
            imported: false,
            imported_decl: None,
        }
    }
}

impl Default for AppSettings {
    fn default() -> (s: Self)
        ensures
            is_default_settings(s),
    {
        AppSettings {
            server_path: String::new(),
            host: "127.0.0.1".to_string(),
            port: 9931,
            parallel_slots: -1,
            model_path: String::new(),
            mmproj_path: String::new(),
            mmproj_auto: defaults::default_mmproj_auto(),
            mmproj_offload: defaults::default_mmproj_offload(),
            mmproj_device: defaults::default_mmproj_device(),
            image_min_tokens: defaults::default_image_min_tokens(),
            image_max_tokens: defaults::default_image_max_tokens(),
            mtmd_batch_max_tokens: defaults::default_mtmd_batch_max_tokens(),
            video_fps: defaults::default_video_fps(),
            video_timestamp_interval: defaults::default_video_timestamp_interval(),
            video_ffmpeg_dir: String::new(),
            dflash_path: String::new(),
            model_dir: String::new(),
            alias: String::new(),
            context: 4,
            batch_size: F32Bits { bits: 0x40000000 },
            ubatch_size: F32Bits { bits: 0x3F000000 },
            temperature: F32Bits { bits: 0x3F4CCCCD },
            top_p: F32Bits { bits: 0x3F733333 },
            top_k: 40,
            repeat_penalty: F32Bits { bits: 0x3F8CCCCD },
            presence_penalty: F32Bits { bits: 0x00000000 },
            enable_batch_size: false,
            enable_ubatch_size: false,
            enable_session_timeout: false,
            enable_temperature: false,
            enable_top_p: false,
            enable_top_k: false,
            enable_repeat_penalty: false,
            enable_presence_penalty: false,
            flash_attn: defaults::default_flash_attn(),
            fit: defaults::default_fit(),
            fit_target: defaults::default_fit_target(),
            fit_ctx: defaults::default_fit_ctx(),
            enable_fit_target: false,
            enable_fit_ctx: false,
            load_mode: defaults::default_load_mode(),
            tensor_read_lazy: defaults::default_tensor_read_lazy(),
            threads: defaults::default_threads(),
            threads_batch: defaults::default_threads_batch(),
            n_predict: defaults::default_n_predict(),
            keep: defaults::default_keep_tokens(),
            seed: defaults::default_seed(),
            main_gpu: defaults::default_main_gpu(),
            device: String::new(),
            enable_min_p: false,
            min_p: defaults::default_min_p(),
            enable_top_n_sigma: false,
            top_n_sigma: defaults::default_top_n_sigma(),
            enable_xtc: false,
            xtc_probability: defaults::default_xtc_probability(),
            xtc_threshold: defaults::default_xtc_threshold(),
            enable_typical_p: false,
            typical_p: defaults::default_typical_p(),
            enable_mirostat: false,
            mirostat: defaults::default_mirostat(),
            mirostat_lr: defaults::default_mirostat_lr(),
            mirostat_ent: defaults::default_mirostat_ent(),
            enable_dynatemp: false,
            dynatemp_range: defaults::default_dynatemp_range(),
            dynatemp_exp: defaults::default_dynatemp_exp(),
            sampler_seq: defaults::default_sampler_seq(),
            cache_prompt: defaults::default_cache_prompt(),
            cache_reuse: defaults::default_cache_reuse(),
            context_shift: defaults::default_context_shift(),
            json_schema: defaults::default_json_schema(),
            grammar: defaults::default_grammar(),
            api_key: defaults::default_api_key(),
            api_prefix: defaults::default_api_prefix(),
            cors_origins: defaults::default_cors_origins(),
            ssl_cert_file: String::new(),
            ssl_key_file: String::new(),
            reuse_port: false,
            numa: defaults::default_numa(),
            cache_ram_enabled: defaults::default_cache_ram_enabled(),
            cache_ram: defaults::default_cache_ram(),
            no_host: defaults::default_no_host(),
            rope_scaling: defaults::default_rope_scaling(),
            rope_scale: defaults::default_rope_scale(),
            rope_freq_base: defaults::default_rope_freq_base(),
            rope_freq_scale: defaults::default_rope_freq_scale(),
            yarn_orig_ctx: defaults::default_yarn_orig_ctx(),
            yarn_ext_factor: defaults::default_yarn_ext_factor(),
            yarn_attn_factor: defaults::default_yarn_attn_factor(),
            yarn_beta_slow: defaults::default_yarn_beta_slow(),
            yarn_beta_fast: defaults::default_yarn_beta_fast(),
            frequency_penalty: defaults::default_frequency_penalty(),
            repeat_last_n: defaults::default_repeat_last_n(),
            dry_multiplier: defaults::default_dry_multiplier(),
            dry_base: defaults::default_dry_base(),
            dry_allowed_length: defaults::default_dry_allowed_length(),
            dry_penalty_last_n: defaults::default_dry_penalty_last_n(),
            dry_sequence_breaker: defaults::default_dry_sequence_breaker(),
            logit_bias: defaults::default_logit_bias(),
            lora_path: defaults::default_lora_path(),
            lora_scaled: defaults::default_lora_scaled(),
            control_vector: defaults::default_control_vector(),
            slot_save_path: defaults::default_slot_save_path(),
            sleep_idle_seconds: defaults::default_sleep_idle_seconds(),
            threads_http: defaults::default_threads_http(),
            metrics_enabled: defaults::default_metrics_enabled(),
            api_key_file: defaults::default_api_key_file(),
            direct_io: defaults::default_direct_io(),
            check_tensors: defaults::default_check_tensors(),
            override_kv: defaults::default_override_kv(),
            prio: defaults::default_prio(),
            warmup_enabled: defaults::default_warmup_enabled(),
            cont_batching: defaults::default_cont_batching(),
            grammar_file: defaults::default_grammar_file(),
            json_schema_file: defaults::default_json_schema_file(),
            embeddings_enabled: defaults::default_embeddings_enabled(),
            pooling: defaults::default_pooling(),
            rerank_enabled: defaults::default_rerank_enabled(),
            spec_type: defaults::default_spec_type(),
            spec_draft_n_max: defaults::default_spec_draft_n_max(),
            spec_draft_n_min: 0,
            spec_draft_p_min: defaults::default_spec_draft_p_min(),
            spec_draft_p_split: defaults::default_spec_draft_p_split(),
            spec_draft_type_k: defaults::default_spec_draft_type_k(),
            spec_draft_type_v: defaults::default_spec_draft_type_v(),
            enable_spec_draft_n_max: false,
            enable_spec_draft_n_min: false,
            enable_spec_draft_p_min: false,
            enable_spec_draft_p_split: false,
            enable_spec_draft_type_k: false,
            enable_spec_draft_type_v: false,
            spec_ngram_size_n: defaults::default_spec_ngram_size_n(),
            spec_ngram_size_m: defaults::default_spec_ngram_size_m(),
            spec_ngram_min_hits: defaults::default_spec_ngram_min_hits(),
            spec_ngram_mod_n_min: defaults::default_spec_ngram_mod_n_min(),
            spec_ngram_mod_n_max: defaults::default_spec_ngram_mod_n_max(),
            spec_ngram_mod_n_match: defaults::default_spec_ngram_mod_n_match(),
            kv_offload: true,
            cache_type_k: "q8_0".to_string(),
            cache_type_v: "q8_0".to_string(),
            kv_unified: true,
            swa_full: false,
            kv_cache_ratio: defaults::default_kv_cache_ratio(),
            ctx_checkpoints: defaults::default_ctx_checkpoints(),
            checkpoint_min_step: defaults::default_checkpoint_min_step(),
            gpu_layers_mode: GpuLayersMode::All,
            split_mode: "none".to_string(),
            tensor_split: String::new(),
            cpu_moe: false,
            n_cpu_moe: 0,
            override_tensor: String::new(),
            rpc_server_path: String::new(),
            rpc_host: "127.0.0.1".to_string(),
            rpc_port: 50052,
            rpc_threads: 8,
            rpc_device: String::new(),
            rpc_cache: false,
            verbose: false,
            offline_mode: false,
            rpc_mode: false,
            rpc_endpoints: "127.0.0.1:50052".to_string(),
            web_ui_enabled: defaults::default_web_ui_enabled(),
            log_timestamps: defaults::default_log_timestamps(),
            log_verbosity: defaults::default_log_verbosity(),
            session_timeout: defaults::default_session_timeout(),
            reasoning: defaults::default_reasoning(),
            reasoning_format: defaults::default_reasoning_format(),
            reasoning_effort: defaults::default_reasoning_effort(),
            reasoning_budget: defaults::default_reasoning_budget(),
            reasoning_preserve: None,
            jinja_enabled: defaults::default_jinja_enabled(),
            chat_template: String::new(),
            chat_template_file: String::new(),
            mcp_enabled: false,
            mcp_server_states: McpServerStates::new(),
            mcp_config_json: String::new(),
            mcp_editor_open: false,
            mcp_editor_text: String::new(),
            mcp_editor_error: String::new(),
            show_device_list: false,
            device_list_output: String::new(),
            show_server_device_list: false,
            server_device_list_output: String::new(),
            show_linux_service_file: false,
            linux_service_file_copied: false,
            rpc_endpoint_input: String::new(),
            rpc_endpoint_multi_gpu: false,
            presets: Vec::new(),
            new_preset_name: String::new(),
            rename_preset_index: None,
            rename_preset_new_name: String::new(),
            auto_start_preset_name: None,
            auto_scroll_logs: defaults::default_auto_scroll_logs(),
            max_log_lines: defaults::default_max_log_lines(),
            auto_start: false,
            silent_start: false,
            linux_compat_mode: defaults::default_linux_compat_mode(),
            log_to_file: defaults::default_log_to_file(),
            dark_mode: true,
            theme_mode: "auto".to_string(),
            accent_color: defaults::default_accent_color(),
            language: String::new(),
            download_variant: defaults::default_download_variant(),
            llama_branch: defaults::default_llama_branch(),
            release_channel: defaults::default_release_channel(),
            rocm_gpu_target: defaults::default_rocm_gpu_target(),
            download_cuda_lib: true,
            llama_version: String::new(),
            update_available: None,
            new_version_tag: None,
            kv_cache_result: None,
            system_service_selected_preset: String::new(),
            show_system_service_details: false,
        }
    }
}

impl Clone for Preset {
    /// A copy with the same launch parameters, name and import marks.
    fn clone(&self) -> (r: Self)
        ensures
            same_launch_parameters(r, *self),
            r.name@ == self.name@,
            r.imported == self.imported,
            r.imported_decl == self.imported_decl,
    {
        Preset {
            name: self.name.clone(),
            host: self.host.clone(),
            port: self.port,
            parallel_slots: self.parallel_slots,
            context: self.context,
            batch_size: self.batch_size,
            ubatch_size: self.ubatch_size,
            temperature: self.temperature,
            top_p: self.top_p,
            top_k: self.top_k,
            repeat_penalty: self.repeat_penalty,
            presence_penalty: self.presence_penalty,
            enable_batch_size: self.enable_batch_size,
            enable_ubatch_size: self.enable_ubatch_size,
            enable_session_timeout: self.enable_session_timeout,
            enable_temperature: self.enable_temperature,
            enable_top_p: self.enable_top_p,
            enable_top_k: self.enable_top_k,
            enable_repeat_penalty: self.enable_repeat_penalty,
            enable_presence_penalty: self.enable_presence_penalty,
            flash_attn: self.flash_attn.clone(),
            fit: self.fit.clone(),
            fit_target: self.fit_target.clone(),
            fit_ctx: self.fit_ctx,
            enable_fit_target: self.enable_fit_target,
            enable_fit_ctx: self.enable_fit_ctx,
            load_mode: self.load_mode.clone(),
            tensor_read_lazy: self.tensor_read_lazy.clone(),
            threads: self.threads,
            threads_batch: self.threads_batch,
            n_predict: self.n_predict,
            keep: self.keep,
            seed: self.seed,
            main_gpu: self.main_gpu,
            device: self.device.clone(),
            enable_min_p: self.enable_min_p,
            min_p: self.min_p,
            enable_top_n_sigma: self.enable_top_n_sigma,
            top_n_sigma: self.top_n_sigma,
            enable_xtc: self.enable_xtc,
            xtc_probability: self.xtc_probability,
            xtc_threshold: self.xtc_threshold,
            enable_typical_p: self.enable_typical_p,
            typical_p: self.typical_p,
            enable_mirostat: self.enable_mirostat,
            mirostat: self.mirostat,
            mirostat_lr: self.mirostat_lr,
            mirostat_ent: self.mirostat_ent,
            enable_dynatemp: self.enable_dynatemp,
            dynatemp_range: self.dynatemp_range,
            dynatemp_exp: self.dynatemp_exp,
            sampler_seq: self.sampler_seq.clone(),
            cache_prompt: self.cache_prompt,
            cache_reuse: self.cache_reuse,
            context_shift: self.context_shift,
            json_schema: self.json_schema.clone(),
            grammar: self.grammar.clone(),
            api_key: self.api_key.clone(),
            api_prefix: self.api_prefix.clone(),
            cors_origins: self.cors_origins.clone(),
            ssl_cert_file: self.ssl_cert_file.clone(),
            ssl_key_file: self.ssl_key_file.clone(),
            reuse_port: self.reuse_port,
            numa: self.numa.clone(),
            cache_ram_enabled: self.cache_ram_enabled,
            cache_ram: self.cache_ram,
            no_host: self.no_host,
            rope_scaling: self.rope_scaling.clone(),
            rope_scale: self.rope_scale,
            rope_freq_base: self.rope_freq_base,
            rope_freq_scale: self.rope_freq_scale,
            yarn_orig_ctx: self.yarn_orig_ctx,
            yarn_ext_factor: self.yarn_ext_factor,
            yarn_attn_factor: self.yarn_attn_factor,
            yarn_beta_slow: self.yarn_beta_slow,
            yarn_beta_fast: self.yarn_beta_fast,
            frequency_penalty: self.frequency_penalty,
            repeat_last_n: self.repeat_last_n,
            dry_multiplier: self.dry_multiplier,
            dry_base: self.dry_base,
            dry_allowed_length: self.dry_allowed_length,
            dry_penalty_last_n: self.dry_penalty_last_n,
            dry_sequence_breaker: self.dry_sequence_breaker.clone(),
            logit_bias: self.logit_bias.clone(),
            lora_path: self.lora_path.clone(),
            lora_scaled: self.lora_scaled.clone(),
            control_vector: self.control_vector.clone(),
            slot_save_path: self.slot_save_path.clone(),
            sleep_idle_seconds: self.sleep_idle_seconds,
            threads_http: self.threads_http,
            metrics_enabled: self.metrics_enabled,
            api_key_file: self.api_key_file.clone(),
            direct_io: self.direct_io,
            check_tensors: self.check_tensors,
            override_kv: self.override_kv.clone(),
            prio: self.prio,
            warmup_enabled: self.warmup_enabled,
            cont_batching: self.cont_batching,
            grammar_file: self.grammar_file.clone(),
            json_schema_file: self.json_schema_file.clone(),
            embeddings_enabled: self.embeddings_enabled,
            pooling: self.pooling.clone(),
            rerank_enabled: self.rerank_enabled,
            spec_type: self.spec_type.clone(),
            spec_draft_n_max: self.spec_draft_n_max,
            spec_draft_n_min: self.spec_draft_n_min,
            spec_draft_p_min: self.spec_draft_p_min,
            spec_draft_p_split: self.spec_draft_p_split,
            spec_draft_type_k: self.spec_draft_type_k.clone(),
            spec_draft_type_v: self.spec_draft_type_v.clone(),
            enable_spec_draft_n_max: self.enable_spec_draft_n_max,
            enable_spec_draft_n_min: self.enable_spec_draft_n_min,
            enable_spec_draft_p_min: self.enable_spec_draft_p_min,
            enable_spec_draft_p_split: self.enable_spec_draft_p_split,
            enable_spec_draft_type_k: self.enable_spec_draft_type_k,
            enable_spec_draft_type_v: self.enable_spec_draft_type_v,
            spec_ngram_size_n: self.spec_ngram_size_n,
            spec_ngram_size_m: self.spec_ngram_size_m,
            spec_ngram_min_hits: self.spec_ngram_min_hits,
            spec_ngram_mod_n_min: self.spec_ngram_mod_n_min,
            spec_ngram_mod_n_max: self.spec_ngram_mod_n_max,
            spec_ngram_mod_n_match: self.spec_ngram_mod_n_match,
            kv_offload: self.kv_offload,
            cache_type_k: self.cache_type_k.clone(),
            cache_type_v: self.cache_type_v.clone(),
            kv_unified: self.kv_unified,
            swa_full: self.swa_full,
            kv_cache_ratio: self.kv_cache_ratio,
            ctx_checkpoints: self.ctx_checkpoints,
            checkpoint_min_step: self.checkpoint_min_step,
            gpu_layers_mode: self.gpu_layers_mode,
            split_mode: self.split_mode.clone(),
            tensor_split: self.tensor_split.clone(),
            cpu_moe: self.cpu_moe,
            n_cpu_moe: self.n_cpu_moe,
            override_tensor: self.override_tensor.clone(),
            verbose: self.verbose,
            offline_mode: self.offline_mode,
            rpc_mode: self.rpc_mode,
            rpc_endpoints: self.rpc_endpoints.clone(),
            model_path: self.model_path.clone(),
            mmproj_path: self.mmproj_path.clone(),
            mmproj_auto: self.mmproj_auto,
            mmproj_offload: self.mmproj_offload,
            mmproj_device: self.mmproj_device.clone(),
            image_min_tokens: self.image_min_tokens,
            image_max_tokens: self.image_max_tokens,
            mtmd_batch_max_tokens: self.mtmd_batch_max_tokens,
            video_fps: self.video_fps,
            video_timestamp_interval: self.video_timestamp_interval,
            video_ffmpeg_dir: self.video_ffmpeg_dir.clone(),
            dflash_path: self.dflash_path.clone(),
            model_dir: self.model_dir.clone(),
            alias: self.alias.clone(),
            rpc_threads: self.rpc_threads,
            rpc_device: self.rpc_device.clone(),
            rpc_cache: self.rpc_cache,
            web_ui_enabled: self.web_ui_enabled,
            log_timestamps: self.log_timestamps,
            log_verbosity: self.log_verbosity,
            session_timeout: self.session_timeout,
            reasoning: self.reasoning.clone(),
            reasoning_format: self.reasoning_format.clone(),
            reasoning_effort: self.reasoning_effort.clone(),
            reasoning_budget: self.reasoning_budget,
            reasoning_preserve: self.reasoning_preserve,
            jinja_enabled: self.jinja_enabled,
            chat_template: self.chat_template.clone(),
            chat_template_file: self.chat_template_file.clone(),
            rocm_gpu_target: self.rocm_gpu_target.clone(),
            mcp_enabled: self.mcp_enabled,
            mcp_server_states: self.mcp_server_states.clone(),
            imported: self.imported,
            imported_decl: match &self.imported_decl {
                Some(s) => Some(s.clone()),
                None => None,
            },
        }
    }
}

impl Preset {
    /// Takes a snapshot of the launch parameters of `settings` under `name`.
    /// A preset made this way is the user's own, not an imported one.
    pub fn from_settings(settings: &AppSettings, name: String) -> (p: Preset)
        ensures
            p.name == name,
            preset_matches(p, *settings),
            !p.imported,
            p.imported_decl.is_none(),
    {
        Preset {
            name,
            host: settings.host.clone(),
            port: settings.port,
            parallel_slots: settings.parallel_slots,
            context: settings.context,
            batch_size: settings.batch_size,
            ubatch_size: settings.ubatch_size,
            temperature: settings.temperature,
            top_p: settings.top_p,
            top_k: settings.top_k,
            repeat_penalty: settings.repeat_penalty,
            presence_penalty: settings.presence_penalty,
            enable_batch_size: settings.enable_batch_size,
            enable_ubatch_size: settings.enable_ubatch_size,
            enable_session_timeout: settings.enable_session_timeout,
            enable_temperature: settings.enable_temperature,
            enable_top_p: settings.enable_top_p,
            enable_top_k: settings.enable_top_k,
            enable_repeat_penalty: settings.enable_repeat_penalty,
            enable_presence_penalty: settings.enable_presence_penalty,
            flash_attn: settings.flash_attn.clone(),
            fit: settings.fit.clone(),
            fit_target: settings.fit_target.clone(),
            fit_ctx: settings.fit_ctx,
            enable_fit_target: settings.enable_fit_target,
            enable_fit_ctx: settings.enable_fit_ctx,
            load_mode: settings.load_mode.clone(),
            tensor_read_lazy: settings.tensor_read_lazy.clone(),
            threads: settings.threads,
            threads_batch: settings.threads_batch,
            n_predict: settings.n_predict,
            keep: settings.keep,
            seed: settings.seed,
            main_gpu: settings.main_gpu,
            device: settings.device.clone(),
            enable_min_p: settings.enable_min_p,
            min_p: settings.min_p,
            enable_top_n_sigma: settings.enable_top_n_sigma,
            top_n_sigma: settings.top_n_sigma,
            enable_xtc: settings.enable_xtc,
            xtc_probability: settings.xtc_probability,
            xtc_threshold: settings.xtc_threshold,
            enable_typical_p: settings.enable_typical_p,
            typical_p: settings.typical_p,
            enable_mirostat: settings.enable_mirostat,
            mirostat: settings.mirostat,
            mirostat_lr: settings.mirostat_lr,
            mirostat_ent: settings.mirostat_ent,
            enable_dynatemp: settings.enable_dynatemp,
            dynatemp_range: settings.dynatemp_range,
            dynatemp_exp: settings.dynatemp_exp,
            sampler_seq: settings.sampler_seq.clone(),
            cache_prompt: settings.cache_prompt,
            cache_reuse: settings.cache_reuse,
            context_shift: settings.context_shift,
            json_schema: settings.json_schema.clone(),
            grammar: settings.grammar.clone(),
            api_key: settings.api_key.clone(),
            api_prefix: settings.api_prefix.clone(),
            cors_origins: settings.cors_origins.clone(),
            ssl_cert_file: settings.ssl_cert_file.clone(),
            ssl_key_file: settings.ssl_key_file.clone(),
            reuse_port: settings.reuse_port,
            numa: settings.numa.clone(),
            cache_ram_enabled: settings.cache_ram_enabled,
            cache_ram: settings.cache_ram,
            no_host: settings.no_host,
            rope_scaling: settings.rope_scaling.clone(),
            rope_scale: settings.rope_scale,
            rope_freq_base: settings.rope_freq_base,
            rope_freq_scale: settings.rope_freq_scale,
            yarn_orig_ctx: settings.yarn_orig_ctx,
            yarn_ext_factor: settings.yarn_ext_factor,
            yarn_attn_factor: settings.yarn_attn_factor,
            yarn_beta_slow: settings.yarn_beta_slow,
            yarn_beta_fast: settings.yarn_beta_fast,
            frequency_penalty: settings.frequency_penalty,
            repeat_last_n: settings.repeat_last_n,
            dry_multiplier: settings.dry_multiplier,
            dry_base: settings.dry_base,
            dry_allowed_length: settings.dry_allowed_length,
            dry_penalty_last_n: settings.dry_penalty_last_n,
            dry_sequence_breaker: settings.dry_sequence_breaker.clone(),
            logit_bias: settings.logit_bias.clone(),
            lora_path: settings.lora_path.clone(),
            lora_scaled: settings.lora_scaled.clone(),
            control_vector: settings.control_vector.clone(),
            slot_save_path: settings.slot_save_path.clone(),
            sleep_idle_seconds: settings.sleep_idle_seconds,
            threads_http: settings.threads_http,
            metrics_enabled: settings.metrics_enabled,
            api_key_file: settings.api_key_file.clone(),
            direct_io: settings.direct_io,
            check_tensors: settings.check_tensors,
            override_kv: settings.override_kv.clone(),
            prio: settings.prio,
            warmup_enabled: settings.warmup_enabled,
            cont_batching: settings.cont_batching,
            grammar_file: settings.grammar_file.clone(),
            json_schema_file: settings.json_schema_file.clone(),
            embeddings_enabled: settings.embeddings_enabled,
            pooling: settings.pooling.clone(),
            rerank_enabled: settings.rerank_enabled,
            spec_type: settings.spec_type.clone(),
            spec_draft_n_max: settings.spec_draft_n_max,
            spec_draft_n_min: settings.spec_draft_n_min,
            spec_draft_p_min: settings.spec_draft_p_min,
            spec_draft_p_split: settings.spec_draft_p_split,
            spec_draft_type_k: settings.spec_draft_type_k.clone(),
            spec_draft_type_v: settings.spec_draft_type_v.clone(),
            enable_spec_draft_n_max: settings.enable_spec_draft_n_max,
            enable_spec_draft_n_min: settings.enable_spec_draft_n_min,
            enable_spec_draft_p_min: settings.enable_spec_draft_p_min,
            enable_spec_draft_p_split: settings.enable_spec_draft_p_split,
            enable_spec_draft_type_k: settings.enable_spec_draft_type_k,
            enable_spec_draft_type_v: settings.enable_spec_draft_type_v,
            spec_ngram_size_n: settings.spec_ngram_size_n,
            spec_ngram_size_m: settings.spec_ngram_size_m,
            spec_ngram_min_hits: settings.spec_ngram_min_hits,
            spec_ngram_mod_n_min: settings.spec_ngram_mod_n_min,
            spec_ngram_mod_n_max: settings.spec_ngram_mod_n_max,
            spec_ngram_mod_n_match: settings.spec_ngram_mod_n_match,
            kv_offload: settings.kv_offload,
            cache_type_k: settings.cache_type_k.clone(),
            cache_type_v: settings.cache_type_v.clone(),
            kv_unified: settings.kv_unified,
            swa_full: settings.swa_full,
            kv_cache_ratio: settings.kv_cache_ratio,
            ctx_checkpoints: settings.ctx_checkpoints,
            checkpoint_min_step: settings.checkpoint_min_step,
            gpu_layers_mode: settings.gpu_layers_mode,
            split_mode: settings.split_mode.clone(),
            tensor_split: settings.tensor_split.clone(),
            cpu_moe: settings.cpu_moe,
            n_cpu_moe: settings.n_cpu_moe,
            override_tensor: settings.override_tensor.clone(),
            verbose: settings.verbose,
            offline_mode: settings.offline_mode,
            rpc_mode: settings.rpc_mode,
            rpc_endpoints: settings.rpc_endpoints.clone(),
            model_path: settings.model_path.clone(),
            mmproj_path: settings.mmproj_path.clone(),
            mmproj_auto: settings.mmproj_auto,
            mmproj_offload: settings.mmproj_offload,
            mmproj_device: settings.mmproj_device.clone(),
            image_min_tokens: settings.image_min_tokens,
            image_max_tokens: settings.image_max_tokens,
            mtmd_batch_max_tokens: settings.mtmd_batch_max_tokens,
            video_fps: settings.video_fps,
            video_timestamp_interval: settings.video_timestamp_interval,
            video_ffmpeg_dir: settings.video_ffmpeg_dir.clone(),
            dflash_path: settings.dflash_path.clone(),
            model_dir: settings.model_dir.clone(),
            alias: settings.alias.clone(),
            rpc_threads: settings.rpc_threads,
            rpc_device: settings.rpc_device.clone(),
            rpc_cache: settings.rpc_cache,
            web_ui_enabled: settings.web_ui_enabled,
            log_timestamps: settings.log_timestamps,
            log_verbosity: settings.log_verbosity,
            session_timeout: settings.session_timeout,
            reasoning: settings.reasoning.clone(),
            reasoning_format: settings.reasoning_format.clone(),
            reasoning_effort: settings.reasoning_effort.clone(),
            reasoning_budget: settings.reasoning_budget,
            reasoning_preserve: settings.reasoning_preserve,
            jinja_enabled: settings.jinja_enabled,
            chat_template: settings.chat_template.clone(),
            chat_template_file: settings.chat_template_file.clone(),
            rocm_gpu_target: settings.rocm_gpu_target.clone(),
            mcp_enabled: settings.mcp_enabled,
            mcp_server_states: settings.mcp_server_states.clone(),
            imported: false,
            imported_decl: None,
        }
    }

    /// Writes every launch parameter of this preset into `settings`; the fields
    /// that a preset does not carry keep their values.
    pub fn apply_to(self, settings: &mut AppSettings)
        ensures
            preset_matches(self, *final(settings)),
            same_outside_preset(*old(settings), *final(settings)),
    {
        settings.host = self.host;
        settings.port = self.port;
        settings.parallel_slots = self.parallel_slots;
        settings.context = self.context;
        settings.batch_size = self.batch_size;
        settings.ubatch_size = self.ubatch_size;
        settings.temperature = self.temperature;
        settings.top_p = self.top_p;
        settings.top_k = self.top_k;
        settings.repeat_penalty = self.repeat_penalty;
        settings.presence_penalty = self.presence_penalty;
        settings.enable_batch_size = self.enable_batch_size;
        settings.enable_ubatch_size = self.enable_ubatch_size;
        settings.enable_session_timeout = self.enable_session_timeout;
        settings.enable_temperature = self.enable_temperature;
        settings.enable_top_p = self.enable_top_p;
        settings.enable_top_k = self.enable_top_k;
        settings.enable_repeat_penalty = self.enable_repeat_penalty;
        settings.enable_presence_penalty = self.enable_presence_penalty;
        settings.flash_attn = self.flash_attn;
        settings.fit = self.fit;
        settings.fit_target = self.fit_target;
        settings.fit_ctx = self.fit_ctx;
        settings.enable_fit_target = self.enable_fit_target;
        settings.enable_fit_ctx = self.enable_fit_ctx;
        settings.load_mode = self.load_mode;
        settings.tensor_read_lazy = self.tensor_read_lazy;
        settings.threads = self.threads;
        settings.threads_batch = self.threads_batch;
        settings.n_predict = self.n_predict;
        settings.keep = self.keep;
        settings.seed = self.seed;
        settings.main_gpu = self.main_gpu;
        settings.device = self.device;
        settings.enable_min_p = self.enable_min_p;
        settings.min_p = self.min_p;
        settings.enable_top_n_sigma = self.enable_top_n_sigma;
        settings.top_n_sigma = self.top_n_sigma;
        settings.enable_xtc = self.enable_xtc;
        settings.xtc_probability = self.xtc_probability;
        settings.xtc_threshold = self.xtc_threshold;
        settings.enable_typical_p = self.enable_typical_p;
        settings.typical_p = self.typical_p;
        settings.enable_mirostat = self.enable_mirostat;
        settings.mirostat = self.mirostat;
        settings.mirostat_lr = self.mirostat_lr;
        settings.mirostat_ent = self.mirostat_ent;
        settings.enable_dynatemp = self.enable_dynatemp;
        settings.dynatemp_range = self.dynatemp_range;
        settings.dynatemp_exp = self.dynatemp_exp;
        settings.sampler_seq = self.sampler_seq;
        settings.cache_prompt = self.cache_prompt;
        settings.cache_reuse = self.cache_reuse;
        settings.context_shift = self.context_shift;
        settings.json_schema = self.json_schema;
        settings.grammar = self.grammar;
        settings.api_key = self.api_key;
        settings.api_prefix = self.api_prefix;
        settings.cors_origins = self.cors_origins;
        settings.ssl_cert_file = self.ssl_cert_file;
        settings.ssl_key_file = self.ssl_key_file;
        settings.reuse_port = self.reuse_port;
        settings.numa = self.numa;
        settings.cache_ram_enabled = self.cache_ram_enabled;
        settings.cache_ram = self.cache_ram;
        settings.no_host = self.no_host;
        settings.rope_scaling = self.rope_scaling;
        settings.rope_scale = self.rope_scale;
        settings.rope_freq_base = self.rope_freq_base;
        settings.rope_freq_scale = self.rope_freq_scale;
        settings.yarn_orig_ctx = self.yarn_orig_ctx;
        settings.yarn_ext_factor = self.yarn_ext_factor;
        settings.yarn_attn_factor = self.yarn_attn_factor;
        settings.yarn_beta_slow = self.yarn_beta_slow;
        settings.yarn_beta_fast = self.yarn_beta_fast;
        settings.frequency_penalty = self.frequency_penalty;
        settings.repeat_last_n = self.repeat_last_n;
        settings.dry_multiplier = self.dry_multiplier;
        settings.dry_base = self.dry_base;
        settings.dry_allowed_length = self.dry_allowed_length;
        settings.dry_penalty_last_n = self.dry_penalty_last_n;
        settings.dry_sequence_breaker = self.dry_sequence_breaker;
        settings.logit_bias = self.logit_bias;
        settings.lora_path = self.lora_path;
        settings.lora_scaled = self.lora_scaled;
        settings.control_vector = self.control_vector;
        settings.slot_save_path = self.slot_save_path;
        settings.sleep_idle_seconds = self.sleep_idle_seconds;
        settings.threads_http = self.threads_http;
        settings.metrics_enabled = self.metrics_enabled;
        settings.api_key_file = self.api_key_file;
        settings.direct_io = self.direct_io;
        settings.check_tensors = self.check_tensors;
        settings.override_kv = self.override_kv;
        settings.prio = self.prio;
        settings.warmup_enabled = self.warmup_enabled;
        settings.cont_batching = self.cont_batching;
        settings.grammar_file = self.grammar_file;
        settings.json_schema_file = self.json_schema_file;
        settings.embeddings_enabled = self.embeddings_enabled;
        settings.pooling = self.pooling;
        settings.rerank_enabled = self.rerank_enabled;
        settings.spec_type = self.spec_type;
        settings.spec_draft_n_max = self.spec_draft_n_max;
        settings.spec_draft_n_min = self.spec_draft_n_min;
        settings.spec_draft_p_min = self.spec_draft_p_min;
        settings.spec_draft_p_split = self.spec_draft_p_split;
        settings.spec_draft_type_k = self.spec_draft_type_k;
        settings.spec_draft_type_v = self.spec_draft_type_v;
        settings.enable_spec_draft_n_max = self.enable_spec_draft_n_max;
        settings.enable_spec_draft_n_min = self.enable_spec_draft_n_min;
        settings.enable_spec_draft_p_min = self.enable_spec_draft_p_min;
        settings.enable_spec_draft_p_split = self.enable_spec_draft_p_split;
        settings.enable_spec_draft_type_k = self.enable_spec_draft_type_k;
        settings.enable_spec_draft_type_v = self.enable_spec_draft_type_v;
        settings.spec_ngram_size_n = self.spec_ngram_size_n;
        settings.spec_ngram_size_m = self.spec_ngram_size_m;
        settings.spec_ngram_min_hits = self.spec_ngram_min_hits;
        settings.spec_ngram_mod_n_min = self.spec_ngram_mod_n_min;
        settings.spec_ngram_mod_n_max = self.spec_ngram_mod_n_max;
        settings.spec_ngram_mod_n_match = self.spec_ngram_mod_n_match;
        settings.kv_offload = self.kv_offload;
        settings.cache_type_k = self.cache_type_k;
        settings.cache_type_v = self.cache_type_v;
        settings.kv_unified = self.kv_unified;
        settings.swa_full = self.swa_full;
        settings.kv_cache_ratio = self.kv_cache_ratio;
        settings.ctx_checkpoints = self.ctx_checkpoints;
        settings.checkpoint_min_step = self.checkpoint_min_step;
        settings.gpu_layers_mode = self.gpu_layers_mode;
        settings.split_mode = self.split_mode;
        settings.tensor_split = self.tensor_split;
        settings.cpu_moe = self.cpu_moe;
        settings.n_cpu_moe = self.n_cpu_moe;
        settings.override_tensor = self.override_tensor;
        settings.verbose = self.verbose;
        settings.offline_mode = self.offline_mode;
        settings.rpc_mode = self.rpc_mode;
        settings.rpc_endpoints = self.rpc_endpoints;
        settings.model_path = self.model_path;
        settings.mmproj_path = self.mmproj_path;
        settings.mmproj_auto = self.mmproj_auto;
        settings.mmproj_offload = self.mmproj_offload;
        settings.mmproj_device = self.mmproj_device;
        settings.image_min_tokens = self.image_min_tokens;
        settings.image_max_tokens = self.image_max_tokens;
        settings.mtmd_batch_max_tokens = self.mtmd_batch_max_tokens;
        settings.video_fps = self.video_fps;
        settings.video_timestamp_interval = self.video_timestamp_interval;
        settings.video_ffmpeg_dir = self.video_ffmpeg_dir;
        settings.dflash_path = self.dflash_path;
        settings.model_dir = self.model_dir;
        settings.alias = self.alias;
        settings.rpc_threads = self.rpc_threads;
        settings.rpc_device = self.rpc_device;
        settings.rpc_cache = self.rpc_cache;
        settings.web_ui_enabled = self.web_ui_enabled;
        settings.log_timestamps = self.log_timestamps;
        settings.log_verbosity = self.log_verbosity;
        settings.session_timeout = self.session_timeout;
        settings.reasoning = self.reasoning;
        settings.reasoning_format = self.reasoning_format;
        settings.reasoning_effort = self.reasoning_effort;
        settings.reasoning_budget = self.reasoning_budget;
        settings.reasoning_preserve = self.reasoning_preserve;
        settings.jinja_enabled = self.jinja_enabled;
        settings.chat_template = self.chat_template;
        settings.chat_template_file = self.chat_template_file;
        settings.rocm_gpu_target = self.rocm_gpu_target;
        settings.mcp_enabled = self.mcp_enabled;
        settings.mcp_server_states = self.mcp_server_states;
    }
}

impl AppSettings {
    /// The `--ctx-size` value: the context is kept in units of 1024 tokens.
    pub fn context_actual(&self) -> (n: usize)
        requires
            self.context * 1024 <= usize::MAX,
        ensures
            n == self.context * 1024,
    {
        self.context * 1024
    }

    /// The `--fit-ctx` value: the minimum context is kept in units of 1024 tokens.
    pub fn fit_ctx_actual(&self) -> (n: usize)
        requires
            self.fit_ctx * 1024 <= usize::MAX,
        ensures
            n == self.fit_ctx * 1024,
    {
        self.fit_ctx * 1024
    }
}

/// Restoring a snapshot: applying a preset taken from `a` to any settings
/// `before` gives them exactly the launch parameters of `a`, and leaves every
/// other field of `before` as it was.
pub proof fn lemma_apply_snapshot_restores(a: AppSettings, p: Preset, before: AppSettings, after: AppSettings)
    requires
        preset_matches(p, a),
        preset_matches(p, after),
        same_outside_preset(before, after),
    ensures
        same_preset_fields(after, a),
        same_outside_preset(before, after),
{
}

/// Taking a snapshot of settings right after a preset was applied to them
/// gives back the launch parameters of that preset.
pub proof fn lemma_snapshot_after_apply(p: Preset, s: AppSettings, q: Preset)
    requires
        preset_matches(p, s),
        preset_matches(q, s),
    ensures
        same_launch_parameters(p, q),
{
}

/// Applying the same preset twice changes nothing the first application did
/// not already change.
pub proof fn lemma_apply_idempotent(p: Preset, s0: AppSettings, s1: AppSettings, s2: AppSettings)
    requires
        preset_matches(p, s1),
        same_outside_preset(s0, s1),
        preset_matches(p, s2),
        same_outside_preset(s1, s2),
    ensures
        same_preset_fields(s1, s2),
        same_outside_preset(s0, s2),
{
}

/// The default preset carries the launch parameters of the default settings.
pub proof fn lemma_default_preset_matches_default_settings(p: Preset, s: AppSettings)
    requires
        is_default_preset(p),
        is_default_settings(s),
    ensures
        preset_matches(p, s),
{
    assert(p.mcp_server_states@ =~= s.mcp_server_states@);
}

/// The default preset gives every field that a stored configuration may leave
/// out the value of the function that fills it in when it is left out.
pub proof fn lemma_default_preset_follows_field_defaults(p: Preset)
    requires
        is_default_preset(p),
    ensures
        p.context == defaults::default_context_value(),
        p.batch_size == defaults::default_batch_size_value(),
        p.ubatch_size == defaults::default_ubatch_size_value(),
        p.flash_attn@ == defaults::default_flash_attn_value(),
        p.fit@ == defaults::default_fit_value(),
        p.fit_target@ == defaults::default_fit_target_value(),
        p.fit_ctx == defaults::default_fit_ctx_value(),
        p.load_mode@ == defaults::default_load_mode_value(),
        p.tensor_read_lazy@ == defaults::default_tensor_read_lazy_value(),
        p.threads == defaults::default_threads_value(),
        p.threads_batch == defaults::default_threads_batch_value(),
        p.n_predict == defaults::default_n_predict_value(),
        p.keep == defaults::default_keep_tokens_value(),
        p.seed == defaults::default_seed_value(),
        p.main_gpu == defaults::default_main_gpu_value(),
        p.min_p == defaults::default_min_p_value(),
        p.top_n_sigma == defaults::default_top_n_sigma_value(),
        p.xtc_probability == defaults::default_xtc_probability_value(),
        p.xtc_threshold == defaults::default_xtc_threshold_value(),
        p.typical_p == defaults::default_typical_p_value(),
        p.mirostat == defaults::default_mirostat_value(),
        p.mirostat_lr == defaults::default_mirostat_lr_value(),
        p.mirostat_ent == defaults::default_mirostat_ent_value(),
        p.dynatemp_range == defaults::default_dynatemp_range_value(),
        p.dynatemp_exp == defaults::default_dynatemp_exp_value(),
        p.sampler_seq@ == defaults::default_sampler_seq_value(),
        p.cache_prompt == defaults::default_cache_prompt_value(),
        p.cache_reuse == defaults::default_cache_reuse_value(),
        p.context_shift == defaults::default_context_shift_value(),
        p.json_schema@ == defaults::default_json_schema_value(),
        p.grammar@ == defaults::default_grammar_value(),
        p.api_key@ == defaults::default_api_key_value(),
        p.api_prefix@ == defaults::default_api_prefix_value(),
        p.cors_origins@ == defaults::default_cors_origins_value(),
        p.numa@ == defaults::default_numa_value(),
        p.cache_ram_enabled == defaults::default_cache_ram_enabled_value(),
        p.cache_ram == defaults::default_cache_ram_value(),
        p.no_host == defaults::default_no_host_value(),
        p.rope_scaling@ == defaults::default_rope_scaling_value(),
        p.rope_scale == defaults::default_rope_scale_value(),
        p.rope_freq_base == defaults::default_rope_freq_base_value(),
        p.rope_freq_scale == defaults::default_rope_freq_scale_value(),
        p.yarn_orig_ctx == defaults::default_yarn_orig_ctx_value(),
        p.yarn_ext_factor == defaults::default_yarn_ext_factor_value(),
        p.yarn_attn_factor == defaults::default_yarn_attn_factor_value(),
        p.yarn_beta_slow == defaults::default_yarn_beta_slow_value(),
        p.yarn_beta_fast == defaults::default_yarn_beta_fast_value(),
        p.frequency_penalty == defaults::default_frequency_penalty_value(),
        p.repeat_last_n == defaults::default_repeat_last_n_value(),
        p.dry_multiplier == defaults::default_dry_multiplier_value(),
        p.dry_base == defaults::default_dry_base_value(),
        p.dry_allowed_length == defaults::default_dry_allowed_length_value(),
        p.dry_penalty_last_n == defaults::default_dry_penalty_last_n_value(),
        p.dry_sequence_breaker@ == defaults::default_dry_sequence_breaker_value(),
        p.logit_bias@ == defaults::default_logit_bias_value(),
        p.lora_path@ == defaults::default_lora_path_value(),
        p.lora_scaled@ == defaults::default_lora_scaled_value(),
        p.control_vector@ == defaults::default_control_vector_value(),
        p.slot_save_path@ == defaults::default_slot_save_path_value(),
        p.sleep_idle_seconds == defaults::default_sleep_idle_seconds_value(),
        p.threads_http == defaults::default_threads_http_value(),
        p.metrics_enabled == defaults::default_metrics_enabled_value(),
        p.api_key_file@ == defaults::default_api_key_file_value(),
        p.direct_io == defaults::default_direct_io_value(),
        p.check_tensors == defaults::default_check_tensors_value(),
        p.override_kv@ == defaults::default_override_kv_value(),
        p.prio == defaults::default_prio_value(),
        p.warmup_enabled == defaults::default_warmup_enabled_value(),
        p.cont_batching == defaults::default_cont_batching_value(),
        p.grammar_file@ == defaults::default_grammar_file_value(),
        p.json_schema_file@ == defaults::default_json_schema_file_value(),
        p.embeddings_enabled == defaults::default_embeddings_enabled_value(),
        p.pooling@ == defaults::default_pooling_value(),
        p.rerank_enabled == defaults::default_rerank_enabled_value(),
        p.spec_type@ == defaults::default_spec_type_value(),
        p.spec_draft_n_max == defaults::default_spec_draft_n_max_value(),
        p.spec_draft_p_min == defaults::default_spec_draft_p_min_value(),
        p.spec_draft_p_split == defaults::default_spec_draft_p_split_value(),
        p.spec_draft_type_k@ == defaults::default_spec_draft_type_k_value(),
        p.spec_draft_type_v@ == defaults::default_spec_draft_type_v_value(),
        p.spec_ngram_size_n == defaults::default_spec_ngram_size_n_value(),
        p.spec_ngram_size_m == defaults::default_spec_ngram_size_m_value(),
        p.spec_ngram_min_hits == defaults::default_spec_ngram_min_hits_value(),
        p.spec_ngram_mod_n_min == defaults::default_spec_ngram_mod_n_min_value(),
        p.spec_ngram_mod_n_max == defaults::default_spec_ngram_mod_n_max_value(),
        p.spec_ngram_mod_n_match == defaults::default_spec_ngram_mod_n_match_value(),
        p.kv_cache_ratio == defaults::default_kv_cache_ratio_value(),
        p.ctx_checkpoints == defaults::default_ctx_checkpoints_value(),
        p.checkpoint_min_step == defaults::default_checkpoint_min_step_value(),
        p.mmproj_auto == defaults::default_mmproj_auto_value(),
        p.mmproj_offload == defaults::default_mmproj_offload_value(),
        p.mmproj_device@ == defaults::default_mmproj_device_value(),
        p.image_min_tokens == defaults::default_image_min_tokens_value(),
        p.image_max_tokens == defaults::default_image_max_tokens_value(),
        p.mtmd_batch_max_tokens == defaults::default_mtmd_batch_max_tokens_value(),
        p.video_fps == defaults::default_video_fps_value(),
        p.video_timestamp_interval == defaults::default_video_timestamp_interval_value(),
        p.web_ui_enabled == defaults::default_web_ui_enabled_value(),
        p.log_timestamps == defaults::default_log_timestamps_value(),
        p.log_verbosity == defaults::default_log_verbosity_value(),
        p.session_timeout == defaults::default_session_timeout_value(),
        p.reasoning@ == defaults::default_reasoning_value(),
        p.reasoning_format@ == defaults::default_reasoning_format_value(),
        p.reasoning_effort@ == defaults::default_reasoning_effort_value(),
        p.reasoning_budget == defaults::default_reasoning_budget_value(),
        p.jinja_enabled == defaults::default_jinja_enabled_value(),
{
}

/// The default settings give every field that a stored configuration may leave
/// out the value of the function that fills it in when it is left out.
pub proof fn lemma_default_settings_follow_field_defaults(s: AppSettings)
    requires
        is_default_settings(s),
    ensures
        s.mmproj_auto == defaults::default_mmproj_auto_value(),
        s.mmproj_offload == defaults::default_mmproj_offload_value(),
        s.mmproj_device@ == defaults::default_mmproj_device_value(),
        s.image_min_tokens == defaults::default_image_min_tokens_value(),
        s.image_max_tokens == defaults::default_image_max_tokens_value(),
        s.mtmd_batch_max_tokens == defaults::default_mtmd_batch_max_tokens_value(),
        s.video_fps == defaults::default_video_fps_value(),
        s.video_timestamp_interval == defaults::default_video_timestamp_interval_value(),
        s.context == defaults::default_context_value(),
        s.batch_size == defaults::default_batch_size_value(),
        s.ubatch_size == defaults::default_ubatch_size_value(),
        s.flash_attn@ == defaults::default_flash_attn_value(),
        s.fit@ == defaults::default_fit_value(),
        s.fit_target@ == defaults::default_fit_target_value(),
        s.fit_ctx == defaults::default_fit_ctx_value(),
        s.load_mode@ == defaults::default_load_mode_value(),
        s.tensor_read_lazy@ == defaults::default_tensor_read_lazy_value(),
        s.threads == defaults::default_threads_value(),
        s.threads_batch == defaults::default_threads_batch_value(),
        s.n_predict == defaults::default_n_predict_value(),
        s.keep == defaults::default_keep_tokens_value(),
        s.seed == defaults::default_seed_value(),
        s.main_gpu == defaults::default_main_gpu_value(),
        s.min_p == defaults::default_min_p_value(),
        s.top_n_sigma == defaults::default_top_n_sigma_value(),
        s.xtc_probability == defaults::default_xtc_probability_value(),
        s.xtc_threshold == defaults::default_xtc_threshold_value(),
        s.typical_p == defaults::default_typical_p_value(),
        s.mirostat == defaults::default_mirostat_value(),
        s.mirostat_lr == defaults::default_mirostat_lr_value(),
        s.mirostat_ent == defaults::default_mirostat_ent_value(),
        s.dynatemp_range == defaults::default_dynatemp_range_value(),
        s.dynatemp_exp == defaults::default_dynatemp_exp_value(),
        s.sampler_seq@ == defaults::default_sampler_seq_value(),
        s.cache_prompt == defaults::default_cache_prompt_value(),
        s.cache_reuse == defaults::default_cache_reuse_value(),
        s.context_shift == defaults::default_context_shift_value(),
        s.json_schema@ == defaults::default_json_schema_value(),
        s.grammar@ == defaults::default_grammar_value(),
        s.api_key@ == defaults::default_api_key_value(),
        s.api_prefix@ == defaults::default_api_prefix_value(),
        s.cors_origins@ == defaults::default_cors_origins_value(),
        s.numa@ == defaults::default_numa_value(),
        s.cache_ram_enabled == defaults::default_cache_ram_enabled_value(),
        s.cache_ram == defaults::default_cache_ram_value(),
        s.no_host == defaults::default_no_host_value(),
        s.rope_scaling@ == defaults::default_rope_scaling_value(),
        s.rope_scale == defaults::default_rope_scale_value(),
        s.rope_freq_base == defaults::default_rope_freq_base_value(),
        s.rope_freq_scale == defaults::default_rope_freq_scale_value(),
        s.yarn_orig_ctx == defaults::default_yarn_orig_ctx_value(),
        s.yarn_ext_factor == defaults::default_yarn_ext_factor_value(),
        s.yarn_attn_factor == defaults::default_yarn_attn_factor_value(),
        s.yarn_beta_slow == defaults::default_yarn_beta_slow_value(),
        s.yarn_beta_fast == defaults::default_yarn_beta_fast_value(),
        s.frequency_penalty == defaults::default_frequency_penalty_value(),
        s.repeat_last_n == defaults::default_repeat_last_n_value(),
        s.dry_multiplier == defaults::default_dry_multiplier_value(),
        s.dry_base == defaults::default_dry_base_value(),
        s.dry_allowed_length == defaults::default_dry_allowed_length_value(),
        s.dry_penalty_last_n == defaults::default_dry_penalty_last_n_value(),
        s.dry_sequence_breaker@ == defaults::default_dry_sequence_breaker_value(),
        s.logit_bias@ == defaults::default_logit_bias_value(),
        s.lora_path@ == defaults::default_lora_path_value(),
        s.lora_scaled@ == defaults::default_lora_scaled_value(),
        s.control_vector@ == defaults::default_control_vector_value(),
        s.slot_save_path@ == defaults::default_slot_save_path_value(),
        s.sleep_idle_seconds == defaults::default_sleep_idle_seconds_value(),
        s.threads_http == defaults::default_threads_http_value(),
        s.metrics_enabled == defaults::default_metrics_enabled_value(),
        s.api_key_file@ == defaults::default_api_key_file_value(),
        s.direct_io == defaults::default_direct_io_value(),
        s.check_tensors == defaults::default_check_tensors_value(),
        s.override_kv@ == defaults::default_override_kv_value(),
        s.prio == defaults::default_prio_value(),
        s.warmup_enabled == defaults::default_warmup_enabled_value(),
        s.cont_batching == defaults::default_cont_batching_value(),
        s.grammar_file@ == defaults::default_grammar_file_value(),
        s.json_schema_file@ == defaults::default_json_schema_file_value(),
        s.embeddings_enabled == defaults::default_embeddings_enabled_value(),
        s.pooling@ == defaults::default_pooling_value(),
        s.rerank_enabled == defaults::default_rerank_enabled_value(),
        s.spec_type@ == defaults::default_spec_type_value(),
        s.spec_draft_n_max == defaults::default_spec_draft_n_max_value(),
        s.spec_draft_p_min == defaults::default_spec_draft_p_min_value(),
        s.spec_draft_p_split == defaults::default_spec_draft_p_split_value(),
        s.spec_draft_type_k@ == defaults::default_spec_draft_type_k_value(),
        s.spec_draft_type_v@ == defaults::default_spec_draft_type_v_value(),
        s.spec_ngram_size_n == defaults::default_spec_ngram_size_n_value(),
        s.spec_ngram_size_m == defaults::default_spec_ngram_size_m_value(),
        s.spec_ngram_min_hits == defaults::default_spec_ngram_min_hits_value(),
        s.spec_ngram_mod_n_min == defaults::default_spec_ngram_mod_n_min_value(),
        s.spec_ngram_mod_n_max == defaults::default_spec_ngram_mod_n_max_value(),
        s.spec_ngram_mod_n_match == defaults::default_spec_ngram_mod_n_match_value(),
        s.kv_cache_ratio == defaults::default_kv_cache_ratio_value(),
        s.ctx_checkpoints == defaults::default_ctx_checkpoints_value(),
        s.checkpoint_min_step == defaults::default_checkpoint_min_step_value(),
        s.web_ui_enabled == defaults::default_web_ui_enabled_value(),
        s.log_timestamps == defaults::default_log_timestamps_value(),
        s.log_verbosity == defaults::default_log_verbosity_value(),
        s.session_timeout == defaults::default_session_timeout_value(),
        s.reasoning@ == defaults::default_reasoning_value(),
        s.reasoning_format@ == defaults::default_reasoning_format_value(),
        s.reasoning_effort@ == defaults::default_reasoning_effort_value(),
        s.reasoning_budget == defaults::default_reasoning_budget_value(),
        s.jinja_enabled == defaults::default_jinja_enabled_value(),
        s.auto_scroll_logs == defaults::default_auto_scroll_logs_value(),
        s.max_log_lines == defaults::default_max_log_lines_value(),
        s.linux_compat_mode == defaults::default_linux_compat_mode_value(),
        s.log_to_file == defaults::default_log_to_file_value(),
        s.dark_mode == defaults::default_dark_mode_value(),
        s.theme_mode@ == defaults::default_theme_mode_value(),
        s.accent_color@ == defaults::default_accent_color_value(),
        s.download_variant@ == defaults::default_download_variant_value(),
        s.llama_branch@ == defaults::default_llama_branch_value(),
        s.release_channel@ == defaults::default_release_channel_value(),
        s.rocm_gpu_target@ == defaults::default_rocm_gpu_target_value(),
        s.download_cuda_lib == defaults::default_true_value(),
{
}

} // verus!
