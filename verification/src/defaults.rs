use vstd::prelude::*;

use crate::settings::F32Bits;

verus! {

// Values that a field takes when a stored configuration does not mention it;
// each `default_*` function gives the value of its `default_*_value`.

pub open spec fn default_flash_attn_value() -> Seq<char> {
    "auto"@
}

pub fn default_flash_attn() -> (r: String)
    ensures
        r@ == default_flash_attn_value(),
{
    "auto".to_string()
}

pub open spec fn default_fit_value() -> Seq<char> {
    "on"@
}

pub fn default_fit() -> (r: String)
    ensures
        r@ == default_fit_value(),
{
    "on".to_string()
}

pub open spec fn default_fit_target_value() -> Seq<char> {
    "1024"@
}

pub fn default_fit_target() -> (r: String)
    ensures
        r@ == default_fit_target_value(),
{
    "1024".to_string()
}

pub open spec fn default_fit_ctx_value() -> usize {
    4
}

pub fn default_fit_ctx() -> (r: usize)
    ensures
        r == default_fit_ctx_value(),
{
    4
}

pub open spec fn default_load_mode_value() -> Seq<char> {
    "auto"@
}

pub fn default_load_mode() -> (r: String)
    ensures
        r@ == default_load_mode_value(),
{
    "auto".to_string()
}

pub open spec fn default_tensor_read_lazy_value() -> Seq<char> {
    "auto"@
}

pub fn default_tensor_read_lazy() -> (r: String)
    ensures
        r@ == default_tensor_read_lazy_value(),
{
    "auto".to_string()
}

pub open spec fn default_threads_value() -> i64 {
    (-1) as i64
}

pub fn default_threads() -> (r: i64)
    ensures
        r == default_threads_value(),
{
    -1
}

pub open spec fn default_threads_batch_value() -> i64 {
    (-1) as i64
}

pub fn default_threads_batch() -> (r: i64)
    ensures
        r == default_threads_batch_value(),
{
    -1
}

pub open spec fn default_n_predict_value() -> i64 {
    (-1) as i64
}

pub fn default_n_predict() -> (r: i64)
    ensures
        r == default_n_predict_value(),
{
    -1
}

pub open spec fn default_keep_tokens_value() -> i64 {
    0
}

pub fn default_keep_tokens() -> (r: i64)
    ensures
        r == default_keep_tokens_value(),
{
    0
}

pub open spec fn default_seed_value() -> i64 {
    (-1) as i64
}

pub fn default_seed() -> (r: i64)
    ensures
        r == default_seed_value(),
{
    -1
}

pub open spec fn default_main_gpu_value() -> i64 {
    0
}

pub fn default_main_gpu() -> (r: i64)
    ensures
        r == default_main_gpu_value(),
{
    0
}

/// The single-precision value 0.05.
pub open spec fn default_min_p_value() -> F32Bits {
    F32Bits { bits: 0x3D4CCCCD }
}

pub fn default_min_p() -> (r: F32Bits)
    ensures
        r == default_min_p_value(),
{
    F32Bits { bits: 0x3D4CCCCD }
}

/// The single-precision value -1.0.
pub open spec fn default_top_n_sigma_value() -> F32Bits {
    F32Bits { bits: 0xBF800000 }
}

pub fn default_top_n_sigma() -> (r: F32Bits)
    ensures
        r == default_top_n_sigma_value(),
{
    F32Bits { bits: 0xBF800000 }
}

/// The single-precision value 0.0.
pub open spec fn default_xtc_probability_value() -> F32Bits {
    F32Bits { bits: 0x00000000 }
}

pub fn default_xtc_probability() -> (r: F32Bits)
    ensures
        r == default_xtc_probability_value(),
{
    F32Bits { bits: 0x00000000 }
}

/// The single-precision value 0.10.
pub open spec fn default_xtc_threshold_value() -> F32Bits {
    F32Bits { bits: 0x3DCCCCCD }
}

pub fn default_xtc_threshold() -> (r: F32Bits)
    ensures
        r == default_xtc_threshold_value(),
{
    F32Bits { bits: 0x3DCCCCCD }
}

/// The single-precision value 1.0.
pub open spec fn default_typical_p_value() -> F32Bits {
    F32Bits { bits: 0x3F800000 }
}

pub fn default_typical_p() -> (r: F32Bits)
    ensures
        r == default_typical_p_value(),
{
    F32Bits { bits: 0x3F800000 }
}

pub open spec fn default_mirostat_value() -> i32 {
    0
}

pub fn default_mirostat() -> (r: i32)
    ensures
        r == default_mirostat_value(),
{
    0
}

/// The single-precision value 0.10.
pub open spec fn default_mirostat_lr_value() -> F32Bits {
    F32Bits { bits: 0x3DCCCCCD }
}

pub fn default_mirostat_lr() -> (r: F32Bits)
    ensures
        r == default_mirostat_lr_value(),
{
    F32Bits { bits: 0x3DCCCCCD }
}

/// The single-precision value 5.00.
pub open spec fn default_mirostat_ent_value() -> F32Bits {
    F32Bits { bits: 0x40A00000 }
}

pub fn default_mirostat_ent() -> (r: F32Bits)
    ensures
        r == default_mirostat_ent_value(),
{
    F32Bits { bits: 0x40A00000 }
}

/// The single-precision value 0.0.
pub open spec fn default_dynatemp_range_value() -> F32Bits {
    F32Bits { bits: 0x00000000 }
}

pub fn default_dynatemp_range() -> (r: F32Bits)
    ensures
        r == default_dynatemp_range_value(),
{
    F32Bits { bits: 0x00000000 }
}

/// The single-precision value 1.0.
pub open spec fn default_dynatemp_exp_value() -> F32Bits {
    F32Bits { bits: 0x3F800000 }
}

pub fn default_dynatemp_exp() -> (r: F32Bits)
    ensures
        r == default_dynatemp_exp_value(),
{
    F32Bits { bits: 0x3F800000 }
}

pub open spec fn default_sampler_seq_value() -> Seq<char> {
    Seq::<char>::empty()
}

pub fn default_sampler_seq() -> (r: String)
    ensures
        r@ == default_sampler_seq_value(),
{
    String::new()
}

pub open spec fn default_cache_prompt_value() -> bool {
    true
}

pub fn default_cache_prompt() -> (r: bool)
    ensures
        r == default_cache_prompt_value(),
{
    true
}

pub open spec fn default_cache_reuse_value() -> i64 {
    0
}

pub fn default_cache_reuse() -> (r: i64)
    ensures
        r == default_cache_reuse_value(),
{
    0
}

pub open spec fn default_context_shift_value() -> bool {
    false
}

pub fn default_context_shift() -> (r: bool)
    ensures
        r == default_context_shift_value(),
{
    false
}

pub open spec fn default_json_schema_value() -> Seq<char> {
    Seq::<char>::empty()
}

pub fn default_json_schema() -> (r: String)
    ensures
        r@ == default_json_schema_value(),
{
    String::new()
}

pub open spec fn default_grammar_value() -> Seq<char> {
    Seq::<char>::empty()
}

pub fn default_grammar() -> (r: String)
    ensures
        r@ == default_grammar_value(),
{
    String::new()
}

pub open spec fn default_api_key_value() -> Seq<char> {
    Seq::<char>::empty()
}

pub fn default_api_key() -> (r: String)
    ensures
        r@ == default_api_key_value(),
{
    String::new()
}

pub open spec fn default_api_prefix_value() -> Seq<char> {
    Seq::<char>::empty()
}

pub fn default_api_prefix() -> (r: String)
    ensures
        r@ == default_api_prefix_value(),
{
    String::new()
}

pub open spec fn default_cors_origins_value() -> Seq<char> {
    Seq::<char>::empty()
}

pub fn default_cors_origins() -> (r: String)
    ensures
        r@ == default_cors_origins_value(),
{
    String::new()
}

pub open spec fn default_numa_value() -> Seq<char> {
    Seq::<char>::empty()
}

pub fn default_numa() -> (r: String)
    ensures
        r@ == default_numa_value(),
{
    String::new()
}

pub open spec fn default_cache_ram_enabled_value() -> bool {
    false
}

pub fn default_cache_ram_enabled() -> (r: bool)
    ensures
        r == default_cache_ram_enabled_value(),
{
    false
}

pub open spec fn default_cache_ram_value() -> usize {
    32768
}

pub fn default_cache_ram() -> (r: usize)
    ensures
        r == default_cache_ram_value(),
{
    32768
}

pub open spec fn default_no_host_value() -> bool {
    false
}

pub fn default_no_host() -> (r: bool)
    ensures
        r == default_no_host_value(),
{
    false
}

pub open spec fn default_rope_scaling_value() -> Seq<char> {
    Seq::<char>::empty()
}

pub fn default_rope_scaling() -> (r: String)
    ensures
        r@ == default_rope_scaling_value(),
{
    String::new()
}

/// The single-precision value 1.0.
pub open spec fn default_rope_scale_value() -> F32Bits {
    F32Bits { bits: 0x3F800000 }
}

pub fn default_rope_scale() -> (r: F32Bits)
    ensures
        r == default_rope_scale_value(),
{
    F32Bits { bits: 0x3F800000 }
}

/// The single-precision value 0.0.
pub open spec fn default_rope_freq_base_value() -> F32Bits {
    F32Bits { bits: 0x00000000 }
}

pub fn default_rope_freq_base() -> (r: F32Bits)
    ensures
        r == default_rope_freq_base_value(),
{
    F32Bits { bits: 0x00000000 }
}

/// The single-precision value 0.0.
pub open spec fn default_rope_freq_scale_value() -> F32Bits {
    F32Bits { bits: 0x00000000 }
}

pub fn default_rope_freq_scale() -> (r: F32Bits)
    ensures
        r == default_rope_freq_scale_value(),
{
    F32Bits { bits: 0x00000000 }
}

pub open spec fn default_yarn_orig_ctx_value() -> usize {
    0
}

pub fn default_yarn_orig_ctx() -> (r: usize)
    ensures
        r == default_yarn_orig_ctx_value(),
{
    0
}

/// The single-precision value -1.0.
pub open spec fn default_yarn_ext_factor_value() -> F32Bits {
    F32Bits { bits: 0xBF800000 }
}

pub fn default_yarn_ext_factor() -> (r: F32Bits)
    ensures
        r == default_yarn_ext_factor_value(),
{
    F32Bits { bits: 0xBF800000 }
}

/// The single-precision value -1.0.
pub open spec fn default_yarn_attn_factor_value() -> F32Bits {
    F32Bits { bits: 0xBF800000 }
}

pub fn default_yarn_attn_factor() -> (r: F32Bits)
    ensures
        r == default_yarn_attn_factor_value(),
{
    F32Bits { bits: 0xBF800000 }
}

/// The single-precision value -1.0.
pub open spec fn default_yarn_beta_slow_value() -> F32Bits {
    F32Bits { bits: 0xBF800000 }
}

pub fn default_yarn_beta_slow() -> (r: F32Bits)
    ensures
        r == default_yarn_beta_slow_value(),
{
    F32Bits { bits: 0xBF800000 }
}

/// The single-precision value -1.0.
pub open spec fn default_yarn_beta_fast_value() -> F32Bits {
    F32Bits { bits: 0xBF800000 }
}

pub fn default_yarn_beta_fast() -> (r: F32Bits)
    ensures
        r == default_yarn_beta_fast_value(),
{
    F32Bits { bits: 0xBF800000 }
}

/// The single-precision value 0.0.
pub open spec fn default_frequency_penalty_value() -> F32Bits {
    F32Bits { bits: 0x00000000 }
}

pub fn default_frequency_penalty() -> (r: F32Bits)
    ensures
        r == default_frequency_penalty_value(),
{
    F32Bits { bits: 0x00000000 }
}

pub open spec fn default_repeat_last_n_value() -> i64 {
    (-1) as i64
}

pub fn default_repeat_last_n() -> (r: i64)
    ensures
        r == default_repeat_last_n_value(),
{
    -1
}

/// The single-precision value 0.0.
pub open spec fn default_dry_multiplier_value() -> F32Bits {
    F32Bits { bits: 0x00000000 }
}

pub fn default_dry_multiplier() -> (r: F32Bits)
    ensures
        r == default_dry_multiplier_value(),
{
    F32Bits { bits: 0x00000000 }
}

/// The single-precision value 1.75.
pub open spec fn default_dry_base_value() -> F32Bits {
    F32Bits { bits: 0x3FE00000 }
}

pub fn default_dry_base() -> (r: F32Bits)
    ensures
        r == default_dry_base_value(),
{
    F32Bits { bits: 0x3FE00000 }
}

pub open spec fn default_dry_allowed_length_value() -> i64 {
    2
}

pub fn default_dry_allowed_length() -> (r: i64)
    ensures
        r == default_dry_allowed_length_value(),
{
    2
}

pub open spec fn default_dry_penalty_last_n_value() -> i64 {
    64
}

pub fn default_dry_penalty_last_n() -> (r: i64)
    ensures
        r == default_dry_penalty_last_n_value(),
{
    64
}

pub open spec fn default_dry_sequence_breaker_value() -> Seq<char> {
    Seq::<char>::empty()
}

pub fn default_dry_sequence_breaker() -> (r: String)
    ensures
        r@ == default_dry_sequence_breaker_value(),
{
    String::new()
}

pub open spec fn default_logit_bias_value() -> Seq<char> {
    Seq::<char>::empty()
}

pub fn default_logit_bias() -> (r: String)
    ensures
        r@ == default_logit_bias_value(),
{
    String::new()
}

pub open spec fn default_lora_path_value() -> Seq<char> {
    Seq::<char>::empty()
}

pub fn default_lora_path() -> (r: String)
    ensures
        r@ == default_lora_path_value(),
{
    String::new()
}

pub open spec fn default_lora_scaled_value() -> Seq<char> {
    Seq::<char>::empty()
}

pub fn default_lora_scaled() -> (r: String)
    ensures
        r@ == default_lora_scaled_value(),
{
    String::new()
}

pub open spec fn default_control_vector_value() -> Seq<char> {
    Seq::<char>::empty()
}

pub fn default_control_vector() -> (r: String)
    ensures
        r@ == default_control_vector_value(),
{
    String::new()
}

pub open spec fn default_slot_save_path_value() -> Seq<char> {
    Seq::<char>::empty()
}

pub fn default_slot_save_path() -> (r: String)
    ensures
        r@ == default_slot_save_path_value(),
{
    String::new()
}

pub open spec fn default_sleep_idle_seconds_value() -> i64 {
    (-1) as i64
}

pub fn default_sleep_idle_seconds() -> (r: i64)
    ensures
        r == default_sleep_idle_seconds_value(),
{
    -1
}

pub open spec fn default_threads_http_value() -> i64 {
    (-1) as i64
}

pub fn default_threads_http() -> (r: i64)
    ensures
        r == default_threads_http_value(),
{
    -1
}

pub open spec fn default_metrics_enabled_value() -> bool {
    false
}

pub fn default_metrics_enabled() -> (r: bool)
    ensures
        r == default_metrics_enabled_value(),
{
    false
}

pub open spec fn default_api_key_file_value() -> Seq<char> {
    Seq::<char>::empty()
}

pub fn default_api_key_file() -> (r: String)
    ensures
        r@ == default_api_key_file_value(),
{
    String::new()
}

pub open spec fn default_direct_io_value() -> bool {
    false
}

pub fn default_direct_io() -> (r: bool)
    ensures
        r == default_direct_io_value(),
{
    false
}

pub open spec fn default_check_tensors_value() -> bool {
    false
}

pub fn default_check_tensors() -> (r: bool)
    ensures
        r == default_check_tensors_value(),
{
    false
}

pub open spec fn default_override_kv_value() -> Seq<char> {
    Seq::<char>::empty()
}

pub fn default_override_kv() -> (r: String)
    ensures
        r@ == default_override_kv_value(),
{
    String::new()
}

pub open spec fn default_prio_value() -> i64 {
    0
}

pub fn default_prio() -> (r: i64)
    ensures
        r == default_prio_value(),
{
    0
}

pub open spec fn default_warmup_enabled_value() -> bool {
    true
}

pub fn default_warmup_enabled() -> (r: bool)
    ensures
        r == default_warmup_enabled_value(),
{
    true
}

pub open spec fn default_cont_batching_value() -> bool {
    true
}

pub fn default_cont_batching() -> (r: bool)
    ensures
        r == default_cont_batching_value(),
{
    true
}

pub open spec fn default_grammar_file_value() -> Seq<char> {
    Seq::<char>::empty()
}

pub fn default_grammar_file() -> (r: String)
    ensures
        r@ == default_grammar_file_value(),
{
    String::new()
}

pub open spec fn default_json_schema_file_value() -> Seq<char> {
    Seq::<char>::empty()
}

pub fn default_json_schema_file() -> (r: String)
    ensures
        r@ == default_json_schema_file_value(),
{
    String::new()
}

pub open spec fn default_embeddings_enabled_value() -> bool {
    false
}

pub fn default_embeddings_enabled() -> (r: bool)
    ensures
        r == default_embeddings_enabled_value(),
{
    false
}

pub open spec fn default_pooling_value() -> Seq<char> {
    Seq::<char>::empty()
}

pub fn default_pooling() -> (r: String)
    ensures
        r@ == default_pooling_value(),
{
    String::new()
}

pub open spec fn default_rerank_enabled_value() -> bool {
    false
}

pub fn default_rerank_enabled() -> (r: bool)
    ensures
        r == default_rerank_enabled_value(),
{
    false
}

pub open spec fn default_web_ui_enabled_value() -> bool {
    true
}

pub fn default_web_ui_enabled() -> (r: bool)
    ensures
        r == default_web_ui_enabled_value(),
{
    true
}

pub open spec fn default_log_timestamps_value() -> bool {
    true
}

pub fn default_log_timestamps() -> (r: bool)
    ensures
        r == default_log_timestamps_value(),
{
    true
}

pub open spec fn default_log_verbosity_value() -> usize {
    3
}

pub fn default_log_verbosity() -> (r: usize)
    ensures
        r == default_log_verbosity_value(),
{
    3
}

pub open spec fn default_session_timeout_value() -> usize {
    600
}

pub fn default_session_timeout() -> (r: usize)
    ensures
        r == default_session_timeout_value(),
{
    600
}

pub open spec fn default_auto_scroll_logs_value() -> bool {
    true
}

pub fn default_auto_scroll_logs() -> (r: bool)
    ensures
        r == default_auto_scroll_logs_value(),
{
    true
}

pub open spec fn default_max_log_lines_value() -> i32 {
    100
}

pub fn default_max_log_lines() -> (r: i32)
    ensures
        r == default_max_log_lines_value(),
{
    100
}

pub open spec fn default_log_to_file_value() -> bool {
    false
}

pub fn default_log_to_file() -> (r: bool)
    ensures
        r == default_log_to_file_value(),
{
    false
}

pub open spec fn default_linux_compat_mode_value() -> bool {
    true
}

pub fn default_linux_compat_mode() -> (r: bool)
    ensures
        r == default_linux_compat_mode_value(),
{
    true
}

pub open spec fn default_dark_mode_value() -> bool {
    true
}

pub fn default_dark_mode() -> (r: bool)
    ensures
        r == default_dark_mode_value(),
{
    true
}

pub open spec fn default_theme_mode_value() -> Seq<char> {
    "auto"@
}

pub fn default_theme_mode() -> (r: String)
    ensures
        r@ == default_theme_mode_value(),
{
    "auto".to_string()
}

pub open spec fn default_accent_color_value() -> Seq<char> {
    "#FF2D55"@
}

pub fn default_accent_color() -> (r: String)
    ensures
        r@ == default_accent_color_value(),
{
    "#FF2D55".to_string()
}

pub open spec fn default_download_variant_value() -> Seq<char> {
    "cpu"@
}

pub fn default_download_variant() -> (r: String)
    ensures
        r@ == default_download_variant_value(),
{
    "cpu".to_string()
}

pub open spec fn default_llama_branch_value() -> Seq<char> {
    "main"@
}

pub fn default_llama_branch() -> (r: String)
    ensures
        r@ == default_llama_branch_value(),
{
    "main".to_string()
}

pub open spec fn default_rocm_gpu_target_value() -> Seq<char> {
    "gfx103X"@
}

pub fn default_rocm_gpu_target() -> (r: String)
    ensures
        r@ == default_rocm_gpu_target_value(),
{
    "gfx103X".to_string()
}

pub open spec fn default_context_value() -> usize {
    4
}

pub fn default_context() -> (r: usize)
    ensures
        r == default_context_value(),
{
    4
}

/// The single-precision value 2.0.
pub open spec fn default_batch_size_value() -> F32Bits {
    F32Bits { bits: 0x40000000 }
}

pub fn default_batch_size() -> (r: F32Bits)
    ensures
        r == default_batch_size_value(),
{
    F32Bits { bits: 0x40000000 }
}

/// The single-precision value 0.5.
pub open spec fn default_ubatch_size_value() -> F32Bits {
    F32Bits { bits: 0x3F000000 }
}

pub fn default_ubatch_size() -> (r: F32Bits)
    ensures
        r == default_ubatch_size_value(),
{
    F32Bits { bits: 0x3F000000 }
}

pub open spec fn default_spec_type_value() -> Seq<char> {
    "none"@
}

pub fn default_spec_type() -> (r: String)
    ensures
        r@ == default_spec_type_value(),
{
    "none".to_string()
}

pub open spec fn default_spec_draft_n_max_value() -> usize {
    2
}

pub fn default_spec_draft_n_max() -> (r: usize)
    ensures
        r == default_spec_draft_n_max_value(),
{
    2
}

/// The single-precision value 0.75.
pub open spec fn default_spec_draft_p_min_value() -> F32Bits {
    F32Bits { bits: 0x3F400000 }
}

pub fn default_spec_draft_p_min() -> (r: F32Bits)
    ensures
        r == default_spec_draft_p_min_value(),
{
    F32Bits { bits: 0x3F400000 }
}

/// The single-precision value 1.0.
pub open spec fn default_spec_draft_p_split_value() -> F32Bits {
    F32Bits { bits: 0x3F800000 }
}

pub fn default_spec_draft_p_split() -> (r: F32Bits)
    ensures
        r == default_spec_draft_p_split_value(),
{
    F32Bits { bits: 0x3F800000 }
}

pub open spec fn default_spec_draft_type_k_value() -> Seq<char> {
    "f16"@
}

pub fn default_spec_draft_type_k() -> (r: String)
    ensures
        r@ == default_spec_draft_type_k_value(),
{
    "f16".to_string()
}

pub open spec fn default_spec_draft_type_v_value() -> Seq<char> {
    "f16"@
}

pub fn default_spec_draft_type_v() -> (r: String)
    ensures
        r@ == default_spec_draft_type_v_value(),
{
    "f16".to_string()
}

pub open spec fn default_spec_ngram_size_n_value() -> usize {
    12
}

pub fn default_spec_ngram_size_n() -> (r: usize)
    ensures
        r == default_spec_ngram_size_n_value(),
{
    12
}

pub open spec fn default_spec_ngram_size_m_value() -> usize {
    48
}

pub fn default_spec_ngram_size_m() -> (r: usize)
    ensures
        r == default_spec_ngram_size_m_value(),
{
    48
}

pub open spec fn default_spec_ngram_min_hits_value() -> usize {
    1
}

pub fn default_spec_ngram_min_hits() -> (r: usize)
    ensures
        r == default_spec_ngram_min_hits_value(),
{
    1
}

pub open spec fn default_spec_ngram_mod_n_min_value() -> usize {
    48
}

pub fn default_spec_ngram_mod_n_min() -> (r: usize)
    ensures
        r == default_spec_ngram_mod_n_min_value(),
{
    48
}

pub open spec fn default_spec_ngram_mod_n_max_value() -> usize {
    64
}

pub fn default_spec_ngram_mod_n_max() -> (r: usize)
    ensures
        r == default_spec_ngram_mod_n_max_value(),
{
    64
}

pub open spec fn default_spec_ngram_mod_n_match_value() -> usize {
    24
}

pub fn default_spec_ngram_mod_n_match() -> (r: usize)
    ensures
        r == default_spec_ngram_mod_n_match_value(),
{
    24
}

/// The single-precision value 0.95.
pub open spec fn default_kv_cache_ratio_value() -> F32Bits {
    F32Bits { bits: 0x3F733333 }
}

pub fn default_kv_cache_ratio() -> (r: F32Bits)
    ensures
        r == default_kv_cache_ratio_value(),
{
    F32Bits { bits: 0x3F733333 }
}

pub open spec fn default_ctx_checkpoints_value() -> usize {
    32
}

pub fn default_ctx_checkpoints() -> (r: usize)
    ensures
        r == default_ctx_checkpoints_value(),
{
    32
}

pub open spec fn default_checkpoint_min_step_value() -> usize {
    512
}

pub fn default_checkpoint_min_step() -> (r: usize)
    ensures
        r == default_checkpoint_min_step_value(),
{
    512
}

pub open spec fn default_reasoning_value() -> Seq<char> {
    "auto"@
}

pub fn default_reasoning() -> (r: String)
    ensures
        r@ == default_reasoning_value(),
{
    "auto".to_string()
}

pub open spec fn default_reasoning_format_value() -> Seq<char> {
    "auto"@
}

pub fn default_reasoning_format() -> (r: String)
    ensures
        r@ == default_reasoning_format_value(),
{
    "auto".to_string()
}

pub open spec fn default_reasoning_effort_value() -> Seq<char> {
    "default"@
}

pub fn default_reasoning_effort() -> (r: String)
    ensures
        r@ == default_reasoning_effort_value(),
{
    "default".to_string()
}

pub open spec fn default_reasoning_budget_value() -> i32 {
    (-1) as i32
}

pub fn default_reasoning_budget() -> (r: i32)
    ensures
        r == default_reasoning_budget_value(),
{
    -1
}

pub open spec fn default_jinja_enabled_value() -> bool {
    true
}

pub fn default_jinja_enabled() -> (r: bool)
    ensures
        r == default_jinja_enabled_value(),
{
    true
}

pub open spec fn default_release_channel_value() -> Seq<char> {
    "stable"@
}

pub fn default_release_channel() -> (r: String)
    ensures
        r@ == default_release_channel_value(),
{
    "stable".to_string()
}

pub open spec fn default_true_value() -> bool {
    true
}

pub fn default_true() -> (r: bool)
    ensures
        r == default_true_value(),
{
    true
}

pub open spec fn default_mmproj_auto_value() -> bool {
    true
}

pub fn default_mmproj_auto() -> (r: bool)
    ensures
        r == default_mmproj_auto_value(),
{
    true
}

pub open spec fn default_mmproj_offload_value() -> bool {
    true
}

pub fn default_mmproj_offload() -> (r: bool)
    ensures
        r == default_mmproj_offload_value(),
{
    true
}

pub open spec fn default_mmproj_device_value() -> Seq<char> {
    "auto"@
}

pub fn default_mmproj_device() -> (r: String)
    ensures
        r@ == default_mmproj_device_value(),
{
    "auto".to_string()
}

pub open spec fn default_image_min_tokens_value() -> i64 {
    0
}

pub fn default_image_min_tokens() -> (r: i64)
    ensures
        r == default_image_min_tokens_value(),
{
    0
}

pub open spec fn default_image_max_tokens_value() -> i64 {
    0
}

pub fn default_image_max_tokens() -> (r: i64)
    ensures
        r == default_image_max_tokens_value(),
{
    0
}

pub open spec fn default_mtmd_batch_max_tokens_value() -> usize {
    1024
}

pub fn default_mtmd_batch_max_tokens() -> (r: usize)
    ensures
        r == default_mtmd_batch_max_tokens_value(),
{
    1024
}

/// The single-precision value 4.0.
pub open spec fn default_video_fps_value() -> F32Bits {
    F32Bits { bits: 0x40800000 }
}

pub fn default_video_fps() -> (r: F32Bits)
    ensures
        r == default_video_fps_value(),
{
    F32Bits { bits: 0x40800000 }
}

pub open spec fn default_video_timestamp_interval_value() -> usize {
    5000
}

pub fn default_video_timestamp_interval() -> (r: usize)
    ensures
        r == default_video_timestamp_interval_value(),
{
    5000
}

} // verus!
