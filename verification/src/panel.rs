use vstd::prelude::*;

use crate::search::{exe_file_name_spec, is_server_binary_name, TargetOs};
use crate::settings::{preset_matches, same_outside_preset, AppSettings, Preset};
use crate::text::{chars_of, concat_text, contains, contains_chars, same_text, starts_with, starts_with_chars};

verus! {

// ---------------------------------------------------------------------------
// Choices shown as a row of segments: the stored text names one option.
// ---------------------------------------------------------------------------

/// `options[i]` is the first option equal to `value`.
pub open spec fn first_listed_at(options: Seq<Seq<char>>, value: Seq<char>, i: int) -> bool {
    &&& 0 <= i < options.len()
    &&& options[i] == value
    &&& forall|j: int| 0 <= j < i ==> options[j] != value
}

/// The segment selected for a stored `value`: the first option equal to it,
/// or `fallback` when no option is.
pub open spec fn choice_index_spec(options: Seq<Seq<char>>, value: Seq<char>, fallback: int) -> int {
    if exists|i: int| first_listed_at(options, value, i) {
        choose|i: int| first_listed_at(options, value, i)
    } else {
        fallback
    }
}

/// The text stored back once the segment row has been shown: the option of
/// the selected segment.
pub open spec fn normalized_choice_spec(options: Seq<Seq<char>>, value: Seq<char>, fallback: int) -> Seq<
    char,
> {
    options[choice_index_spec(options, value, fallback)]
}

pub open spec fn option_texts(options: Seq<&str>) -> Seq<Seq<char>> {
    Seq::new(options.len(), |i: int| options[i]@)
}

proof fn lemma_first_listed_unique(options: Seq<Seq<char>>, value: Seq<char>, i: int, k: int)
    requires
        first_listed_at(options, value, i),
        first_listed_at(options, value, k),
    ensures
        i == k,
{
    if i < k {
        assert(options[i] != value);
    } else if k < i {
        assert(options[k] != value);
    }
}

/// An option equal to `value` at `i` means a first one exists, at or before `i`.
proof fn lemma_first_listed_exists(options: Seq<Seq<char>>, value: Seq<char>, i: int)
    requires
        0 <= i < options.len(),
        options[i] == value,
    ensures
        exists|k: int| 0 <= k <= i && first_listed_at(options, value, k),
    decreases i,
{
    if forall|j: int| 0 <= j < i ==> options[j] != value {
        assert(first_listed_at(options, value, i));
    } else {
        let j = choose|j: int| 0 <= j < i && options[j] == value;
        lemma_first_listed_exists(options, value, j);
    }
}

/// The segment selected for the stored text `value` (the position of the
/// first equal option, or `fallback`).
pub fn choice_index(options: &[&str], value: &str, fallback: usize) -> (r: usize)
    ensures
        r == choice_index_spec(option_texts(options@), value@, fallback as int),
{
    let ghost opts = option_texts(options@);
    let mut i: usize = 0;
    while i < options.len()
        invariant
            0 <= i <= options@.len(),
            opts == option_texts(options@),
            forall|j: int| 0 <= j < i ==> opts[j] != value@,
        decreases options@.len() - i,
    {
        if same_text(options[i], value) {
            proof {
                assert(first_listed_at(opts, value@, i as int));
                let k = choose|k: int| first_listed_at(opts, value@, k);
                lemma_first_listed_unique(opts, value@, i as int, k);
            }
            return i;
        }
        i += 1;
    }
    proof {
        if exists|k: int| first_listed_at(opts, value@, k) {
            let k = choose|k: int| first_listed_at(opts, value@, k);
            assert(opts[k] != value@);
        }
    }
    fallback
}

/// The text a segment row stores back for `value`: `value` itself when it is
/// one of the options, otherwise the option at `fallback`.
pub fn normalized_choice(options: &[&str], value: &str, fallback: usize) -> (r: String)
    requires
        fallback < options@.len(),
    ensures
        r@ == normalized_choice_spec(option_texts(options@), value@, fallback as int),
{
    let i = choice_index(options, value, fallback);
    proof {
        let opts = option_texts(options@);
        if exists|k: int| first_listed_at(opts, value@, k) {
            let k = choose|k: int| first_listed_at(opts, value@, k);
            assert(first_listed_at(opts, value@, k));
        }
    }
    options[i].to_string()
}

/// A stored text that is one of the options is kept as it is, and storing a
/// row's text back a second time changes nothing.
pub proof fn lemma_normalized_choice_stable(options: Seq<Seq<char>>, value: Seq<char>, fallback: int)
    requires
        0 <= fallback < options.len(),
    ensures
        options.contains(value) ==> normalized_choice_spec(options, value, fallback) == value,
        normalized_choice_spec(
            options,
            normalized_choice_spec(options, value, fallback),
            fallback,
        ) == normalized_choice_spec(options, value, fallback),
{
    if options.contains(value) {
        let i = choose|i: int| 0 <= i < options.len() && options[i] == value;
        lemma_first_listed_exists(options, value, i);
    }
    let c = choice_index_spec(options, value, fallback);
    if exists|k: int| first_listed_at(options, value, k) {
        assert(first_listed_at(options, value, c));
    }
    assert(0 <= c < options.len());
    let w = options[c];
    lemma_first_listed_exists(options, w, c);
}

/// The rows of segments in the panels whose choice is stored as text.
#[derive(Debug, Clone, Copy, PartialEq, Eq, Structural)]
pub enum SegmentRow {
    /// `--flash-attn`
    FlashAttn,
    /// `--fit`
    Fit,
    /// `--reasoning`
    Reasoning,
    /// `--reasoning-format`
    ReasoningFormat,
    /// Lazy reading of large tensors.
    TensorReadLazy,
    /// `--split-mode`
    SplitMode,
    /// `--numa` (empty: not passed)
    Numa,
    /// `--load-mode`
    LoadMode,
    /// Light, dark or following the system.
    ThemeMode,
    /// The language of the interface.
    Language,
}

/// The options of a row, in the order of its segments.
pub open spec fn row_options(row: SegmentRow) -> Seq<Seq<char>> {
    match row {
        SegmentRow::FlashAttn => seq!["on"@, "off"@, "auto"@],
        SegmentRow::Fit => seq!["on"@, "off"@],
        SegmentRow::Reasoning => seq!["auto"@, "on"@, "off"@],
        SegmentRow::ReasoningFormat => seq!["auto"@, "none"@, "deepseek"@, "deepseek-legacy"@],
        SegmentRow::TensorReadLazy => seq!["auto"@, "on"@, "off"@],
        SegmentRow::SplitMode => seq!["none"@, "layer"@, "tensor"@],
        SegmentRow::Numa => seq![""@, "distribute"@, "isolate"@, "numactl"@],
        SegmentRow::LoadMode => seq!["auto"@, "none"@, "mmap"@, "mlock"@, "mmap+mlock"@, "dio"@],
        SegmentRow::ThemeMode => seq!["light"@, "dark"@, "auto"@],
        SegmentRow::Language => seq!["zh"@, "en"@],
    }
}

/// The segment a row selects for a value that is none of its options.
pub open spec fn row_fallback(row: SegmentRow) -> int {
    match row {
        SegmentRow::FlashAttn => 2,
        SegmentRow::ThemeMode => 2,
        _ => 0,
    }
}

/// A stored value that is one of the options is kept.
proof fn lemma_choice_at(options: Seq<Seq<char>>, value: Seq<char>, fallback: int, i: int)
    requires
        0 <= fallback < options.len(),
        0 <= i < options.len(),
        options[i] == value,
    ensures
        normalized_choice_spec(options, value, fallback) == value,
{
    assert(options.contains(value));
    lemma_normalized_choice_stable(options, value, fallback);
}

/// A stored value that is none of the options becomes the fallback option.
proof fn lemma_choice_unlisted(options: Seq<Seq<char>>, value: Seq<char>, fallback: int)
    requires
        0 <= fallback < options.len(),
        forall|i: int| 0 <= i < options.len() ==> options[i] != value,
    ensures
        normalized_choice_spec(options, value, fallback) == options[fallback],
{
    if exists|k: int| first_listed_at(options, value, k) {
        let k = choose|k: int| first_listed_at(options, value, k);
        assert(options[k] == value);
    }
}

/// Each segment row keeps a stored value that is one of the segments it
/// shows, and turns any other value into its fallback segment:
/// - flash attention: `on`, `off`, `auto`, else `auto`;
/// - fit: `on`, `off`, else `on`;
/// - reasoning: `auto`, `on`, `off`, else `auto`;
/// - reasoning format: `auto`, `none`, `deepseek`, `deepseek-legacy`, else `auto`;
/// - lazy tensor reading: `auto`, `on`, `off`, else `auto`;
/// - split mode: `none`, `layer`, `tensor`, else `none`;
/// - NUMA: empty, `distribute`, `isolate`, `numactl`, else empty;
/// - load mode: `auto`, `none`, `mmap`, `mlock`, `mmap+mlock`, `dio`, else `auto`;
/// - theme: `light`, `dark`, `auto`, else `auto`;
/// - language: `zh`, `en`, else `zh`.
pub proof fn lemma_segment_rows(row: SegmentRow, value: Seq<char>)
    ensures
        row == SegmentRow::FlashAttn ==> normalized_choice_spec(row_options(row), value, row_fallback(row)) == (if value == "on"@ || value == "off"@ || value == "auto"@ {
            value
        } else {
            "auto"@
        }),
        row == SegmentRow::Fit ==> normalized_choice_spec(row_options(row), value, row_fallback(row)) == (if value == "on"@ || value == "off"@ {
            value
        } else {
            "on"@
        }),
        row == SegmentRow::Reasoning ==> normalized_choice_spec(row_options(row), value, row_fallback(row)) == (if value == "auto"@ || value == "on"@ || value == "off"@ {
            value
        } else {
            "auto"@
        }),
        row == SegmentRow::ReasoningFormat ==> normalized_choice_spec(row_options(row), value, row_fallback(row)) == (if value == "auto"@ || value == "none"@ || value == "deepseek"@ || value == "deepseek-legacy"@ {
            value
        } else {
            "auto"@
        }),
        row == SegmentRow::TensorReadLazy ==> normalized_choice_spec(row_options(row), value, row_fallback(row)) == (if value == "auto"@ || value == "on"@ || value == "off"@ {
            value
        } else {
            "auto"@
        }),
        row == SegmentRow::SplitMode ==> normalized_choice_spec(row_options(row), value, row_fallback(row)) == (if value == "none"@ || value == "layer"@ || value == "tensor"@ {
            value
        } else {
            "none"@
        }),
        row == SegmentRow::Numa ==> normalized_choice_spec(row_options(row), value, row_fallback(row)) == (if value == ""@ || value == "distribute"@ || value == "isolate"@ || value == "numactl"@ {
            value
        } else {
            ""@
        }),
        row == SegmentRow::LoadMode ==> normalized_choice_spec(row_options(row), value, row_fallback(row)) == (if value == "auto"@ || value == "none"@ || value == "mmap"@ || value == "mlock"@ || value == "mmap+mlock"@ || value == "dio"@ {
            value
        } else {
            "auto"@
        }),
        row == SegmentRow::ThemeMode ==> normalized_choice_spec(row_options(row), value, row_fallback(row)) == (if value == "light"@ || value == "dark"@ || value == "auto"@ {
            value
        } else {
            "auto"@
        }),
        row == SegmentRow::Language ==> normalized_choice_spec(row_options(row), value, row_fallback(row)) == (if value == "zh"@ || value == "en"@ {
            value
        } else {
            "zh"@
        }),
{
    let o = row_options(row);
    let fb = row_fallback(row);
    assert(0 <= fb < o.len());
    if exists|i: int| 0 <= i < o.len() && o[i] == value {
        let i = choose|i: int| 0 <= i < o.len() && o[i] == value;
        lemma_choice_at(o, value, fb, i);
    } else {
        lemma_choice_unlisted(o, value, fb);
    }
    match row {
        SegmentRow::FlashAttn => {
            assert(o[0] == "on"@); assert(o[1] == "off"@); assert(o[2] == "auto"@);
        },
        SegmentRow::Fit => {
            assert(o[0] == "on"@); assert(o[1] == "off"@);
        },
        SegmentRow::Reasoning => {
            assert(o[0] == "auto"@); assert(o[1] == "on"@); assert(o[2] == "off"@);
        },
        SegmentRow::ReasoningFormat => {
            assert(o[0] == "auto"@); assert(o[1] == "none"@); assert(o[2] == "deepseek"@); assert(o[3] == "deepseek-legacy"@);
        },
        SegmentRow::TensorReadLazy => {
            assert(o[0] == "auto"@); assert(o[1] == "on"@); assert(o[2] == "off"@);
        },
        SegmentRow::SplitMode => {
            assert(o[0] == "none"@); assert(o[1] == "layer"@); assert(o[2] == "tensor"@);
        },
        SegmentRow::Numa => {
            assert(o[0] == ""@); assert(o[1] == "distribute"@); assert(o[2] == "isolate"@); assert(o[3] == "numactl"@);
        },
        SegmentRow::LoadMode => {
            assert(o[0] == "auto"@); assert(o[1] == "none"@); assert(o[2] == "mmap"@); assert(o[3] == "mlock"@); assert(o[4] == "mmap+mlock"@); assert(o[5] == "dio"@);
        },
        SegmentRow::ThemeMode => {
            assert(o[0] == "light"@); assert(o[1] == "dark"@); assert(o[2] == "auto"@);
        },
        SegmentRow::Language => {
            assert(o[0] == "zh"@); assert(o[1] == "en"@);
        },
    }
}

/// The text a row stores back for `value`: `value` when it is one of the
/// row's options, otherwise the row's fallback option (`auto` for flash
/// attention and the theme, the first option elsewhere).
pub fn segment_row_choice(row: SegmentRow, value: &str) -> (r: String)
    ensures
        r@ == normalized_choice_spec(row_options(row), value@, row_fallback(row)),
        row == SegmentRow::FlashAttn ==> r@ == (if value@ == "on"@ || value@ == "off"@ || value@ == "auto"@ {
            value@
        } else {
            "auto"@
        }),
        row == SegmentRow::Fit ==> r@ == (if value@ == "on"@ || value@ == "off"@ {
            value@
        } else {
            "on"@
        }),
        row == SegmentRow::Reasoning ==> r@ == (if value@ == "auto"@ || value@ == "on"@ || value@ == "off"@ {
            value@
        } else {
            "auto"@
        }),
        row == SegmentRow::ReasoningFormat ==> r@ == (if value@ == "auto"@ || value@ == "none"@ || value@ == "deepseek"@ || value@ == "deepseek-legacy"@ {
            value@
        } else {
            "auto"@
        }),
        row == SegmentRow::TensorReadLazy ==> r@ == (if value@ == "auto"@ || value@ == "on"@ || value@ == "off"@ {
            value@
        } else {
            "auto"@
        }),
        row == SegmentRow::SplitMode ==> r@ == (if value@ == "none"@ || value@ == "layer"@ || value@ == "tensor"@ {
            value@
        } else {
            "none"@
        }),
        row == SegmentRow::Numa ==> r@ == (if value@ == ""@ || value@ == "distribute"@ || value@ == "isolate"@ || value@ == "numactl"@ {
            value@
        } else {
            ""@
        }),
        row == SegmentRow::LoadMode ==> r@ == (if value@ == "auto"@ || value@ == "none"@ || value@ == "mmap"@ || value@ == "mlock"@ || value@ == "mmap+mlock"@ || value@ == "dio"@ {
            value@
        } else {
            "auto"@
        }),
        row == SegmentRow::ThemeMode ==> r@ == (if value@ == "light"@ || value@ == "dark"@ || value@ == "auto"@ {
            value@
        } else {
            "auto"@
        }),
        row == SegmentRow::Language ==> r@ == (if value@ == "zh"@ || value@ == "en"@ {
            value@
        } else {
            "zh"@
        }),
{
    proof {
        lemma_segment_rows(row, value@);
    }
    match row {
        SegmentRow::FlashAttn => {
            let o: [&str; 3] = ["on", "off", "auto"];
            assert(option_texts(o@) =~= row_options(row));
            normalized_choice(&o, value, 2)
        },
        SegmentRow::Fit => {
            let o: [&str; 2] = ["on", "off"];
            assert(option_texts(o@) =~= row_options(row));
            normalized_choice(&o, value, 0)
        },
        SegmentRow::Reasoning => {
            let o: [&str; 3] = ["auto", "on", "off"];
            assert(option_texts(o@) =~= row_options(row));
            normalized_choice(&o, value, 0)
        },
        SegmentRow::ReasoningFormat => {
            let o: [&str; 4] = ["auto", "none", "deepseek", "deepseek-legacy"];
            assert(option_texts(o@) =~= row_options(row));
            normalized_choice(&o, value, 0)
        },
        SegmentRow::TensorReadLazy => {
            let o: [&str; 3] = ["auto", "on", "off"];
            assert(option_texts(o@) =~= row_options(row));
            normalized_choice(&o, value, 0)
        },
        SegmentRow::SplitMode => {
            let o: [&str; 3] = ["none", "layer", "tensor"];
            assert(option_texts(o@) =~= row_options(row));
            normalized_choice(&o, value, 0)
        },
        SegmentRow::Numa => {
            let o: [&str; 4] = ["", "distribute", "isolate", "numactl"];
            assert(option_texts(o@) =~= row_options(row));
            normalized_choice(&o, value, 0)
        },
        SegmentRow::LoadMode => {
            let o: [&str; 6] = ["auto", "none", "mmap", "mlock", "mmap+mlock", "dio"];
            assert(option_texts(o@) =~= row_options(row));
            normalized_choice(&o, value, 0)
        },
        SegmentRow::ThemeMode => {
            let o: [&str; 3] = ["light", "dark", "auto"];
            assert(option_texts(o@) =~= row_options(row));
            normalized_choice(&o, value, 2)
        },
        SegmentRow::Language => {
            let o: [&str; 2] = ["zh", "en"];
            assert(option_texts(o@) =~= row_options(row));
            normalized_choice(&o, value, 0)
        },
    }
}

/// The `--mirostat` row: 0, 1 or 2 are kept, anything else becomes 0.
pub fn mirostat_choice(v: i32) -> (r: i32)
    ensures
        r == (if v == 0 || v == 1 || v == 2 {
            v
        } else {
            0
        }),
{
    if v == 0 || v == 1 || v == 2 {
        v
    } else {
        0
    }
}

// ---------------------------------------------------------------------------
// Which rows of parameters the panel offers.
// ---------------------------------------------------------------------------

/// The groups of speculative-decoding parameters that apply to an algorithm.
#[derive(Debug, Clone, Copy, PartialEq, Eq, Structural)]
pub struct SpecDecodingParams {
    /// `--spec-draft-*`: every `draft-` algorithm.
    pub draft: bool,
    /// `--spec-ngram-size-n`, `--spec-ngram-size-m`, `--spec-ngram-min-hits`.
    pub ngram: bool,
    /// `--spec-ngram-mod-*`.
    pub ngram_mod: bool,
}

/// The parameter groups of algorithm `spec_type`: the draft parameters for
/// every `draft-` algorithm, the shared n-gram parameters for `ngram-simple`,
/// `ngram-map-k` and `ngram-map-k4v`, and the `ngram-mod` parameters for
/// `ngram-mod` alone.
pub fn spec_decoding_params(spec_type: &str) -> (r: SpecDecodingParams)
    ensures
        r.draft == starts_with(spec_type@, "draft-"@),
        r.ngram == (spec_type@ == "ngram-simple"@ || spec_type@ == "ngram-map-k"@ || spec_type@
            == "ngram-map-k4v"@),
        r.ngram_mod == (spec_type@ == "ngram-mod"@),
{
    let t = chars_of(spec_type);
    let draft = starts_with_chars(&t, &chars_of("draft-"));
    let ngram = same_text(spec_type, "ngram-simple") || same_text(spec_type, "ngram-map-k")
        || same_text(spec_type, "ngram-map-k4v");
    let ngram_mod = same_text(spec_type, "ngram-mod");
    SpecDecodingParams { draft, ngram, ngram_mod }
}

/// Whether llama-server can be started: the server path names the
/// llama-server executable (`server_file_name` is the last component of that
/// path, when it has one) and a model was chosen.
pub fn can_start(server_file_name: Option<&str>, model_path: &str, os: TargetOs) -> (r: bool)
    ensures
        r == ((server_file_name matches Some(n) && n@ == exe_file_name_spec("llama-server"@, os))
            && model_path@.len() > 0),
{
    let valid = match server_file_name {
        Some(n) => is_server_binary_name(n, os),
        None => false,
    };
    valid && model_path.unicode_len() > 0
}

/// Whether the device list can be asked of the server executable: a server
/// path was chosen and its file name contains `llama-server`.
pub fn device_list_available(server_path: &str, server_file_name: Option<&str>) -> (r: bool)
    ensures
        r == (server_path@.len() > 0 && (server_file_name matches Some(n) && contains(
            n@,
            "llama-server"@,
        ))),
{
    if server_path.unicode_len() == 0 {
        return false;
    }
    match server_file_name {
        Some(n) => contains_chars(&chars_of(n), &chars_of("llama-server")),
        None => false,
    }
}

// ---------------------------------------------------------------------------
// Presets chosen by name.
// ---------------------------------------------------------------------------

/// The names of the presets, in order.
pub open spec fn preset_names(ps: Seq<Preset>) -> Seq<Seq<char>> {
    Seq::new(ps.len(), |i: int| ps[i].name@)
}

impl AppSettings {
    /// The position of the first preset called `name`.
    pub fn preset_position(&self, name: &str) -> (r: Option<usize>)
        ensures
            r matches Some(i) ==> first_listed_at(preset_names(self.presets@), name@, i as int),
            r is None ==> !preset_names(self.presets@).contains(name@),
    {
        let ghost names = preset_names(self.presets@);
        let mut i: usize = 0;
        while i < self.presets.len()
            invariant
                0 <= i <= self.presets@.len(),
                names == preset_names(self.presets@),
                forall|j: int| 0 <= j < i ==> names[j] != name@,
            decreases self.presets@.len() - i,
        {
            if same_text(self.presets[i].name.as_str(), name) {
                return Some(i);
            }
            i += 1;
        }
        None
    }

    /// Applies the first preset called `name` to these settings, as choosing
    /// a preset for the system service does; returns false, and changes
    /// nothing, when no preset has that name.
    pub fn apply_preset_named(&mut self, name: &str) -> (applied: bool)
        ensures
            applied == preset_names(old(self).presets@).contains(name@),
            applied ==> exists|i: int|
                first_listed_at(preset_names(old(self).presets@), name@, i) && preset_matches(
                    #[trigger] old(self).presets@[i],
                    *final(self),
                ),
            applied ==> same_outside_preset(*old(self), *final(self)),
            !applied ==> *final(self) == *old(self),
    {
        let i = match self.preset_position(name) {
            Some(i) => i,
            None => {
                return false;
            },
        };
        let ghost q = self.presets@[i as int];
        let p = self.presets[i].clone();
        p.apply_to(self);
        proof {
            assert(preset_names(old(self).presets@)[i as int] == name@);
            assert(preset_matches(q, *self));
        }
        true
    }
}

// ---------------------------------------------------------------------------
// The two background calculations of the parameter panel (the largest
// context that fits in video memory, and the size of the KV cache).
// ---------------------------------------------------------------------------

/// Whether a click on a calculation's button starts it: llama-server must be
/// startable and no calculation of the same kind may be running.
pub fn calculation_may_start(clicked: bool, can_start: bool, running: bool) -> (r: bool)
    ensures
        r == (clicked && can_start && !running),
{
    clicked && can_start && !running
}

/// What happens to the slot of a calculation: a frame in which the button
/// may have been clicked, or the running calculation reporting its result.
#[derive(Debug, Clone, Copy, PartialEq, Eq, Structural)]
pub enum SlotEvent {
    Click { clicked: bool, can_start: bool },
    Finish,
}

/// The event starts a calculation, given whether one runs.
pub open spec fn event_starts(running: bool, e: SlotEvent) -> bool {
    match e {
        SlotEvent::Click { clicked, can_start } => clicked && can_start && !running,
        SlotEvent::Finish => false,
    }
}

/// The event ends the running calculation.
pub open spec fn event_finishes(running: bool, e: SlotEvent) -> bool {
    running && e == SlotEvent::Finish
}

/// Whether a calculation runs after the event.
pub open spec fn slot_after(running: bool, e: SlotEvent) -> bool {
    match e {
        SlotEvent::Click { .. } => running || event_starts(running, e),
        SlotEvent::Finish => false,
    }
}

/// Whether a calculation runs after the events, starting with none.
pub open spec fn slot_running(events: Seq<SlotEvent>) -> bool
    decreases events.len(),
{
    if events.len() == 0 {
        false
    } else {
        slot_after(slot_running(events.drop_last()), events.last())
    }
}

/// How many calculations the events started.
pub open spec fn started_count(events: Seq<SlotEvent>) -> nat
    decreases events.len(),
{
    if events.len() == 0 {
        0
    } else {
        started_count(events.drop_last()) + if event_starts(
            slot_running(events.drop_last()),
            events.last(),
        ) {
            1nat
        } else {
            0nat
        }
    }
}

/// How many calculations the events saw end.
pub open spec fn finished_count(events: Seq<SlotEvent>) -> nat
    decreases events.len(),
{
    if events.len() == 0 {
        0
    } else {
        finished_count(events.drop_last()) + if event_finishes(
            slot_running(events.drop_last()),
            events.last(),
        ) {
            1nat
        } else {
            0nat
        }
    }
}

/// At most one calculation of a kind runs at a time: over any frames and
/// results, the calculations started are those that ended plus the one that
/// runs, if any; a click starts one only when none runs, so a running one is
/// never replaced.
pub proof fn lemma_one_calculation_at_a_time(events: Seq<SlotEvent>)
    ensures
        started_count(events) == finished_count(events) + if slot_running(events) {
            1nat
        } else {
            0nat
        },
        forall|i: int|
            0 <= i < events.len() && #[trigger] event_starts(slot_running(events.take(i)), events[i])
                ==> !slot_running(events.take(i)),
    decreases events.len(),
{
    if events.len() > 0 {
        lemma_one_calculation_at_a_time(events.drop_last());
    }
}

/// The slot of one kind of background calculation, holding the running
/// calculation's task, if any.
pub struct CalculationSlot<T> {
    task: Option<T>,
}

impl<T> View for CalculationSlot<T> {
    /// Whether a calculation runs.
    type V = bool;

    closed spec fn view(&self) -> bool {
        self.task is Some
    }
}

impl<T> CalculationSlot<T> {
    /// The task of the running calculation, if any.
    pub closed spec fn running_task(self) -> Option<T> {
        self.task
    }

    /// No calculation runs.
    pub fn new() -> (r: Self)
        ensures
            !r@,
    {
        CalculationSlot { task: None }
    }

    pub fn is_running(&self) -> (b: bool)
        ensures
            b == self@,
    {
        self.task.is_some()
    }

    /// Whether a click of the calculation's button starts a calculation now.
    pub fn may_start(&self, clicked: bool, can_start: bool) -> (r: bool)
        ensures
            r == event_starts(self@, SlotEvent::Click { clicked, can_start }),
    {
        calculation_may_start(clicked, can_start, self.task.is_some())
    }

    /// Puts a started calculation into the empty slot.
    pub fn start(&mut self, task: T)
        requires
            !old(self)@,
        ensures
            final(self)@,
            final(self).running_task() == Some(task),
    {
        self.task = Some(task);
    }

    /// The running calculation's task, to ask it for its result.
    pub fn task(&self) -> (r: Option<&T>)
        ensures
            r is Some == self@,
            r matches Some(t) ==> self.running_task() == Some(*t),
    {
        match &self.task {
            Some(t) => Some(t),
            None => None,
        }
    }

    /// The running calculation has reported its result: the slot is empty
    /// again, and its task is handed back.
    pub fn finish(&mut self) -> (r: Option<T>)
        ensures
            !final(self)@,
            r == old(self).running_task(),
            final(self)@ == slot_after(old(self)@, SlotEvent::Finish),
    {
        self.task.take()
    }
}

/// The text shown for a finished KV cache calculation: the label and the
/// result, or a warning sign and the error.
pub open spec fn kv_cache_text(label: Seq<char>, outcome: Result<String, String>) -> Seq<char> {
    match outcome {
        Ok(x) => label + " "@ + x@,
        Err(e) => "\u{26a0} "@ + e@,
    }
}

impl AppSettings {
    /// Takes in the state of the largest-context calculation (`None` while
    /// it runs) and returns whether it still runs. A size found becomes the
    /// context; a failure changes nothing.
    pub fn poll_max_context(&mut self, outcome: Option<Result<usize, String>>) -> (running: bool)
        ensures
            running == outcome is None,
            outcome matches Some(Ok(v)) ==> *final(self) == (AppSettings { context: v, ..*old(self) }),
            !(outcome matches Some(Ok(_))) ==> *final(self) == *old(self),
    {
        match outcome {
            None => true,
            Some(Ok(v)) => {
                self.context = v;
                false
            },
            Some(Err(_)) => false,
        }
    }

    /// Takes in the state of the KV cache calculation (`None` while it runs)
    /// and returns whether it still runs; a finished calculation leaves its
    /// text in `kv_cache_result`.
    pub fn poll_kv_cache(&mut self, label: &str, outcome: Option<Result<String, String>>) -> (running:
        bool)
        ensures
            running == outcome is None,
            outcome is None ==> *final(self) == *old(self),
            outcome matches Some(res) ==> {
                &&& final(self).kv_cache_result matches Some(t) && t@ == kv_cache_text(label@, res)
                &&& *final(self) == (AppSettings {
                    kv_cache_result: final(self).kv_cache_result,
                    ..*old(self)
                })
            },
    {
        match outcome {
            None => true,
            Some(Ok(x)) => {
                let head = concat_text(label, " ");
                self.kv_cache_result = Some(concat_text(head.as_str(), x.as_str()));
                false
            },
            Some(Err(e)) => {
                self.kv_cache_result = Some(concat_text("\u{26a0} ", e.as_str()));
                false
            },
        }
    }
}

} // verus!
