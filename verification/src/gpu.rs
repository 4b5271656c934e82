use vstd::prelude::*;

use crate::text::{
    chars_of, decimal, decimal_string, parse_usize, parse_usize_spec, same_chars, trim, trim_end,
    trim_start, trimmed_chars,
};

verus! {

/// How many model layers are offloaded to the GPU (`--gpu-layers`).
#[derive(Debug, Clone, Copy, PartialEq, Eq, Structural)]
pub enum GpuLayersMode {
    /// Let llama-server decide.
    Auto,
    /// Offload every layer.
    All,
    /// Offload exactly this many layers.
    Manual(usize),
}

/// How a `GpuLayersMode` is written into a configuration file: the two named
/// modes as text, a layer count as a number.
#[derive(Debug, Clone, PartialEq, Eq)]
pub enum GpuLayersRepr {
    Text(String),
    Number(usize),
}

/// The value of the `--gpu-layers` argument: `-1` for automatic, `256` for
/// every layer, otherwise the layer count in decimal.
pub open spec fn gpu_layers_arg(m: GpuLayersMode) -> Seq<char> {
    match m {
        GpuLayersMode::Auto => "-1"@,
        GpuLayersMode::All => "256"@,
        GpuLayersMode::Manual(n) => decimal(n as nat),
    }
}

/// The mode that a textual configuration value stands for: surrounding white
/// space is ignored; `auto` and `-1` mean automatic, `all` and `999` mean every
/// layer, and any other decimal count is a manual layer count.
pub open spec fn gpu_layers_from_text_spec(s: Seq<char>) -> Option<GpuLayersMode> {
    let t = trim(s);
    if t == "auto"@ || t == "-1"@ {
        Some(GpuLayersMode::Auto)
    } else if t == "all"@ || t == "999"@ {
        Some(GpuLayersMode::All)
    } else {
        match parse_usize_spec(t) {
            Some(n) => Some(GpuLayersMode::Manual(n)),
            None => None,
        }
    }
}

impl GpuLayersMode {
    /// The `--gpu-layers` argument for this mode.
    pub fn to_arg(&self) -> (s: String)
        ensures
            s@ == gpu_layers_arg(*self),
    {
        match self {
            GpuLayersMode::Auto => "-1".to_string(),
            GpuLayersMode::All => "256".to_string(),
            GpuLayersMode::Manual(n) => decimal_string(*n),
        }
    }

    /// How this mode is written into a configuration file.
    pub fn to_repr(&self) -> (r: GpuLayersRepr)
        ensures
            match *self {
                GpuLayersMode::Auto => r matches GpuLayersRepr::Text(t) && t@ == "auto"@,
                GpuLayersMode::All => r matches GpuLayersRepr::Text(t) && t@ == "all"@,
                GpuLayersMode::Manual(n) => r == GpuLayersRepr::Number(n),
            },
    {
        match self {
            GpuLayersMode::Auto => GpuLayersRepr::Text("auto".to_string()),
            GpuLayersMode::All => GpuLayersRepr::Text("all".to_string()),
            GpuLayersMode::Manual(n) => GpuLayersRepr::Number(*n),
        }
    }

    /// Reads a textual configuration value; `None` when the text names no mode.
    pub fn from_text(value: &str) -> (r: Option<GpuLayersMode>)
        ensures
            r == gpu_layers_from_text_spec(value@),
    {
        let t = trimmed_chars(value);
        if same_chars(&t, &chars_of("auto")) || same_chars(&t, &chars_of("-1")) {
            Some(GpuLayersMode::Auto)
        } else if same_chars(&t, &chars_of("all")) || same_chars(&t, &chars_of("999")) {
            Some(GpuLayersMode::All)
        } else {
            match parse_usize(&t) {
                Some(n) => Some(GpuLayersMode::Manual(n)),
                None => None,
            }
        }
    }

    /// Reads a non-negative numeric configuration value: always a manual count.
    pub fn from_unsigned(v: u64) -> (r: GpuLayersMode)
        ensures
            r == GpuLayersMode::Manual(v as usize),
    {
        GpuLayersMode::Manual(v as usize)
    }

    /// Reads a signed numeric configuration value: `-1` means automatic, `999`
    /// every layer, anything else a manual count converted with `as usize`.
    pub fn from_signed(v: i64) -> (r: GpuLayersMode)
        ensures
            r == (if v == -1 {
                GpuLayersMode::Auto
            } else if v == 999 {
                GpuLayersMode::All
            } else {
                GpuLayersMode::Manual(v as usize)
            }),
    {
        if v == -1 {
            GpuLayersMode::Auto
        } else if v == 999 {
            GpuLayersMode::All
        } else {
            GpuLayersMode::Manual(v as usize)
        }
    }
}

/// A mode written into a configuration file reads back as the same mode: the
/// texts `auto` and `all` name the two named modes, and a manual count is
/// written as a number that is read back unchanged.
pub proof fn lemma_written_mode_reads_back(m: GpuLayersMode)
    ensures
        match m {
            GpuLayersMode::Auto => gpu_layers_from_text_spec("auto"@) == Some(GpuLayersMode::Auto),
            GpuLayersMode::All => gpu_layers_from_text_spec("all"@) == Some(GpuLayersMode::All),
            GpuLayersMode::Manual(n) => GpuLayersMode::Manual((n as u64) as usize) == m,
        },
{
    reveal_strlit("auto");
    reveal_strlit("all");
    reveal_strlit("-1");
    let a = "auto"@;
    let l = "all"@;
    assert(trim_start(a) == a);
    assert(trim_end(a) == a);
    assert(trim_start(l) == l);
    assert(trim_end(l) == l);
    assert(a != "-1"@);
}

/// The `--gpu-layers` argument of a manual count parses back to that count.
pub proof fn lemma_manual_arg_parses_back(n: usize)
    ensures
        parse_usize_spec(gpu_layers_arg(GpuLayersMode::Manual(n))) == Some(n),
{
    crate::text::lemma_decimal_parses_back(n);
}

// ---------------------------------------------------------------------------
// The row of the settings panel that switches between the modes.
// ---------------------------------------------------------------------------

/// The layer count the panel shows for a mode: 0 for automatic, 256 for
/// every layer, the count of a manual mode.
pub open spec fn shown_layers_spec(m: GpuLayersMode) -> usize {
    match m {
        GpuLayersMode::Auto => 0,
        GpuLayersMode::All => 256,
        GpuLayersMode::Manual(n) => n,
    }
}

/// The segment of a mode in the row: 0 automatic, 1 every layer, 2 manual.
pub open spec fn mode_segment_spec(m: GpuLayersMode) -> usize {
    match m {
        GpuLayersMode::Auto => 0,
        GpuLayersMode::All => 1,
        GpuLayersMode::Manual(_) => 2,
    }
}

/// The mode once segment `segment` is chosen in the row: the manual segment
/// keeps the layer count shown so far; a segment number outside the row
/// leaves the mode as it is.
pub open spec fn with_segment_spec(m: GpuLayersMode, segment: usize) -> GpuLayersMode {
    if segment == 0 {
        GpuLayersMode::Auto
    } else if segment == 1 {
        GpuLayersMode::All
    } else if segment == 2 {
        GpuLayersMode::Manual(shown_layers_spec(m))
    } else {
        m
    }
}

impl GpuLayersMode {
    pub fn shown_layers(&self) -> (n: usize)
        ensures
            n == shown_layers_spec(*self),
    {
        match self {
            GpuLayersMode::Auto => 0,
            GpuLayersMode::All => 256,
            GpuLayersMode::Manual(n) => *n,
        }
    }

    pub fn mode_segment(&self) -> (k: usize)
        ensures
            k == mode_segment_spec(*self),
    {
        match self {
            GpuLayersMode::Auto => 0,
            GpuLayersMode::All => 1,
            GpuLayersMode::Manual(_) => 2,
        }
    }

    pub fn with_segment(&self, segment: usize) -> (r: GpuLayersMode)
        ensures
            r == with_segment_spec(*self, segment),
    {
        if segment == 0 {
            GpuLayersMode::Auto
        } else if segment == 1 {
            GpuLayersMode::All
        } else if segment == 2 {
            GpuLayersMode::Manual(self.shown_layers())
        } else {
            *self
        }
    }
}

/// Showing the row without choosing another segment keeps the mode, and
/// switching to the manual segment starts from the layer count shown.
pub proof fn lemma_mode_row_keeps_mode(m: GpuLayersMode)
    ensures
        with_segment_spec(m, mode_segment_spec(m)) == m,
        with_segment_spec(m, 2) == GpuLayersMode::Manual(shown_layers_spec(m)),
{
}

} // verus!
