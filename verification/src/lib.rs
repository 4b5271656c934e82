use vstd::prelude::*;

pub mod defaults;
pub mod devices;
pub mod gpu;
pub mod mcp;
pub mod panel;
pub mod search;
pub mod service;
pub mod session;
pub mod settings;
pub mod states;
pub mod text;

verus! {

/// The largest context, in units of 1024 tokens, that the settings offer.
pub const MAX_CONTEXT_K: usize = 1024;

/// A stored context size read back in units of 1024 tokens. Sizes are kept in
/// units of 1024 (`4` is 4096 tokens); older configuration files kept the raw
/// token count (`4096`). A value above `MAX_CONTEXT_K` can only be such a raw
/// count and is turned into units of 1024 (rounded down); the result is at
/// least one unit.
pub fn from_raw_or_k(v: usize) -> (r: usize)
    ensures
        r == (if v > MAX_CONTEXT_K {
            v / 1024
        } else if v >= 1 {
            v
        } else {
            1
        }),
{
    if v > MAX_CONTEXT_K {
        v / 1024
    } else if v >= 1 {
        v
    } else {
        1
    }
}

} // verus!
