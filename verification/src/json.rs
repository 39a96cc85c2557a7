//! The settings of JSON parsing and of partial validation.
use vstd::prelude::*;

verus! {

/// Whether incomplete input is accepted, and how.
#[derive(Debug, Clone, Copy, PartialEq, Eq, Structural)]
pub enum PartialMode {
    Off,
    On,
    TrailingStrings,
}

impl PartialMode {
    /// `On` for `true`, `Off` for `false`.
    pub fn from_bool(mode: bool) -> (res: PartialMode)
        ensures
            res == (if mode {
                PartialMode::On
            } else {
                PartialMode::Off
            }),
    {
        if mode {
            PartialMode::On
        } else {
            PartialMode::Off
        }
    }

    /// Any mode but `Off`.
    pub open spec fn spec_is_active(self) -> bool {
        self != PartialMode::Off
    }

    /// Whether incomplete input is accepted at all.
    #[verifier::when_used_as_spec(spec_is_active)]
    pub fn is_active(self) -> (res: bool)
        ensures
            res == self.spec_is_active(),
    {
        match self {
            PartialMode::Off => false,
            _ => true,
        }
    }
}

/// Which strings the parser caches.
#[derive(Debug, Clone, Copy, PartialEq, Eq, Structural)]
pub enum StringCacheMode {
    All,
    Keys,
    NoneCached,
}

/// How JSON numbers with a fraction or exponent are returned.
#[derive(Debug, Clone, Copy, PartialEq, Eq, Structural)]
pub enum FloatMode {
    Float,
    Decimal,
    LosslessFloat,
}

/// The settings of one JSON parse.
#[derive(Debug, Clone, Copy, PartialEq, Eq, Structural)]
pub struct JsonParseOptions {
    pub allow_inf_nan: bool,
    pub cache_mode: StringCacheMode,
    pub partial_mode: PartialMode,
    pub catch_duplicate_keys: bool,
    pub float_mode: FloatMode,
}

/// The settings with which `from_json` parses its input: the caller's
/// choices for infinities, string caching and partial input; duplicate keys
/// are not reported (the last one wins) and floats are returned as floats.
pub fn from_json_options(
    allow_inf_nan: bool,
    cache_strings: StringCacheMode,
    allow_partial: PartialMode,
) -> (res: JsonParseOptions)
    ensures
        res == (JsonParseOptions {
            allow_inf_nan,
            cache_mode: cache_strings,
            partial_mode: allow_partial,
            catch_duplicate_keys: false,
            float_mode: FloatMode::Float,
        }),
{
    JsonParseOptions {
        allow_inf_nan,
        cache_mode: cache_strings,
        partial_mode: allow_partial,
        catch_duplicate_keys: false,
        float_mode: FloatMode::Float,
    }
}

} // verus!
