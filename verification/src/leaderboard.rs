//! Leaderboard query configuration: per-request form decoding with
//! backfilled defaults, count-only ordering comparisons, and the
//! default/max presets read from a TOML settings file.

use vstd::prelude::*;
use vstd::std_specs::cmp::PartialOrdSpec;
use toml::Value;
use crate::ordering::SolutionOrdering;

verus! {

/// Prefix of every message `LeaderboardSettings::from_toml_str` fails with.
pub const SETTINGS_PARSE_ERROR_PREFIX: &'static str = "Failed to parse leaderboard settings: ";

/// Whether a message begins with the settings parse-failure prefix.
pub open spec fn starts_with_parse_prefix(message: Seq<char>) -> bool {
    &&& message.len() >= SETTINGS_PARSE_ERROR_PREFIX@.len()
    &&& message.subrange(0, SETTINGS_PARSE_ERROR_PREFIX@.len() as int)
        == SETTINGS_PARSE_ERROR_PREFIX@
}

/// The view of an optional borrowed string.
pub open spec fn spec_opt_str_view(s: Option<&str>) -> Option<Seq<char>> {
    match s {
        Some(t) => Some(t@),
        None => None,
    }
}

/// Configuration of a leaderboard request.
#[derive(Clone, Copy, Debug, PartialEq, Eq, Structural, Hash)]
pub struct LeaderboardConfig {
    /// How many entries to return.
    pub count: usize,
    /// How to order the returned entries.
    pub ordering: SolutionOrdering,
}

impl LeaderboardConfig {
    /// Default no-spec return config.
    pub open spec fn spec_default_default() -> LeaderboardConfig {
        LeaderboardConfig { count: 10, ordering: SolutionOrdering::Default }
    }

    /// Default no-spec return config.
    pub fn default_default() -> (r: LeaderboardConfig)
        ensures
            r == Self::spec_default_default(),
    {
        LeaderboardConfig { count: 10, ordering: SolutionOrdering::Default }
    }

    /// Default maximal unexceedable return config.
    pub open spec fn spec_default_max() -> LeaderboardConfig {
        LeaderboardConfig { count: 42, ordering: SolutionOrdering::Default }
    }

    /// Default maximal unexceedable return config.
    pub fn default_max() -> (r: LeaderboardConfig)
        ensures
            r == Self::spec_default_max(),
    {
        LeaderboardConfig { count: 42, ordering: SolutionOrdering::Default }
    }

    /// The config a request's optional form fields decode to: each absent
    /// field falls back, independently of the other, to the corresponding
    /// field of the process-wide default config.
    pub open spec fn spec_from_form(
        count: Option<usize>,
        ordering: Option<SolutionOrdering>,
        default: LeaderboardConfig,
    ) -> LeaderboardConfig {
        LeaderboardConfig {
            count: match count {
                Some(c) => c,
                None => default.count,
            },
            ordering: match ordering {
                Some(o) => o,
                None => default.ordering,
            },
        }
    }

    /// Decode a request's optional form fields, backfilling each missing
    /// field independently from the process-wide default config.
    pub fn from_form(
        count: Option<usize>,
        ordering: Option<SolutionOrdering>,
        default: &LeaderboardConfig,
    ) -> (r: LeaderboardConfig)
        ensures
            r == Self::spec_from_form(count, ordering, *default),
            count is None && ordering is None ==> r == *default,
    {
        LeaderboardConfig {
            count: match count {
                Some(c) => c,
                None => default.count,
            },
            ordering: match ordering {
                Some(o) => o,
                None => default.ordering,
            },
        }
    }

    /// The config an integer `count` and a string `ordering` read from the
    /// settings file describe: both must be present, the count must fit a
    /// `usize`, and the ordering name must be recognized.
    pub open spec fn spec_from_fields(
        count: Option<i64>,
        ordering_name: Option<Seq<char>>,
    ) -> Option<LeaderboardConfig> {
        match (count, ordering_name) {
            (Some(c), Some(n)) => {
                if 0 <= c <= usize::MAX && SolutionOrdering::spec_from_name(n) is Some {
                    Some(
                        LeaderboardConfig {
                            count: c as usize,
                            ordering: SolutionOrdering::spec_from_name(n).unwrap(),
                        },
                    )
                } else {
                    None
                }
            },
            _ => None,
        }
    }

    /// Build a config out of the plain field values read from the settings
    /// file, exactly when both are present and valid.
    pub fn from_fields(count: Option<i64>, ordering_name: Option<&str>) -> (r: Option<
        LeaderboardConfig,
    >)
        ensures
            r == Self::spec_from_fields(count, spec_opt_str_view(ordering_name)),
    {
        let c = match count {
            Some(c) => c,
            None => return None,
        };
        let name = match ordering_name {
            Some(n) => n,
            None => return None,
        };
        if c < 0 {
            return None;
        }
        if (c as u64) > (usize::MAX as u64) {
            return None;
        }
        let ordering = match SolutionOrdering::from_name(name) {
            Some(o) => o,
            None => return None,
        };
        Some(LeaderboardConfig { count: c as usize, ordering })
    }
}

impl core::cmp::PartialOrd for LeaderboardConfig {
    /// Configs order by `count` alone; `ordering` plays no part here, which
    /// is deliberately asymmetric with equality, which looks at both fields.
    fn partial_cmp(&self, other: &LeaderboardConfig) -> (r: Option<core::cmp::Ordering>) {
        if self.count < other.count {
            Some(core::cmp::Ordering::Less)
        } else if self.count == other.count {
            Some(core::cmp::Ordering::Equal)
        } else {
            Some(core::cmp::Ordering::Greater)
        }
    }
}

impl vstd::std_specs::cmp::PartialOrdSpecImpl for LeaderboardConfig {
    open spec fn obeys_partial_cmp_spec() -> bool {
        true
    }

    open spec fn partial_cmp_spec(&self, other: &LeaderboardConfig) -> Option<core::cmp::Ordering> {
        if self.count < other.count {
            Some(core::cmp::Ordering::Less)
        } else if self.count == other.count {
            Some(core::cmp::Ordering::Equal)
        } else {
            Some(core::cmp::Ordering::Greater)
        }
    }
}

/// Ordering comparisons look at `count` alone while equality looks at both
/// fields: two configs with equal counts but different orderings compare as
/// neither less-than nor greater-than each other, yet are not equal.
pub proof fn lemma_comparison_ignores_ordering(a: LeaderboardConfig, b: LeaderboardConfig)
    requires
        a.count == b.count,
        a.ordering != b.ordering,
    ensures
        a.partial_cmp_spec(&b) != Some(core::cmp::Ordering::Less),
        a.partial_cmp_spec(&b) != Some(core::cmp::Ordering::Greater),
        b.partial_cmp_spec(&a) != Some(core::cmp::Ordering::Less),
        b.partial_cmp_spec(&a) != Some(core::cmp::Ordering::Greater),
        a != b,
{
}

/// An empty form decodes to the process-wide default exactly, both fields
/// backfilled, whatever that default is configured to be.
pub proof fn lemma_empty_form_decodes_to_default(default: LeaderboardConfig)
    ensures
        LeaderboardConfig::spec_from_form(None, None, default) == default,
{
}

/// Amalgam of max and default leaderboard configurations.
#[derive(Clone, Copy, Debug, PartialEq, Eq, Structural, Hash)]
pub struct LeaderboardSettings {
    /// Default config to backfill from.
    pub default: LeaderboardConfig,
    /// Unexceedable config.
    pub max: LeaderboardConfig,
}

/// The four fields a leaderboard-settings document carries — the `count`
/// integer and `ordering` string of its `default` table, then of its `max`
/// table — or nothing when the text is not a TOML document supplying all
/// four. A function of the text alone, realised by the trusted extraction
/// below.
pub uninterp spec fn toml_settings_fields_of(text: Seq<char>) -> Option<
    (i64, Seq<char>, i64, Seq<char>),
>;

/// Relies on `toml::from_str::<toml::Value>` and `toml::Value`'s `get`,
/// `as_integer` and `as_str`: parses the text and extracts the four
/// settings fields, named `toml_settings_fields_of`. `Err` carries toml's
/// raw diagnostic when the text is no TOML document; `Ok(None)` stands for a
/// document that does not supply all four fields.
#[verifier::external_body]
fn extract_settings_fields(text: &str) -> (r: Result<Option<(i64, String, i64, String)>, String>)
    ensures
        r matches Ok(Some(f)) ==> toml_settings_fields_of(text@) == Some((f.0, f.1@, f.2, f.3@)),
        r matches Ok(None) ==> toml_settings_fields_of(text@) is None,
        r is Err ==> toml_settings_fields_of(text@) is None,
{
    let doc: Value = match toml::from_str(text) {
        Ok(d) => d,
        Err(e) => return Err(e.to_string()),
    };
    let f = |t: &str, k: &str| doc.get(t).and_then(|v| v.get(k));
    match (
        f("default", "count").and_then(Value::as_integer),
        f("default", "ordering").and_then(Value::as_str),
        f("max", "count").and_then(Value::as_integer),
        f("max", "ordering").and_then(Value::as_str),
    ) {
        (Some(a), Some(b), Some(c), Some(d)) => Ok(Some((a, b.to_string(), c, d.to_string()))),
        _ => Ok(None),
    }
}

fn prefixed_parse_error(detail: &str) -> (r: String)
    ensures
        starts_with_parse_prefix(r@),
{
    let mut message = SETTINGS_PARSE_ERROR_PREFIX.to_owned();
    message.append(detail);
    proof {
        assert(message@.subrange(0, SETTINGS_PARSE_ERROR_PREFIX@.len() as int)
            =~= SETTINGS_PARSE_ERROR_PREFIX@);
    }
    message
}

impl LeaderboardSettings {
    /// Parse settings-file text: a TOML document whose `default` and `max`
    /// tables each carry an integer `count` and a recognized string
    /// `ordering`.
    ///
    /// Succeeds exactly when the document supplies all four fields and both
    /// pairs are valid, and then returns them verbatim. No partial settings
    /// are ever produced: any failure is reported as a message beginning
    /// with the settings parse-failure prefix.
    pub fn from_toml_str(text: &str) -> (r: Result<LeaderboardSettings, String>)
        ensures
            r matches Err(e) ==> starts_with_parse_prefix(e@),
            r matches Ok(s) ==> (toml_settings_fields_of(text@) matches Some(f)
                && LeaderboardConfig::spec_from_fields(Some(f.0), Some(f.1)) == Some(s.default)
                && LeaderboardConfig::spec_from_fields(Some(f.2), Some(f.3)) == Some(s.max)),
            r is Ok <==> (toml_settings_fields_of(text@) matches Some(f)
                && LeaderboardConfig::spec_from_fields(Some(f.0), Some(f.1)) is Some
                && LeaderboardConfig::spec_from_fields(Some(f.2), Some(f.3)) is Some),
    {
        let fields = match extract_settings_fields(text) {
            Ok(f) => f,
            Err(diagnostic) => return Err(prefixed_parse_error(diagnostic.as_str())),
        };
        let f = match fields {
            Some(f) => f,
            None => return Err(prefixed_parse_error("missing or invalid key")),
        };
        let default = match LeaderboardConfig::from_fields(Some(f.0), Some(f.1.as_str())) {
            Some(c) => c,
            None => return Err(prefixed_parse_error("missing or invalid key")),
        };
        let max = match LeaderboardConfig::from_fields(Some(f.2), Some(f.3.as_str())) {
            Some(c) => c,
            None => return Err(prefixed_parse_error("missing or invalid key")),
        };
        Ok(LeaderboardSettings { default, max })
    }
}

} // verus!
