//! Turning an untyped, keyed configuration value into a validated
//! [`Configuration`].

use vstd::prelude::*;
use vstd::string::*;

verus! {

/// Poll interval used when the configuration names none, in milliseconds.
pub const DEFAULT_POLL_INTERVAL_MILLIS: u32 = 100;

/// A scalar (or nested) value of an untyped configuration.
#[derive(Clone, Debug)]
pub enum ConfigValue {
    Null,
    Bool(bool),
    Text(String),
    U8(u8),
    U16(u16),
    U32(u32),
    /// A list or a nested mapping: never a valid value for a known key.
    Nested,
}

/// One key of a configuration mapping with its value.
#[derive(Clone, Debug)]
pub struct ConfigEntry {
    pub key: String,
    pub value: ConfigValue,
}

/// An untyped configuration as the host hands it over.
#[derive(Clone, Debug)]
pub enum Config {
    /// A mapping from keys to values; where a key occurs twice the first
    /// entry counts.
    Mapping(Vec<ConfigEntry>),
    /// Anything that is not a mapping.
    Value(ConfigValue),
}

/// A validated configuration of the port.
#[derive(Clone, Copy, Debug, PartialEq, Eq, Structural)]
pub struct Configuration {
    pub line_id: u16,
    pub poll_interval_millis: u32,
    pub simulate: bool,
}

/// Why a configuration was refused.
#[derive(Clone, Copy, Debug, PartialEq, Eq, Structural)]
pub enum ConfigError {
    NotAMapping,
    MissingLineId,
    InvalidLineId,
}

pub open spec fn line_id_key() -> Seq<char> {
    "line_id"@
}

pub open spec fn interval_millis_key() -> Seq<char> {
    "interval_millis"@
}

pub open spec fn poll_interval_key() -> Seq<char> {
    "poll_interval"@
}

pub open spec fn simulate_key() -> Seq<char> {
    "simulate"@
}

/// The value of the first entry with the given key.
pub open spec fn lookup(entries: Seq<ConfigEntry>, key: Seq<char>) -> Option<ConfigValue>
    decreases entries.len(),
{
    if entries.len() == 0 {
        None
    } else if entries[0].key@ == key {
        Some(entries[0].value)
    } else {
        lookup(entries.drop_first(), key)
    }
}

pub open spec fn line_id_of(v: Option<ConfigValue>) -> Result<u16, ConfigError> {
    match v {
        None => Err(ConfigError::MissingLineId),
        Some(ConfigValue::U8(n)) => Ok(n as u16),
        Some(ConfigValue::U16(n)) => Ok(n),
        Some(_) => Err(ConfigError::InvalidLineId),
    }
}

pub open spec fn interval_of(entries: Seq<ConfigEntry>) -> u32 {
    match lookup(entries, interval_millis_key()) {
        Some(ConfigValue::U32(n)) => n,
        _ => match lookup(entries, poll_interval_key()) {
            Some(ConfigValue::U32(n)) => n,
            _ => DEFAULT_POLL_INTERVAL_MILLIS,
        },
    }
}

pub open spec fn simulate_of(entries: Seq<ConfigEntry>) -> bool {
    match lookup(entries, simulate_key()) {
        Some(ConfigValue::Bool(b)) => b,
        _ => false,
    }
}

/// What extracting a configuration from `c` yields.
pub open spec fn spec_parse(c: Config) -> Result<Configuration, ConfigError> {
    match c {
        Config::Mapping(entries) => match line_id_of(lookup(entries@, line_id_key())) {
            Ok(line_id) => Ok(
                Configuration {
                    line_id,
                    poll_interval_millis: interval_of(entries@),
                    simulate: simulate_of(entries@),
                },
            ),
            Err(e) => Err(e),
        },
        Config::Value(_) => Err(ConfigError::NotAMapping),
    }
}

pub open spec fn deref_value(r: Option<&ConfigValue>) -> Option<ConfigValue> {
    match r {
        Some(v) => Some(*v),
        None => None,
    }
}

/// The first entry of `entries` whose key is `key`.
fn find<'a>(entries: &'a Vec<ConfigEntry>, key: &String) -> (r: Option<&'a ConfigValue>)
    ensures
        deref_value(r) == lookup(entries@, key@),
{
    let mut r: Option<&ConfigValue> = None;
    let mut i: usize = entries.len();
    while i > 0
        invariant
            i <= entries@.len(),
            deref_value(r) == lookup(entries@.subrange(i as int, entries@.len() as int), key@),
        decreases i,
    {
        i = i - 1;
        let ghost rest = entries@.subrange(i as int, entries@.len() as int);
        assert(rest.drop_first() =~= entries@.subrange(i + 1, entries@.len() as int));
        if entries[i].key == *key {
            r = Some(&entries[i].value);
        }
    }
    assert(entries@.subrange(0, entries@.len() as int) =~= entries@);
    r
}

/// Extracts the port's configuration: `line_id` (8 or 16 bits) is required,
/// `interval_millis` (or `poll_interval`) and `simulate` are optional and
/// default to 100 ms and `false`; a value of the wrong type for an optional
/// key counts as absent.
pub fn parse_config(c: &Config) -> (r: Result<Configuration, ConfigError>)
    ensures
        r == spec_parse(*c),
{
    match c {
        Config::Mapping(entries) => {
            let line_id: u16 = match find(entries, &String::from_str("line_id")) {
                None => {
                    return Err(ConfigError::MissingLineId);
                },
                Some(ConfigValue::U8(n)) => *n as u16,
                Some(ConfigValue::U16(n)) => *n,
                Some(_) => {
                    return Err(ConfigError::InvalidLineId);
                },
            };
            let poll_interval_millis: u32 = match find(entries, &String::from_str("interval_millis")) {
                Some(ConfigValue::U32(n)) => *n,
                _ => match find(entries, &String::from_str("poll_interval")) {
                    Some(ConfigValue::U32(n)) => *n,
                    _ => DEFAULT_POLL_INTERVAL_MILLIS,
                },
            };
            let simulate: bool = match find(entries, &String::from_str("simulate")) {
                Some(ConfigValue::Bool(b)) => *b,
                _ => false,
            };
            Ok(Configuration { line_id, poll_interval_millis, simulate })
        },
        Config::Value(_) => Err(ConfigError::NotAMapping),
    }
}

/// A mapping that supplies a valid `line_id` and neither a poll interval
/// nor a simulation flag yields a poll interval of 100 ms and no simulation.
pub proof fn lemma_defaults(entries: Vec<ConfigEntry>)
    requires
        line_id_of(lookup(entries@, line_id_key())) is Ok,
        lookup(entries@, interval_millis_key()) is None,
        lookup(entries@, poll_interval_key()) is None,
        lookup(entries@, simulate_key()) is None,
    ensures
        spec_parse(Config::Mapping(entries)) matches Ok(cfg) && cfg.poll_interval_millis == 100
            && !cfg.simulate,
{
}

} // verus!
