//! Configuration: the resolved record handed to the watcher before the
//! loop starts, its defaults, and the validation of overrides read from
//! a TOML configuration file.

use vstd::prelude::*;

use crate::text::str_eq;

verus! {

/// The database backend tag. Only sqlite exists; the field is carried
/// through for a downstream persistence stage and is not read by the
/// watcher itself.
#[derive(Clone, Copy, Debug, PartialEq, Eq, Structural)]
pub enum DatabaseType {
    Sqlite,
}

/// The process-wide configuration record, loaded once at startup and
/// read-only thereafter.
#[derive(Clone, Debug)]
pub struct Config {
    pub database_path: String,
    pub database_type: DatabaseType,
    pub sample_interval: u64,
}

/// A configuration file value, reduced to what the validation reads:
/// integers, strings, and everything else.
#[derive(Clone, Debug)]
pub enum ConfigValue {
    Integer(i64),
    Text(String),
    Other,
}

/// Why loading the configuration failed. Every one of these is fatal at
/// startup: the process refuses to start rather than run with a guessed
/// configuration.
#[derive(Clone, Debug)]
pub enum LoadConfigError {
    /// The configuration file could not be read.
    Io(String),
    /// No configuration directory could be resolved.
    ConfigDirError,
    /// A value in the file has the wrong shape; the detail says which.
    ParseError(String),
    /// The file is not well-formed TOML.
    TomlError(String),
}

/// A file name appended under a directory path, with a separator added
/// unless the directory already ends with one, as `PathBuf::join` does
/// with a relative name.
pub open spec fn join_spec(base: Seq<char>, name: Seq<char>) -> Seq<char> {
    if base.len() == 0 {
        name
    } else if base.last() == '/' {
        base + name
    } else {
        base + "/"@ + name
    }
}

/// Append a file name under a directory path.
pub fn join_path(base: &str, name: &str) -> (r: String)
    ensures
        r@ == join_spec(base@, name@),
{
    let len = base.unicode_len();
    if len == 0 {
        return name.to_owned();
    }
    let mut r = base.to_owned();
    if base.get_char(len - 1) != '/' {
        r.append("/");
    }
    r.append(name);
    r
}

/// The defaults: a database named `.timetrackd.db` under the home
/// directory, the sqlite backend, and a five-second sampling interval.
pub fn default_config(home: &str) -> (c: Config)
    ensures
        c.database_path@ == join_spec(home@, ".timetrackd.db"@),
        c.database_type == DatabaseType::Sqlite,
        c.sample_interval == 5,
{
    Config {
        database_path: join_path(home, ".timetrackd.db"),
        database_type: DatabaseType::Sqlite,
        sample_interval: 5,
    }
}

/// The name of the configuration file looked for under the
/// configuration directory.
pub fn config_file_name() -> (r: String)
    ensures
        r@ == "timetrackd.toml"@,
{
    "timetrackd.toml".to_owned()
}

/// The value under a key, first match first, as a table lookup finds
/// it; a parsed TOML table holds each key at most once.
pub open spec fn lookup_spec(entries: Seq<(String, ConfigValue)>, key: Seq<char>) -> Option<
    ConfigValue,
>
    decreases entries.len(),
{
    if entries.len() == 0 {
        None
    } else if entries[0].0@ == key {
        Some(entries[0].1)
    } else {
        lookup_spec(entries.drop_first(), key)
    }
}

proof fn lemma_lookup_at(entries: Seq<(String, ConfigValue)>, key: Seq<char>, i: int)
    requires
        0 <= i <= entries.len(),
        forall|j: int| 0 <= j < i ==> (#[trigger] entries[j]).0@ != key,
        i == entries.len() || entries[i].0@ == key,
    ensures
        lookup_spec(entries, key) == (if i == entries.len() {
            None
        } else {
            Some(entries[i].1)
        }),
    decreases i,
{
    if i == 0 {
    } else {
        let rest = entries.drop_first();
        assert(forall|j: int| 0 <= j < i - 1 ==> (#[trigger] rest[j]).0@ != key);
        lemma_lookup_at(rest, key, i - 1);
    }
}

/// Find the index of the first entry under a key.
fn find_key(entries: &Vec<(String, ConfigValue)>, key: &str) -> (r: Option<usize>)
    ensures
        match r {
            Some(i) => i < entries@.len() && lookup_spec(entries@, key@) == Some(
                entries@[i as int].1,
            ),
            None => lookup_spec(entries@, key@) is None,
        },
{
    let mut i: usize = 0;
    while i < entries.len()
        invariant
            0 <= i <= entries@.len(),
            forall|j: int| 0 <= j < i ==> (#[trigger] entries@[j]).0@ != key@,
        decreases entries@.len() - i,
    {
        if str_eq(entries[i].0.as_str(), key) {
            proof {
                lemma_lookup_at(entries@, key@, i as int);
            }
            return Some(i);
        }
        i = i + 1;
    }
    proof {
        lemma_lookup_at(entries@, key@, entries@.len() as int);
    }
    None
}

/// What `parse_u64` yields: configured intervals must be non-negative
/// integers, never silently coerced from anything else.
pub open spec fn parse_u64_spec(value: ConfigValue) -> Option<u64> {
    match value {
        ConfigValue::Integer(i) => if i >= 0 {
            Some(i as u64)
        } else {
            None
        },
        _ => None,
    }
}

/// Read a non-negative integer value; anything else is rejected.
pub fn parse_u64(value: &ConfigValue) -> (r: Option<u64>)
    ensures
        r == parse_u64_spec(*value),
{
    match value {
        ConfigValue::Integer(i) => {
            if *i >= 0 {
                Some(*i as u64)
            } else {
                None
            }
        },
        _ => None,
    }
}

/// Read a filesystem path value: any string; anything else is rejected.
pub fn parse_path(value: &ConfigValue) -> (r: Option<String>)
    ensures
        match *value {
            ConfigValue::Text(s) => r matches Some(p) && p@ == s@,
            _ => r is None,
        },
{
    match value {
        ConfigValue::Text(s) => Some(s.clone()),
        _ => None,
    }
}

/// What `parse_database_type` yields: only the string "sqlite" names a
/// backend.
pub open spec fn parse_database_type_spec(value: ConfigValue) -> Option<DatabaseType> {
    match value {
        ConfigValue::Text(s) => if s@ == "sqlite"@ {
            Some(DatabaseType::Sqlite)
        } else {
            None
        },
        _ => None,
    }
}

/// Read a database type value; anything but the string "sqlite" is
/// rejected.
pub fn parse_database_type(value: &ConfigValue) -> (r: Option<DatabaseType>)
    ensures
        r == parse_database_type_spec(*value),
{
    match value {
        ConfigValue::Text(s) => {
            if str_eq(s.as_str(), "sqlite") {
                Some(DatabaseType::Sqlite)
            } else {
                None
            }
        },
        _ => None,
    }
}

/// The message applying a parsed configuration file fails with, if it
/// fails: each optional key is validated in a fixed order, and a key
/// that is absent is simply left at its default.
pub open spec fn apply_error_spec(entries: Seq<(String, ConfigValue)>) -> Option<Seq<char>> {
    if !(match lookup_spec(entries, "sample_interval"@) {
        Some(v) => parse_u64_spec(v) is Some,
        None => true,
    }) {
        Some("sample_interval has to be a positive integer"@)
    } else if !(match lookup_spec(entries, "database_path"@) {
        Some(v) => v is Text,
        None => true,
    }) {
        Some("database_path must be a filesystem path"@)
    } else if !(match lookup_spec(entries, "database_type"@) {
        Some(v) => parse_database_type_spec(v) is Some,
        None => true,
    }) {
        Some("database_type must be 'sqlite'"@)
    } else {
        None
    }
}

/// How a successfully applied configuration relates to the defaults and
/// the file's entries: each field is overridden exactly when its key is
/// present.
pub open spec fn config_applied(c: Config, default: Config, entries: Seq<(String, ConfigValue)>) -> bool {
    &&& c.sample_interval == (match lookup_spec(entries, "sample_interval"@) {
        Some(v) => parse_u64_spec(v)->Some_0,
        None => default.sample_interval,
    })
    &&& c.database_path@ == (match lookup_spec(entries, "database_path"@) {
        Some(ConfigValue::Text(s)) => s@,
        _ => default.database_path@,
    })
    &&& c.database_type == (match lookup_spec(entries, "database_type"@) {
        Some(_) => DatabaseType::Sqlite,
        None => default.database_type,
    })
}

/// Apply a configuration file's entries on top of the defaults,
/// validating each key that is present.
pub fn apply_config(default: Config, entries: &Vec<(String, ConfigValue)>) -> (r: Result<
    Config,
    LoadConfigError,
>)
    ensures
        match apply_error_spec(entries@) {
            Some(msg) => r matches Err(LoadConfigError::ParseError(m)) && m@ == msg,
            None => r matches Ok(c) && config_applied(c, default, entries@),
        },
{
    let mut config = default;
    if let Some(i) = find_key(entries, "sample_interval") {
        match parse_u64(&entries[i].1) {
            Some(v) => {
                config.sample_interval = v;
            },
            None => {
                return Err(
                    LoadConfigError::ParseError(
                        "sample_interval has to be a positive integer".to_owned(),
                    ),
                );
            },
        }
    }
    if let Some(i) = find_key(entries, "database_path") {
        match parse_path(&entries[i].1) {
            Some(p) => {
                config.database_path = p;
            },
            None => {
                return Err(
                    LoadConfigError::ParseError(
                        "database_path must be a filesystem path".to_owned(),
                    ),
                );
            },
        }
    }
    if let Some(i) = find_key(entries, "database_type") {
        match parse_database_type(&entries[i].1) {
            Some(t) => {
                config.database_type = t;
            },
            None => {
                return Err(
                    LoadConfigError::ParseError("database_type must be 'sqlite'".to_owned()),
                );
            },
        }
    }
    Ok(config)
}

/// What a configuration file's text parses to, if it is well-formed
/// TOML: the entries of its top-level table, integer and string values
/// carried over and every other value kept as `Other`. The outcome is a
/// function of the text alone.
pub uninterp spec fn toml_entries_of(text: Seq<char>) -> Option<Seq<(String, ConfigValue)>>;

/// Relies on toml's `from_str::<Table>`: a document parses to its
/// top-level table exactly when it is well-formed TOML, and what the
/// table holds depends on the text alone.
#[verifier::external_body]
fn parse_toml_entries(text: &str) -> (r: Result<Vec<(String, ConfigValue)>, String>)
    ensures
        match r {
            Ok(entries) => toml_entries_of(text@) == Some(entries@),
            Err(_) => toml_entries_of(text@) is None,
        },
{
    match toml::from_str::<toml::Table>(text) {
        Ok(table) => Ok(
            table.into_iter().map(|pair: (String, toml::Value)| (pair.0, match pair.1 {
                toml::Value::Integer(i) => ConfigValue::Integer(i),
                toml::Value::String(s) => ConfigValue::Text(s),
                _ => ConfigValue::Other,
            })).collect(),
        ),
        Err(e) => Err(e.to_string()),
    }
}

/// Load the configuration from a configuration file's text: parse it as
/// TOML, then apply its entries on top of the defaults. Malformed text,
/// and any present key whose value has the wrong shape, is a load
/// error.
pub fn load_config(text: &str, default: Config) -> (r: Result<Config, LoadConfigError>)
    ensures
        match toml_entries_of(text@) {
            Some(entries) => match apply_error_spec(entries) {
                Some(msg) => r matches Err(LoadConfigError::ParseError(m)) && m@ == msg,
                None => r matches Ok(c) && config_applied(c, default, entries),
            },
            None => r matches Err(LoadConfigError::TomlError(_)),
        },
{
    match parse_toml_entries(text) {
        Ok(entries) => apply_config(default, &entries),
        Err(e) => Err(LoadConfigError::TomlError(e)),
    }
}

} // verus!
