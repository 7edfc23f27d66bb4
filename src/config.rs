use vstd::prelude::*;

verus! {

#[verifier::external_type_specification]
#[verifier::external_body]
pub struct ExTomlValue(toml::Value);

#[verifier::external_type_specification]
#[verifier::external_body]
#[verifier::reject_recursive_types(K)]
#[verifier::reject_recursive_types(V)]
pub struct ExTomlMap<K, V>(toml::map::Map<K, V>);

#[verifier::external_type_specification]
#[verifier::external_body]
pub struct ExTomlError(toml::de::Error);

/// The table that the TOML parser reads from a document, or `None` where it
/// rejects the text.
pub uninterp spec fn toml_table_of(text: Seq<char>) -> Option<toml::Table>;

/// The entries of a TOML table, by key.
pub uninterp spec fn table_entries(t: toml::Table) -> Map<Seq<char>, toml::Value>;

/// The table that a TOML value holds, if it is a table.
pub uninterp spec fn value_table(v: toml::Value) -> Option<toml::Table>;

/// The text that a TOML value holds, if it is a string.
pub uninterp spec fn value_str(v: toml::Value) -> Option<Seq<char>>;

/// Relies on `toml::from_str` into a `toml::Table`: it parses a whole TOML
/// document, and its outcome depends on the text alone.
#[verifier::external_body]
fn parse_table(text: &str) -> (r: Result<toml::Table, toml::de::Error>)
    ensures
        r is Ok <==> toml_table_of(text@) is Some,
        r is Ok ==> r->Ok_0 == toml_table_of(text@)->Some_0,
{
    toml::from_str::<toml::Table>(text)
}

/// Relies on `toml::map::Map::get`: the value stored under a key, if any.
#[verifier::external_body]
fn table_get<'a>(t: &'a toml::Table, key: &str) -> (r: Option<&'a toml::Value>)
    ensures
        r is Some <==> table_entries(*t).contains_key(key@),
        r is Some ==> *r->Some_0 == table_entries(*t)[key@],
{
    t.get(key)
}

/// Relies on `toml::Value::as_table`: the table inside a table value.
#[verifier::external_body]
fn as_table(v: &toml::Value) -> (r: Option<&toml::Table>)
    ensures
        r is Some <==> value_table(*v) is Some,
        r is Some ==> *r->Some_0 == value_table(*v)->Some_0,
{
    v.as_table()
}

/// Relies on `toml::Value::as_str`: the text inside a string value.
#[verifier::external_body]
fn as_str(v: &toml::Value) -> (r: Option<&str>)
    ensures
        r is Some <==> value_str(*v) is Some,
        r is Some ==> r->Some_0@ == value_str(*v)->Some_0,
{
    v.as_str()
}

/// Relies on the `Display` of `toml::de::Error`: a readable message.
#[verifier::external_body]
fn error_message(e: &toml::de::Error) -> (r: String) {
    e.to_string()
}

/// The three paths that the launcher works with.
#[derive(Clone, Debug)]
pub struct LaunchConfig {
    /// The program to start.
    pub executable: String,
    /// The DLL's live name: present when the mod is enabled.
    pub active_dll: String,
    /// The DLL's other name: present when the mod is disabled.
    pub disabled_dll: String,
}

/// Why no configuration could be had.
#[derive(Clone, Debug)]
pub enum ConfigError {
    /// The file could not be read; the message says why.
    Unreadable(String),
    /// The text is not a TOML document; the message says where.
    Syntax(String),
    /// The document has no `paths` table.
    MissingSection,
    /// The `paths` table lacks the named key, or it is not a string.
    MissingKey(String),
}

/// The `paths` table of a document, if it parses and has one.
pub open spec fn section_of(text: Seq<char>) -> Option<toml::Table> {
    match toml_table_of(text) {
        Some(doc) => if table_entries(doc).contains_key("paths"@) {
            value_table(table_entries(doc)["paths"@])
        } else {
            None
        },
        None => None,
    }
}

/// The string stored under `key` in a table, if there is one.
pub open spec fn string_field(t: toml::Table, key: Seq<char>) -> Option<Seq<char>> {
    if table_entries(t).contains_key(key) {
        value_str(table_entries(t)[key])
    } else {
        None
    }
}

/// The key of the executable's path.
pub open spec fn executable_key() -> Seq<char> {
    "limbus"@
}

/// The key of the DLL's live name.
pub open spec fn active_key() -> Seq<char> {
    "winhttp"@
}

/// The key of the DLL's disabled name.
pub open spec fn disabled_key() -> Seq<char> {
    "renamed"@
}

/// Reads one string key of the `paths` table.
fn required_string(section: &toml::Table, key: &str) -> (r: Result<String, ConfigError>)
    ensures
        string_field(*section, key@) is Some ==> (r matches Ok(s) && s@ == string_field(
            *section,
            key@,
        )->Some_0),
        string_field(*section, key@) is None ==> (r matches Err(ConfigError::MissingKey(k))
            && k@ == key@),
{
    match table_get(section, key) {
        Some(v) => match as_str(v) {
            Some(s) => Ok(s.to_owned()),
            None => Err(ConfigError::MissingKey(key.to_owned())),
        },
        None => Err(ConfigError::MissingKey(key.to_owned())),
    }
}

/// Parses the configuration document: a `paths` table with the string keys
/// `limbus` (the executable), `winhttp` (the DLL's live name) and `renamed`
/// (its disabled name). All three are required; there are no defaults.
/// Where several are wrong, the first in that order is reported.
pub fn parse_config(text: &str) -> (r: Result<LaunchConfig, ConfigError>)
    ensures
        toml_table_of(text@) is None <==> r matches Err(ConfigError::Syntax(_)),
        toml_table_of(text@) is Some && section_of(text@) is None <==> r matches Err(
            ConfigError::MissingSection,
        ),
        section_of(text@) matches Some(sec) ==> {
            let exe = string_field(sec, executable_key());
            let act = string_field(sec, active_key());
            let dis = string_field(sec, disabled_key());
            &&& exe is None ==> (r matches Err(ConfigError::MissingKey(k)) && k@
                == executable_key())
            &&& exe is Some && act is None ==> (r matches Err(ConfigError::MissingKey(k)) && k@
                == active_key())
            &&& exe is Some && act is Some && dis is None ==> (r matches Err(
                ConfigError::MissingKey(k),
            ) && k@ == disabled_key())
            &&& exe is Some && act is Some && dis is Some ==> (r matches Ok(c) && c.executable@
                == exe->Some_0 && c.active_dll@ == act->Some_0 && c.disabled_dll@
                == dis->Some_0)
        },
{
    let doc = match parse_table(text) {
        Ok(t) => t,
        Err(e) => {
            return Err(ConfigError::Syntax(error_message(&e)));
        },
    };
    let section = match table_get(&doc, "paths") {
        Some(v) => match as_table(v) {
            Some(t) => t,
            None => {
                return Err(ConfigError::MissingSection);
            },
        },
        None => {
            return Err(ConfigError::MissingSection);
        },
    };
    let executable = required_string(section, "limbus")?;
    let active_dll = required_string(section, "winhttp")?;
    let disabled_dll = required_string(section, "renamed")?;
    Ok(LaunchConfig { executable, active_dll, disabled_dll })
}

} // verus!
