use vstd::prelude::*;

verus! {

#[verifier::external_type_specification]
#[verifier::external_body]
#[verifier::reject_recursive_types(K)]
#[verifier::reject_recursive_types(V)]
pub struct ExTomlMap<K, V>(toml::map::Map<K, V>);

#[verifier::external_type_specification]
#[verifier::external_body]
pub struct ExTomlValue(toml::Value);

/// The string-valued entries of a TOML table: each key of the table is in
/// the map's domain, bound to its text when the entry is a TOML string and
/// to `None` when it is of any other type.
pub uninterp spec fn table_str_entries(t: toml::Table) -> Map<Seq<char>, Option<Seq<char>>>;

/// The string-valued entries of the sub-table of `t` at `key`, or `None`
/// when `t` has no entry at `key` or that entry is not a table.
pub uninterp spec fn table_sub_entries(t: toml::Table, key: Seq<char>) -> Option<
    Map<Seq<char>, Option<Seq<char>>>,
>;

/// Whether `s` is a well-formed TOML document.
pub uninterp spec fn toml_parses(s: Seq<char>) -> bool;

/// The string-valued entries of the table at key `section` of the TOML
/// document `s`, or `None` when `s` does not parse, has no such key, or
/// holds something other than a table there.
pub uninterp spec fn toml_section_entries(s: Seq<char>, section: Seq<char>) -> Option<
    Map<Seq<char>, Option<Seq<char>>>,
>;

/// Relies on `str::parse` with `toml::Table`'s `FromStr`: whether the text
/// parses, and what the parsed document holds, depend on the text alone.
#[verifier::external_body]
fn parse_table(content: &str) -> (r: Option<toml::Table>)
    ensures
        (r is Some) == toml_parses(content@),
        r matches Some(t) ==> forall|sec: Seq<char>|
            #[trigger] table_sub_entries(t, sec) == toml_section_entries(content@, sec),
{
    content.parse::<toml::Table>().ok()
}

/// Relies on `toml::map::Map::get` and `toml::Value::as_table`: returns the
/// entry of `t` at `key` exactly when there is one and it is a table.
#[verifier::external_body]
fn table_get_table<'a>(t: &'a toml::Table, key: &str) -> (r: Option<&'a toml::Table>)
    ensures
        match r {
            Some(sub) => table_sub_entries(*t, key@) == Some(table_str_entries(*sub)),
            None => table_sub_entries(*t, key@) is None,
        },
{
    match t.get(key) {
        Some(v) => v.as_table(),
        None => None,
    }
}

/// Relies on `toml::map::Map::get` and `toml::Value::as_str`: returns the
/// entry of `t` at `key` exactly when there is one and it is a string.
#[verifier::external_body]
fn table_get_str<'a>(t: &'a toml::Table, key: &str) -> (r: Option<&'a str>)
    ensures
        match r {
            Some(s) => table_str_entries(*t).contains_key(key@) && table_str_entries(*t)[key@]
                == Some(s@),
            None => !(table_str_entries(*t).contains_key(key@) && table_str_entries(*t)[key@]
                is Some),
        },
{
    match t.get(key) {
        Some(v) => v.as_str(),
        None => None,
    }
}

/// Relies on `toml::map::Map::clone`: the copy holds the same entries.
#[verifier::external_body]
fn clone_table(t: &toml::Table) -> (r: toml::Table)
    ensures
        table_str_entries(r) == table_str_entries(*t),
{
    t.clone()
}

/// Glyph and style overrides read from the user's configuration, one
/// namespace per field: application glyphs keyed by application identifier,
/// markup style attributes keyed by label part, layout and status glyphs
/// keyed by layout category. A missing namespace, a missing key, or a
/// non-string entry falls back to the built-in default for that key.
pub struct Config {
    pub applications: Option<toml::Table>,
    pub styles: Option<toml::Table>,
    pub icons: Option<toml::Table>,
}

/// The mathematical content of a `Config`: the string entries of each
/// namespace, where the namespace is present.
pub ghost struct ConfigView {
    pub applications: Option<Map<Seq<char>, Option<Seq<char>>>>,
    pub styles: Option<Map<Seq<char>, Option<Seq<char>>>>,
    pub icons: Option<Map<Seq<char>, Option<Seq<char>>>>,
}

/// The string entries of an optional namespace table.
pub open spec fn opt_table_view(t: Option<toml::Table>) -> Option<
    Map<Seq<char>, Option<Seq<char>>>,
> {
    match t {
        Some(tab) => Some(table_str_entries(tab)),
        None => None,
    }
}

impl View for Config {
    type V = ConfigView;

    open spec fn view(&self) -> ConfigView {
        ConfigView {
            applications: opt_table_view(self.applications),
            styles: opt_table_view(self.styles),
            icons: opt_table_view(self.icons),
        }
    }
}

impl Default for Config {
    /// A configuration with no overrides: every lookup falls back to its
    /// built-in default.
    fn default() -> (c: Config)
        ensures
            c@.applications is None,
            c@.styles is None,
            c@.icons is None,
    {
        Config { applications: None, styles: None, icons: None }
    }
}

/// The override bound to `key` in the namespace `table`, or `alt` when the
/// namespace is absent, the key is absent, or the entry is not a string.
pub open spec fn spec_lookup(
    table: Option<Map<Seq<char>, Option<Seq<char>>>>,
    key: Seq<char>,
    alt: Seq<char>,
) -> Seq<char> {
    match table {
        Some(m) => if m.contains_key(key) && m[key] is Some {
            m[key]->Some_0
        } else {
            alt
        },
        None => alt,
    }
}

/// Looks `key` up in one override namespace, falling back to the built-in
/// default `alt`.
pub fn lookup<'a>(table: &'a Option<toml::Table>, key: &str, alt: &'a str) -> (r: &'a str)
    ensures
        r@ == spec_lookup(opt_table_view(*table), key@, alt@),
{
    match table {
        Some(t) => match table_get_str(t, key) {
            Some(s) => s,
            None => alt,
        },
        None => alt,
    }
}

/// Reads the three override namespaces out of the text of a configuration
/// file. Returns `None` exactly when the text is not well-formed TOML; a
/// missing namespace is simply left empty.
pub fn parse_config(content: &str) -> (r: Option<Config>)
    ensures
        (r is Some) == toml_parses(content@),
        r matches Some(c) ==> c@.applications == toml_section_entries(content@, "applications"@)
            && c@.styles == toml_section_entries(content@, "styles"@) && c@.icons
            == toml_section_entries(content@, "icons"@),
{
    let doc = match parse_table(content) {
        Some(d) => d,
        None => {
            return None;
        },
    };
    let applications: Option<toml::Table> = match table_get_table(&doc, "applications") {
        Some(t) => Some(clone_table(t)),
        None => None,
    };
    let styles: Option<toml::Table> = match table_get_table(&doc, "styles") {
        Some(t) => Some(clone_table(t)),
        None => None,
    };
    let icons: Option<toml::Table> = match table_get_table(&doc, "icons") {
        Some(t) => Some(clone_table(t)),
        None => None,
    };
    Some(Config { applications, styles, icons })
}

} // verus!
