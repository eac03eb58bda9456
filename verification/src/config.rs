//! The node's configuration: where its keypair and data live, its nick name
//! and the address it can be reached at.
//!
//! The configuration is kept as a YAML document at
//! `~/.config/doorbell/config/config.yml`. Reading and writing the file is
//! left to the caller: `load` takes the document's text and `save` gives it.

use vstd::prelude::*;
use crate::paths::{home_dir, push_component, pushed, pushed_extends, HomeDir};
use crate::websocket::{parse_url_parts, rewrite_url, websocket_target, websocket_url};
use crate::yaml::{
    emit_string_map, entries_view, parse_document, read_back_string_entries, read_struct, string_entries,
    strings_view, struct_from_document, yaml_document, yaml_emit, DocumentView, YamlDocument,
    extra_entries_are_skipped, skipped_entry, ItemView, fields_read_in_any_order, is_permutation, reordered,
};
pub use crate::yaml::{ConfigError, ConfigErrorKind};

verus! {

/// The node's configuration.
#[derive(Debug, PartialEq)]
pub struct Config {
    /// Where the node's signing keypair is stored.
    pub keypair_path: String,
    /// Where the node keeps its data.
    pub data_path: String,
    /// The node's nick name.
    pub nick_name: String,
    /// The address the node can be reached at.
    pub address: String,
}

/// The four fields of a configuration, in declaration order.
pub type ConfigFields = (Seq<char>, Seq<char>, Seq<char>, Seq<char>);

impl View for Config {
    type V = ConfigFields;

    open spec fn view(&self) -> ConfigFields {
        (self.keypair_path@, self.data_path@, self.nick_name@, self.address@)
    }
}

/// `~/.config/doorbell`, for the home directory `home`.
pub open spec fn doorbell_dir(home: Seq<char>) -> Seq<char> {
    pushed(pushed(home, ".config"@), "doorbell"@)
}

/// The default configuration for the home directory `home`.
pub open spec fn default_fields(home: Seq<char>) -> ConfigFields {
    (
        pushed(doorbell_dir(home), "id.json"@),
        pushed(doorbell_dir(home), "data"@),
        "no_123456"@,
        "127.0.0.1:9898"@,
    )
}

/// Where the configuration file lives, for the home directory `home`.
pub open spec fn config_file_in(home: Seq<char>) -> Seq<char> {
    pushed(pushed(doorbell_dir(home), "config"@), "config.yml"@)
}

/// The entries of the YAML document of a configuration, in field order.
pub open spec fn config_entries(v: ConfigFields) -> Seq<(Seq<char>, Seq<char>)> {
    seq![
        ("keypair_path"@, v.0),
        ("data_path"@, v.1),
        ("nick_name"@, v.2),
        ("address"@, v.3),
    ]
}

/// The names of the configuration's fields, in declaration order.
pub open spec fn config_field_names() -> Seq<Seq<char>> {
    seq!["keypair_path"@, "data_path"@, "nick_name"@, "address"@]
}

/// The configuration whose fields, in declaration order, are `values`.
pub open spec fn config_of_values(values: Seq<Seq<char>>) -> ConfigFields {
    (values[0], values[1], values[2], values[3])
}

/// What reading a configuration from the document `doc` gives.
pub open spec fn config_from_document(doc: DocumentView) -> Result<ConfigFields, ConfigErrorKind> {
    match struct_from_document(doc, config_field_names()) {
        Ok(values) => Ok(config_of_values(values)),
        Err(e) => Err(e),
    }
}

/// What loading the document `text` gives: the configuration, or why it
/// cannot be read.
pub open spec fn loaded(text: Seq<char>) -> Result<ConfigFields, ConfigErrorKind> {
    match yaml_document(text) {
        Err(e) => Err(ConfigErrorKind::Yaml(e)),
        Ok(doc) => config_from_document(doc),
    }
}

/// The result of an operation that yields a configuration, as the contracts see it.
pub open spec fn config_result_view(r: Result<Config, ConfigError>) -> Result<ConfigFields, ConfigErrorKind> {
    match r {
        Ok(c) => Ok(c@),
        Err(e) => Err(e.kind()),
    }
}

/// The path of the configuration file, for the home directory `home`.
pub fn config_file_for(home: &str) -> (path: String)
    ensures
        path@ == config_file_in(home@),
{
    let mut path = home.to_owned();
    push_component(&mut path, ".config");
    push_component(&mut path, "doorbell");
    push_component(&mut path, "config");
    push_component(&mut path, "config.yml");
    path
}

/// The path of the configuration file under the user's home directory:
/// `None` when there is no home directory.
pub fn config_file_in_home(home: &HomeDir) -> (r: Result<Option<String>, ConfigError>)
    ensures
        match home {
            HomeDir::Missing => r matches Ok(None),
            HomeDir::NotUtf8 => r matches Err(ConfigError::HomeDirNotUtf8),
            HomeDir::Found(h) => r matches Ok(Some(p)) && p@ == config_file_in(h@),
        },
{
    match home {
        HomeDir::Missing => Ok(None),
        HomeDir::NotUtf8 => Err(ConfigError::HomeDirNotUtf8),
        HomeDir::Found(h) => Ok(Some(config_file_for(h.as_str()))),
    }
}

/// The path of the configuration file of the current user.
pub fn config_file() -> (r: Result<Option<String>, ConfigError>)
    ensures
        r matches Ok(Some(p)) ==> exists|h: Seq<char>| p@ == config_file_in(h),
        r matches Err(e) ==> e is HomeDirNotUtf8,
{
    let home = home_dir();
    config_file_in_home(&home)
}

impl Config {
    /// The default configuration for the home directory `home`: keypair and
    /// data under `home/.config/doorbell`, nick name `no_123456`, address
    /// `127.0.0.1:9898`.
    pub fn default_for(home: &str) -> (c: Config)
        ensures
            c@ == default_fields(home@),
    {
        let mut keypair_path = home.to_owned();
        push_component(&mut keypair_path, ".config");
        push_component(&mut keypair_path, "doorbell");
        let mut data_path = keypair_path.clone();
        push_component(&mut keypair_path, "id.json");
        push_component(&mut data_path, "data");
        Config {
            keypair_path,
            data_path,
            nick_name: "no_123456".to_owned(),
            address: "127.0.0.1:9898".to_owned(),
        }
    }

    /// The default configuration under the user's home directory, which
    /// must have been found (and be valid UTF-8).
    pub fn default_in_home(home: &HomeDir) -> (c: Config)
        requires
            home is Found,
        ensures
            home matches HomeDir::Found(h) && c@ == default_fields(h@),
    {
        match home {
            HomeDir::Found(h) => Config::default_for(h.as_str()),
            _ => vstd::pervasive::unreached(),
        }
    }

    /// The default configuration of the current user; an error where there
    /// is no home directory or its path is not valid UTF-8.
    pub fn try_default() -> (r: Result<Config, ConfigError>)
        ensures
            r matches Ok(c) ==> exists|h: Seq<char>| c@ == default_fields(h),
            r matches Err(e) ==> e is NoHomeDir || e is HomeDirNotUtf8,
    {
        let home = home_dir();
        match home {
            HomeDir::Missing => Err(ConfigError::NoHomeDir),
            HomeDir::NotUtf8 => Err(ConfigError::HomeDirNotUtf8),
            HomeDir::Found(_) => Ok(Config::default_in_home(&home)),
        }
    }

    /// Reads a configuration from the text of its YAML document.
    ///
    /// Entries for other fields are skipped, whatever they hold.
    pub fn load(config_text: &str) -> (r: Result<Config, ConfigError>)
        ensures
            config_result_view(r) == loaded(config_text@),
    {
        match parse_document(config_text) {
            Ok(doc) => Config::from_document(&doc),
            Err(e) => Err(ConfigError::Yaml(e)),
        }
    }

    /// Reads a configuration from a parsed YAML document: from a mapping,
    /// each field takes the text of its value (see `item_text`) and other
    /// entries are skipped; from a sequence, the fields take the items in
    /// declaration order.
    pub fn from_document(doc: &YamlDocument) -> (r: Result<Config, ConfigError>)
        ensures
            config_result_view(r) == config_from_document(doc@),
    {
        let mut fields: Vec<String> = Vec::new();
        fields.push("keypair_path".to_owned());
        fields.push("data_path".to_owned());
        fields.push("nick_name".to_owned());
        fields.push("address".to_owned());
        proof {
            assert(strings_view(fields@) =~= config_field_names());
        }
        match read_struct(doc, &fields) {
            Err(e) => Err(e),
            Ok(values) => {
                let config = Config {
                    keypair_path: values[0].clone(),
                    data_path: values[1].clone(),
                    nick_name: values[2].clone(),
                    address: values[3].clone(),
                };
                proof {
                    assert(config@ == config_of_values(strings_view(values@)));
                }
                Ok(config)
            },
        }
    }

    /// The websocket URL that goes with the JSON-RPC URL `json_rpc_url`:
    /// `ws` for `wss` unless the scheme is `https`, and the explicit port,
    /// if any, one higher; the empty string if `json_rpc_url` is not a URL.
    pub fn compute_websocket_url(json_rpc_url: &str) -> (ws: String)
        requires
            websocket_url(json_rpc_url@) is Some,
        ensures
            ws@ == websocket_url(json_rpc_url@)->Some_0,
    {
        match parse_url_parts(json_rpc_url) {
            None => String::new(),
            Some((scheme, port)) => {
                let (ws_scheme, ws_port) = websocket_target(scheme.as_str(), port).unwrap();
                rewrite_url(json_rpc_url, ws_scheme, ws_port).unwrap()
            },
        }
    }

    /// `compute_websocket_url`, or `None` where it cannot be computed: the
    /// port is 65535, or the `url` crate refuses the websocket scheme or port.
    pub fn try_compute_websocket_url(json_rpc_url: &str) -> (r: Option<String>)
        ensures
            match r {
                Some(ws) => websocket_url(json_rpc_url@) == Some(ws@),
                None => websocket_url(json_rpc_url@) is None,
            },
    {
        match parse_url_parts(json_rpc_url) {
            None => Some(Config::compute_websocket_url(json_rpc_url)),
            Some((scheme, port)) => match websocket_target(scheme.as_str(), port) {
                None => None,
                Some((ws_scheme, ws_port)) => match rewrite_url(json_rpc_url, ws_scheme, ws_port) {
                    None => None,
                    Some(_) => Some(Config::compute_websocket_url(json_rpc_url)),
                },
            },
        }
    }

    /// The YAML document that stores this configuration, fields in
    /// declaration order.
    pub fn save(&self) -> (r: Result<String, ConfigError>)
        ensures
            match yaml_emit(config_entries(self@)) {
                Ok(t) => r matches Ok(s) && s@ == t,
                Err(e) => r matches Err(ConfigError::Yaml(m)) && m@ == e,
            },
    {
        let mut entries: Vec<(String, String)> = Vec::new();
        entries.push(("keypair_path".to_owned(), self.keypair_path.clone()));
        entries.push(("data_path".to_owned(), self.data_path.clone()));
        entries.push(("nick_name".to_owned(), self.nick_name.clone()));
        entries.push(("address".to_owned(), self.address.clone()));
        proof {
            assert(entries_view(entries@) =~= config_entries(self@));
        }
        match emit_string_map(&entries) {
            Ok(text) => Ok(text),
            Err(e) => Err(ConfigError::Yaml(e)),
        }
    }
}

/// A document whose mapping holds, as strings, the entries `save` writes
/// (in the order it writes them) reads back as the configuration that was saved.
pub proof fn load_reads_back_saved_fields(v: ConfigFields)
    ensures
        config_from_document(DocumentView::Mapping(string_entries(config_field_names(), seq![v.0, v.1, v.2, v.3])))
            == Ok::<_, ConfigErrorKind>(v),
{
    lemma_config_field_names_distinct();
    read_back_string_entries(config_field_names(), seq![v.0, v.1, v.2, v.3]);
}

proof fn lemma_config_field_names_distinct()
    ensures
        forall|i: int, j: int|
            0 <= i < j < config_field_names().len() ==> config_field_names()[i] != config_field_names()[j],
{
    reveal_strlit("keypair_path");
    reveal_strlit("data_path");
    reveal_strlit("nick_name");
    reveal_strlit("address");
    let names = config_field_names();
    assert("keypair_path"@.len() == 12 && "data_path"@.len() == 9);
    assert("nick_name"@.len() == 9 && "address"@.len() == 7);
    assert("data_path"@[0] != "nick_name"@[0]);
    assert forall|i: int, j: int| 0 <= i < j < names.len() implies names[i] != names[j] by {
        assert(names[i].len() != names[j].len() || names[i][0] != names[j][0]);
    }
}

/// The order of the entries does not matter: a mapping holding the four
/// fields as strings, in any order, reads back as the same configuration.
pub proof fn config_fields_read_in_any_order(v: ConfigFields, order: Seq<int>)
    requires
        is_permutation(order, 4),
    ensures
        config_from_document(
            DocumentView::Mapping(reordered(string_entries(config_field_names(), seq![v.0, v.1, v.2, v.3]), order)),
        ) == Ok::<_, ConfigErrorKind>(v),
{
    lemma_config_field_names_distinct();
    fields_read_in_any_order(config_field_names(), seq![v.0, v.1, v.2, v.3], order);
}

/// Entries for other keys, wherever they stand and whatever they hold,
/// leave the configuration read from a mapping unchanged.
pub proof fn config_ignores_other_keys(
    before: Seq<(ItemView, ItemView)>,
    extra: Seq<(ItemView, ItemView)>,
    after: Seq<(ItemView, ItemView)>,
)
    requires
        forall|i: int| 0 <= i < extra.len() ==> skipped_entry(#[trigger] extra[i], config_field_names()),
    ensures
        config_from_document(DocumentView::Mapping(before + extra + after)) == config_from_document(
            DocumentView::Mapping(before + after),
        ),
{
    extra_entries_are_skipped(before, extra, after, config_field_names());
}

/// Loading the text `save` wrote gives back the saved configuration,
/// provided `serde_yaml` reads that text back as the string mapping it
/// rendered (its own round trip, which its documentation does not state).
pub proof fn load_reads_back_what_save_writes(v: ConfigFields, text: Seq<char>)
    requires
        yaml_emit(config_entries(v)) == Ok::<_, Seq<char>>(text),
        yaml_document(text) == Ok::<_, Seq<char>>(
            DocumentView::Mapping(string_entries(config_field_names(), seq![v.0, v.1, v.2, v.3])),
        ),
    ensures
        loaded(text) == Ok::<_, ConfigErrorKind>(v),
{
    load_reads_back_saved_fields(v);
}

proof fn lemma_prefix_of_pushed(home: Seq<char>, path: Seq<char>, component: Seq<char>)
    requires
        home.is_prefix_of(path),
    ensures
        home.is_prefix_of(pushed(path, component)),
{
    pushed_extends(path, component);
    assert(home =~= pushed(path, component).subrange(0, home.len() as int));
}

/// The default keypair and data paths, and the configuration file, lie
/// under the home directory they are made for.
pub proof fn default_paths_lie_under_home(home: Seq<char>)
    ensures
        home.is_prefix_of(default_fields(home).0),
        home.is_prefix_of(default_fields(home).1),
        home.is_prefix_of(config_file_in(home)),
{
    pushed_extends(home, ".config"@);
    lemma_prefix_of_pushed(home, pushed(home, ".config"@), "doorbell"@);
    let dir = doorbell_dir(home);
    lemma_prefix_of_pushed(home, dir, "id.json"@);
    lemma_prefix_of_pushed(home, dir, "data"@);
    lemma_prefix_of_pushed(home, dir, "config"@);
    lemma_prefix_of_pushed(home, pushed(dir, "config"@), "config.yml"@);
}

} // verus!
