//! The sniffing server's configuration: the address of its assistant.
//!
//! The configuration is a YAML document kept at
//! `~/.config/sniffer/config/config.yml`.

use vstd::prelude::*;
use crate::config::{ConfigError, ConfigErrorKind};
use crate::paths::{home_dir, push_component, pushed, HomeDir};
use crate::yaml::{
    parse_document, read_struct, strings_view, struct_from_document, yaml_document, DocumentView, YamlDocument,
    extra_entries_are_skipped, skipped_entry, ItemView,
};

verus! {

/// The sniffing server's configuration.
#[derive(Debug, PartialEq)]
pub struct Config {
    /// The IP address of the assistant host.
    pub assistant_ip: String,
}

/// Where the configuration file lives, for the home directory `home`.
pub open spec fn helper_config_file_in(home: Seq<char>) -> Seq<char> {
    pushed(pushed(pushed(pushed(home, ".config"@), "sniffer"@), "config"@), "config.yml"@)
}

/// What reading the sniffing server's configuration from `doc` gives: the
/// assistant's address, or why it cannot be read.
pub open spec fn helper_config_from_document(doc: DocumentView) -> Result<Seq<char>, ConfigErrorKind> {
    match struct_from_document(doc, seq!["assistant_ip"@]) {
        Ok(values) => Ok(values[0]),
        Err(e) => Err(e),
    }
}

/// Entries for other keys, wherever they stand and whatever they hold,
/// leave the assistant's address read from a mapping unchanged.
pub proof fn helper_config_ignores_other_keys(
    before: Seq<(ItemView, ItemView)>,
    extra: Seq<(ItemView, ItemView)>,
    after: Seq<(ItemView, ItemView)>,
)
    requires
        forall|i: int| 0 <= i < extra.len() ==> skipped_entry(#[trigger] extra[i], seq!["assistant_ip"@]),
    ensures
        helper_config_from_document(DocumentView::Mapping(before + extra + after))
            == helper_config_from_document(DocumentView::Mapping(before + after)),
{
    extra_entries_are_skipped(before, extra, after, seq!["assistant_ip"@]);
}

/// What loading the document `text` gives.
pub open spec fn helper_loaded(text: Seq<char>) -> Result<Seq<char>, ConfigErrorKind> {
    match yaml_document(text) {
        Err(e) => Err(ConfigErrorKind::Yaml(e)),
        Ok(doc) => helper_config_from_document(doc),
    }
}

/// The path of the configuration file, for the home directory `home`.
pub fn helper_config_file_for(home: &str) -> (path: String)
    ensures
        path@ == helper_config_file_in(home@),
{
    let mut path = home.to_owned();
    push_component(&mut path, ".config");
    push_component(&mut path, "sniffer");
    push_component(&mut path, "config");
    push_component(&mut path, "config.yml");
    path
}

/// The path of the configuration file under the user's home directory:
/// `None` when there is no home directory.
pub fn helper_config_file_in_home(home: &HomeDir) -> (r: Result<Option<String>, ConfigError>)
    ensures
        match home {
            HomeDir::Missing => r matches Ok(None),
            HomeDir::NotUtf8 => r matches Err(ConfigError::HomeDirNotUtf8),
            HomeDir::Found(h) => r matches Ok(Some(p)) && p@ == helper_config_file_in(h@),
        },
{
    match home {
        HomeDir::Missing => Ok(None),
        HomeDir::NotUtf8 => Err(ConfigError::HomeDirNotUtf8),
        HomeDir::Found(h) => Ok(Some(helper_config_file_for(h.as_str()))),
    }
}

/// The path of the configuration file of the current user.
pub fn helper_config_file() -> (r: Result<Option<String>, ConfigError>)
    ensures
        r matches Ok(Some(p)) ==> exists|h: Seq<char>| p@ == helper_config_file_in(h),
        r matches Err(e) ==> e is HomeDirNotUtf8,
{
    let home = home_dir();
    helper_config_file_in_home(&home)
}

impl Config {
    /// Reads the configuration from the text of its YAML document.
    ///
    /// Entries for other fields are skipped, whatever they hold.
    pub fn load(config_text: String) -> (r: Result<Config, ConfigError>)
        ensures
            match r {
                Ok(c) => helper_loaded(config_text@) == Ok::<_, ConfigErrorKind>(c.assistant_ip@),
                Err(e) => helper_loaded(config_text@) == Err::<Seq<char>, _>(e.kind()),
            },
    {
        match parse_document(config_text.as_str()) {
            Ok(doc) => Config::from_document(&doc),
            Err(e) => Err(ConfigError::Yaml(e)),
        }
    }

    /// Reads the configuration from a parsed YAML document.
    pub fn from_document(doc: &YamlDocument) -> (r: Result<Config, ConfigError>)
        ensures
            match r {
                Ok(c) => helper_config_from_document(doc@) == Ok::<_, ConfigErrorKind>(c.assistant_ip@),
                Err(e) => helper_config_from_document(doc@) == Err::<Seq<char>, _>(e.kind()),
            },
    {
        let mut fields: Vec<String> = Vec::new();
        fields.push("assistant_ip".to_owned());
        proof {
            assert(strings_view(fields@) =~= seq!["assistant_ip"@]);
        }
        match read_struct(doc, &fields) {
            Err(e) => Err(e),
            Ok(values) => Ok(Config { assistant_ip: values[0].clone() }),
        }
    }
}

} // verus!
