//! The configuration of a store, and its file.
//!
//! A configuration names the store directory and the key that secrets are
//! encrypted to. On disk it is a TOML document with two text entries,
//! `store_path` and `gpg_id`. Entries under other keys are ignored when a
//! document is read.

use vstd::prelude::*;
use crate::error::{fails_with, succeeds_with, text_result, StoreError};
use crate::table::{
    entries, get_text, insert_text, is_writable, new_table, no_entries, parse_table,
    table_len, text_at, toml_document, toml_text, writable, write_table,
};

verus! {

/// Where the secrets are kept, and for whom they are encrypted.
#[derive(Clone, Debug, PartialEq, Eq)]
pub struct Config {
    /// The directory that holds one file for each secret.
    pub store_path: String,
    /// The identifier of the key that secrets are encrypted to.
    pub gpg_id: String,
}

/// A configuration as two texts.
pub struct ConfigView {
    pub store_path: Seq<char>,
    pub gpg_id: Seq<char>,
}

impl View for Config {
    type V = ConfigView;

    open spec fn view(&self) -> ConfigView {
        ConfigView { store_path: self.store_path@, gpg_id: self.gpg_id@ }
    }
}

/// The key under which a document holds the store directory.
pub open spec fn store_path_key() -> Seq<char> {
    "store_path"@
}

/// The key under which a document holds the key identifier.
pub open spec fn gpg_id_key() -> Seq<char> {
    "gpg_id"@
}

/// The entries of the document that stands for `config`.
pub open spec fn config_entries(config: ConfigView) -> Map<Seq<char>, Option<Seq<char>>> {
    no_entries().insert(store_path_key(), Some(config.store_path)).insert(
        gpg_id_key(),
        Some(config.gpg_id),
    )
}

/// The configuration that two entries of a document amount to. Both must be
/// there, and both must be text.
pub open spec fn config_of_fields(
    store_path: Option<Seq<char>>,
    gpg_id: Option<Seq<char>>,
) -> Result<ConfigView, StoreError> {
    match (store_path, gpg_id) {
        (Some(store_path), Some(gpg_id)) => Ok(ConfigView { store_path, gpg_id }),
        _ => Err(StoreError::ConfigCorrupt),
    }
}

/// The configuration that a document with the given entries stands for.
pub open spec fn config_of_entries(entries: Map<Seq<char>, Option<Seq<char>>>) -> Result<
    ConfigView,
    StoreError,
> {
    config_of_fields(text_at(entries, store_path_key()), text_at(entries, gpg_id_key()))
}

/// The configuration that the text of a configuration file stands for.
pub open spec fn parsed_config(text: Seq<char>) -> Result<ConfigView, StoreError> {
    match toml_document(text) {
        Some(entries) => config_of_entries(entries),
        None => Err(StoreError::ConfigCorrupt),
    }
}

/// The configuration that is in force, given what the configuration file
/// holds, or `None` where there is no such file.
pub open spec fn loaded_config(contents: Option<Seq<char>>) -> Result<ConfigView, StoreError> {
    match contents {
        Some(text) => parsed_config(text),
        None => Err(StoreError::ConfigMissing),
    }
}

/// Whether `text` is a document with the two entries of `config` and no
/// other.
pub open spec fn reads_as(text: Seq<char>, config: ConfigView) -> bool {
    toml_document(text) == Some(config_entries(config))
}

/// The text of the configuration file for `config`. There is none where
/// the store directory or the key identifier has a run of quote characters
/// that the writer cannot take, none where the writer refuses, and none
/// where what the writer wrote does not read as `config`.
pub open spec fn rendered_config(config: ConfigView) -> Result<Seq<char>, StoreError> {
    if writable(config.store_path) && writable(config.gpg_id) {
        match toml_text(config_entries(config)) {
            Some(text) => if reads_as(text, config) {
                Ok(text)
            } else {
                Err(StoreError::ConfigUnwritable)
            },
            None => Err(StoreError::ConfigUnwritable),
        }
    } else {
        Err(StoreError::ConfigUnwritable)
    }
}

/// A configuration or an error, with the configuration as its view.
pub open spec fn config_result(outcome: Result<Config, StoreError>) -> Result<
    ConfigView,
    StoreError,
> {
    match outcome {
        Ok(config) => Ok(config@),
        Err(error) => Err(error),
    }
}

/// The two keys of a configuration document differ.
pub proof fn lemma_keys_differ()
    ensures
        store_path_key() != gpg_id_key(),
{
    reveal_strlit("store_path");
    reveal_strlit("gpg_id");
    assert(store_path_key().len() == 10);
    assert(gpg_id_key().len() == 6);
}

/// Makes a configuration of the two entries that were found in a document.
pub fn config_from_fields(store_path: Option<String>, gpg_id: Option<String>) -> (outcome: Result<
    Config,
    StoreError,
>)
    ensures
        config_result(outcome) == config_of_fields(store_path.deep_view(), gpg_id.deep_view()),
{
    match (store_path, gpg_id) {
        (Some(store_path), Some(gpg_id)) => Ok(Config { store_path, gpg_id }),
        _ => Err(StoreError::ConfigCorrupt),
    }
}

/// Reads a configuration from the text of a configuration file.
///
/// The text must be a TOML document that holds a text under `store_path`
/// and a text under `gpg_id`; anything else is
/// [`StoreError::ConfigCorrupt`].
pub fn parse_config(text: &str) -> (outcome: Result<Config, StoreError>)
    ensures
        config_result(outcome) == parsed_config(text@),
{
    match parse_table(text) {
        Ok(table) => {
            let store_path = get_text(&table, "store_path");
            let gpg_id = get_text(&table, "gpg_id");
            config_from_fields(store_path, gpg_id)
        },
        Err(_) => Err(StoreError::ConfigCorrupt),
    }
}

/// The configuration in force, given the contents of the configuration
/// file, or `None` where the file does not exist.
///
/// Without a file the store was never initialised, and the outcome is
/// [`StoreError::ConfigMissing`].
pub fn load_config(contents: Option<String>) -> (outcome: Result<Config, StoreError>)
    ensures
        config_result(outcome) == loaded_config(contents.deep_view()),
        contents is None ==> fails_with(outcome, StoreError::ConfigMissing),
{
    match contents {
        Some(text) => parse_config(text.as_str()),
        None => Err(StoreError::ConfigMissing),
    }
}

/// Whether `table` holds the two entries of `config` and no other.
fn holds_config(table: &toml::Table, config: &Config) -> (same: bool)
    ensures
        same == (entries(*table) == config_entries(config@)),
{
    let count: usize = table_len(table);
    let store_path = get_text(table, "store_path");
    let gpg_id = get_text(table, "gpg_id");
    let same = count == 2 && match (store_path, gpg_id) {
        (Some(store_path), Some(gpg_id)) => store_path == config.store_path && gpg_id
            == config.gpg_id,
        _ => false,
    };
    proof {
        lemma_keys_differ();
        let found = entries(*table);
        let wanted = config_entries(config@);
        assert(wanted.dom() =~= set![store_path_key(), gpg_id_key()]);
        assert(wanted.dom().len() == 2);
        if same {
            let rest = found.dom().remove(store_path_key()).remove(gpg_id_key());
            assert(rest.len() == 0);
            rest.lemma_len0_is_empty();
            assert forall|key: Seq<char>| found.dom().contains(key) implies key
                == store_path_key() || key == gpg_id_key() by {
                if key != store_path_key() && key != gpg_id_key() {
                    assert(rest.contains(key));
                }
            }
            assert(found.dom() =~= wanted.dom());
            assert(found =~= wanted);
        }
    }
    same
}

/// Writes `config` down as the text of a configuration file.
///
/// What the writer wrote is read again before it is handed out, and handed
/// out only where it reads as `config`. So whatever text comes out is a
/// document with the two entries of `config` and no other, and reading it
/// with [`parse_config`] gives `config` back: the same store directory and
/// the same key identifier. Everything else is
/// [`StoreError::ConfigUnwritable`], and so is a configuration with more
/// than 255 equal quote characters in a row, in its store directory or in
/// its key identifier, which is not handed to the writer at all.
pub fn render_config(config: &Config) -> (outcome: Result<String, StoreError>)
    ensures
        text_result(outcome) == rendered_config(config@),
        outcome matches Ok(text) ==> reads_as(text@, config@),
        outcome matches Ok(text) ==> succeeds_with(parsed_config(text@), config@),
        outcome matches Err(error) ==> error == StoreError::ConfigUnwritable,
        !writable(config.store_path@) || !writable(config.gpg_id@) ==> outcome is Err,
{
    if !is_writable(config.store_path.as_str()) || !is_writable(config.gpg_id.as_str()) {
        return Err(StoreError::ConfigUnwritable);
    }
    let mut table = new_table();
    insert_text(&mut table, "store_path", config.store_path.as_str());
    insert_text(&mut table, "gpg_id", config.gpg_id.as_str());
    proof {
        lemma_keys_differ();
        assert(entries(table) == config_entries(config@));
    }
    match write_table(&table) {
        Ok(text) => match parse_table(text.as_str()) {
            Ok(read) => if holds_config(&read, config) {
                Ok(text)
            } else {
                Err(StoreError::ConfigUnwritable)
            },
            Err(_) => Err(StoreError::ConfigUnwritable),
        },
        Err(_) => Err(StoreError::ConfigUnwritable),
    }
}

} // verus!
