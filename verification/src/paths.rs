//! Paths of the store, as text.
//!
//! A path is a string whose components are separated by `/`. Joining follows
//! the usual rule: a rooted right-hand side replaces the left-hand side, and
//! a separator is put between the two sides only where the left-hand side
//! does not already end in one.

use vstd::prelude::*;
use vstd::string::*;
use crate::error::{fails_with, succeeds_with, text_result, StoreError};

verus! {

/// Whether `path` starts at the root of the file system.
pub open spec fn is_rooted(path: Seq<char>) -> bool {
    path.len() > 0 && path[0] == '/'
}

/// The path that results from extending `base` by `part`.
pub open spec fn joined(base: Seq<char>, part: Seq<char>) -> Seq<char> {
    if is_rooted(part) {
        part
    } else if base.len() == 0 || base.last() == '/' {
        base + part
    } else {
        base + seq!['/'] + part
    }
}

/// Extends `base` by `part`.
pub fn join(base: &str, part: &str) -> (path: String)
    ensures
        path@ == joined(base@, part@),
{
    let part_len: usize = part.unicode_len();
    if part_len > 0 && part.get_char(0) == '/' {
        return part.to_owned();
    }
    let base_len: usize = base.unicode_len();
    let mut path = base.to_owned();
    if base_len > 0 && base.get_char(base_len - 1) != '/' {
        proof {
            reveal_strlit("/");
        }
        path.append("/");
        assert("/"@ =~= seq!['/']);
    }
    path.append(part);
    path
}

/// Where the data directory lies in the user's home directory, for a user
/// who has named none.
pub const DEFAULT_DATA_HOME: &'static str = ".local/share";

/// Where the configuration directory lies in the user's home directory, for
/// a user who has named none.
pub const DEFAULT_CONFIG_HOME: &'static str = ".config";

/// The name of the store directory inside the data directory.
pub const STORE_NAME: &'static str = "rs-passstore";

/// The name of the store's directory inside the configuration directory.
pub const CONFIG_NAME: &'static str = "pass-rs";

/// The name of the configuration file inside that directory.
pub const CONFIG_FILE_NAME: &'static str = "config.toml";

/// What the name of a secret's file ends in.
pub const SECRET_SUFFIX: &'static str = ".gpg";

/// `named` where the user has named a directory, else the directory
/// `fallback` in the home directory `home`. Where neither is known, there
/// is no such directory.
pub open spec fn named_or_in_home(
    named: Option<Seq<char>>,
    home: Option<Seq<char>>,
    fallback: Seq<char>,
) -> Result<Seq<char>, StoreError> {
    match (named, home) {
        (Some(named), _) => Ok(named),
        (None, Some(home)) => Ok(joined(home, fallback)),
        (None, None) => Err(StoreError::HomeUnknown),
    }
}

/// `directory` extended by `part`, where there is a directory.
pub open spec fn extended(directory: Result<Seq<char>, StoreError>, part: Seq<char>) -> Result<
    Seq<char>,
    StoreError,
> {
    match directory {
        Ok(directory) => Ok(joined(directory, part)),
        Err(error) => Err(error),
    }
}

/// The user's data directory: `data_home` where one is set, else
/// [`DEFAULT_DATA_HOME`] in `home`.
pub open spec fn data_home_of(data_home: Option<Seq<char>>, home: Option<Seq<char>>) -> Result<
    Seq<char>,
    StoreError,
> {
    named_or_in_home(data_home, home, DEFAULT_DATA_HOME@)
}

/// The user's configuration directory: `config_home` where one is set, else
/// [`DEFAULT_CONFIG_HOME`] in `home`.
pub open spec fn config_home_of(
    config_home: Option<Seq<char>>,
    home: Option<Seq<char>>,
) -> Result<Seq<char>, StoreError> {
    named_or_in_home(config_home, home, DEFAULT_CONFIG_HOME@)
}

/// The store directory: `path` as it stands where one was given, else the
/// directory named [`STORE_NAME`] in the user's data directory.
pub open spec fn store_directory_of(
    path: Option<Seq<char>>,
    data_home: Option<Seq<char>>,
    home: Option<Seq<char>>,
) -> Result<Seq<char>, StoreError> {
    match path {
        Some(path) => Ok(path),
        None => extended(data_home_of(data_home, home), STORE_NAME@),
    }
}

/// The directory that holds the configuration file: the directory named
/// [`CONFIG_NAME`] in the user's configuration directory.
pub open spec fn config_directory_of(
    config_home: Option<Seq<char>>,
    home: Option<Seq<char>>,
) -> Result<Seq<char>, StoreError> {
    extended(config_home_of(config_home, home), CONFIG_NAME@)
}

/// The configuration file.
pub open spec fn config_file_of(
    config_home: Option<Seq<char>>,
    home: Option<Seq<char>>,
) -> Result<Seq<char>, StoreError> {
    extended(config_directory_of(config_home, home), CONFIG_FILE_NAME@)
}

/// The file that holds the secret named `name` in the store at
/// `store_path`: the name, with [`SECRET_SUFFIX`] behind it, joined to the
/// store directory. The name is taken as it is.
pub open spec fn entry_path_of(store_path: Seq<char>, name: Seq<char>) -> Seq<char> {
    joined(store_path, name + SECRET_SUFFIX@)
}

/// `named` where the user has named a directory, else the directory
/// `fallback` in the home directory `home`.
fn directory_or_in_home(named: Option<&str>, home: Option<&str>, fallback: &str) -> (directory:
    Result<String, StoreError>)
    ensures
        text_result(directory) == named_or_in_home(named.deep_view(), home.deep_view(), fallback@),
{
    match named {
        Some(named) => Ok(named.to_owned()),
        None => match home {
            Some(home) => Ok(join(home, fallback)),
            None => Err(StoreError::HomeUnknown),
        },
    }
}

/// Resolves the store directory. `path` is the directory that the user
/// asked for, if any, `data_home` the user's data directory, if one is set,
/// and `home` the user's home directory, if it is known.
///
/// A directory that was asked for is the store directory, letter for
/// letter. Without one, the store lies in the user's data directory, which
/// is looked for in the home directory where none is set. Only where all
/// three are wanting is there no store directory:
/// [`StoreError::HomeUnknown`].
pub fn store_directory(
    path: Option<&str>,
    data_home: Option<&str>,
    home: Option<&str>,
) -> (directory: Result<String, StoreError>)
    ensures
        text_result(directory) == store_directory_of(
            path.deep_view(),
            data_home.deep_view(),
            home.deep_view(),
        ),
        path matches Some(given) ==> succeeds_with(text_result(directory), given@),
        path is None && data_home is None && home is None ==> fails_with(
            directory,
            StoreError::HomeUnknown,
        ),
        path is Some || data_home is Some || home is Some ==> directory is Ok,
{
    match path {
        Some(path) => Ok(path.to_owned()),
        None => match directory_or_in_home(data_home, home, DEFAULT_DATA_HOME) {
            Ok(data_directory) => Ok(join(data_directory.as_str(), STORE_NAME)),
            Err(error) => Err(error),
        },
    }
}

/// The directory that holds the configuration file, given the user's
/// configuration directory, if one is set, and the user's home directory,
/// if it is known. Where neither is, there is none:
/// [`StoreError::HomeUnknown`].
pub fn config_directory(config_home: Option<&str>, home: Option<&str>) -> (directory: Result<
    String,
    StoreError,
>)
    ensures
        text_result(directory) == config_directory_of(config_home.deep_view(), home.deep_view()),
        config_home is None && home is None ==> fails_with(directory, StoreError::HomeUnknown),
        config_home is Some || home is Some ==> directory is Ok,
{
    match directory_or_in_home(config_home, home, DEFAULT_CONFIG_HOME) {
        Ok(config_root) => Ok(join(config_root.as_str(), CONFIG_NAME)),
        Err(error) => Err(error),
    }
}

/// The configuration file, given the user's configuration directory, if
/// one is set, and the user's home directory, if it is known. Where neither
/// is, there is none: [`StoreError::HomeUnknown`].
pub fn config_file(config_home: Option<&str>, home: Option<&str>) -> (file: Result<
    String,
    StoreError,
>)
    ensures
        text_result(file) == config_file_of(config_home.deep_view(), home.deep_view()),
        config_home is None && home is None ==> fails_with(file, StoreError::HomeUnknown),
        config_home is Some || home is Some ==> file is Ok,
{
    match config_directory(config_home, home) {
        Ok(directory) => Ok(join(directory.as_str(), CONFIG_FILE_NAME)),
        Err(error) => Err(error),
    }
}

/// The file that holds the secret named `name` in the store at
/// `store_path`.
pub fn entry_path(store_path: &str, name: &str) -> (file: String)
    ensures
        file@ == entry_path_of(store_path@, name@),
{
    let mut file_name = name.to_owned();
    file_name.append(SECRET_SUFFIX);
    join(store_path, file_name.as_str())
}

} // verus!
