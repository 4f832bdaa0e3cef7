//! The three operations of the store: setting it up, adding a secret and
//! reading one.
//!
//! Each operation is laid out here as far as it can be decided from plain
//! values. What comes back is a request that names exactly what is to be
//! done outside: which directory to create, which file to write, which
//! arguments to start the encryption tool with. An error carries no
//! request, so an operation that fails here writes nothing.

use vstd::prelude::*;
use crate::config::{
    load_config, loaded_config, reads_as, render_config, rendered_config, Config, ConfigView,
};
use crate::error::{fails_with, succeeds_with, StoreError};
use crate::keys::{key_query, list_keys_args, resolve_key_id_from, resolved_key_id_from};
use crate::paths::{
    config_directory, config_directory_of, config_file_of, entry_path, entry_path_of, join,
    store_directory, store_directory_of, CONFIG_FILE_NAME,
};
use crate::secret::{
    confirm_entry, confirmed, decrypt_args, decryption_args, delivered, encrypt_args,
    encryption_args, lemma_line_gives_its_text, DecryptionView, DeliveryView, LINE_END,
};

verus! {

/// The first half of setting up a store: what has to be found out and done
/// before the configuration can be written.
#[derive(Clone, Debug, PartialEq, Eq)]
pub struct InitPlan {
    /// The store directory. It is created if it does not exist.
    pub store_path: String,
    /// The arguments with which the encryption tool lists the secret keys
    /// that match the user's key identifier.
    pub key_query: Vec<String>,
}

/// An [`InitPlan`] over sequences of characters.
pub struct InitPlanView {
    pub store_path: Seq<char>,
    pub key_query: Seq<Seq<char>>,
}

impl View for InitPlan {
    type V = InitPlanView;

    open spec fn view(&self) -> InitPlanView {
        InitPlanView { store_path: self.store_path@, key_query: self.key_query.deep_view() }
    }
}

/// The second half of setting up a store: the configuration file to write.
#[derive(Clone, Debug, PartialEq, Eq)]
pub struct ConfigWrite {
    /// The directory of the configuration file. It is created, with what
    /// lies above it, if it does not exist.
    pub directory: String,
    /// The configuration file.
    pub file: String,
    /// What the configuration file is to hold.
    pub text: String,
}

/// A [`ConfigWrite`] over sequences of characters.
pub struct ConfigWriteView {
    pub directory: Seq<char>,
    pub file: Seq<char>,
    pub text: Seq<char>,
}

impl View for ConfigWrite {
    type V = ConfigWriteView;

    open spec fn view(&self) -> ConfigWriteView {
        ConfigWriteView { directory: self.directory@, file: self.file@, text: self.text@ }
    }
}

/// A secret to encrypt.
#[derive(Clone, Debug, PartialEq, Eq)]
pub struct EncryptRequest {
    /// The file that is to hold the encrypted secret.
    pub file: String,
    /// The arguments to start the encryption tool with.
    pub args: Vec<String>,
    /// The secret, to be handed to the encryption tool as its input.
    pub plaintext: String,
}

/// An [`EncryptRequest`] over sequences of characters.
pub struct EncryptRequestView {
    pub file: Seq<char>,
    pub args: Seq<Seq<char>>,
    pub plaintext: Seq<char>,
}

impl View for EncryptRequest {
    type V = EncryptRequestView;

    open spec fn view(&self) -> EncryptRequestView {
        EncryptRequestView {
            file: self.file@,
            args: self.args.deep_view(),
            plaintext: self.plaintext@,
        }
    }
}

/// An entry to decrypt.
#[derive(Clone, Debug, PartialEq, Eq)]
pub struct DecryptRequest {
    /// The file that holds the encrypted secret. Where it does not exist,
    /// the entry is missing.
    pub file: String,
    /// The arguments to start the encryption tool with.
    pub args: Vec<String>,
}

/// A [`DecryptRequest`] over sequences of characters.
pub struct DecryptRequestView {
    pub file: Seq<char>,
    pub args: Seq<Seq<char>>,
}

impl View for DecryptRequest {
    type V = DecryptRequestView;

    open spec fn view(&self) -> DecryptRequestView {
        DecryptRequestView { file: self.file@, args: self.args.deep_view() }
    }
}

/// How a store is set up for the key `gpg_id`: in the directory `path`
/// where one was asked for, else in the user's data directory, which is
/// `data_home` where that is set and lies in `home` where it is not.
pub open spec fn planned_init(
    gpg_id: Seq<char>,
    path: Option<Seq<char>>,
    data_home: Option<Seq<char>>,
    home: Option<Seq<char>>,
) -> Result<InitPlanView, StoreError> {
    match store_directory_of(path, data_home, home) {
        Ok(store_path) => Ok(InitPlanView { store_path, key_query: key_query(gpg_id) }),
        Err(error) => Err(error),
    }
}

/// The configuration that setting up a store records: the store directory,
/// and the key identifier as the key listing resolves it, or as it was
/// given where there is no listing.
pub open spec fn initial_config(
    store_path: Seq<char>,
    gpg_id: Seq<char>,
    listing: Option<Seq<char>>,
) -> ConfigView {
    ConfigView { store_path, gpg_id: resolved_key_id_from(gpg_id, listing) }
}

/// The configuration file that setting up a store writes.
pub open spec fn finished_init(
    store_path: Seq<char>,
    gpg_id: Seq<char>,
    listing: Option<Seq<char>>,
    config_home: Option<Seq<char>>,
    home: Option<Seq<char>>,
) -> Result<ConfigWriteView, StoreError> {
    match (
        config_directory_of(config_home, home),
        config_file_of(config_home, home),
        rendered_config(initial_config(store_path, gpg_id, listing)),
    ) {
        (Ok(directory), Ok(file), Ok(text)) => Ok(ConfigWriteView { directory, file, text }),
        (Ok(_), Ok(_), Err(error)) => Err(error),
        _ => Err(StoreError::HomeUnknown),
    }
}

/// How `secret` is encrypted under `name`, given what the configuration
/// file holds.
pub open spec fn planned_encryption(
    name: Seq<char>,
    secret: Seq<char>,
    contents: Option<Seq<char>>,
) -> Result<EncryptRequestView, StoreError> {
    match loaded_config(contents) {
        Ok(config) => Ok(
            EncryptRequestView {
                file: entry_path_of(config.store_path, name),
                args: encryption_args(config.gpg_id, entry_path_of(config.store_path, name)),
                plaintext: secret,
            },
        ),
        Err(error) => Err(error),
    }
}

/// How a secret is added under `name`, given the two lines that were typed
/// for it and what the configuration file holds. The lines are looked at
/// first: where they differ, the configuration does not matter.
pub open spec fn planned_new(
    name: Seq<char>,
    first: Seq<char>,
    second: Seq<char>,
    contents: Option<Seq<char>>,
) -> Result<EncryptRequestView, StoreError> {
    match confirmed(first, second) {
        Ok(secret) => planned_encryption(name, secret, contents),
        Err(error) => Err(error),
    }
}

/// How the secret under `name` is read, given what the configuration file
/// holds.
pub open spec fn planned_read(name: Seq<char>, contents: Option<Seq<char>>) -> Result<
    DecryptRequestView,
    StoreError,
> {
    match loaded_config(contents) {
        Ok(config) => Ok(
            DecryptRequestView {
                file: entry_path_of(config.store_path, name),
                args: decryption_args(entry_path_of(config.store_path, name)),
            },
        ),
        Err(error) => Err(error),
    }
}

/// A plan or an error, with the plan as its view.
pub open spec fn init_plan_result(outcome: Result<InitPlan, StoreError>) -> Result<
    InitPlanView,
    StoreError,
> {
    match outcome {
        Ok(plan) => Ok(plan@),
        Err(error) => Err(error),
    }
}

/// A configuration write or an error, with the write as its view.
pub open spec fn config_write_result(outcome: Result<ConfigWrite, StoreError>) -> Result<
    ConfigWriteView,
    StoreError,
> {
    match outcome {
        Ok(write) => Ok(write@),
        Err(error) => Err(error),
    }
}

/// An encryption request or an error, with the request as its view.
pub open spec fn encrypt_result(outcome: Result<EncryptRequest, StoreError>) -> Result<
    EncryptRequestView,
    StoreError,
> {
    match outcome {
        Ok(request) => Ok(request@),
        Err(error) => Err(error),
    }
}

/// A decryption request or an error, with the request as its view.
pub open spec fn decrypt_result(outcome: Result<DecryptRequest, StoreError>) -> Result<
    DecryptRequestView,
    StoreError,
> {
    match outcome {
        Ok(request) => Ok(request@),
        Err(error) => Err(error),
    }
}

/// Begins setting up a store for the key `gpg_id`. `path` is the directory
/// that the user asked for, if any, `data_home` the user's data directory,
/// if one is set, and `home` the user's home directory, if it is known.
///
/// A directory that was asked for becomes the store directory, letter for
/// letter. Only where no directory was asked for, no data directory is set
/// and the home directory is not known, there is no plan:
/// [`StoreError::HomeUnknown`].
pub fn plan_init(
    gpg_id: &str,
    path: Option<&str>,
    data_home: Option<&str>,
    home: Option<&str>,
) -> (outcome: Result<InitPlan, StoreError>)
    ensures
        init_plan_result(outcome) == planned_init(
            gpg_id@,
            path.deep_view(),
            data_home.deep_view(),
            home.deep_view(),
        ),
        path matches Some(given) ==> (outcome matches Ok(plan) && plan.store_path@ == given@),
        path is None && data_home is None && home is None ==> fails_with(
            outcome,
            StoreError::HomeUnknown,
        ),
        path is Some || data_home is Some || home is Some ==> outcome is Ok,
{
    match store_directory(path, data_home, home) {
        Ok(store_path) => Ok(InitPlan { store_path, key_query: list_keys_args(gpg_id) }),
        Err(error) => Err(error),
    }
}

/// Completes setting up a store: resolves `gpg_id` against `listing`, and
/// lays out the configuration file for the store at `store_path`.
/// `listing` is the output of the key query, or `None` where the query
/// could not be run or gave no text: then `gpg_id` is recorded as it was
/// given. `config_home` is the user's configuration directory, if one is
/// set, and `home` the user's home directory, if it is known.
///
/// Where neither of the two directories is known, the outcome is
/// [`StoreError::HomeUnknown`]. Else the text to write is a document with
/// the two entries of the configuration and no other. It reads back, as the
/// contents of the configuration file, as the very configuration that was
/// recorded: the same store directory and the same key identifier.
pub fn finish_init(
    store_path: &str,
    gpg_id: &str,
    listing: Option<&str>,
    config_home: Option<&str>,
    home: Option<&str>,
) -> (outcome: Result<ConfigWrite, StoreError>)
    ensures
        config_write_result(outcome) == finished_init(
            store_path@,
            gpg_id@,
            listing.deep_view(),
            config_home.deep_view(),
            home.deep_view(),
        ),
        outcome matches Ok(write) ==> reads_as(
            write.text@,
            initial_config(store_path@, gpg_id@, listing.deep_view()),
        ),
        outcome matches Ok(write) ==> succeeds_with(
            loaded_config(Some(write.text@)),
            initial_config(store_path@, gpg_id@, listing.deep_view()),
        ),
        config_home is None && home is None ==> fails_with(outcome, StoreError::HomeUnknown),
{
    let directory = match config_directory(config_home, home) {
        Ok(directory) => directory,
        Err(error) => return Err(error),
    };
    let file = join(directory.as_str(), CONFIG_FILE_NAME);
    let config = Config {
        store_path: store_path.to_owned(),
        gpg_id: resolve_key_id_from(gpg_id, listing),
    };
    match render_config(&config) {
        Ok(text) => Ok(ConfigWrite { directory, file, text }),
        Err(error) => Err(error),
    }
}

/// Lays out the encryption of `secret` under `name`. `contents` is what the
/// configuration file holds, or `None` where there is no such file.
///
/// Without a configuration file nothing is encrypted: the outcome is
/// [`StoreError::ConfigMissing`].
pub fn plan_encryption(name: &str, secret: String, contents: Option<String>) -> (outcome: Result<
    EncryptRequest,
    StoreError,
>)
    ensures
        encrypt_result(outcome) == planned_encryption(name@, secret@, contents.deep_view()),
        contents is None ==> fails_with(outcome, StoreError::ConfigMissing),
{
    match load_config(contents) {
        Ok(config) => {
            let file = entry_path(config.store_path.as_str(), name);
            let args = encrypt_args(config.gpg_id.as_str(), file.as_str());
            Ok(EncryptRequest { file, args, plaintext: secret })
        },
        Err(error) => Err(error),
    }
}

/// Lays out the adding of a secret under `name`. `first` and `second` are
/// the two lines that were typed for the secret, and `contents` is what the
/// configuration file holds, or `None` where there is no such file.
///
/// Lines that differ end the operation with
/// [`StoreError::ConfirmationMismatch`], whatever the configuration is.
/// Lines that agree, without a configuration file, end it with
/// [`StoreError::ConfigMissing`]. Either way no request comes back, and so
/// no file is written.
pub fn plan_new(
    name: &str,
    first: &str,
    second: &str,
    contents: Option<String>,
) -> (outcome: Result<EncryptRequest, StoreError>)
    ensures
        encrypt_result(outcome) == planned_new(name@, first@, second@, contents.deep_view()),
        first@ != second@ ==> fails_with(outcome, StoreError::ConfirmationMismatch),
        first@ == second@ && contents is None ==> fails_with(
            outcome,
            StoreError::ConfigMissing,
        ),
        first@ != second@ || contents is None ==> outcome is Err,
{
    match confirm_entry(first, second) {
        Ok(secret) => plan_encryption(name, secret, contents),
        Err(error) => Err(error),
    }
}

/// Lays out the decryption of the secret under `name`. `contents` is what
/// the configuration file holds, or `None` where there is no such file.
///
/// Without a configuration file nothing is decrypted: the outcome is
/// [`StoreError::ConfigMissing`].
pub fn plan_read(name: &str, contents: Option<String>) -> (outcome: Result<
    DecryptRequest,
    StoreError,
>)
    ensures
        decrypt_result(outcome) == planned_read(name@, contents.deep_view()),
        contents is None ==> fails_with(outcome, StoreError::ConfigMissing),
{
    match load_config(contents) {
        Ok(config) => {
            let file = entry_path(config.store_path.as_str(), name);
            let args = decrypt_args(file.as_str());
            Ok(DecryptRequest { file, args })
        },
        Err(error) => Err(error),
    }
}

/// A secret is read from the very file that it was written to, and goes
/// in and comes out unchanged.
///
/// Let a secret be typed twice, as the text `secret` and a line feed,
/// and let one configuration file be in force. Then adding the secret under
/// a name and reading the secret under that name either both stop, for the
/// same reason, or both go ahead. Where they go ahead, the file that is
/// decrypted is the file that was encrypted to, what is handed to the
/// encryption is `secret`, and what the decryption hands back is printed as
/// it is.
pub proof fn lemma_read_opens_what_new_wrote(
    name: Seq<char>,
    secret: Seq<char>,
    contents: Option<Seq<char>>,
    decrypted: Seq<char>,
)
    ensures
        match (
            planned_new(name, secret.push(LINE_END), secret.push(LINE_END), contents),
            planned_read(name, contents),
        ) {
            (Ok(written), Ok(read)) => written.file == read.file && written.plaintext == secret,
            (Err(stopped), Err(again)) => stopped == again,
            _ => false,
        },
        succeeds_with(
            delivered(false, DecryptionView::Plaintext(decrypted)),
            DeliveryView::Print(decrypted),
        ),
{
    lemma_line_gives_its_text(secret);
}

/// A secret whose confirmation differs is never written: whatever the name
/// and whatever the configuration, adding it stops with a mismatch and
/// comes to no request.
pub proof fn lemma_mismatch_writes_nothing(
    name: Seq<char>,
    first: Seq<char>,
    second: Seq<char>,
    contents: Option<Seq<char>>,
)
    requires
        first != second,
    ensures
        fails_with(
            planned_new(name, first, second, contents),
            StoreError::ConfirmationMismatch,
        ),
{
}

/// Before a store is set up, nothing is added and nothing is read: neither
/// operation comes to a request. Reading stops for want of a configuration,
/// and so does adding, unless the two lines that were typed differ, which
/// is found out first.
pub proof fn lemma_nothing_before_init(name: Seq<char>, first: Seq<char>, second: Seq<char>)
    ensures
        fails_with(planned_read(name, None), StoreError::ConfigMissing),
        planned_new(name, first, second, None) is Err,
        first == second ==> fails_with(
            planned_new(name, first, second, None),
            StoreError::ConfigMissing,
        ),
{
}

} // verus!
