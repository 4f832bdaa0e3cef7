//! Which key the store encrypts to.
//!
//! When a store is set up, the key identifier that the user gave is looked
//! up in the key ring: the encryption tool lists the secret keys that match
//! it, and the listing is searched for the line of an encryption subkey.
//! Where one is found, its long identifier is recorded; where none is, the
//! identifier stays as the user gave it.

use vstd::prelude::*;
use vstd::string::*;

verus! {

/// `regex::Error`, the crate's reason for refusing a pattern.
#[verifier::external_type_specification]
#[verifier::external_body]
pub struct ExPatternError(regex::Error);

/// The pattern of the line that a key listing has for an encryption subkey:
/// the key's algorithm, a slash, the long identifier, the date of creation
/// between two spaces, and the usage flag `[E]`.
pub const KEY_PATTERN: &'static str = r".*\/(?<id>[A-Z0-9]+)[0-9- ]{12}\[E\]";

/// The name of the group of [`KEY_PATTERN`] that holds the identifier.
pub const KEY_GROUP: &'static str = "id";

/// What the `regex` crate finds when it searches `text` for `pattern`:
/// `None` where it refuses the pattern; else `Some`, of the part of the
/// leftmost match that the group named `group` took, or of `None` where
/// nothing matches or that group took no part in the match.
pub uninterp spec fn regex_capture(pattern: Seq<char>, group: Seq<char>, text: Seq<char>) -> Option<
    Option<Seq<char>>,
>;

/// `regex::Regex::captures`, on the regex that `regex::Regex::new` makes of
/// `pattern`, with `regex::Captures::name` picking the group out of what was
/// found.
#[verifier::external_body]
fn capture(pattern: &str, group: &str, text: &str) -> (found: Result<Option<String>, regex::Error>)
    ensures
        match found {
            Ok(part) => regex_capture(pattern@, group@, text@) == Some(part.deep_view()),
            Err(_) => regex_capture(pattern@, group@, text@) is None,
        },
{
    let regex = regex::Regex::new(pattern)?;
    Ok(
        match regex.captures(text) {
            Some(captures) => match captures.name(group) {
                Some(part) => Some(part.as_str().to_string()),
                None => None,
            },
            None => None,
        },
    )
}

/// The identifier of the encryption subkey that a key listing shows, if it
/// shows one.
pub open spec fn listed_key(listing: Seq<char>) -> Option<Seq<char>> {
    match regex_capture(KEY_PATTERN@, KEY_GROUP@, listing) {
        Some(part) => part,
        None => None,
    }
}

/// The identifier to record, given the one that the user gave and the one
/// that the key ring has for it, if any.
pub open spec fn chosen_key_id(gpg_id: Seq<char>, listed: Option<Seq<char>>) -> Seq<char> {
    match listed {
        Some(id) => id,
        None => gpg_id,
    }
}

/// The identifier to record for `gpg_id`, given the listing of the secret
/// keys that match it.
pub open spec fn resolved_key_id(gpg_id: Seq<char>, listing: Seq<char>) -> Seq<char> {
    chosen_key_id(gpg_id, listed_key(listing))
}

/// The identifier to record for `gpg_id`, given the listing of the secret
/// keys that match it, or `None` where no listing could be had: then the
/// identifier is recorded as it was given.
pub open spec fn resolved_key_id_from(gpg_id: Seq<char>, listing: Option<Seq<char>>) -> Seq<
    char,
> {
    match listing {
        Some(text) => resolved_key_id(gpg_id, text),
        None => gpg_id,
    }
}

/// The arguments with which the encryption tool lists the secret keys that
/// match `gpg_id`, with long key identifiers.
pub open spec fn key_query(gpg_id: Seq<char>) -> Seq<Seq<char>> {
    seq!["--list-secret-keys"@, "--keyid-format"@, "LONG"@, gpg_id]
}

/// Picks the identifier to record: the one from the key ring where there is
/// one, else the one that the user gave.
pub fn choose_key_id(gpg_id: &str, listed: Option<String>) -> (id: String)
    ensures
        id@ == chosen_key_id(gpg_id@, listed.deep_view()),
{
    match listed {
        Some(id) => id,
        None => gpg_id.to_owned(),
    }
}

/// Searches a key listing for the identifier of an encryption subkey.
pub fn find_listed_key(listing: &str) -> (listed: Option<String>)
    ensures
        listed.deep_view() == listed_key(listing@),
{
    match capture(KEY_PATTERN, KEY_GROUP, listing) {
        Ok(part) => part,
        Err(_) => None,
    }
}

/// Resolves the key identifier that the user gave against the listing of
/// the secret keys that match it. This never fails: where the listing shows
/// no encryption subkey, the identifier is recorded as it was given.
pub fn resolve_key_id(gpg_id: &str, listing: &str) -> (id: String)
    ensures
        id@ == resolved_key_id(gpg_id@, listing@),
{
    choose_key_id(gpg_id, find_listed_key(listing))
}

/// Resolves the key identifier that the user gave against what came of
/// listing the secret keys that match it: the listing, or `None` where the
/// tool could not be run or what it wrote is no text. This never fails:
/// without a listing, and with a listing that shows no encryption subkey,
/// the identifier is recorded as it was given.
pub fn resolve_key_id_from(gpg_id: &str, listing: Option<&str>) -> (id: String)
    ensures
        id@ == resolved_key_id_from(gpg_id@, listing.deep_view()),
        listing is None ==> id@ == gpg_id@,
{
    match listing {
        Some(text) => resolve_key_id(gpg_id, text),
        None => gpg_id.to_owned(),
    }
}

/// The arguments for listing the secret keys that match `gpg_id`.
pub fn list_keys_args(gpg_id: &str) -> (args: Vec<String>)
    ensures
        args.deep_view() == key_query(gpg_id@),
{
    let mut args: Vec<String> = Vec::new();
    args.push("--list-secret-keys".to_owned());
    args.push("--keyid-format".to_owned());
    args.push("LONG".to_owned());
    args.push(gpg_id.to_owned());
    assert(args.deep_view() =~= key_query(gpg_id@));
    args
}

} // verus!
