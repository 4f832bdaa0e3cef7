//! Secrets on their way into the store and out of it.
//!
//! A new secret is typed twice, each time as a line. The two lines must
//! agree; the secret is the line without the line feed that ends it. On
//! the way out, what the encryption tool decrypted is either printed or put
//! on the clipboard.

use vstd::prelude::*;
use vstd::string::*;
use crate::error::{fails_with, succeeds_with, text_result, StoreError};

verus! {

/// The program that encrypts and decrypts: the argument lists of this
/// module and of the key query are its arguments.
pub const ENCRYPTION_TOOL: &'static str = "gpg";

/// The character that ends a typed line.
pub const LINE_END: char = '\n';

/// `line` without the line feed that ends it. A line that does not end in
/// one, as the last line of an input may, stays as it is.
pub open spec fn without_line_end(line: Seq<char>) -> Seq<char> {
    if line.len() > 0 && line.last() == LINE_END {
        line.drop_last()
    } else {
        line
    }
}

/// The secret that two typed lines amount to: the first line without its
/// line feed where the lines agree, and a mismatch where they differ.
pub open spec fn confirmed(first: Seq<char>, second: Seq<char>) -> Result<Seq<char>, StoreError> {
    if first == second {
        Ok(without_line_end(first))
    } else {
        Err(StoreError::ConfirmationMismatch)
    }
}

/// The words that ask for the secret named `name`.
pub open spec fn entry_prompt_of(name: Seq<char>) -> Seq<char> {
    "Enter password for "@ + name + ": "@
}

/// The words that ask for the secret named `name` a second time.
pub open spec fn confirmation_prompt_of(name: Seq<char>) -> Seq<char> {
    "Retype password for "@ + name + ": "@
}

/// The arguments with which the encryption tool encrypts its input to the
/// key `gpg_id` and writes the result to `file`.
pub open spec fn encryption_args(gpg_id: Seq<char>, file: Seq<char>) -> Seq<Seq<char>> {
    seq!["-e"@, "-r"@, gpg_id, "-o"@, file]
}

/// The arguments with which the encryption tool decrypts `file`.
pub open spec fn decryption_args(file: Seq<char>) -> Seq<Seq<char>> {
    seq!["-d"@, file]
}

/// What came of decrypting an entry.
#[derive(Clone, Debug, PartialEq, Eq)]
pub enum Decryption {
    /// The entry has no file in the store.
    Missing,
    /// The encryption tool ended with a failure.
    Failed,
    /// The encryption tool succeeded, with this output.
    Plaintext(String),
}

/// A [`Decryption`] with its output as a sequence of characters.
pub enum DecryptionView {
    Missing,
    Failed,
    Plaintext(Seq<char>),
}

impl View for Decryption {
    type V = DecryptionView;

    open spec fn view(&self) -> DecryptionView {
        match self {
            Decryption::Missing => DecryptionView::Missing,
            Decryption::Failed => DecryptionView::Failed,
            Decryption::Plaintext(text) => DecryptionView::Plaintext(text@),
        }
    }
}

/// Where a secret that was read goes.
#[derive(Clone, Debug, PartialEq, Eq)]
pub enum Delivery {
    /// The secret is printed on standard output.
    Print(String),
    /// The secret is put on the clipboard.
    Clipboard(String),
}

/// A [`Delivery`] with its secret as a sequence of characters.
pub enum DeliveryView {
    Print(Seq<char>),
    Clipboard(Seq<char>),
}

impl View for Delivery {
    type V = DeliveryView;

    open spec fn view(&self) -> DeliveryView {
        match self {
            Delivery::Print(text) => DeliveryView::Print(text@),
            Delivery::Clipboard(text) => DeliveryView::Clipboard(text@),
        }
    }
}

/// What is done with the outcome of a decryption. A missing entry and a
/// failure of the tool end the operation; a plaintext goes to the clipboard
/// where `copy` is set and to standard output where it is not, unchanged.
pub open spec fn delivered(copy: bool, decryption: DecryptionView) -> Result<
    DeliveryView,
    StoreError,
> {
    match decryption {
        DecryptionView::Missing => Err(StoreError::SecretNotFound),
        DecryptionView::Failed => Err(StoreError::ToolFailure),
        DecryptionView::Plaintext(text) => if copy {
            Ok(DeliveryView::Clipboard(text))
        } else {
            Ok(DeliveryView::Print(text))
        },
    }
}

/// A delivery or an error, with the delivery as its view.
pub open spec fn delivery_result(outcome: Result<Delivery, StoreError>) -> Result<
    DeliveryView,
    StoreError,
> {
    match outcome {
        Ok(delivery) => Ok(delivery@),
        Err(error) => Err(error),
    }
}

/// The words that ask for the secret named `name`.
pub fn entry_prompt(name: &str) -> (prompt: String)
    ensures
        prompt@ == entry_prompt_of(name@),
{
    let mut prompt = "Enter password for ".to_owned();
    prompt.append(name);
    prompt.append(": ");
    prompt
}

/// The words that ask for the secret named `name` a second time.
pub fn confirmation_prompt(name: &str) -> (prompt: String)
    ensures
        prompt@ == confirmation_prompt_of(name@),
{
    let mut prompt = "Retype password for ".to_owned();
    prompt.append(name);
    prompt.append(": ");
    prompt
}

/// Settles on the secret, given the two lines that were typed for it.
///
/// Lines that differ are a [`StoreError::ConfirmationMismatch`], and no
/// secret comes of them. Lines that agree give the secret: the line without
/// the line feed that ends it, and nothing else taken away.
pub fn confirm_entry(first: &str, second: &str) -> (outcome: Result<String, StoreError>)
    ensures
        text_result(outcome) == confirmed(first@, second@),
        first@ != second@ ==> fails_with(outcome, StoreError::ConfirmationMismatch),
        first@ == second@ ==> outcome is Ok,
{
    let first_line = first.to_owned();
    let second_line = second.to_owned();
    if first_line != second_line {
        return Err(StoreError::ConfirmationMismatch);
    }
    let length: usize = first.unicode_len();
    if length > 0 && first.get_char(length - 1) == LINE_END {
        Ok(first.substring_char(0, length - 1).to_owned())
    } else {
        Ok(first_line)
    }
}

/// The arguments with which the encryption tool encrypts its input to the
/// key `gpg_id` and writes the result to `file`.
pub fn encrypt_args(gpg_id: &str, file: &str) -> (args: Vec<String>)
    ensures
        args.deep_view() == encryption_args(gpg_id@, file@),
{
    let mut args: Vec<String> = Vec::new();
    args.push("-e".to_owned());
    args.push("-r".to_owned());
    args.push(gpg_id.to_owned());
    args.push("-o".to_owned());
    args.push(file.to_owned());
    assert(args.deep_view() =~= encryption_args(gpg_id@, file@));
    args
}

/// The arguments with which the encryption tool decrypts `file`.
pub fn decrypt_args(file: &str) -> (args: Vec<String>)
    ensures
        args.deep_view() == decryption_args(file@),
{
    let mut args: Vec<String> = Vec::new();
    args.push("-d".to_owned());
    args.push(file.to_owned());
    assert(args.deep_view() =~= decryption_args(file@));
    args
}

/// Whether a run of the encryption tool counts as done: a run that ended
/// with a failure is a [`StoreError::ToolFailure`].
pub fn tool_outcome(succeeded: bool) -> (outcome: Result<(), StoreError>)
    ensures
        succeeded ==> outcome is Ok,
        !succeeded ==> fails_with(outcome, StoreError::ToolFailure),
{
    if succeeded {
        Ok(())
    } else {
        Err(StoreError::ToolFailure)
    }
}

/// Decides what is done with the outcome of a decryption.
///
/// A plaintext is handed on as it is: printed where `copy` is not set, put on
/// the clipboard where it is.
pub fn deliver(copy: bool, decryption: Decryption) -> (outcome: Result<Delivery, StoreError>)
    ensures
        delivery_result(outcome) == delivered(copy, decryption@),
{
    match decryption {
        Decryption::Missing => Err(StoreError::SecretNotFound),
        Decryption::Failed => Err(StoreError::ToolFailure),
        Decryption::Plaintext(text) => if copy {
            Ok(Delivery::Clipboard(text))
        } else {
            Ok(Delivery::Print(text))
        },
    }
}

/// A line that is typed twice gives the text before its line feed,
/// whatever that text is; and a line without a line feed, typed twice,
/// gives itself.
pub proof fn lemma_line_gives_its_text(text: Seq<char>)
    ensures
        succeeds_with(confirmed(text.push(LINE_END), text.push(LINE_END)), text),
        text.len() == 0 || text.last() != LINE_END ==> succeeds_with(confirmed(text, text), text),
{
    assert(text.push(LINE_END).drop_last() =~= text);
}

} // verus!
