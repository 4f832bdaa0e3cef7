//! TOML tables, as far as the store needs them.
//!
//! The store reads and writes its configuration through the `toml` crate. A
//! table of that crate is opaque to the verifier, so what the crate's
//! functions do is believed rather than proved: the contracts below say
//! what they are taken to do, over [`entries`], the model of what a table
//! holds.
//!
//! The crate's writer counts the quote characters that stand in a row in a
//! text, in a byte. A text with more than [`MAX_QUOTE_RUN`] of them in a
//! row is therefore kept away from it: [`is_writable`] tells, and that
//! function is proved.

use vstd::prelude::*;
use vstd::std_specs::iter::IteratorSpec;
use vstd::string::*;

verus! {

/// `toml::map::Map`, the crate's map from keys to values, carried as an
/// opaque value. A `toml::Table` is this map with `String` keys and
/// `toml::Value` values.
#[verifier::external_type_specification]
#[verifier::external_body]
#[verifier::reject_recursive_types(K)]
#[verifier::reject_recursive_types(V)]
pub struct ExMap<K, V>(toml::map::Map<K, V>);

/// `toml::Value`, any value of a TOML document, carried as an opaque value.
#[verifier::external_type_specification]
#[verifier::external_body]
pub struct ExValue(toml::Value);

/// `toml::de::Error`, the crate's reason for refusing a text.
#[verifier::external_type_specification]
#[verifier::external_body]
pub struct ExParseError(toml::de::Error);

/// `toml::ser::Error`, the crate's reason for refusing to write a value.
#[verifier::external_type_specification]
#[verifier::external_body]
pub struct ExWriteError(toml::ser::Error);

/// What a table holds at its top level: under each key, `Some` of the text
/// where the value is a TOML string, and `None` where it is a value of any
/// other kind.
pub uninterp spec fn entries(table: toml::Table) -> Map<Seq<char>, Option<Seq<char>>>;

/// What `toml::from_str` makes of a text: the entries of the table that the
/// text denotes, or `None` where the text is no TOML document.
pub uninterp spec fn toml_document(text: Seq<char>) -> Option<Map<Seq<char>, Option<Seq<char>>>>;

/// What `toml::to_string` writes for a table with the given entries, all of
/// them text, or `None` where it refuses to.
pub uninterp spec fn toml_text(entries: Map<Seq<char>, Option<Seq<char>>>) -> Option<Seq<char>>;

/// The entries of a table that holds nothing.
pub open spec fn no_entries() -> Map<Seq<char>, Option<Seq<char>>> {
    Map::empty()
}

/// The longest run of one quote character that the writer can count.
pub const MAX_QUOTE_RUN: usize = 255;

/// Whether `text` holds `quote` at each of the `length` places from `start`
/// on.
pub open spec fn is_run(text: Seq<char>, quote: char, start: int, length: int) -> bool {
    &&& 0 <= start
    &&& start + length <= text.len()
    &&& forall|i: int| start <= i < start + length ==> text[i] == quote
}

/// Whether `text` holds `quote` `length` times in a row somewhere.
pub open spec fn has_run(text: Seq<char>, quote: char, length: int) -> bool {
    exists|start: int| #[trigger] is_run(text, quote, start, length)
}

/// Whether the writer can take `text`: neither quote character stands in it
/// more than [`MAX_QUOTE_RUN`] times in a row.
pub open spec fn writable(text: Seq<char>) -> bool {
    !has_run(text, '\'', MAX_QUOTE_RUN + 1) && !has_run(text, '"', MAX_QUOTE_RUN + 1)
}

/// Whether every entry is a text that the writer can take.
pub open spec fn writable_entries(entries: Map<Seq<char>, Option<Seq<char>>>) -> bool {
    forall|key: Seq<char>|
        entries.contains_key(key) ==> ((#[trigger] entries[key]) matches Some(text) && writable(
            text,
        ))
}

/// How many entries there are, where there are finitely many.
pub open spec fn entry_count(entries: Map<Seq<char>, Option<Seq<char>>>) -> Option<nat> {
    if entries.dom().finite() {
        Some(entries.dom().len())
    } else {
        None
    }
}

/// The text under `key`, if there is an entry under `key` and it is a text.
pub open spec fn text_at(entries: Map<Seq<char>, Option<Seq<char>>>, key: Seq<char>) -> Option<
    Seq<char>,
> {
    if entries.contains_key(key) {
        entries[key]
    } else {
        None
    }
}

/// `toml::Table::new`: a table without entries.
#[verifier::external_body]
pub(crate) fn new_table() -> (table: toml::Table)
    ensures
        entries(table) == no_entries(),
{
    toml::Table::new()
}

/// `toml::Table::insert`, with a string as the value: afterwards the table
/// holds `text` under `key`, in place of whatever was there, and its other
/// entries are as before.
#[verifier::external_body]
pub(crate) fn insert_text(table: &mut toml::Table, key: &str, text: &str)
    ensures
        entries(*final(table)) == entries(*old(table)).insert(key@, Some(text@)),
{
    table.insert(key.to_string(), toml::Value::String(text.to_string()));
}

/// `toml::Table::get`: the text under `key`, or `None` where the table has
/// no entry under `key` or the entry is no string.
#[verifier::external_body]
pub(crate) fn get_text(table: &toml::Table, key: &str) -> (text: Option<String>)
    ensures
        text.deep_view() == text_at(entries(*table), key@),
{
    match table.get(key) {
        Some(toml::Value::String(text)) => Some(text.clone()),
        _ => None,
    }
}

/// `toml::from_str`, asked for a table: the table that `text` denotes, or
/// the crate's error where `text` is no TOML document.
#[verifier::external_body]
pub(crate) fn parse_table(text: &str) -> (parsed: Result<toml::Table, toml::de::Error>)
    ensures
        match parsed {
            Ok(table) => toml_document(text@) == Some(entries(table)),
            Err(_) => toml_document(text@) is None,
        },
{
    toml::from_str::<toml::Table>(text)
}

/// `toml::Table::len`: the number of entries, of which a table has
/// finitely many.
#[verifier::external_body]
pub(crate) fn table_len(table: &toml::Table) -> (count: usize)
    ensures
        entry_count(entries(*table)) == Some(count as nat),
{
    table.len()
}

/// `toml::to_string`, for a table that holds nothing but text, and no text
/// with a run of quote characters that the writer cannot count. Of the
/// document it writes, one thing is claimed: that it depends on the entries
/// alone. Nothing is claimed of how the document reads.
#[verifier::external_body]
pub(crate) fn write_table(table: &toml::Table) -> (written: Result<String, toml::ser::Error>)
    requires
        writable_entries(entries(*table)),
    ensures
        match written {
            Ok(text) => toml_text(entries(*table)) == Some(text@),
            Err(_) => toml_text(entries(*table)) is None,
        },
{
    toml::to_string(table)
}

/// Whether `quote` stands in `text` no more than [`MAX_QUOTE_RUN`] times in
/// a row.
pub fn run_fits(text: &str, quote: char) -> (fits: bool)
    ensures
        fits == !has_run(text@, quote, MAX_QUOTE_RUN + 1),
{
    broadcast use {axiom_spec_iter, next_postcondition};

    let mut chars = text.chars();
    let mut run: usize = 0;
    let ghost mut seen: int = 0;
    loop
        invariant
            0 <= seen <= text@.len(),
            chars.remaining() == text@.skip(seen),
            run <= MAX_QUOTE_RUN,
            run <= seen,
            forall|i: int| seen - run <= i < seen ==> text@[i] == quote,
            run < seen ==> text@[seen - run - 1] != quote,
            forall|start: int|
                start + MAX_QUOTE_RUN + 1 <= seen ==> !#[trigger] is_run(
                    text@,
                    quote,
                    start,
                    MAX_QUOTE_RUN + 1,
                ),
        decreases text@.len() - seen,
    {
        match chars.next() {
            None => {
                assert(seen == text@.len());
                return true;
            },
            Some(c) => {
                assert(c == text@[seen]);
                if c == quote {
                    if run == MAX_QUOTE_RUN {
                        assert(is_run(text@, quote, seen - MAX_QUOTE_RUN, MAX_QUOTE_RUN + 1));
                        return false;
                    }
                    run = run + 1;
                } else {
                    run = 0;
                }
                proof {
                    let start = seen - MAX_QUOTE_RUN;
                    assert(!is_run(text@, quote, start, MAX_QUOTE_RUN + 1)) by {
                        if 0 <= start {
                            assert(start <= seen - run <= seen);
                            assert(text@[seen - run] != quote);
                        }
                    }
                    seen = seen + 1;
                }
            },
        }
    }
}

/// Whether the writer can take `text`.
pub fn is_writable(text: &str) -> (fits: bool)
    ensures
        fits == writable(text@),
{
    run_fits(text, '\'') && run_fits(text, '"')
}

} // verus!
