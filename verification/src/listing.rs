//! Listings: the YAML files that error-code tables are built from. Each
//! top-level key of a listing may give a `message` and a `code`.
//!
//! The YAML itself is read by `serde_yml`. What that reading yields is given
//! a name, `listing_of`; the fields of the entries are then picked out of it.

use std::collections::BTreeMap;
use vstd::prelude::*;
use vstd::string::*;
use crate::code_table::{
    code_views, entry_views, file_number, file_number_of, key_order, keys_of, number_rows,
    codes_fit, rows_of, Code, CodeEntry, CodeEntryView, CodeView,
};
use crate::item::texts;

verus! {

/// `serde_yml::Value`: a YAML value, carried as it is.
#[verifier::external_type_specification]
#[verifier::external_body]
pub struct ExYamlValue(serde_yml::Value);

/// `serde_yml::Error`: the YAML reader's error, carried as it is.
#[verifier::external_type_specification]
#[verifier::external_body]
pub struct ExYamlError(serde_yml::Error);

/// One field of an entry of a listing, read both ways.
pub struct Field {
    /// The field's value, where it is a string.
    pub text: Option<String>,
    /// The field's value, where it is a whole number that fits.
    pub number: Option<i64>,
}

/// What a `Field` stands for.
pub struct FieldView {
    pub text: Option<Seq<char>>,
    pub number: Option<i64>,
}

impl View for Field {
    type V = FieldView;

    open spec fn view(&self) -> FieldView {
        FieldView {
            text: match self.text {
                Some(t) => Some(t@),
                None => None,
            },
            number: self.number,
        }
    }
}

/// The fields that `serde_yml::from_str` finds in a YAML text read as a map
/// from keys to values, by key and field name; `None` where it refuses the
/// text.
pub uninterp spec fn listing_of(yaml: Seq<char>) -> Option<Map<(Seq<char>, Seq<char>), FieldView>>;

/// The fields that a listing holds, by key and field name: one for each
/// field of each key whose value is a mapping.
pub uninterp spec fn listing_fields(listing: BTreeMap<String, serde_yml::Value>) -> Map<
    (Seq<char>, Seq<char>),
    FieldView,
>;

/// `serde_yml::from_str` at the type of a map from strings to values. The
/// contract only names the outcome.
#[verifier::external_body]
fn read_listing(yaml: &str) -> (r: Result<BTreeMap<String, serde_yml::Value>, serde_yml::Error>)
    ensures
        match r {
            Ok(listing) => listing_of(yaml@) == Some(listing_fields(listing)),
            Err(_) => listing_of(yaml@) is None,
        },
{
    serde_yml::from_str(yaml)
}

/// `Value::as_mapping` and `Mapping::get` on the value of `key`, then
/// `Value::as_str` and `Value::as_i64` on the field found: `None` where
/// the key is absent, its value is no mapping, or the mapping lacks `field`.
#[verifier::external_body]
fn listed_field(listing: &BTreeMap<String, serde_yml::Value>, key: &str, field: &str) -> (r:
    Option<Field>)
    ensures
        match r {
            Some(found) => listing_fields(*listing).contains_key((key@, field@))
                && listing_fields(*listing)[(key@, field@)] == found@,
            None => !listing_fields(*listing).contains_key((key@, field@)),
        },
{
    let value = listing.get(key)?.as_mapping()?.get(field)?;
    Some(Field { text: value.as_str().map(|text| text.to_string()), number: value.as_i64() })
}

/// Why a listing gives no table.
#[derive(Clone, Copy, Debug, PartialEq, Eq, Structural)]
pub enum CodeTableError {
    /// The file's name holds no number to count from.
    Number,
    /// The listing is no YAML map.
    Listing,
    /// An entry's `message` is no string.
    Message,
    /// A code has no successor that fits.
    Codes,
}

/// The entry of `key`: its `message` and its `code`, as far as the listing
/// gives them. A `code` that is no whole number counts as not given; a
/// `message` that is no string is refused.
pub open spec fn entry_of(fields: Map<(Seq<char>, Seq<char>), FieldView>, key: Seq<char>) -> Option<
    CodeEntryView,
> {
    let code = if fields.contains_key((key, "code"@)) {
        fields[(key, "code"@)].number
    } else {
        None
    };
    if fields.contains_key((key, "message"@)) {
        match fields[(key, "message"@)].text {
            Some(message) => Some(CodeEntryView { key, message: Some(message), code }),
            None => None,
        }
    } else {
        Some(CodeEntryView { key, message: None, code })
    }
}

/// The entries of the first `n` keys, or `None` where one of them is refused.
pub open spec fn entries_prefix(
    fields: Map<(Seq<char>, Seq<char>), FieldView>,
    keys: Seq<Seq<char>>,
    n: nat,
) -> Option<Seq<CodeEntryView>>
    decreases n,
{
    if n == 0 {
        Some(Seq::empty())
    } else {
        match (entries_prefix(fields, keys, (n - 1) as nat), entry_of(fields, keys[n - 1])) {
            (Some(entries), Some(entry)) => Some(entries.push(entry)),
            _ => None,
        }
    }
}

/// The entries of a listing, in the order in which it names its keys.
pub open spec fn entries_of(yaml: Seq<char>) -> Result<Seq<CodeEntryView>, CodeTableError> {
    match listing_of(yaml) {
        None => Err(CodeTableError::Listing),
        Some(fields) => match entries_prefix(fields, keys_of(yaml), keys_of(yaml).len()) {
            None => Err(CodeTableError::Message),
            Some(entries) => Ok(entries),
        },
    }
}

/// The rows of the table that a file gives.
pub open spec fn table_of(file_name: Seq<char>, yaml: Seq<char>) -> Result<
    Seq<CodeView>,
    CodeTableError,
> {
    match file_number_of(file_name) {
        None => Err(CodeTableError::Number),
        Some(start) => match entries_of(yaml) {
            Err(error) => Err(error),
            Ok(entries) => if codes_fit(start as int, entries, entries.len()) {
                Ok(rows_of(start as int, entries))
            } else {
                Err(CodeTableError::Codes)
            },
        },
    }
}

/// Once an entry is refused, further entries do not mend it.
pub proof fn lemma_refusal_stays(
    fields: Map<(Seq<char>, Seq<char>), FieldView>,
    keys: Seq<Seq<char>>,
    n: nat,
    m: nat,
)
    requires
        n <= m,
        entries_prefix(fields, keys, n) is None,
    ensures
        entries_prefix(fields, keys, m) is None,
    decreases m,
{
    if n < m {
        lemma_refusal_stays(fields, keys, n, (m - 1) as nat);
    }
}

/// Picks the entry of one key out of a listing.
fn entry_at(listing: &BTreeMap<String, serde_yml::Value>, key: &String) -> (r: Option<CodeEntry>)
    ensures
        match r {
            Some(entry) => entry_of(listing_fields(*listing), key@) == Some(entry@),
            None => entry_of(listing_fields(*listing), key@) is None,
        },
{
    let code = match listed_field(listing, key.as_str(), "code") {
        Some(field) => field.number,
        None => None,
    };
    match listed_field(listing, key.as_str(), "message") {
        Some(field) => match field.text {
            Some(message) => Some(CodeEntry { key: key.clone(), message: Some(message), code }),
            None => None,
        },
        None => Some(CodeEntry { key: key.clone(), message: None, code }),
    }
}

/// Reads the entries of a listing, in the order in which it names its keys.
///
/// A key that the YAML does not hold as a mapping gives an entry without
/// message and code.
#[verifier::loop_isolation(false)]
pub fn code_entries(yaml: &str) -> (r: Result<Vec<CodeEntry>, CodeTableError>)
    ensures
        match r {
            Ok(entries) => entries_of(yaml@) == Ok::<Seq<CodeEntryView>, CodeTableError>(
                entry_views(entries@),
            ),
            Err(error) => entries_of(yaml@) == Err::<Seq<CodeEntryView>, CodeTableError>(error),
        },
{
    let listing = match read_listing(yaml) {
        Ok(listing) => listing,
        Err(_) => {
            return Err(CodeTableError::Listing);
        },
    };
    let keys = key_order(yaml);
    let ghost fields = listing_fields(listing);
    let mut entries: Vec<CodeEntry> = Vec::new();
    let mut i: usize = 0;
    assert(entry_views(entries@) =~= Seq::empty());
    while i < keys.len()
        invariant
            i <= keys.len(),
            entries_prefix(fields, texts(keys@), i as nat) == Some(entry_views(entries@)),
        decreases keys.len() - i,
    {
        assert(texts(keys@)[i as int] == keys@[i as int]@);
        match entry_at(&listing, &keys[i]) {
            None => {
                proof {
                    lemma_refusal_stays(fields, texts(keys@), (i + 1) as nat, keys@.len() as nat);
                }
                return Err(CodeTableError::Message);
            },
            Some(entry) => {
                let ghost before = entry_views(entries@);
                entries.push(entry);
                assert(entry_views(entries@) =~= before.push(entry@));
            },
        }
        i += 1;
    }
    Ok(entries)
}

/// Builds the rows of the table that one file gives: its entries, numbered
/// from the number in the file's name.
pub fn code_rows(file_name: &str, yaml: &str) -> (r: Result<Vec<Code>, CodeTableError>)
    ensures
        match r {
            Ok(rows) => table_of(file_name@, yaml@) == Ok::<Seq<CodeView>, CodeTableError>(
                code_views(rows@),
            ),
            Err(error) => table_of(file_name@, yaml@) == Err::<Seq<CodeView>, CodeTableError>(
                error,
            ),
        },
{
    let start = match file_number(file_name) {
        Some(start) => start,
        None => {
            return Err(CodeTableError::Number);
        },
    };
    let entries = match code_entries(yaml) {
        Ok(entries) => entries,
        Err(error) => {
            return Err(error);
        },
    };
    match number_rows(start, &entries) {
        Some(rows) => Ok(rows),
        None => Err(CodeTableError::Codes),
    }
}

} // verus!
