use vstd::prelude::*;
use vstd::string::StrSliceExecFns;
use crate::error::ParseError;

verus! {

broadcast use vstd::string::is_ascii_spec_bytes;

/// Number of fields in a stored item record.
pub const ITEM_FIELDS: usize = 8;

/// Length of an item's key reference.
pub const KEY_REFERENCE_LEN: usize = 32;

/// One field of a positional record, as a generic decoder hands it over.
pub enum RecordField {
    Text(String),
    Number(i64),
    /// A value of any other kind: a boolean, null, a fraction, a list, an
    /// object, or a number outside the range of `i64`.
    Other,
}

/// `f` is a text field.
pub open spec fn is_text(f: RecordField) -> bool {
    f is Text
}

/// `s` can be a key reference: 32 ASCII characters.
pub open spec fn is_key_reference(s: Seq<char>) -> bool {
    s.len() == KEY_REFERENCE_LEN && vstd::utf8::is_ascii_chars(s)
}

/// The bytes of an ASCII text.
pub open spec fn ascii_bytes(s: Seq<char>) -> Seq<u8> {
    Seq::new(s.len(), |i: int| s[i] as u8)
}

/// `fields` has the layout of an item record: eight fields, text but for a
/// number in position 4 and a number in `0..=255` in position 6, and a key
/// reference in position 0.
pub open spec fn item_record_valid(fields: Seq<RecordField>) -> bool {
    &&& fields.len() == ITEM_FIELDS
    &&& is_text(fields[0])
    &&& is_text(fields[1])
    &&& is_text(fields[2])
    &&& is_text(fields[3])
    &&& fields[4] is Number
    &&& is_text(fields[5])
    &&& (fields[6] matches RecordField::Number(n) && 0 <= n <= 255)
    &&& is_text(fields[7])
    &&& is_key_reference(fields[0]->Text_0@)
}

/// An entry of the keychain's item index.
pub struct ContentItem {
    /// The identifier of the level whose key protects the item, as raw bytes.
    pub key: [u8; 32],
    pub class: String,
    pub name: String,
    /// Time of the last change, in seconds since the Unix epoch.
    pub timestamp: i64,
}

/// The text of a field, where it is text.
fn text_of(f: &RecordField) -> (r: Result<&String, ParseError>)
    ensures
        match r {
            Ok(s) => f is Text && s@ == f->Text_0@,
            Err(e) => !is_text(*f) && e == ParseError::Schema,
        },
{
    match f {
        RecordField::Text(s) => Ok(s),
        _ => Err(ParseError::Schema),
    }
}

impl ContentItem {
    /// Decodes an item from its positional record, checking the number of
    /// fields, the kind of each, and the key reference. Fields 3, 5, 6 and 7
    /// are checked and dropped.
    pub fn decode(fields: &Vec<RecordField>) -> (r: Result<ContentItem, ParseError>)
        ensures
            r is Ok <==> item_record_valid(fields@),
            r matches Err(e) ==> e == ParseError::Schema,
            r matches Ok(ci) ==> {
                &&& ci.key@ == ascii_bytes(fields@[0]->Text_0@)
                &&& ci.class@ == fields@[1]->Text_0@
                &&& ci.name@ == fields@[2]->Text_0@
                &&& fields@[4] == RecordField::Number(ci.timestamp)
            },
    {
        if fields.len() != ITEM_FIELDS {
            return Err(ParseError::Schema);
        }
        let key_text = text_of(&fields[0])?;
        let class = text_of(&fields[1])?;
        let name = text_of(&fields[2])?;
        let _ = text_of(&fields[3])?;
        let timestamp = match &fields[4] {
            RecordField::Number(n) => *n,
            _ => return Err(ParseError::Schema),
        };
        let _ = text_of(&fields[5])?;
        match &fields[6] {
            RecordField::Number(n) => {
                if *n < 0 || *n > 255 {
                    return Err(ParseError::Schema);
                }
            },
            _ => return Err(ParseError::Schema),
        }
        let _ = text_of(&fields[7])?;
        let key_str = key_text.as_str();
        if !key_str.is_ascii() || key_str.unicode_len() != KEY_REFERENCE_LEN {
            return Err(ParseError::Schema);
        }
        let bytes = key_str.as_bytes();
        assert(bytes@ =~= ascii_bytes(key_text@));
        let mut key = [0u8; 32];
        let mut i: usize = 0;
        while i < KEY_REFERENCE_LEN
            invariant
                bytes@ == ascii_bytes(key_text@),
                bytes@.len() == KEY_REFERENCE_LEN,
                i <= KEY_REFERENCE_LEN,
                forall|j: int| 0 <= j < i ==> key@[j] == bytes@[j],
                key@.len() == KEY_REFERENCE_LEN,
            decreases KEY_REFERENCE_LEN - i,
        {
            key[i] = bytes[i];
            i = i + 1;
        }
        assert(key@ =~= ascii_bytes(key_text@));
        Ok(ContentItem { key, class: class.clone(), name: name.clone(), timestamp })
    }
}

} // verus!
