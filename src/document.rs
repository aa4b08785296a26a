//! A generic document tree and the errors of decoding one.
use vstd::prelude::*;
use crate::declaration::is_word;

verus! {

/// A decoded document node.
#[derive(Debug)]
pub enum Document {
    Null,
    Bool(bool),
    /// A number, by its decimal text.
    Number(String),
    Text(String),
    Array(Vec<Document>),
    /// An object's entries, in order.
    Object(Vec<(String, Document)>),
}

/// Why a record could not be decoded.
#[derive(Clone, Debug, PartialEq, Eq)]
pub enum DecodeError {
    /// The record is not an object.
    NotAnObject,
    /// The record lacks the named field.
    MissingField(String),
    /// The named tag field does not hold a string.
    TagNotString(String),
    /// A payload decoder failed with this message.
    Custom(String),
}

/// A decode error, with its text as sequences of characters.
pub ghost enum DecodeFault {
    NotAnObject,
    MissingField(Seq<char>),
    TagNotString(Seq<char>),
    Custom(Seq<char>),
}

impl View for DecodeError {
    type V = DecodeFault;

    open spec fn view(&self) -> DecodeFault {
        match self {
            DecodeError::NotAnObject => DecodeFault::NotAnObject,
            DecodeError::MissingField(f) => DecodeFault::MissingField(f@),
            DecodeError::TagNotString(f) => DecodeFault::TagNotString(f@),
            DecodeError::Custom(m) => DecodeFault::Custom(m@),
        }
    }
}

/// The human-readable message of a decode error.
pub open spec fn message_text(e: DecodeFault) -> Seq<char> {
    match e {
        DecodeFault::NotAnObject => "invalid type: expected an object"@,
        DecodeFault::MissingField(f) => "missing field `"@ + f + "`"@,
        DecodeFault::TagNotString(f) => "`"@ + f + "` is not of type `string`"@,
        DecodeFault::Custom(m) => m,
    }
}

impl DecodeError {
    /// The human-readable message of the error.
    pub fn message(&self) -> (r: String)
        ensures
            r@ == message_text(self@),
    {
        match self {
            DecodeError::NotAnObject => "invalid type: expected an object".to_owned(),
            DecodeError::MissingField(f) => {
                let mut out = "missing field `".to_owned();
                out.append(f.as_str());
                out.append("`");
                out
            },
            DecodeError::TagNotString(f) => {
                let mut out = "`".to_owned();
                out.append(f.as_str());
                out.append("` is not of type `string`");
                out
            },
            DecodeError::Custom(m) => m.clone(),
        }
    }
}

/// Whether `i` is the first entry whose key is `key`.
pub open spec fn is_first_key(entries: Seq<(String, Document)>, key: Seq<char>, i: int) -> bool {
    &&& 0 <= i < entries.len()
    &&& entries[i].0@ == key
    &&& forall|j: int| 0 <= j < i ==> (#[trigger] entries[j]).0@ != key
}

/// The value of the first entry whose key is `key`.
pub open spec fn field(entries: Seq<(String, Document)>, key: Seq<char>) -> Option<Document> {
    if exists|i: int| is_first_key(entries, key, i) {
        Some(entries[choose|i: int| is_first_key(entries, key, i)].1)
    } else {
        None
    }
}

pub proof fn lemma_field_at(entries: Seq<(String, Document)>, key: Seq<char>, i: int)
    requires
        is_first_key(entries, key, i),
    ensures
        field(entries, key) == Some(entries[i].1),
{
    let j = choose|j: int| is_first_key(entries, key, j);
    assert(is_first_key(entries, key, j));
    if j < i {
        assert(entries[j].0@ != key);
    } else if i < j {
        assert(entries[i].0@ != key);
    }
}

/// The index of the first entry whose key is `key`.
pub fn find_field(entries: &Vec<(String, Document)>, key: &str) -> (r: Option<usize>)
    ensures
        match r {
            Some(i) => is_first_key(entries@, key@, i as int) && field(entries@, key@) == Some(
                entries@[i as int].1,
            ),
            None => field(entries@, key@) is None,
        },
{
    let mut i: usize = 0;
    while i < entries.len()
        invariant
            i <= entries.len(),
            forall|j: int| 0 <= j < i ==> (#[trigger] entries@[j]).0@ != key@,
        decreases entries.len() - i,
    {
        if is_word(&entries[i].0, key) {
            proof { lemma_field_at(entries@, key@, i as int); }
            return Some(i);
        }
        i = i + 1;
    }
    None
}

} // verus!
