//! JSON documents as trees. Reading the text of a document is the work of
//! `serde_json`; the tree that comes out of it is plain data that the decoders
//! of the response model walk.

use vstd::prelude::*;
use vstd::string::*;
use crate::text::digit_char;

verus! {

#[verifier::external_type_specification]
#[verifier::external_body]
pub struct ExJsonValue(serde_json::Value);

#[verifier::external_type_specification]
#[verifier::external_body]
pub struct ExJsonError(serde_json::Error);

/// A JSON document. A number keeps its value where it is a whole number from
/// zero to 2^64 - 1, which is all that the response model reads; any other
/// number is kept as a number without a value. An object keeps its members in
/// the order in which the reader hands them out.
#[derive(Debug, PartialEq, Eq)]
pub enum Json {
    Null,
    Bool(bool),
    Number(Option<u64>),
    Text(String),
    Array(Vec<Json>),
    Object(Vec<(String, Json)>),
}

/// The mathematical content of a [`Json`] document.
pub ghost enum JsonValue {
    Null,
    Bool(bool),
    Number(Option<u64>),
    Text(Seq<char>),
    Array(Seq<JsonValue>),
    Object(Seq<(Seq<char>, JsonValue)>),
}

impl Json {
    /// The document as a mathematical tree.
    pub open spec fn value(self) -> JsonValue
        decreases self,
    {
        match self {
            Json::Null => JsonValue::Null,
            Json::Bool(flag) => JsonValue::Bool(flag),
            Json::Number(number) => JsonValue::Number(number),
            Json::Text(text) => JsonValue::Text(text@),
            Json::Array(items) => JsonValue::Array(
                Seq::new(
                    items@.len(),
                    |i: int|
                        if 0 <= i < items@.len() {
                            items@[i].value()
                        } else {
                            JsonValue::Null
                        },
                ),
            ),
            Json::Object(members) => JsonValue::Object(
                Seq::new(
                    members@.len(),
                    |i: int|
                        if 0 <= i < members@.len() {
                            (members@[i].0@, members@[i].1.value())
                        } else {
                            (Seq::empty(), JsonValue::Null)
                        },
                ),
            ),
        }
    }
}

impl View for Json {
    type V = JsonValue;

    open spec fn view(&self) -> JsonValue {
        self.value()
    }
}

impl DeepView for Json {
    type V = JsonValue;

    open spec fn deep_view(&self) -> JsonValue {
        self.value()
    }
}

/// The value of the first member named `key`, if there is one.
pub open spec fn first_member(members: Seq<(Seq<char>, JsonValue)>, key: Seq<char>) -> Option<
    JsonValue,
>
    decreases members.len(),
{
    if members.len() == 0 {
        None
    } else if members[0].0 == key {
        Some(members[0].1)
    } else {
        first_member(members.drop_first(), key)
    }
}

impl JsonValue {
    /// The member of an object under `key`; `None` for a missing member and
    /// for a document that is no object.
    pub open spec fn member(self, key: Seq<char>) -> Option<JsonValue> {
        match self {
            JsonValue::Object(members) => first_member(members, key),
            _ => None,
        }
    }

    /// The member under `key` unless it is missing or `null`.
    pub open spec fn optional(self, key: Seq<char>) -> Option<JsonValue> {
        match self.member(key) {
            Some(JsonValue::Null) => None,
            found => found,
        }
    }

    /// The characters of a string.
    pub open spec fn as_text(self) -> Option<Seq<char>> {
        match self {
            JsonValue::Text(text) => Some(text),
            _ => None,
        }
    }

    /// The value of a whole number from zero to 2^64 - 1.
    pub open spec fn as_number(self) -> Option<u64> {
        match self {
            JsonValue::Number(number) => number,
            _ => None,
        }
    }

    /// The value of `true` or `false`.
    pub open spec fn as_flag(self) -> Option<bool> {
        match self {
            JsonValue::Bool(flag) => Some(flag),
            _ => None,
        }
    }

    /// The items of an array.
    pub open spec fn as_items(self) -> Option<Seq<JsonValue>> {
        match self {
            JsonValue::Array(items) => Some(items),
            _ => None,
        }
    }

    /// The string under `key` of an object.
    pub open spec fn text_at(self, key: Seq<char>) -> Option<Seq<char>> {
        match self.member(key) {
            Some(found) => found.as_text(),
            None => None,
        }
    }

    /// The number under `key` of an object.
    pub open spec fn number_at(self, key: Seq<char>) -> Option<u64> {
        match self.member(key) {
            Some(found) => found.as_number(),
            None => None,
        }
    }

    /// The flag under `key` of an object.
    pub open spec fn flag_at(self, key: Seq<char>) -> Option<bool> {
        match self.member(key) {
            Some(found) => found.as_flag(),
            None => None,
        }
    }

    /// The number under `key` where the member may be left out: `Some(None)`
    /// for a member that is missing or `null`, `None` for one that is there
    /// and is no number.
    pub open spec fn optional_number_at(self, key: Seq<char>) -> Option<Option<u64>> {
        match self.optional(key) {
            None => Some(None),
            Some(found) => match found.as_number() {
                Some(number) => Some(Some(number)),
                None => None,
            },
        }
    }
}

/// The tree that a `serde_json::Value` holds, each number as
/// `Number::as_u64` gives it.
pub uninterp spec fn value_tree(value: serde_json::Value) -> JsonValue;

/// What `serde_json::Error` prints of itself through `Display`.
pub uninterp spec fn json_error_text(cause: serde_json::Error) -> Seq<char>;

/// What `serde_json::from_slice` makes of a text as a `serde_json::Value`:
/// the tree of the document, or the text of its complaint.
pub uninterp spec fn json_document(bytes: Seq<u8>) -> Result<JsonValue, Seq<char>>;

/// `serde_json::from_slice` at the type `serde_json::Value`: reads one JSON
/// document. The outcome depends on the bytes alone.
#[verifier::external_body]
fn read_value(bytes: &[u8]) -> (read: Result<serde_json::Value, serde_json::Error>)
    ensures
        match read {
            Ok(value) => json_document(bytes@) == Ok::<JsonValue, Seq<char>>(value_tree(value)),
            Err(cause) => json_document(bytes@) == Err::<JsonValue, Seq<char>>(
                json_error_text(cause),
            ),
        },
{
    serde_json::from_slice::<serde_json::Value>(bytes)
}

/// Moves a `serde_json::Value` into a [`Json`], variant by variant; a number
/// through `Number::as_u64`. The tree stays the same.
#[verifier::external_body]
fn tree_of(value: serde_json::Value) -> (tree: Json)
    ensures
        tree@ == value_tree(value),
{
    match value {
        serde_json::Value::Null => Json::Null,
        serde_json::Value::Bool(flag) => Json::Bool(flag),
        serde_json::Value::Number(number) => Json::Number(number.as_u64()),
        serde_json::Value::String(text) => Json::Text(text),
        serde_json::Value::Array(items) => Json::Array(items.into_iter().map(tree_of).collect()),
        serde_json::Value::Object(members) => Json::Object(
            members.into_iter().map(|(key, item)| (key, tree_of(item))).collect(),
        ),
    }
}

/// The digit of a value below sixteen in lower-case hexadecimal notation.
pub open spec fn hex_digit(value: nat) -> char {
    if value < 10 {
        digit_char(value)
    } else if value == 10 {
        'a'
    } else if value == 11 {
        'b'
    } else if value == 12 {
        'c'
    } else if value == 13 {
        'd'
    } else if value == 14 {
        'e'
    } else {
        'f'
    }
}

/// One character as it stands inside a JSON string literal: the quote, the
/// backslash and the control characters below U+0020 are escaped, the short
/// way where JSON has one; every other character stands for itself.
pub open spec fn json_escape(c: char) -> Seq<char> {
    if c == '"' {
        seq!['\\', '"']
    } else if c == '\\' {
        seq!['\\', '\\']
    } else if c == '\u{8}' {
        seq!['\\', 'b']
    } else if c == '\t' {
        seq!['\\', 't']
    } else if c == '\n' {
        seq!['\\', 'n']
    } else if c == '\u{c}' {
        seq!['\\', 'f']
    } else if c == '\r' {
        seq!['\\', 'r']
    } else if (c as u32) < 0x20 {
        seq![
            '\\',
            'u',
            '0',
            '0',
            hex_digit(((c as u32) / 16) as nat),
            hex_digit(((c as u32) % 16) as nat),
        ]
    } else {
        seq![c]
    }
}

/// The characters of a text as they stand inside a JSON string literal.
pub open spec fn json_escaped(text: Seq<char>) -> Seq<char>
    decreases text.len(),
{
    if text.len() == 0 {
        Seq::empty()
    } else {
        json_escaped(text.drop_last()) + json_escape(text.last())
    }
}

/// A text as a JSON string literal: its escaped characters between quotes.
pub open spec fn json_literal(text: Seq<char>) -> Seq<char> {
    seq!['"'] + json_escaped(text) + seq!['"']
}

/// What `serde_json::to_string` makes of a string: its JSON string literal
/// or the text of its complaint. Where it gives a literal, the literal is
/// [`json_literal`] of the string.
pub uninterp spec fn quoted_json(text: Seq<char>) -> Result<Seq<char>, Seq<char>>;

/// `serde_json::to_string` at the type `str`: writes a string as a JSON
/// string literal, escaped as the writer's table says (quote, backslash and
/// the control characters below U+0020). The outcome depends on the
/// characters alone.
#[verifier::external_body]
fn write_string(text: &str) -> (written: Result<String, serde_json::Error>)
    ensures
        match written {
            Ok(literal) => quoted_json(text@) == Ok::<Seq<char>, Seq<char>>(literal@) && literal@
                == json_literal(text@),
            Err(cause) => quoted_json(text@) == Err::<Seq<char>, Seq<char>>(
                json_error_text(cause),
            ),
        },
{
    serde_json::to_string(text)
}

/// `Display` of `serde_json::Error`, through `ToString::to_string`.
#[verifier::external_body]
fn json_error_message(cause: &serde_json::Error) -> (message: String)
    ensures
        message@ == json_error_text(*cause),
{
    cause.to_string()
}

/// Writes `text` as a JSON string literal. On failure the text says what
/// the writer found wrong.
pub fn quote(text: &str) -> (written: Result<String, String>)
    ensures
        match written {
            Ok(literal) => quoted_json(text@) == Ok::<Seq<char>, Seq<char>>(literal@) && literal@
                == json_literal(text@),
            Err(complaint) => quoted_json(text@) == Err::<Seq<char>, Seq<char>>(complaint@),
        },
{
    match write_string(text) {
        Ok(literal) => Ok(literal),
        Err(cause) => Err(json_error_message(&cause)),
    }
}

impl Json {
    /// Reads one JSON document from `bytes`. On failure the text says what
    /// the reader found wrong.
    pub fn parse(bytes: &[u8]) -> (read: Result<Json, String>)
        ensures
            match read {
                Ok(tree) => json_document(bytes@) == Ok::<JsonValue, Seq<char>>(tree@),
                Err(complaint) => json_document(bytes@) == Err::<JsonValue, Seq<char>>(
                    complaint@,
                ),
            },
    {
        match read_value(bytes) {
            Ok(value) => Ok(tree_of(value)),
            Err(cause) => Err(json_error_message(&cause)),
        }
    }

    /// Looks up the member of an object under `key`.
    pub fn get(&self, key: &str) -> (found: Option<&Json>)
        ensures
            found.deep_view() == self@.member(key@),
    {
        match self {
            Json::Object(members) => {
                let ghost all = self@->Object_0;
                let mut i: usize = 0;
                proof {
                    assert(all.subrange(0, all.len() as int) =~= all);
                }
                while i < members.len()
                    invariant
                        i <= members.len(),
                        all.len() == members@.len(),
                        self@.member(key@) == first_member(all, key@),
                        forall|j: int|
                            0 <= j < members@.len() ==> all[j] == (
                                members@[j].0@,
                                members@[j].1@,
                            ),
                        first_member(all, key@) == first_member(
                            all.subrange(i as int, all.len() as int),
                            key@,
                        ),
                    decreases members.len() - i,
                {
                    let ghost rest = all.subrange(i as int, all.len() as int);
                    proof {
                        assert(rest.drop_first() =~= all.subrange(i + 1, all.len() as int));
                    }
                    if members[i].0.as_str().eq(key) {
                        return Some(&members[i].1);
                    }
                    i += 1;
                }
                None
            },
            _ => None,
        }
    }

    /// Looks up the member under `key` and takes `null` for a missing one.
    pub fn get_optional(&self, key: &str) -> (found: Option<&Json>)
        ensures
            found.deep_view() == self@.optional(key@),
    {
        match self.get(key) {
            Some(Json::Null) => None,
            found => found,
        }
    }

    /// The characters of a string.
    pub fn as_text(&self) -> (text: Option<&String>)
        ensures
            text.deep_view() == self@.as_text(),
    {
        match self {
            Json::Text(text) => Some(text),
            _ => None,
        }
    }

    /// The value of a whole number from zero to 2^64 - 1.
    pub fn as_number(&self) -> (number: Option<u64>)
        ensures
            number == self@.as_number(),
    {
        match self {
            Json::Number(number) => *number,
            _ => None,
        }
    }

    /// The value of `true` or `false`.
    pub fn as_flag(&self) -> (flag: Option<bool>)
        ensures
            flag == self@.as_flag(),
    {
        match self {
            Json::Bool(flag) => Some(*flag),
            _ => None,
        }
    }

    /// The items of an array.
    pub fn as_items(&self) -> (items: Option<&Vec<Json>>)
        ensures
            items.deep_view() == self@.as_items(),
    {
        match self {
            Json::Array(items) => {
                Some(items)
            },
            _ => None,
        }
    }

    /// The string under `key` of an object, copied out.
    pub fn text_at(&self, key: &str) -> (text: Option<String>)
        ensures
            text.deep_view() == self@.text_at(key@),
    {
        match self.get(key) {
            Some(item) => match item.as_text() {
                Some(text) => Some(text.clone()),
                None => None,
            },
            None => None,
        }
    }

    /// The number under `key` of an object.
    pub fn number_at(&self, key: &str) -> (number: Option<u64>)
        ensures
            number == self@.number_at(key@),
    {
        match self.get(key) {
            Some(item) => item.as_number(),
            None => None,
        }
    }

    /// The number under `key` where the member may be left out.
    pub fn optional_number_at(&self, key: &str) -> (number: Option<Option<u64>>)
        ensures
            number == self@.optional_number_at(key@),
    {
        match self.get_optional(key) {
            None => Some(None),
            Some(item) => match item.as_number() {
                Some(number) => Some(Some(number)),
                None => None,
            },
        }
    }

    /// The flag under `key` of an object.
    pub fn flag_at(&self, key: &str) -> (flag: Option<bool>)
        ensures
            flag == self@.flag_at(key@),
    {
        match self.get(key) {
            Some(item) => item.as_flag(),
            None => None,
        }
    }
}

} // verus!
