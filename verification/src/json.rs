//! JSON values as the protocol reads them: one level at a time.
//!
//! Reading a document gives its outermost value. The items of an array and the
//! members of an object are kept as JSON text, and are read in turn when they are
//! looked at. The reading and the escaping of strings are done by `serde_json`.

use crate::text::{integer_value, parse_decimal, push_str, str_eq, utf8};
use serde_json::Value;
use vstd::prelude::*;

verus! {

/// The outermost value of a JSON document.
#[derive(Debug, PartialEq, Eq)]
pub enum Json {
    Null,
    Bool(bool),
    /// A number, as its text.
    Number(String),
    /// A string, unescaped.
    Text(String),
    /// An array; each item as compact JSON text.
    Array(Vec<String>),
    /// An object; each member as its key and its value in compact JSON text.
    Object(Vec<(String, String)>),
}

/// A byte string that is not a JSON document.
#[derive(Clone, Copy, Debug, PartialEq, Eq, Structural)]
pub struct SyntaxError;

/// Why a payload could not be read as the value that was expected.
#[derive(Clone, Copy, Debug, PartialEq, Eq, Structural)]
pub enum DataError {
    /// There was no payload, or it was `null`.
    Missing,
    /// The payload has another shape than the expected value.
    Mismatch,
}

/// A JSON number, kept as its text.
#[derive(Debug, PartialEq, Eq)]
pub struct Number {
    pub text: String,
}

/// `serde_json::Error`, the error of a reading that failed. Nothing is said of
/// what it holds.
#[verifier::external_type_specification]
#[verifier::external_body]
pub struct ExSerdeJsonError(serde_json::Error);

/// The outermost value of the JSON document `text`, as `serde_json` reads it;
/// nothing where `text` is not a JSON document.
pub uninterp spec fn json_document(text: Seq<u8>) -> Option<Json>;

/// The lower-case hexadecimal digit for `n`.
pub open spec fn hex_digit(n: int) -> u8 {
    if n < 10 {
        (48 + n) as u8
    } else {
        (87 + n) as u8
    }
}

/// How one byte of a string stands in a JSON string literal: the quote and the
/// backslash behind a backslash, the control characters that have a letter as
/// that letter behind a backslash, any other control character as `\u00` and
/// two hexadecimal digits, and every other byte as it is.
pub open spec fn escaped_byte(b: u8) -> Seq<u8> {
    if b == 0x22 {
        seq![0x5cu8, 0x22u8]
    } else if b == 0x5c {
        seq![0x5cu8, 0x5cu8]
    } else if b == 0x08 {
        seq![0x5cu8, 0x62u8]
    } else if b == 0x09 {
        seq![0x5cu8, 0x74u8]
    } else if b == 0x0a {
        seq![0x5cu8, 0x6eu8]
    } else if b == 0x0c {
        seq![0x5cu8, 0x66u8]
    } else if b == 0x0d {
        seq![0x5cu8, 0x72u8]
    } else if b < 0x20 {
        seq![0x5cu8, 0x75u8, 0x30u8, 0x30u8, hex_digit(b as int / 16), hex_digit(b as int % 16)]
    } else {
        seq![b]
    }
}

/// The bytes of a string as they stand in a JSON string literal.
pub open spec fn escaped(bytes: Seq<u8>) -> Seq<u8>
    decreases bytes.len(),
{
    if bytes.len() == 0 {
        Seq::empty()
    } else {
        escaped(bytes.drop_last()) + escaped_byte(bytes.last())
    }
}

/// Whether a byte stands in a JSON string literal as it is.
pub open spec fn is_plain(b: u8) -> bool {
    b >= 0x20 && b != 0x22 && b != 0x5c
}

/// Bytes of which none is a quote, a backslash or a control character stand in
/// a JSON string literal as they are.
pub proof fn lemma_escaped_plain(bytes: Seq<u8>)
    requires
        forall|i: int| 0 <= i < bytes.len() ==> is_plain(#[trigger] bytes[i]),
    ensures
        escaped(bytes) == bytes,
    decreases bytes.len(),
{
    if bytes.len() > 0 {
        lemma_escaped_plain(bytes.drop_last());
        assert(is_plain(bytes[bytes.len() - 1]));
        assert(bytes.drop_last() + seq![bytes.last()] =~= bytes);
    }
}

/// The JSON string literal for `text`: its bytes, escaped, between two quotes.
pub open spec fn json_string(text: Seq<char>) -> Seq<u8> {
    seq![0x22u8] + escaped(utf8(text)) + seq![0x22u8]
}

/// Whether every item or member value that `json` keeps as text is a JSON
/// document.
pub open spec fn nested_are_documents(json: Json) -> bool {
    match json {
        Json::Array(items) => forall|i: int|
            0 <= i < items@.len() ==> json_document(utf8(#[trigger] items@[i]@)) is Some,
        Json::Object(members) => forall|i: int|
            0 <= i < members@.len() ==> json_document(utf8((#[trigger] members@[i]).1@)) is Some,
        _ => true,
    }
}

/// `serde_json::from_slice` into a `serde_json::Value`, of which the outermost
/// level is moved into a [`Json`]: a number through `Number`'s `Display`, and
/// each item or member value through `Value`'s `Display`, which writes compact
/// JSON. Assumed: the result depends on the bytes alone, and what `Display`
/// writes for a value that was read is a JSON document again.
#[verifier::external_body]
fn read_document(text: &[u8]) -> (r: Result<Json, serde_json::Error>)
    ensures
        r is Ok <==> json_document(text@) is Some,
        r matches Ok(json) ==> json_document(text@) == Some(json),
        r matches Ok(json) ==> nested_are_documents(json),
{
    serde_json::from_slice::<Value>(text).map(
        |value| match value {
            Value::Null => Json::Null,
            Value::Bool(b) => Json::Bool(b),
            Value::Number(n) => Json::Number(n.to_string()),
            Value::String(s) => Json::Text(s),
            Value::Array(items) => Json::Array(items.iter().map(|v| v.to_string()).collect()),
            Value::Object(members) => Json::Object(
                members.into_iter().map(|(k, v)| (k, v.to_string())).collect(),
            ),
        },
    )
}

/// `serde_json::to_string` on a string slice, which gives the JSON string
/// literal for it: a quote, the bytes of the slice with those escaped that
/// the serializer's table of escapes names, and a quote. Writing a string
/// slice into memory does not fail; the empty string stands in for a failure.
#[verifier::external_body]
fn quote(text: &str) -> (r: String)
    ensures
        utf8(r@) == json_string(text@),
{
    serde_json::to_string(text).unwrap_or_default()
}

/// The text of the first member of `members` whose key is `key`.
pub open spec fn find_member(members: Seq<(String, String)>, key: Seq<char>) -> Option<String>
    decreases members.len(),
{
    if members.len() == 0 {
        None
    } else if members[0].0@ == key {
        Some(members[0].1)
    } else {
        find_member(members.drop_first(), key)
    }
}

/// What is found under a key is the value of one of the members.
pub proof fn lemma_find_member(members: Seq<(String, String)>, key: Seq<char>)
    ensures
        find_member(members, key) matches Some(text) ==> exists|i: int|
            0 <= i < members.len() && (#[trigger] members[i]).1 == text,
    decreases members.len(),
{
    if members.len() == 0 {
    } else if members[0].0@ == key {
        assert(members[0].1 == find_member(members, key)->0);
    } else {
        let rest = members.drop_first();
        lemma_find_member(rest, key);
        if find_member(rest, key) is Some {
            let i = choose|i: int|
                0 <= i < rest.len() && (#[trigger] rest[i]).1 == find_member(rest, key)->0;
            assert(members[i + 1] == rest[i]);
        }
    }
}

/// `items` with a comma between each two.
pub open spec fn comma_separated(items: Seq<Seq<u8>>) -> Seq<u8>
    decreases items.len(),
{
    if items.len() == 0 {
        Seq::empty()
    } else if items.len() == 1 {
        items[0]
    } else {
        comma_separated(items.drop_last()) + seq![44u8] + items.last()
    }
}

/// One object member in compact JSON: the key as a string literal, a colon, and
/// the value's text.
pub open spec fn member_text(member: (String, String)) -> Seq<u8> {
    json_string(member.0@) + seq![58u8] + utf8(member.1@)
}

/// `value` in compact JSON.
pub open spec fn json_text(value: Json) -> Seq<u8> {
    match value {
        Json::Null => utf8("null"@),
        Json::Bool(b) => if b {
            utf8("true"@)
        } else {
            utf8("false"@)
        },
        Json::Number(text) => utf8(text@),
        Json::Text(text) => json_string(text@),
        Json::Array(items) => seq![91u8] + comma_separated(
            items@.map_values(|item: String| utf8(item@)),
        ) + seq![93u8],
        Json::Object(members) => seq![123u8] + comma_separated(
            members@.map_values(|member: (String, String)| member_text(member)),
        ) + seq![125u8],
    }
}

/// Appends the JSON string literal for `text` to `out`.
pub fn push_json_string(out: &mut Vec<u8>, text: &str)
    ensures
        final(out)@ == old(out)@ + json_string(text@),
{
    let quoted = quote(text);
    push_str(out, quoted.as_str());
}

impl Json {
    /// Reads the outermost value of a JSON document.
    pub fn parse(text: &[u8]) -> (r: Result<Json, SyntaxError>)
        ensures
            r == match json_document(text@) {
                Some(json) => Ok::<Json, SyntaxError>(json),
                None => Err::<Json, SyntaxError>(SyntaxError),
            },
            r matches Ok(json) ==> nested_are_documents(json),
    {
        match read_document(text) {
            Ok(json) => Ok(json),
            Err(_) => Err(SyntaxError),
        }
    }

    /// Reads the outermost value of a JSON document held in a string.
    pub fn parse_str(text: &str) -> (r: Result<Json, SyntaxError>)
        ensures
            r == match json_document(utf8(text@)) {
                Some(json) => Ok::<Json, SyntaxError>(json),
                None => Err::<Json, SyntaxError>(SyntaxError),
            },
            r matches Ok(json) ==> nested_are_documents(json),
    {
        Json::parse(text.as_bytes())
    }

    /// The text of the member `key` of an object: of the first one where several
    /// have that key. Nothing where `self` is no object or has no such member.
    pub open spec fn member_of(self, key: Seq<char>) -> Option<String> {
        match self {
            Json::Object(members) => find_member(members@, key),
            _ => None,
        }
    }

    /// Looks up the member `key` of an object and gives its value as JSON text.
    pub fn member(&self, key: &str) -> (r: Option<&String>)
        ensures
            match r {
                Some(text) => self.member_of(key@) == Some(*text),
                None => self.member_of(key@) is None,
            },
    {
        match self {
            Json::Object(members) => {
                let mut i: usize = 0;
                assert(members@.skip(0) =~= members@);
                while i < members.len()
                    invariant
                        i <= members.len(),
                        *self == Json::Object(*members),
                        find_member(members@, key@) == find_member(members@.skip(i as int), key@),
                    decreases members.len() - i,
                {
                    let ghost rest = members@.skip(i as int);
                    assert(rest[0] == members@[i as int]);
                    assert(rest.drop_first() =~= members@.skip(i + 1));
                    if str_eq(members[i].0.as_str(), key) {
                        assert(find_member(rest, key@) == Some(members@[i as int].1));
                        return Some(&members[i].1);
                    }
                    i += 1;
                }
                None
            },
            _ => None,
        }
    }

    /// The integer that a number stands for, where it is written without a
    /// fraction or an exponent and fits in 64 bits.
    pub open spec fn integer_of(self) -> Option<i64> {
        match self {
            Json::Number(text) => integer_value(utf8(text@)),
            _ => None,
        }
    }

    /// The integer that `self` stands for, if it is a number that stands for one.
    pub fn as_i64(&self) -> (r: Option<i64>)
        ensures
            r == self.integer_of(),
    {
        match self {
            Json::Number(text) => parse_decimal(text.as_str().as_bytes()),
            _ => None,
        }
    }

    /// The 32-bit unsigned integer that a number stands for.
    pub open spec fn u32_of(self) -> Option<u32> {
        match self.integer_of() {
            Some(n) => if 0 <= n <= u32::MAX {
                Some(n as u32)
            } else {
                None
            },
            None => None,
        }
    }

    /// The 32-bit unsigned integer that `self` stands for, if it is a number
    /// that stands for one.
    pub fn as_u32(&self) -> (r: Option<u32>)
        ensures
            r == self.u32_of(),
    {
        match self.as_i64() {
            Some(n) => if 0 <= n && n <= 0xffff_ffff {
                Some(n as u32)
            } else {
                None
            },
            None => None,
        }
    }

    /// The value of the member `key` of an object, read as a JSON document.
    /// Nothing where `self` is no object, has no such member, or the member's
    /// text is no JSON document.
    pub open spec fn member_value_of(self, key: Seq<char>) -> Option<Json> {
        match self.member_of(key) {
            Some(text) => json_document(utf8(text@)),
            None => None,
        }
    }

    /// Looks up the member `key` of an object and reads its value. An object
    /// that was read from a document has a value for each member that it has.
    pub fn member_value(&self, key: &str) -> (r: Option<Json>)
        ensures
            r == self.member_value_of(key@),
            r matches Some(value) ==> nested_are_documents(value),
            nested_are_documents(*self) ==> (r is Some <==> self.member_of(key@) is Some),
    {
        proof {
            if self is Object {
                lemma_find_member(self->Object_0@, key@);
            }
        }
        match self.member(key) {
            Some(text) => match Json::parse_str(text.as_str()) {
                Ok(value) => Some(value),
                Err(_) => None,
            },
            None => None,
        }
    }

    /// Whether `self` is `null`.
    pub fn is_null(&self) -> (r: bool)
        ensures
            r == (self is Null),
    {
        match self {
            Json::Null => true,
            _ => false,
        }
    }

    /// Appends `self` in compact JSON to `out`.
    pub fn write(&self, out: &mut Vec<u8>)
        ensures
            final(out)@ == old(out)@ + json_text(*self),
    {
        match self {
            Json::Null => push_str(out, "null"),
            Json::Bool(b) => if *b {
                push_str(out, "true")
            } else {
                push_str(out, "false")
            },
            Json::Number(text) => push_str(out, text.as_str()),
            Json::Text(text) => push_json_string(out, text.as_str()),
            Json::Array(items) => {
                let ghost texts = items@.map_values(|item: String| utf8(item@));
                out.push(91u8);
                let mut i: usize = 0;
                while i < items.len()
                    invariant
                        i <= items.len(),
                        texts == items@.map_values(|item: String| utf8(item@)),
                        out@ == old(out)@ + seq![91u8] + comma_separated(texts.take(i as int)),
                    decreases items.len() - i,
                {
                    if i > 0 {
                        out.push(44u8);
                    }
                    push_str(out, items[i].as_str());
                    proof {
                        let done = texts.take(i + 1);
                        assert(done.drop_last() =~= texts.take(i as int));
                        assert(done.last() == utf8(items@[i as int]@));
                        assert(out@ =~= old(out)@ + seq![91u8] + comma_separated(done));
                    }
                    i += 1;
                }
                assert(texts.take(i as int) =~= texts);
                out.push(93u8);
                assert(out@ =~= old(out)@ + json_text(*self));
            },
            Json::Object(members) => {
                let ghost texts = members@.map_values(
                    |member: (String, String)| member_text(member),
                );
                out.push(123u8);
                let mut i: usize = 0;
                while i < members.len()
                    invariant
                        i <= members.len(),
                        texts == members@.map_values(
                            |member: (String, String)| member_text(member),
                        ),
                        out@ == old(out)@ + seq![123u8] + comma_separated(texts.take(i as int)),
                    decreases members.len() - i,
                {
                    if i > 0 {
                        out.push(44u8);
                    }
                    push_json_string(out, members[i].0.as_str());
                    out.push(58u8);
                    push_str(out, members[i].1.as_str());
                    proof {
                        let done = texts.take(i + 1);
                        assert(done.drop_last() =~= texts.take(i as int));
                        assert(done.last() == member_text(members@[i as int]));
                        assert(out@ =~= old(out)@ + seq![123u8] + comma_separated(done));
                    }
                    i += 1;
                }
                assert(texts.take(i as int) =~= texts);
                out.push(125u8);
                assert(out@ =~= old(out)@ + json_text(*self));
            },
        }
    }
}

/// A value that is read from a JSON payload.
pub trait FromJson: Sized {
    /// What a payload is read as; `None` stands for no payload at all.
    spec fn decoded(data: Option<Json>) -> Result<Self, DataError>;

    /// Reads a payload.
    fn from_json(data: Option<Json>) -> (r: Result<Self, DataError>)
        ensures
            r == Self::decoded(data),
    ;
}

/// A value that is written as JSON.
pub trait ToJson {
    /// The value in compact JSON.
    spec fn encoded(&self) -> Seq<u8>;

    /// Appends the value in compact JSON to `out`.
    fn write_json(&self, out: &mut Vec<u8>)
        ensures
            final(out)@ == old(out)@ + self.encoded(),
    ;
}

impl FromJson for Json {
    open spec fn decoded(data: Option<Json>) -> Result<Json, DataError> {
        match data {
            Some(json) => Ok(json),
            None => Err(DataError::Missing),
        }
    }

    fn from_json(data: Option<Json>) -> (r: Result<Json, DataError>) {
        match data {
            Some(json) => Ok(json),
            None => Err(DataError::Missing),
        }
    }
}

impl ToJson for Json {
    open spec fn encoded(&self) -> Seq<u8> {
        json_text(*self)
    }

    fn write_json(&self, out: &mut Vec<u8>) {
        self.write(out)
    }
}

impl FromJson for bool {
    open spec fn decoded(data: Option<Json>) -> Result<bool, DataError> {
        match data {
            Some(Json::Bool(b)) => Ok(b),
            Some(Json::Null) | None => Err(DataError::Missing),
            Some(_) => Err(DataError::Mismatch),
        }
    }

    fn from_json(data: Option<Json>) -> (r: Result<bool, DataError>) {
        match data {
            Some(Json::Bool(b)) => Ok(b),
            Some(Json::Null) | None => Err(DataError::Missing),
            Some(_) => Err(DataError::Mismatch),
        }
    }
}

impl ToJson for bool {
    open spec fn encoded(&self) -> Seq<u8> {
        json_text(Json::Bool(*self))
    }

    fn write_json(&self, out: &mut Vec<u8>) {
        if *self {
            push_str(out, "true")
        } else {
            push_str(out, "false")
        }
    }
}

impl FromJson for String {
    open spec fn decoded(data: Option<Json>) -> Result<String, DataError> {
        match data {
            Some(Json::Text(text)) => Ok(text),
            Some(Json::Null) | None => Err(DataError::Missing),
            Some(_) => Err(DataError::Mismatch),
        }
    }

    fn from_json(data: Option<Json>) -> (r: Result<String, DataError>) {
        match data {
            Some(Json::Text(text)) => Ok(text),
            Some(Json::Null) | None => Err(DataError::Missing),
            Some(_) => Err(DataError::Mismatch),
        }
    }
}

impl ToJson for String {
    open spec fn encoded(&self) -> Seq<u8> {
        json_text(Json::Text(*self))
    }

    fn write_json(&self, out: &mut Vec<u8>) {
        push_json_string(out, self.as_str())
    }
}

impl FromJson for Number {
    open spec fn decoded(data: Option<Json>) -> Result<Number, DataError> {
        match data {
            Some(Json::Number(text)) => Ok(Number { text }),
            Some(Json::Null) | None => Err(DataError::Missing),
            Some(_) => Err(DataError::Mismatch),
        }
    }

    fn from_json(data: Option<Json>) -> (r: Result<Number, DataError>) {
        match data {
            Some(Json::Number(text)) => Ok(Number { text }),
            Some(Json::Null) | None => Err(DataError::Missing),
            Some(_) => Err(DataError::Mismatch),
        }
    }
}

impl ToJson for Number {
    open spec fn encoded(&self) -> Seq<u8> {
        json_text(Json::Number(self.text))
    }

    fn write_json(&self, out: &mut Vec<u8>) {
        push_str(out, self.text.as_str())
    }
}

/// A payload that holds a value is read as that value: a JSON boolean as the
/// boolean, a JSON string as the string, a JSON number as the number, and any
/// JSON value as itself.
pub proof fn lemma_value_round_trip(b: bool, text: String, number: Number, json: Json)
    ensures
        <bool as FromJson>::decoded(Some(Json::Bool(b))) == Ok::<bool, DataError>(b),
        <String as FromJson>::decoded(Some(Json::Text(text))) == Ok::<String, DataError>(text),
        <Number as FromJson>::decoded(Some(Json::Number(number.text))) == Ok::<
            Number,
            DataError,
        >(number),
        <Json as FromJson>::decoded(Some(json)) == Ok::<Json, DataError>(json),
{
}

} // verus!
