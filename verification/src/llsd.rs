//! Structured data: scalars, maps and arrays, and the conversions between
//! scalars.
//!
//! A real number is kept as the bit pattern of a 64-bit IEEE 754 number, and
//! a date as seconds and nanoseconds since the start of 1970, UTC.

use crate::types::Uuid;
use crate::wire::be_value;
use byteorder::{BigEndian, ByteOrder};
use std::collections::HashMap;
use vstd::prelude::*;
use vstd::std_specs::convert::IntoSpec;

verus! {

/// A point in time: seconds since the start of 1970, UTC, and the
/// nanoseconds into that second.
#[derive(Clone, Copy, Debug, PartialEq, Eq, Structural)]
pub struct Date {
    pub secs: i64,
    pub nanos: u32,
}

/// A value that is no container.
#[derive(Clone, Debug, PartialEq)]
pub enum Scalar {
    Boolean(bool),
    Integer(i32),
    /// The bit pattern of a 64-bit IEEE 754 number.
    Real(u64),
    Uuid(Uuid),
    String(String),
    Date(Date),
    Uri(String),
    Binary(Vec<u8>),
    Undefined,
}

/// What a scalar is.
pub enum ScalarView {
    Boolean(bool),
    Integer(i32),
    Real(u64),
    Uuid(Seq<u8>),
    String(Seq<char>),
    Date(Date),
    Uri(Seq<char>),
    Binary(Seq<u8>),
    Undefined,
}

impl View for Scalar {
    type V = ScalarView;

    open spec fn view(&self) -> ScalarView {
        match self {
            Scalar::Boolean(b) => ScalarView::Boolean(*b),
            Scalar::Integer(i) => ScalarView::Integer(*i),
            Scalar::Real(r) => ScalarView::Real(*r),
            Scalar::Uuid(u) => ScalarView::Uuid(u@),
            Scalar::String(s) => ScalarView::String(s@),
            Scalar::Date(d) => ScalarView::Date(*d),
            Scalar::Uri(u) => ScalarView::Uri(u@),
            Scalar::Binary(b) => ScalarView::Binary(b@),
            Scalar::Undefined => ScalarView::Undefined,
        }
    }
}

/// The kinds of scalar.
#[derive(Clone, Copy, Debug, PartialEq, Eq, Structural)]
pub enum ScalarType {
    Boolean,
    Integer,
    Real,
    Uuid,
    String,
    Date,
    Uri,
    Binary,
    Undefined,
}

/// A map from names to values.
pub type ValueMap = HashMap<String, Value>;

/// A list of values.
pub type Array = Vec<Value>;

/// A scalar, a map or an array.
#[derive(Debug, PartialEq)]
pub enum Value {
    Scalar(Scalar),
    Mapping(ValueMap),
    Array(Array),
}

/// The text that `String::from_utf8_lossy` makes of bytes: valid UTF-8 as it
/// is, each invalid sequence as the replacement character.
pub uninterp spec fn lossy_text(bytes: Seq<u8>) -> Seq<char>;

/// The text of capture group 1 in the first match that the `regex` crate
/// finds for the pattern in the text; `None` where the pattern does not
/// compile, nothing matches, or the group takes no part in the match.
pub uninterp spec fn first_capture_text(pattern: Seq<char>, text: Seq<char>) -> Option<Seq<char>>;

/// The number that `str::parse::<i32>` reads from a text, if it reads one.
pub uninterp spec fn parsed_i32(text: Seq<char>) -> Option<i32>;

/// The text that `format!("{}", i)` writes for a number.
pub uninterp spec fn decimal_text(i: i32) -> Seq<char>;

/// The bytes of the identifier that `uuid::Uuid::parse_str` reads from a
/// text, if it reads one.
pub uninterp spec fn uuid_of_text(text: Seq<char>) -> Option<Seq<u8>>;

/// The text that the `uuid` crate writes for an identifier in hyphenated
/// form.
pub uninterp spec fn hyphenated_text(bytes: Seq<u8>) -> Seq<char>;

/// The RFC 3339 text that `chrono` writes for a point in time; `None` where
/// `chrono` cannot hold that point in time.
pub uninterp spec fn rfc3339_text(secs: i64, nanos: u32) -> Option<Seq<char>>;

/// The point in time that `chrono` reads from a text as a UTC date and time,
/// if it reads one: its seconds and nanoseconds.
pub uninterp spec fn date_of_text(text: Seq<char>) -> Option<(i64, u32)>;

/// Whether an optional text is the one that a specification names.
pub open spec fn text_is(r: Option<String>, t: Option<Seq<char>>) -> bool {
    match (r, t) {
        (Some(s), Some(x)) => s@ == x,
        (None, None) => true,
        _ => false,
    }
}

/// `String::from_utf8_lossy`, with the result in a string of its own.
#[verifier::external_body]
fn utf8_lossy(bytes: &[u8]) -> (s: String)
    ensures
        s@ == lossy_text(bytes@),
{
    String::from_utf8_lossy(bytes).to_string()
}

/// `regex::Regex::new` and `captures_iter`: the text of group 1 of the first
/// match, as `first_capture_text` names it.
#[verifier::external_body]
fn first_capture(pattern: &str, text: &str) -> (r: Option<String>)
    ensures
        text_is(r, first_capture_text(pattern@, text@)),
{
    regex::Regex::new(pattern).ok().and_then(
        |re| re.captures_iter(text).next().and_then(|c| c.get(1).map(|m| m.as_str().to_owned())),
    )
}

/// `str::parse::<i32>`, with a failure as `None`.
#[verifier::external_body]
fn parse_i32(text: &str) -> (r: Option<i32>)
    ensures
        r == parsed_i32(text@),
{
    text.parse::<i32>().ok()
}

/// `format!("{}", i)`.
#[verifier::external_body]
fn decimal(i: i32) -> (s: String)
    ensures
        s@ == decimal_text(i),
{
    format!("{}", i)
}

/// `uuid::Uuid::parse_str`, with a failure as `None` and the identifier by
/// its bytes.
#[verifier::external_body]
fn parse_uuid(text: &str) -> (r: Option<Uuid>)
    ensures
        r is Some <==> uuid_of_text(text@) is Some,
        r is Some ==> r.unwrap()@ == uuid_of_text(text@).unwrap(),
{
    uuid::Uuid::parse_str(text).ok().map(|u| Uuid { bytes: *u.as_bytes() })
}

/// `uuid::Uuid::hyphenated`, written out.
#[verifier::external_body]
fn hyphenated(u: &Uuid) -> (s: String)
    ensures
        s@ == hyphenated_text(u@),
{
    uuid::Uuid::from_bytes(u.bytes).hyphenated().to_string()
}

/// `chrono::DateTime::to_rfc3339` on the point in time that
/// `chrono::DateTime::from_timestamp` makes of seconds and nanoseconds.
#[verifier::external_body]
fn rfc3339(secs: i64, nanos: u32) -> (r: Option<String>)
    ensures
        text_is(r, rfc3339_text(secs, nanos)),
{
    chrono::DateTime::from_timestamp(secs, nanos).map(|d| d.to_rfc3339())
}

/// `str::parse::<chrono::DateTime<chrono::Utc>>`, with a failure as `None`
/// and the point in time by its seconds and nanoseconds.
#[verifier::external_body]
fn parse_date(text: &str) -> (r: Option<Date>)
    ensures
        r is Some <==> date_of_text(text@) is Some,
        r is Some ==> (r.unwrap().secs, r.unwrap().nanos) == date_of_text(text@).unwrap(),
{
    text.parse::<chrono::DateTime<chrono::Utc>>().ok().map(
        |d| Date { secs: d.timestamp(), nanos: d.timestamp_subsec_nanos() },
    )
}

/// The signed number that four bytes spell, most significant byte first.
pub open spec fn be_signed(b: Seq<u8>) -> int
    recommends
        b.len() == 4,
{
    if be_value(b) >= 0x8000_0000 {
        be_value(b) - 0x1_0000_0000
    } else {
        be_value(b)
    }
}

/// `byteorder::BigEndian::read_i32`: the first four bytes of `buf`, read most
/// significant byte first as a signed number. The outside function panics on
/// a shorter buffer, which `requires` leaves out.
#[verifier::external_body]
fn read_i32_be(buf: &[u8]) -> (n: i32)
    requires
        buf@.len() >= 4,
    ensures
        n as int == be_signed(buf@.subrange(0, 4)),
{
    BigEndian::read_i32(buf)
}

/// The pattern by which a number is found in a text.
pub open spec fn integer_pattern() -> Seq<char> {
    "(-?\\d+)"@
}

/// The bytes of the identifier that is nil.
pub open spec fn nil_bytes() -> Seq<u8> {
    Seq::new(16, |i: int| 0u8)
}

/// A scalar as a truth value. A number is true unless it is zero, an
/// identifier unless it is nil, a binary unless it is empty; a text is true
/// where it reads `1` or `true`.
pub open spec fn bool_of(s: ScalarView) -> Option<bool> {
    match s {
        ScalarView::Boolean(b) => Some(b),
        ScalarView::Integer(i) => Some(i != 0),
        ScalarView::Real(r) => Some(r != 0 && r != 0x8000_0000_0000_0000),
        ScalarView::Uuid(u) => Some(u != nil_bytes()),
        ScalarView::String(s) => Some(s == "1"@ || s == "true"@),
        ScalarView::Date(_) => None,
        ScalarView::Uri(_) => None,
        ScalarView::Binary(b) => Some(b.len() > 0),
        ScalarView::Undefined => None,
    }
}

/// Whether the conversion to an integer is computed here: not for a real
/// number, and for a text only where the number found in it fits.
pub open spec fn int_defined(s: ScalarView) -> bool {
    match s {
        ScalarView::Real(_) => false,
        ScalarView::String(t) => match first_capture_text(integer_pattern(), t) {
            Some(found) => parsed_i32(found) is Some,
            None => true,
        },
        _ => true,
    }
}

/// A scalar as an integer. A text gives the first number found in it, a date
/// its seconds cut to 32 bits, a binary of four bytes or more the big-endian
/// number in its first four.
pub open spec fn int_of(s: ScalarView) -> Option<i32> {
    match s {
        ScalarView::Boolean(b) => Some(if b { 1i32 } else { 0i32 }),
        ScalarView::Integer(i) => Some(i),
        ScalarView::Real(_) => None,
        ScalarView::Uuid(_) => None,
        ScalarView::String(t) => match first_capture_text(integer_pattern(), t) {
            Some(found) => parsed_i32(found),
            None => None,
        },
        ScalarView::Date(d) => Some(d.secs as i32),
        ScalarView::Uri(_) => None,
        ScalarView::Binary(b) => if b.len() < 4 {
            None
        } else {
            Some(be_signed(b.subrange(0, 4)) as i32)
        },
        ScalarView::Undefined => None,
    }
}

/// A scalar as an identifier, by its bytes. A binary of sixteen bytes or
/// more gives its first sixteen.
pub open spec fn uuid_of(s: ScalarView) -> Option<Seq<u8>> {
    match s {
        ScalarView::Uuid(u) => Some(u),
        ScalarView::String(t) => uuid_of_text(t),
        ScalarView::Binary(b) => if b.len() < 16 {
            None
        } else {
            Some(b.subrange(0, 16))
        },
        _ => None,
    }
}

/// A scalar as a text.
pub open spec fn string_of(s: ScalarView) -> Option<Seq<char>> {
    match s {
        ScalarView::Boolean(b) => Some(if b { "true"@ } else { "false"@ }),
        ScalarView::Integer(i) => Some(decimal_text(i)),
        ScalarView::Real(_) => None,
        ScalarView::Uuid(u) => Some(hyphenated_text(u)),
        ScalarView::String(t) => Some(t),
        ScalarView::Date(d) => rfc3339_text(d.secs, d.nanos),
        ScalarView::Uri(u) => Some(u),
        ScalarView::Binary(b) => Some(lossy_text(b)),
        ScalarView::Undefined => None,
    }
}

/// A scalar as a date. An integer counts seconds.
pub open spec fn date_of(s: ScalarView) -> Option<Date> {
    match s {
        ScalarView::Integer(i) => Some(Date { secs: i as i64, nanos: 0 }),
        ScalarView::String(t) => match date_of_text(t) {
            Some(found) => Some(Date { secs: found.0, nanos: found.1 }),
            None => None,
        },
        ScalarView::Date(d) => Some(d),
        _ => None,
    }
}

/// A scalar as a URI.
pub open spec fn uri_of(s: ScalarView) -> Option<Seq<char>> {
    match s {
        ScalarView::String(t) => Some(t),
        ScalarView::Uri(u) => Some(u),
        ScalarView::Binary(b) => Some(lossy_text(b)),
        _ => None,
    }
}

/// A scalar as bytes. A text gives its UTF-8 encoding.
pub open spec fn binary_of(s: ScalarView) -> Option<Seq<u8>> {
    match s {
        ScalarView::Boolean(b) => Some(seq![if b { 1u8 } else { 0u8 }]),
        ScalarView::Uuid(u) => Some(u),
        ScalarView::String(t) => Some(vstd::utf8::encode_utf8(t)),
        ScalarView::Binary(b) => Some(b),
        _ => None,
    }
}

impl Scalar {
    pub fn as_bool(&self) -> (r: Option<bool>)
        ensures
            r == bool_of(self@),
    {
        match self {
            Scalar::Boolean(b) => Some(*b),
            Scalar::Integer(i) => Some(*i != 0),
            Scalar::Real(r) => Some(*r != 0 && *r != 0x8000_0000_0000_0000),
            Scalar::Uuid(u) => Some(!u.is_nil()),
            Scalar::String(s) => {
                let one = "1".to_owned();
                let yes = "true".to_owned();
                Some(*s == one || *s == yes)
            },
            Scalar::Date(_) => None,
            Scalar::Uri(_) => None,
            Scalar::Binary(b) => Some(b.len() > 0),
            Scalar::Undefined => None,
        }
    }

    /// The scalar as an integer, where that conversion is computed here.
    pub fn as_int(&self) -> (r: Option<i32>)
        requires
            int_defined(self@),
        ensures
            r == int_of(self@),
    {
        match self {
            Scalar::Boolean(b) => if *b {
                Some(1)
            } else {
                Some(0)
            },
            Scalar::Integer(i) => Some(*i),
            Scalar::Real(_) => None,
            Scalar::Uuid(_) => None,
            Scalar::String(s) => {
                match first_capture("(-?\\d+)", s.as_str()) {
                    Some(found) => parse_i32(found.as_str()),
                    None => None,
                }
            },
            Scalar::Date(d) => Some(#[verifier::truncate] (d.secs as i32)),
            Scalar::Uri(_) => None,
            Scalar::Binary(b) => if b.len() < 4 {
                None
            } else {
                let first = vstd::slice::slice_subrange(b.as_slice(), 0, 4);
                assert(first@.subrange(0, 4) =~= b@.subrange(0, 4));
                Some(read_i32_be(first))
            },
            Scalar::Undefined => None,
        }
    }

    /// The scalar as an integer; `None` where that conversion is not computed
    /// here.
    pub fn checked_as_int(&self) -> (r: Option<Option<i32>>)
        ensures
            r is Some <==> int_defined(self@),
            r is Some ==> r.unwrap() == int_of(self@),
    {
        match self {
            Scalar::Real(_) => None,
            Scalar::String(s) => {
                match first_capture("(-?\\d+)", s.as_str()) {
                    Some(found) => match parse_i32(found.as_str()) {
                        Some(_) => Some(self.as_int()),
                        None => None,
                    },
                    None => Some(self.as_int()),
                }
            },
            _ => Some(self.as_int()),
        }
    }

    pub fn as_uuid(&self) -> (r: Option<Uuid>)
        ensures
            r is Some <==> uuid_of(self@) is Some,
            r is Some ==> r.unwrap()@ == uuid_of(self@).unwrap(),
    {
        match self {
            Scalar::Boolean(_) => None,
            Scalar::Integer(_) => None,
            Scalar::Real(_) => None,
            Scalar::Uuid(u) => Some(*u),
            Scalar::String(s) => parse_uuid(s.as_str()),
            Scalar::Date(_) => None,
            Scalar::Uri(_) => None,
            Scalar::Binary(b) => {
                if b.len() < 16 {
                    None
                } else {
                    let mut bytes: [u8; 16] = [0u8; 16];
                    let mut i: usize = 0;
                    while i < 16
                        invariant
                            i <= 16,
                            b@.len() >= 16,
                            forall|j: int| 0 <= j < i ==> bytes@[j] == b@[j],
                        decreases 16 - i,
                    {
                        bytes[i] = b[i];
                        i = i + 1;
                    }
                    let u = Uuid { bytes };
                    assert(u@ =~= b@.subrange(0, 16));
                    Some(u)
                }
            },
            Scalar::Undefined => None,
        }
    }

    /// The scalar as a text. Not for a real number.
    pub fn as_string(&self) -> (r: Option<String>)
        requires
            !(self@ is Real),
        ensures
            text_is(r, string_of(self@)),
    {
        match self {
            Scalar::Boolean(b) => if *b {
                Some("true".to_owned())
            } else {
                Some("false".to_owned())
            },
            Scalar::Integer(i) => Some(decimal(*i)),
            Scalar::Real(_) => None,
            Scalar::Uuid(u) => Some(hyphenated(u)),
            Scalar::String(s) => Some(s.clone()),
            Scalar::Date(d) => rfc3339(d.secs, d.nanos),
            Scalar::Uri(u) => Some(u.clone()),
            Scalar::Binary(b) => Some(utf8_lossy(b.as_slice())),
            Scalar::Undefined => None,
        }
    }

    /// The scalar as a date. Not for a real number.
    pub fn as_date(&self) -> (r: Option<Date>)
        requires
            !(self@ is Real),
        ensures
            r == date_of(self@),
    {
        match self {
            Scalar::Boolean(_) => None,
            Scalar::Integer(i) => Some(Date { secs: *i as i64, nanos: 0 }),
            Scalar::Real(_) => None,
            Scalar::Uuid(_) => None,
            Scalar::String(s) => parse_date(s.as_str()),
            Scalar::Date(d) => Some(*d),
            Scalar::Uri(_) => None,
            Scalar::Binary(_) => None,
            Scalar::Undefined => None,
        }
    }

    pub fn as_uri(&self) -> (r: Option<String>)
        ensures
            text_is(r, uri_of(self@)),
    {
        match self {
            Scalar::Boolean(_) => None,
            Scalar::Integer(_) => None,
            Scalar::Real(_) => None,
            Scalar::Uuid(_) => None,
            Scalar::String(s) => Some(s.clone()),
            Scalar::Date(_) => None,
            Scalar::Uri(u) => Some(u.clone()),
            Scalar::Binary(b) => Some(utf8_lossy(b.as_slice())),
            Scalar::Undefined => None,
        }
    }

    /// The scalar as bytes. Not for a number.
    pub fn as_binary(&self) -> (r: Option<Vec<u8>>)
        requires
            !(self@ is Integer),
            !(self@ is Real),
        ensures
            r is Some <==> binary_of(self@) is Some,
            r is Some ==> r.unwrap()@ == binary_of(self@).unwrap(),
    {
        match self {
            Scalar::Boolean(b) => {
                let mut out: Vec<u8> = Vec::new();
                out.push(if *b { 1u8 } else { 0u8 });
                assert(out@ =~= seq![if *b { 1u8 } else { 0u8 }]);
                Some(out)
            },
            Scalar::Integer(_) => None,
            Scalar::Real(_) => None,
            Scalar::Uuid(u) => {
                let mut out: Vec<u8> = Vec::new();
                crate::messages::push_uuid(&mut out, u);
                assert(out@ =~= u@);
                Some(out)
            },
            Scalar::String(s) => Some(crate::message::copy_bytes(s.as_str().as_bytes())),
            Scalar::Date(_) => None,
            Scalar::Uri(_) => None,
            Scalar::Binary(b) => Some(crate::message::copy_bytes(b.as_slice())),
            Scalar::Undefined => None,
        }
    }
}

/// Whether reading a scalar of a kind from a text is computed here: not for
/// a real number, and for an integer only where the number found fits.
pub open spec fn parse_defined(t: ScalarType, text: Seq<char>) -> bool {
    t != ScalarType::Real && (t == ScalarType::Integer ==> int_defined(ScalarView::String(text)))
}

/// The scalar of a kind that a text holds, if it holds one.
pub open spec fn parsed_scalar(t: ScalarType, text: Seq<char>) -> Option<ScalarView> {
    match t {
        ScalarType::Boolean => Some(ScalarView::Boolean(text == "1"@ || text == "true"@)),
        ScalarType::Integer => match int_of(ScalarView::String(text)) {
            Some(i) => Some(ScalarView::Integer(i)),
            None => None,
        },
        ScalarType::Real => None,
        ScalarType::Uuid => match uuid_of_text(text) {
            Some(u) => Some(ScalarView::Uuid(u)),
            None => None,
        },
        ScalarType::String => Some(ScalarView::String(text)),
        ScalarType::Date => match date_of(ScalarView::String(text)) {
            Some(d) => Some(ScalarView::Date(d)),
            None => None,
        },
        ScalarType::Uri => Some(ScalarView::Uri(text)),
        ScalarType::Binary => None,
        ScalarType::Undefined => None,
    }
}

impl ScalarType {
    /// Reads a scalar of this kind from bytes that hold its text, where that
    /// is computed here.
    pub fn parse_scalar(&self, source: &[u8]) -> (r: Option<Scalar>)
        requires
            parse_defined(*self, lossy_text(source@)),
        ensures
            r is Some <==> parsed_scalar(*self, lossy_text(source@)) is Some,
            r is Some ==> r.unwrap()@ == parsed_scalar(*self, lossy_text(source@)).unwrap(),
    {
        let s_value = Scalar::String(utf8_lossy(source));
        match self {
            ScalarType::Boolean => match s_value.as_bool() {
                Some(b) => Some(Scalar::Boolean(b)),
                None => None,
            },
            ScalarType::Integer => match s_value.as_int() {
                Some(i) => Some(Scalar::Integer(i)),
                None => None,
            },
            ScalarType::Real => None,
            ScalarType::Uuid => match s_value.as_uuid() {
                Some(u) => Some(Scalar::Uuid(u)),
                None => None,
            },
            ScalarType::String => Some(s_value),
            ScalarType::Date => match s_value.as_date() {
                Some(d) => Some(Scalar::Date(d)),
                None => None,
            },
            ScalarType::Uri => match s_value.as_uri() {
                Some(u) => Some(Scalar::Uri(u)),
                None => None,
            },
            ScalarType::Binary => None,
            ScalarType::Undefined => None,
        }
    }

    /// Reads a scalar of this kind from bytes that hold its text; `None`
    /// where that is not computed here.
    pub fn checked_parse_scalar(&self, source: &[u8]) -> (r: Option<Option<Scalar>>)
        ensures
            r is Some <==> parse_defined(*self, lossy_text(source@)),
            r is Some ==> (r.unwrap() is Some <==> parsed_scalar(
                *self,
                lossy_text(source@),
            ) is Some),
            r is Some && r.unwrap() is Some ==> r.unwrap().unwrap()@ == parsed_scalar(
                *self,
                lossy_text(source@),
            ).unwrap(),
    {
        match self {
            ScalarType::Real => None,
            ScalarType::Integer => {
                let s_value = Scalar::String(utf8_lossy(source));
                match s_value.checked_as_int() {
                    Some(_) => Some(self.parse_scalar(source)),
                    None => None,
                }
            },
            _ => Some(self.parse_scalar(source)),
        }
    }
}

impl Value {
    pub fn scalar(self) -> (r: Option<Scalar>)
        ensures
            r == match self {
                Value::Scalar(s) => Some(s),
                _ => None,
            },
    {
        match self {
            Value::Scalar(s) => Some(s),
            _ => None,
        }
    }

    pub fn scalar_ref(&self) -> (r: Option<&Scalar>)
        ensures
            r == match self {
                Value::Scalar(s) => Some(s),
                _ => None,
            },
    {
        match self {
            Value::Scalar(s) => Some(s),
            _ => None,
        }
    }

    pub fn map(self) -> (r: Option<ValueMap>)
        ensures
            r == match self {
                Value::Mapping(m) => Some(m),
                _ => None,
            },
    {
        match self {
            Value::Mapping(m) => Some(m),
            _ => None,
        }
    }

    pub fn map_ref(&self) -> (r: Option<&ValueMap>)
        ensures
            r == match self {
                Value::Mapping(m) => Some(m),
                _ => None,
            },
    {
        match self {
            Value::Mapping(m) => Some(m),
            _ => None,
        }
    }

    pub fn array(self) -> (r: Option<Array>)
        ensures
            r == match self {
                Value::Array(a) => Some(a),
                _ => None,
            },
    {
        match self {
            Value::Array(a) => Some(a),
            _ => None,
        }
    }

    pub fn array_ref(&self) -> (r: Option<&Array>)
        ensures
            r == match self {
                Value::Array(a) => Some(a),
                _ => None,
            },
    {
        match self {
            Value::Array(a) => Some(a),
            _ => None,
        }
    }

    pub fn new_boolean(b: bool) -> (v: Self)
        ensures
            v == Value::Scalar(Scalar::Boolean(b)),
    {
        Value::Scalar(Scalar::Boolean(b))
    }

    pub fn new_integer(i: i32) -> (v: Self)
        ensures
            v == Value::Scalar(Scalar::Integer(i)),
    {
        Value::Scalar(Scalar::Integer(i))
    }

    /// A real number, given by the bit pattern of a 64-bit IEEE 754 number.
    pub fn new_real(r: u64) -> (v: Self)
        ensures
            v == Value::Scalar(Scalar::Real(r)),
    {
        Value::Scalar(Scalar::Real(r))
    }

    pub fn new_uuid(u: Uuid) -> (v: Self)
        ensures
            v == Value::Scalar(Scalar::Uuid(u)),
    {
        Value::Scalar(Scalar::Uuid(u))
    }

    pub fn new_string<S: Into<String>>(s: S) -> (v: Self)
        ensures
            v matches Value::Scalar(Scalar::String(t)) && (S::obeys_into_spec() ==> t
                == s.into_spec()),
    {
        Value::Scalar(Scalar::String(s.into()))
    }

    pub fn new_date(d: Date) -> (v: Self)
        ensures
            v == Value::Scalar(Scalar::Date(d)),
    {
        Value::Scalar(Scalar::Date(d))
    }

    pub fn new_uri<U: Into<String>>(u: U) -> (v: Self)
        ensures
            v matches Value::Scalar(Scalar::Uri(t)) && (U::obeys_into_spec() ==> t
                == u.into_spec()),
    {
        Value::Scalar(Scalar::Uri(u.into()))
    }

    pub fn new_binary(b: Vec<u8>) -> (v: Self)
        ensures
            v == Value::Scalar(Scalar::Binary(b)),
    {
        Value::Scalar(Scalar::Binary(b))
    }
}

} // verus!
