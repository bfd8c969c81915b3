//! Universally unique identifiers, written and read as text the way the
//! `uuid` crate does.

use vstd::prelude::*;
use vstd::string::StringExecFns;
use vstd::array::ArrayAdditionalExecFns;
use crate::decode::{TryFromTursoValue, unexpected_none};
use crate::error::{Error, ErrorView, mismatch_message, result_deep_view, type_mismatch};
use crate::param::TursoParam;
use crate::text::{str_debug, debug_text};
use crate::value::{SqlValue, TursoValue};

verus! {

/// A UUID by its sixteen bytes, in the order the `uuid` crate keeps them.
#[derive(Clone, Copy, Debug)]
pub struct Uuid {
    pub bytes: [u8; 16],
}

impl DeepView for Uuid {
    type V = Seq<u8>;

    open spec fn deep_view(&self) -> Seq<u8> {
        self.bytes@
    }
}

/// The lowercase hexadecimal digit of `n` (`0 <= n < 16`).
pub open spec fn hex_digit(n: nat) -> char {
    if n < 10 {
        (48 + n) as char
    } else {
        (87 + n) as char
    }
}

/// Two lowercase hexadecimal digits for each byte, high half first.
pub open spec fn hex_bytes(b: Seq<u8>) -> Seq<char>
    decreases b.len(),
{
    if b.len() == 0 {
        Seq::empty()
    } else {
        seq![hex_digit((b[0] / 16) as nat), hex_digit((b[0] % 16) as nat)] + hex_bytes(
            b.drop_first(),
        )
    }
}

/// The hyphenated text of a UUID: 8, 4, 4, 4 and 12 hexadecimal digits
/// joined by hyphens.
pub open spec fn hyphenated(b: Seq<u8>) -> Seq<char> {
    hex_bytes(b.subrange(0, 4)) + seq!['-'] + hex_bytes(b.subrange(4, 6)) + seq!['-'] + hex_bytes(
        b.subrange(6, 8),
    ) + seq!['-'] + hex_bytes(b.subrange(8, 10)) + seq!['-'] + hex_bytes(b.subrange(10, 16))
}

/// What `uuid::Uuid::parse_str(s)` gives: the bytes of the UUID, or the text
/// of the crate's error.
pub uninterp spec fn uuid_parse_str(s: Seq<char>) -> Result<Seq<u8>, Seq<char>>;

/// Calls `uuid::Uuid::parse_str`, turning its error into text. The contract
/// names the result, which spellings the crate accepts being its own; it
/// states that the hyphenated text of sixteen bytes reads back as those bytes
/// (the crate's parser decodes a 36-character text as hex pairs between the
/// hyphens).
#[verifier::external_body]
fn parse_uuid(s: &str) -> (r: Result<Uuid, String>)
    ensures
        match r {
            Ok(u) => uuid_parse_str(s@) == Ok::<Seq<u8>, Seq<char>>(u.bytes@),
            Err(m) => uuid_parse_str(s@) == Err::<Seq<u8>, Seq<char>>(m@),
        },
        forall|b: Seq<u8>|
            b.len() == 16 && #[trigger] hyphenated(b) == s@ ==> (r is Ok && r->Ok_0.bytes@ == b),
{
    match uuid::Uuid::parse_str(s) {
        Ok(u) => Ok(Uuid { bytes: *u.as_bytes() }),
        Err(e) => Err(e.to_string()),
    }
}

/// Calls the `uuid` crate's `to_string`, which writes the hyphenated
/// lowercase form.
#[verifier::external_body]
fn uuid_to_text(u: &Uuid) -> (r: String)
    ensures
        r@ == hyphenated(u.bytes@),
{
    uuid::Uuid::from_bytes(u.bytes).to_string()
}

impl Uuid {
    /// The UUID with the given bytes.
    pub fn from_bytes(bytes: [u8; 16]) -> (r: Uuid)
        ensures
            r.bytes@ == bytes@,
    {
        Uuid { bytes }
    }

    /// The UUID whose bytes are `b`, when `b` holds exactly sixteen.
    pub fn from_slice(b: &[u8]) -> (r: Option<Uuid>)
        ensures
            r is Some <==> b@.len() == 16,
            r matches Some(u) ==> u.bytes@ == b@,
    {
        if b.len() != 16 {
            return None;
        }
        let mut bytes = [0u8; 16];
        for i in 0..16
            invariant
                b@.len() == 16,
                bytes@.len() == 16,
                forall|j: int| 0 <= j < i ==> bytes@[j] == b@[j],
        {
            bytes.set(i, b[i]);
        }
        assert(bytes@ =~= b@);
        Some(Uuid { bytes })
    }
}

/// The message for a text the `uuid` crate could not read, with its reason.
pub open spec fn unparsed_uuid_message(s: Seq<char>, reason: Seq<char>) -> Seq<char> {
    "could not parse Uuid from "@ + str_debug(s) + ": "@ + reason
}

/// What reading the text `s` as a UUID gives.
pub open spec fn uuid_from_text(s: Seq<char>) -> Result<Seq<u8>, ErrorView> {
    match uuid_parse_str(s) {
        Ok(b) => Ok(b),
        Err(e) => Err(ErrorView::ConversionFailure(unparsed_uuid_message(s, e))),
    }
}

/// The outcome of reading the text `s` as a UUID, given what the `uuid`
/// crate's parser gave: the UUID, or the text of its error.
pub fn uuid_from_parse(s: &str, parsed: Result<Uuid, String>) -> (r: Result<Uuid, Error>)
    ensures
        result_deep_view(r) == match parsed {
            Ok(u) => Ok::<Seq<u8>, ErrorView>(u.bytes@),
            Err(e) => Err(ErrorView::ConversionFailure(unparsed_uuid_message(s@, e@))),
        },
{
    match parsed {
        Ok(u) => Ok(u),
        Err(e) => {
            let mut msg = String::new();
            msg.append("could not parse Uuid from ");
            let quoted = debug_text(s);
            msg.append(quoted.as_str());
            msg.append(": ");
            msg.append(e.as_str());
            Err(Error::ConversionFailure(msg))
        },
    }
}

/// A text reads as the UUID it spells; a blob of sixteen bytes as the UUID
/// with those bytes.
impl TryFromTursoValue for Uuid {
    open spec fn from_turso_view(v: SqlValue) -> Result<Seq<u8>, ErrorView> {
        match v {
            SqlValue::Text(s) => uuid_from_text(s),
            SqlValue::Blob(b) => if b.len() == 16 {
                Ok(b)
            } else {
                Err(ErrorView::ConversionFailure(mismatch_message(v, "Uuid"@)))
            },
            SqlValue::Null => Err(ErrorView::UnexpectedNoneInColumn("Uuid"@)),
            _ => Err(ErrorView::ConversionFailure(mismatch_message(v, "Uuid"@))),
        }
    }

    /// Reads a stored value as a UUID; the hyphenated text of a UUID (see
    /// [`hyphenated`]) reads back as its bytes.
    fn try_from_turso(v: &TursoValue) -> (r: Result<Uuid, Error>)
        ensures
            forall|b: Seq<u8>|
                b.len() == 16 && v@ == SqlValue::Text(#[trigger] hyphenated(b))
                    ==> result_deep_view(r) == Ok::<Seq<u8>, ErrorView>(b),
    {
        match v {
            TursoValue::Text(s) => {
                let parsed = parse_uuid(s.as_str());
                uuid_from_parse(s.as_str(), parsed)
            },
            TursoValue::Blob(b) => match Uuid::from_slice(b.as_slice()) {
                Some(u) => Ok(u),
                None => type_mismatch("Uuid", v),
            },
            TursoValue::Null => Err(unexpected_none("Uuid")),
            _ => type_mismatch("Uuid", v),
        }
    }
}

/// A UUID is stored as its hyphenated lowercase text.
impl TursoParam for Uuid {
    open spec fn param_view(&self) -> SqlValue {
        SqlValue::Text(hyphenated(self.bytes@))
    }

    fn to_turso_value(&self) -> (r: TursoValue) {
        TursoValue::Text(uuid_to_text(self))
    }
}

} // verus!
