//! Identifiers of terminals, editor windows and workspaces.
//!
//! Terminal and window identifiers are UUIDs, kept as their 128-bit value; the
//! `uuid` crate parses and prints them.

use vstd::prelude::*;

use crate::text::{push_str, string_of};

verus! {

/// The lowercase hexadecimal digit for `n < 16`.
pub open spec fn hex_digit(n: nat) -> char {
    seq!['0', '1', '2', '3', '4', '5', '6', '7', '8', '9', 'a', 'b', 'c', 'd', 'e', 'f'][n as int]
}

pub open spec fn pow16(e: nat) -> nat
    decreases e,
{
    if e == 0 {
        1
    } else {
        16 * pow16((e - 1) as nat)
    }
}

/// The `k`-th hexadecimal digit of `v`, most significant first (`k < 32`).
pub open spec fn nibble(v: u128, k: int) -> nat {
    ((v as nat) / pow16((31 - k) as nat)) % 16
}

/// How many hyphens come before position `i` of a hyphenated UUID.
pub open spec fn hyphens_before(i: int) -> int {
    if i < 8 {
        0
    } else if i < 13 {
        1
    } else if i < 18 {
        2
    } else if i < 23 {
        3
    } else {
        4
    }
}

/// The hyphenated lowercase text of a UUID value: 8-4-4-4-12 hexadecimal digits.
pub open spec fn uuid_hyphenated(v: u128) -> Seq<char> {
    Seq::new(
        36,
        |i: int|
            if i == 8 || i == 13 || i == 18 || i == 23 {
                '-'
            } else {
                hex_digit(nibble(v, i - hyphens_before(i)))
            },
    )
}

/// What `uuid::Uuid::parse_str` gives for a text: the UUID value, or nothing when
/// the text is no UUID in one of the crate's accepted shapes.
pub uninterp spec fn uuid_parsed(text: Seq<char>) -> Option<u128>;

/// Prints a UUID value through `uuid::Uuid`'s hyphenated form. The crate writes
/// the 32 hexadecimal digits in lowercase, most significant first, grouped 8-4-4-4-12,
/// and parses that text back to the same value.
#[verifier::external_body]
pub(crate) fn uuid_text(v: u128) -> (r: String)
    ensures
        r@ == uuid_hyphenated(v),
        uuid_parsed(r@) == Some(v),
{
    uuid::Uuid::from_u128(v).hyphenated().to_string()
}

/// Parses a UUID through `uuid::Uuid::parse_str`; the result is the crate's, named
/// `uuid_parsed` and not restated here.
#[verifier::external_body]
pub(crate) fn uuid_parse(text: &str) -> (r: Option<u128>)
    ensures
        r == uuid_parsed(text@),
{
    match uuid::Uuid::parse_str(text) {
        Ok(u) => Some(u.as_u128()),
        Err(_) => None,
    }
}

/// An identifier that did not parse as a UUID.
#[derive(Clone, Debug, PartialEq, Eq)]
pub enum IdError {
    InvalidUuid(String),
}

impl IdError {
    /// The error's message: "invalid id: " and the text that did not parse.
    pub fn text(&self) -> (r: String)
        ensures
            r@ == "invalid id: "@ + match self {
                IdError::InvalidUuid(raw) => raw@,
            },
    {
        let mut out: Vec<char> = Vec::new();
        push_str(&mut out, "invalid id: ");
        match self {
            IdError::InvalidUuid(raw) => push_str(&mut out, raw.as_str()),
        }
        string_of(&out)
    }
}

/// The identifier of a managed terminal.
#[derive(Clone, Copy, Debug, PartialEq, Eq, Structural, Hash, PartialOrd, Ord)]
pub struct TerminalId {
    pub value: u128,
}

/// The identifier of the editor window that opened a terminal.
#[derive(Clone, Copy, Debug, PartialEq, Eq, Structural, Hash, PartialOrd, Ord)]
pub struct WindowId {
    pub value: u128,
}

impl TerminalId {
    pub fn from_u128(value: u128) -> (r: Self)
        ensures
            r.value == value,
    {
        TerminalId { value }
    }

    /// The identifier that `raw` names, or an error when it is no UUID.
    pub fn parse(raw: &str) -> (r: Result<Self, IdError>)
        ensures
            match uuid_parsed(raw@) {
                Some(v) => r == Ok::<Self, IdError>(TerminalId { value: v }),
                None => r is Err,
            },
    {
        match uuid_parse(raw) {
            Some(v) => Ok(TerminalId { value: v }),
            None => Err(IdError::InvalidUuid(raw.to_owned())),
        }
    }

    /// The hyphenated lowercase text of the identifier, which parses back to it.
    pub fn to_string(&self) -> (r: String)
        ensures
            r@ == uuid_hyphenated(self.value),
            uuid_parsed(r@) == Some(self.value),
    {
        uuid_text(self.value)
    }
}

impl WindowId {
    pub fn from_u128(value: u128) -> (r: Self)
        ensures
            r.value == value,
    {
        WindowId { value }
    }

    /// The identifier that `raw` names, or an error when it is no UUID.
    pub fn parse(raw: &str) -> (r: Result<Self, IdError>)
        ensures
            match uuid_parsed(raw@) {
                Some(v) => r == Ok::<Self, IdError>(WindowId { value: v }),
                None => r is Err,
            },
    {
        match uuid_parse(raw) {
            Some(v) => Ok(WindowId { value: v }),
            None => Err(IdError::InvalidUuid(raw.to_owned())),
        }
    }

    /// The hyphenated lowercase text of the identifier, which parses back to it.
    pub fn to_string(&self) -> (r: String)
        ensures
            r@ == uuid_hyphenated(self.value),
            uuid_parsed(r@) == Some(self.value),
    {
        uuid_text(self.value)
    }
}

/// The identifier of a workspace: a digest of its canonical path.
#[derive(Clone, Debug, PartialEq, Eq)]
pub struct WorkspaceId {
    pub value: String,
}

impl WorkspaceId {
    pub fn new(value: String) -> (r: Self)
        ensures
            r.value == value,
    {
        WorkspaceId { value }
    }
}

} // verus!
