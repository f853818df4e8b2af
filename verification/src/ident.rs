//! Identifiers of clients, connections, channels and ports.

use vstd::prelude::*;
use vstd::string::StringExecFns;
use vstd::string::StrSliceExecFns;

verus! {

/// Longest identifier that is accepted.
pub const MAX_IDENTIFIER_LENGTH: usize = 64;

/// The characters an identifier may hold: ASCII letters and digits, and
/// `.`, `_`, `+`, `-`, `#`, `[`, `]`, `<`, `>`.
pub open spec fn identifier_char(c: char) -> bool {
    ||| 'a' <= c <= 'z'
    ||| 'A' <= c <= 'Z'
    ||| '0' <= c <= '9'
    ||| c == '.'
    ||| c == '_'
    ||| c == '+'
    ||| c == '-'
    ||| c == '#'
    ||| c == '['
    ||| c == ']'
    ||| c == '<'
    ||| c == '>'
}

/// Identifier syntax: between one and sixty-four characters, each of them
/// an identifier character.
pub open spec fn valid_identifier(text: Seq<char>) -> bool {
    &&& 1 <= text.len() <= MAX_IDENTIFIER_LENGTH
    &&& forall|i: int| 0 <= i < text.len() ==> identifier_char(#[trigger] text[i])
}

fn is_identifier_char(c: char) -> (ok: bool)
    ensures
        ok == identifier_char(c),
{
    ('a' <= c && c <= 'z') || ('A' <= c && c <= 'Z') || ('0' <= c && c <= '9') || c == '.' || c
        == '_' || c == '+' || c == '-' || c == '#' || c == '[' || c == ']' || c == '<' || c == '>'
}

/// The name of a client, connection, channel or port. Any text can be held;
/// `is_valid` tells whether it has identifier syntax.
#[derive(Clone, Debug, PartialEq, Eq)]
pub struct Identifier {
    text: String,
}

/// Names a light client.
pub type ClientId = Identifier;

/// Names a connection end on this chain or on the counterparty.
pub type ConnectionId = Identifier;

/// Names a channel end on this chain or on the counterparty.
pub type ChannelId = Identifier;

/// Names the binding point of an application.
pub type PortId = Identifier;

impl View for Identifier {
    type V = Seq<char>;

    closed spec fn view(&self) -> Seq<char> {
        self.text@
    }
}

/// The text of an optional identifier.
pub open spec fn optional_text(id: Option<Identifier>) -> Option<Seq<char>> {
    match id {
        Some(id) => Some(id@),
        None => None,
    }
}

/// The text of the port that the token-transfer application binds.
pub open spec fn transfer_port_text() -> Seq<char> {
    "transfer"@
}

impl Identifier {
    pub fn new(text: &str) -> (id: Identifier)
        ensures
            id@ == text@,
    {
        Identifier { text: String::from_str(text) }
    }

    /// The well-known port of the token-transfer application.
    pub fn transfer() -> (id: Identifier)
        ensures
            id@ == transfer_port_text(),
    {
        Identifier { text: String::from_str("transfer") }
    }

    pub fn as_str(&self) -> (text: &str)
        ensures
            text@ == self@,
    {
        self.text.as_str()
    }

    /// A copy with the same text, as `to_string` gives for an identifier.
    pub fn to_text(&self) -> (text: String)
        ensures
            text@ == self@,
    {
        self.text.clone()
    }

    pub fn duplicate(&self) -> (id: Identifier)
        ensures
            id@ == self@,
    {
        Identifier { text: self.text.clone() }
    }

    pub fn same(&self, other: &Identifier) -> (equal: bool)
        ensures
            equal == (self@ == other@),
    {
        self.text == other.text
    }

    /// Tells whether the text has identifier syntax.
    pub fn is_valid(&self) -> (ok: bool)
        ensures
            ok == valid_identifier(self@),
    {
        let text = self.text.as_str();
        let len: usize = text.unicode_len();
        if len < 1 || len > MAX_IDENTIFIER_LENGTH {
            return false;
        }
        let mut i: usize = 0;
        while i < len
            invariant
                i <= len,
                len == text@.len(),
                text@ == self@,
                forall|j: int| 0 <= j < i ==> identifier_char(#[trigger] text@[j]),
            decreases len - i,
        {
            if !is_identifier_char(text.get_char(i)) {
                return false;
            }
            i += 1;
        }
        true
    }
}

/// The text of an optional identifier, empty where there is none.
pub open spec fn text_or_empty(id: Option<Identifier>) -> Seq<char> {
    match id {
        Some(id) => id@,
        None => Seq::empty(),
    }
}

/// Writes an optional identifier, or nothing where there is none.
pub fn optional_to_text(id: &Option<Identifier>) -> (text: String)
    ensures
        text@ == text_or_empty(*id),
{
    match id {
        Some(id) => id.to_text(),
        None => String::new(),
    }
}

pub fn duplicate_optional(id: &Option<Identifier>) -> (copy: Option<Identifier>)
    ensures
        optional_text(copy) == optional_text(*id),
{
    match id {
        Some(id) => Some(id.duplicate()),
        None => None,
    }
}

} // verus!
