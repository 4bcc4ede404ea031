//! The textual block reference of the Web3 API: one of five aliases, or a
//! hexadecimal block number.
use vstd::prelude::*;
use vstd::string::*;
use serde::Deserialize;
use crate::hex::{
    all_hex_digits, hex_digits, hex_value, is_hex_digit, lemma_hex_digits_value,
    lemma_u64_hex_digits_len, push_hex_digits,
};

verus! {

/// A reference to a block.
#[derive(Copy, Clone, Debug, PartialEq, Eq, Structural)]
pub enum BlockNumber {
    /// Last block that was committed on L1.
    Committed,
    /// Last block that was finalized on L1.
    Finalized,
    /// Latest block (may be the block that is currently open).
    Latest,
    /// Earliest block (genesis).
    Earliest,
    /// Alias for `BlockNumber::Latest`.
    Pending,
    /// Block by number from the canonical chain.
    Number(u64),
}

/// A block reference that could not be read; `token` is the text that was given.
#[derive(Clone, Debug, PartialEq, Eq)]
pub struct DecodeError {
    pub token: String,
}

/// The wire text of a block reference.
pub open spec fn encoding(b: BlockNumber) -> Seq<char> {
    match b {
        BlockNumber::Committed => "committed"@,
        BlockNumber::Finalized => "finalized"@,
        BlockNumber::Latest => "latest"@,
        BlockNumber::Earliest => "earliest"@,
        BlockNumber::Pending => "pending"@,
        BlockNumber::Number(n) => "0x"@ + hex_digits(n as nat),
    }
}

/// The alias that `s` spells exactly, if any (case-sensitive).
pub open spec fn alias_of(s: Seq<char>) -> Option<BlockNumber> {
    if s == "committed"@ {
        Some(BlockNumber::Committed)
    } else if s == "finalized"@ {
        Some(BlockNumber::Finalized)
    } else if s == "latest"@ {
        Some(BlockNumber::Latest)
    } else if s == "earliest"@ {
        Some(BlockNumber::Earliest)
    } else if s == "pending"@ {
        Some(BlockNumber::Pending)
    } else {
        None
    }
}

/// `s` without a leading `0x`, if it has one.
pub open spec fn hex_body(s: Seq<char>) -> Seq<char> {
    if s.len() >= 2 && s[0] == '0' && s[1] == 'x' {
        s.subrange(2, s.len() as int)
    } else {
        s
    }
}

pub open spec fn is_hex_space(c: char) -> bool {
    c == ' ' || c == '\r' || c == '\n' || c == '\t'
}

/// An optional `0x`, then one to sixteen hexadecimal digits and nothing else.
pub open spec fn is_plain_quantity(s: Seq<char>) -> bool {
    let b = hex_body(s);
    1 <= b.len() <= 16 && all_hex_digits(b)
}

/// Text that cannot be a hexadecimal quantity: nothing after the optional
/// `0x`, a character that is neither a hex digit nor ASCII whitespace, or more
/// than sixteen digits.
pub open spec fn is_malformed_quantity(s: Seq<char>) -> bool {
    let b = hex_body(s);
    ||| b.len() == 0
    ||| exists|i: int| 0 <= i < b.len() && !is_hex_digit(#[trigger] b[i]) && !is_hex_space(b[i])
    ||| (all_hex_digits(b) && b.len() > 16)
}

/// What `s` decodes to where the alias table or plain hexadecimal digits
/// settle it: `None` elsewhere.
pub open spec fn decoded(s: Seq<char>) -> Option<BlockNumber> {
    match alias_of(s) {
        Some(b) => Some(b),
        None => if is_plain_quantity(s) {
            Some(BlockNumber::Number(hex_value(hex_body(s)) as u64))
        } else {
            None
        },
    }
}

/// The 64-bit quantity that the Web3 hex reader makes of `s`, if it accepts it.
pub uninterp spec fn hex_quantity(s: Seq<char>) -> Option<u64>;

/// Relies on the `Deserialize` impl of `web3::types::U64` (impl-serde's
/// `deserialize_check_len` into at most eight bytes, read big-endian): after
/// an optional `0x`, one to sixteen hex digits of either case give their value;
/// an empty body, a character other than a hex digit or ASCII whitespace, or
/// more than sixteen digits give an error.
#[verifier::external_body]
fn parse_hex_quantity(s: &str) -> (r: Result<u64, serde::de::value::Error>)
    ensures
        hex_quantity(s@) == (match r {
            Ok(n) => Some(n),
            Err(_) => None,
        }),
        is_plain_quantity(s@) ==> r.is_ok() && r.unwrap() == hex_value(hex_body(s@)),
        is_malformed_quantity(s@) ==> r.is_err(),
{
    let d = serde::de::value::BorrowedStrDeserializer::<serde::de::value::Error>::new(s);
    web3::types::U64::deserialize(d).map(|v| v.as_u64())
}

#[verifier::external_type_specification]
#[verifier::external_body]
pub struct ExDeError(serde::de::value::Error);

/// Whether `a` and `b` hold the same characters.
fn same_text(a: &str, b: &str) -> (r: bool)
    ensures
        r == (a@ == b@),
{
    let n = a.unicode_len();
    if n != b.unicode_len() {
        return false;
    }
    let mut i: usize = 0;
    while i < n
        invariant
            n == a@.len(),
            n == b@.len(),
            i <= n,
            forall|j: int| 0 <= j < i ==> a@[j] == b@[j],
        decreases n - i,
    {
        if a.get_char(i) != b.get_char(i) {
            return false;
        }
        i = i + 1;
    }
    assert(a@ =~= b@);
    true
}

fn alias_of_str(s: &str) -> (r: Option<BlockNumber>)
    ensures
        r == alias_of(s@),
{
    if same_text(s, "committed") {
        Some(BlockNumber::Committed)
    } else if same_text(s, "finalized") {
        Some(BlockNumber::Finalized)
    } else if same_text(s, "latest") {
        Some(BlockNumber::Latest)
    } else if same_text(s, "earliest") {
        Some(BlockNumber::Earliest)
    } else if same_text(s, "pending") {
        Some(BlockNumber::Pending)
    } else {
        None
    }
}

impl BlockNumber {
    /// The wire text: the alias, or `0x` and the lowercase hex digits of the
    /// number without leading zeros.
    pub fn serialize(&self) -> (r: String)
        ensures
            r@ == encoding(*self),
    {
        match self {
            BlockNumber::Committed => String::from_str("committed"),
            BlockNumber::Finalized => String::from_str("finalized"),
            BlockNumber::Latest => String::from_str("latest"),
            BlockNumber::Earliest => String::from_str("earliest"),
            BlockNumber::Pending => String::from_str("pending"),
            BlockNumber::Number(n) => {
                let mut out = String::from_str("0x");
                push_hex_digits(&mut out, *n);
                out
            },
        }
    }

    /// The block reference for a token that is no alias, given what the hex
    /// reader made of it.
    pub fn from_quantity(token: &str, quantity: Option<u64>) -> (r: Result<BlockNumber, DecodeError>)
        ensures
            match quantity {
                Some(n) => r == Ok::<BlockNumber, DecodeError>(BlockNumber::Number(n)),
                None => r matches Err(e) && e.token@ == token@,
            },
    {
        match quantity {
            Some(n) => Ok(BlockNumber::Number(n)),
            None => Err(DecodeError { token: String::from_str(token) }),
        }
    }

    /// Reads a block reference: an alias, else a hexadecimal quantity.
    pub fn deserialize(s: &str) -> (r: Result<BlockNumber, DecodeError>)
        ensures
            match alias_of(s@) {
                Some(b) => r == Ok::<BlockNumber, DecodeError>(b),
                None => match hex_quantity(s@) {
                    Some(n) => r == Ok::<BlockNumber, DecodeError>(BlockNumber::Number(n)),
                    None => r matches Err(e) && e.token@ == s@,
                },
            },
            decoded(s@) matches Some(b) ==> r == Ok::<BlockNumber, DecodeError>(b),
            alias_of(s@) is None && is_malformed_quantity(s@) ==> (r matches Err(e) && e.token@ == s@),
    {
        match alias_of_str(s) {
            Some(b) => Ok(b),
            None => {
                let quantity = match parse_hex_quantity(s) {
                    Ok(n) => Some(n),
                    Err(_) => None,
                };
                BlockNumber::from_quantity(s, quantity)
            },
        }
    }
}

/// Decoding an alias and encoding the result gives the alias back.
pub proof fn lemma_alias_round_trip(s: Seq<char>)
    requires
        alias_of(s) is Some,
    ensures
        decoded(s) == alias_of(s),
        encoding(alias_of(s)->Some_0) == s,
{
}

/// Every number is decoded from its own encoding.
pub proof fn lemma_number_round_trip(n: u64)
    ensures
        decoded(encoding(BlockNumber::Number(n))) == Some(BlockNumber::Number(n)),
{
    reveal_strlit("0x");
    reveal_strlit("committed");
    reveal_strlit("finalized");
    reveal_strlit("latest");
    reveal_strlit("earliest");
    reveal_strlit("pending");
    let s = encoding(BlockNumber::Number(n));
    let d = hex_digits(n as nat);
    lemma_hex_digits_value(n as nat);
    lemma_u64_hex_digits_len(n);
    assert(s[0] == '0');
    assert(s[0] != "committed"@[0]);
    assert(s[0] != "finalized"@[0]);
    assert(s[0] != "latest"@[0]);
    assert(s[0] != "earliest"@[0]);
    assert(s[0] != "pending"@[0]);
    assert(alias_of(s) is None);
    assert(hex_body(s) =~= d);
}

} // verus!
