//! Relay-held balances: arbitrary-precision non-negative integers,
//! carried as their decimal digits and parsed from the relay's
//! `{"balance": "<decimal string>"}` answers.

use vstd::prelude::*;
use vstd::utf8::{
    encode_utf8, encode_utf8_decode_utf8, encode_utf8_valid_utf8, is_ascii_chars,
    is_ascii_chars_encode_utf8,
};

use crate::error::RelayError;

verus! {

/// A decimal digit character.
pub open spec fn is_dec_digit(c: char) -> bool {
    48 <= c as u32 <= 57
}

/// The integer value of a sequence of decimal digit characters
/// (most significant first). Meaningful when every character
/// satisfies [`is_dec_digit`].
pub open spec fn dec_value(s: Seq<char>) -> int
    decreases s.len(),
{
    if s.len() == 0 {
        0
    } else {
        dec_value(s.drop_last()) * 10 + (s.last() as u32 - 48)
    }
}

/// The integer value of a sequence of digits, each in `0 .. 10`,
/// most significant first.
pub open spec fn digits_value(ds: Seq<u8>) -> int
    decreases ds.len(),
{
    if ds.len() == 0 {
        0
    } else {
        digits_value(ds.drop_last()) * 10 + ds.last()
    }
}

/// An arbitrary-precision non-negative integer: relay-held credit for
/// one address on one chain. Held as its decimal digits, most
/// significant first.
#[derive(Clone, Debug, PartialEq, Eq)]
pub struct Balance {
    pub digits: Vec<u8>,
}

impl View for Balance {
    type V = Seq<u8>;

    open spec fn view(&self) -> Seq<u8> {
        self.digits@
    }
}

impl Balance {
    /// Every digit is in `0 .. 10`, and there is at least one digit.
    pub open spec fn wf(&self) -> bool {
        &&& self@.len() > 0
        &&& forall|i: int| 0 <= i < self@.len() ==> self@[i] < 10
    }

    /// The integer this balance stands for.
    pub open spec fn value(&self) -> int {
        digits_value(self@)
    }

    /// The decimal string this balance prints as: one digit character
    /// per held digit, in order, so parsing it yields this balance back.
    pub fn to_decimal_string(&self) -> (r: String)
        requires
            self.wf(),
        ensures
            r@.len() == self@.len(),
            forall|i: int| 0 <= i < r@.len() ==> is_dec_digit(#[trigger] r@[i]) && r@[i] as u32
                == self@[i] + 48,
            dec_value(r@) == self.value(),
    {
        let mut bytes: Vec<u8> = Vec::new();
        let mut i: usize = 0;
        while i < self.digits.len()
            invariant
                self.wf(),
                0 <= i <= self@.len(),
                bytes@.len() == i,
                forall|j: int| 0 <= j < i ==> bytes@[j] == self@[j] + 48,
            decreases self@.len() - i,
        {
            bytes.push(self.digits[i] + 48);
            i = i + 1;
        }
        let ghost cs = Seq::new(bytes@.len(), |j: int| bytes@[j] as char);
        proof {
            assert(is_ascii_chars(cs));
            is_ascii_chars_encode_utf8(cs);
            assert(encode_utf8(cs) =~= bytes@);
            encode_utf8_valid_utf8(cs);
            encode_utf8_decode_utf8(cs);
        }
        match crate::bundle::bytes_to_string(bytes) {
            Some(s) => {
                proof {
                    assert(s@ =~= cs);
                    lemma_digits_match_chars(self@, s@);
                }
                s
            },
            None => {
                proof {
                    assert(false);
                }
                String::new()
            },
        }
    }
}

/// If two digit sequences are the digit values of the same character
/// sequence, their integer values agree with [`dec_value`].
proof fn lemma_digits_match_chars(ds: Seq<u8>, s: Seq<char>)
    requires
        ds.len() == s.len(),
        forall|i: int| 0 <= i < s.len() ==> ds[i] == s[i] as u32 - 48,
    ensures
        digits_value(ds) == dec_value(s),
    decreases s.len(),
{
    if s.len() > 0 {
        lemma_digits_match_chars(ds.drop_last(), s.drop_last());
    }
}

/// Parse a relay balance string: a non-empty run of decimal digits.
///
/// Returns `Ok` exactly on such strings, and the returned balance's
/// value is the exact integer value of the string; anything else is
/// rejected with [`RelayError::InvalidBalance`].
pub fn parse_balance(s: &str) -> (r: Result<Balance, RelayError>)
    ensures
        r is Ok <==> s@.len() > 0 && (forall|i: int| 0 <= i < s@.len() ==> is_dec_digit(s@[i])),
        r matches Ok(b) ==> {
            &&& b.wf()
            &&& b@.len() == s@.len()
            &&& forall|i: int| 0 <= i < s@.len() ==> b@[i] == s@[i] as u32 - 48
            &&& b.value() == dec_value(s@)
        },
        r matches Err(e) ==> e == RelayError::InvalidBalance,
{
    let n = s.unicode_len();
    if n == 0 {
        return Err(RelayError::InvalidBalance);
    }
    let mut digits: Vec<u8> = Vec::new();
    let mut i: usize = 0;
    while i < n
        invariant
            n == s@.len(),
            0 <= i <= n,
            digits@.len() == i,
            forall|j: int| 0 <= j < i ==> is_dec_digit(s@[j]),
            forall|j: int| 0 <= j < i ==> digits@[j] == s@[j] as u32 - 48,
            forall|j: int| 0 <= j < i ==> digits@[j] < 10,
        decreases n - i,
    {
        let c = s.get_char(i);
        let code = c as u32;
        if code < 48 || code > 57 {
            return Err(RelayError::InvalidBalance);
        }
        digits.push((code - 48) as u8);
        i = i + 1;
    }
    let b = Balance { digits };
    proof {
        lemma_digits_match_chars(b@, s@);
    }
    Ok(b)
}

/// The relay's balance-response shape: a single decimal string field.
pub struct BalanceResData {
    pub balance: String,
}

impl BalanceResData {
    /// Interpret the balance field as an arbitrary-precision integer,
    /// exactly as [`parse_balance`] does.
    pub fn parse(&self) -> (r: Result<Balance, RelayError>)
        ensures
            r is Ok <==> self.balance@.len() > 0 && (forall|i: int|
                0 <= i < self.balance@.len() ==> is_dec_digit(self.balance@[i])),
            r matches Ok(b) ==> b.wf() && b.value() == dec_value(self.balance@),
            r matches Err(e) ==> e == RelayError::InvalidBalance,
    {
        parse_balance(self.balance.as_str())
    }
}

} // verus!
