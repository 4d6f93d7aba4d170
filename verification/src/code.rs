//! From a secret and a moment in time to the code of that moment.
//!
//! Time is cut into windows of `period` seconds. Within one window the code
//! of a secret stays the same; the countdown says how many seconds of the
//! window are left.

use vstd::prelude::*;
use vstd::string::StringExecFns;
use totp_rs::TotpUrlError;
use crate::key::{key_of, MIN_KEY_LEN};
use crate::store::TotpGenerator;

verus! {

/// How many windows before and after the current one a check of a code
/// would accept. Deriving a code does not depend on it.
pub const SKEW: u8 = 1;

/// The error with which `totp_rs` refuses the parameters of a code.
#[verifier::external_type_specification]
#[verifier::external_body]
pub struct ExTotpUrlError(TotpUrlError);

/// Whether a number of digits is one for which codes are derived.
pub open spec fn digits_accepted(digits: nat) -> bool {
    6 <= digits <= 8
}

/// Whether `c` is one of the ten decimal digits.
pub open spec fn is_decimal_digit(c: char) -> bool {
    '0' <= c && c <= '9'
}

/// The code that `totp_rs` derives with HMAC-SHA1 from a key for the window
/// with the given number, in `digits` decimal digits.
pub uninterp spec fn totp_code(digits: nat, key: Seq<u8>, window: nat) -> Seq<char>;

/// Calls `TOTP::new` with HMAC-SHA1 and, where that accepts the parameters,
/// `TOTP::generate` on what it made.
///
/// `TOTP::new` accepts exactly 6 to 8 digits with a key of at least 16
/// bytes. `TOTP::generate` divides the time by the period, so the period
/// must not be 0; its result depends on the time through the number of the
/// window alone, has exactly `digits` characters, and each of them is a
/// decimal digit.
#[verifier::external_body]
pub(crate) fn totp_generate(
    digits: usize,
    skew: u8,
    period: u64,
    key: Vec<u8>,
    now: u64,
) -> (outcome: Result<String, TotpUrlError>)
    requires
        period > 0,
    ensures
        outcome is Ok <==> (digits_accepted(digits as nat) && key@.len() >= MIN_KEY_LEN),
        outcome is Ok ==> outcome.unwrap()@ == totp_code(digits as nat, key@, (now / period) as nat),
        outcome is Ok ==> outcome.unwrap()@.len() == digits,
        outcome is Ok ==> forall|i: int|
            0 <= i < outcome.unwrap()@.len() ==> is_decimal_digit(#[trigger] outcome.unwrap()@[i]),
{
    match totp_rs::TOTP::new(totp_rs::Algorithm::SHA1, digits, skew, period, key) {
        Ok(totp) => Ok(totp.generate(now)),
        Err(error) => Err(error),
    }
}

/// Calls the `Display` of `TotpUrlError`: the reason for a refusal, in
/// words. Nothing is claimed of the text.
#[verifier::external_body]
pub(crate) fn rejection_text(error: &TotpUrlError) -> (text: String) {
    error.to_string()
}

/// Why no code was derived.
#[derive(Debug, Clone)]
pub enum Failure {
    /// The secret is empty.
    EmptySecret,
    /// The parameters were refused; the text gives the reason.
    DerivationError(String),
}

/// What the user reads when the secret is empty.
pub open spec fn empty_secret_text() -> Seq<char> {
    "Please enter a secret key"@
}

/// What the user reads in front of the reason for a refusal.
pub open spec fn refusal_prefix() -> Seq<char> {
    "Invalid secret key: "@
}

impl Failure {
    /// The failure as the user reads it.
    pub open spec fn message_text(self) -> Seq<char> {
        match self {
            Failure::EmptySecret => empty_secret_text(),
            Failure::DerivationError(reason) => refusal_prefix() + reason@,
        }
    }

    /// The failure in words for the user.
    pub fn message(&self) -> (text: String)
        ensures
            text@ == self.message_text(),
    {
        match self {
            Failure::EmptySecret => "Please enter a secret key".to_owned(),
            Failure::DerivationError(reason) => "Invalid secret key: ".to_owned().concat(
                reason.as_str(),
            ),
        }
    }
}

/// The code of a secret in the window that holds `now`.
pub open spec fn code_at(secret: Seq<char>, digits: nat, period: nat, now: nat) -> Seq<char> {
    totp_code(digits, key_of(secret), now / period)
}

/// The seconds left of the window that holds `now`: from `period` at its
/// first second down to 1 at its last.
pub open spec fn remaining_at(period: nat, now: nat) -> nat {
    (period - now % period) as nat
}

/// Derives the code of `secret_text` for the moment `now`, with the seconds
/// for which it stays valid.
///
/// An empty secret gives `EmptySecret`. Any other secret gives a code where
/// `digits` is 6, 7 or 8, and `DerivationError` where it is not.
pub fn derive(
    secret_text: &str,
    digits: u8,
    period: u64,
    now: u64,
) -> (derived: Result<(String, u64), Failure>)
    requires
        period > 0,
    ensures
        match derived {
            Ok((code, remaining)) => {
                &&& secret_text@.len() > 0
                &&& digits_accepted(digits as nat)
                &&& code@ == code_at(secret_text@, digits as nat, period as nat, now as nat)
                &&& code@.len() == digits
                &&& forall|i: int| 0 <= i < code@.len() ==> is_decimal_digit(#[trigger] code@[i])
                &&& remaining == remaining_at(period as nat, now as nat)
                &&& 1 <= remaining <= period
            },
            Err(Failure::EmptySecret) => secret_text@.len() == 0,
            Err(Failure::DerivationError(_)) => {
                &&& secret_text@.len() > 0
                &&& !digits_accepted(digits as nat)
            },
        },
{
    if secret_text.is_empty() {
        return Err(Failure::EmptySecret);
    }
    let key = TotpGenerator::decode_secret(secret_text);
    match totp_generate(digits as usize, SKEW, period, key, now) {
        Ok(code) => Ok((code, period - now % period)),
        Err(error) => Err(Failure::DerivationError(rejection_text(&error))),
    }
}

} // verus!
