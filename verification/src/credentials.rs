//! One-way hashing of passwords and the check of a password against a
//! stored record, as the `scrypt` crate provides them.

use vstd::prelude::*;

use crate::error::Error;
use crate::text::occurrences;

verus! {

/// Work factor of every record this crate makes, as the logarithm of the
/// iteration count.
pub const WORK_FACTOR_LOG2: u8 = 4;

/// Block-size factor of every record this crate makes.
pub const BLOCK_SIZE_FACTOR: u32 = 2;

/// Parallelism of every record this crate makes.
pub const PARALLELISM: u32 = 1;

/// What checking a password against a stored record comes to.
#[derive(Debug, Clone, Copy, PartialEq, Eq, Structural)]
pub enum RecordCheck {
    /// The password hashes to what the record holds.
    Match,
    /// The record is sound and the password hashes to something else.
    Mismatch,
    /// The record cannot be read.
    Malformed,
}

/// What `scrypt::scrypt_check` makes of a password and a stored record. The
/// record carries its salt and cost parameters, so the outcome depends on
/// these two texts alone.
pub uninterp spec fn record_check(password: Seq<char>, record: Seq<char>) -> RecordCheck;

/// Whether a text has the frame of a stored record: the tag `$rscrypt$`, then
/// format, cost parameters, salt and digest, each closed by a `$`, and no `$`
/// anywhere else.
pub open spec fn framed_record(record: Seq<char>) -> bool {
    &&& "$rscrypt$"@.is_prefix_of(record)
    &&& record.len() > 0 && record.last() == '$'
    &&& occurrences(record, '$') == 6
}

/// The character that stands for a six-bit value in the standard base64
/// alphabet.
pub open spec fn base64_digit(value: int) -> char {
    "ABCDEFGHIJKLMNOPQRSTUVWXYZabcdefghijklmnopqrstuvwxyz0123456789+/"@[value]
}

/// The cost field of a record in the compact format: the three bytes
/// `log_n`, `r`, `p` in base64, which makes four characters. Meant for `r`
/// and `p` below 256.
pub open spec fn cost_field(log_n: u8, r: u32, p: u32) -> Seq<char> {
    let (n, r, p) = (log_n as int, r as int, p as int);
    seq![
        base64_digit(n / 4),
        base64_digit((n % 4) * 16 + r / 16),
        base64_digit((r % 16) * 4 + p / 64),
        base64_digit(p % 64),
    ]
}

/// Whether a record says of itself that it was made in the compact format
/// with the cost parameters `log_n`, `r`, `p`: it begins with the tag, the
/// format `0` and the cost field.
pub open spec fn carries_cost(record: Seq<char>, log_n: u8, r: u32, p: u32) -> bool {
    ("$rscrypt$0$"@ + cost_field(log_n, r, p) + "$"@).is_prefix_of(record)
}

/// Whether a record carries the cost parameters that this crate hashes
/// with.
pub open spec fn carries_fixed_cost(record: Seq<char>) -> bool {
    carries_cost(record, WORK_FACTOR_LOG2, BLOCK_SIZE_FACTOR, PARALLELISM)
}

/// Whether a stored record accepts a password.
pub open spec fn accepts(record: Seq<char>, password: Seq<char>) -> bool {
    record_check(password, record) == RecordCheck::Match
}

/// Builds the cost parameters with `scrypt::ScryptParams::new` and hashes the
/// password with `scrypt::scrypt_simple`, which draws a fresh salt from the
/// system's generator. Gives nothing where the parameters are refused or no
/// salt can be drawn. Which record comes back is left open. What is claimed:
/// `scrypt::scrypt_check` answers `Ok` for it and the same password, since
/// the record holds the salt and the parameters the digest was made with;
/// and where `r` and `p` are below 256 the record is written in the compact
/// format, `$rscrypt$0$`, then the three parameter bytes in padded standard
/// base64, then `$`.
#[verifier::external_body]
fn scrypt_record(password: &str, log_n: u8, r: u32, p: u32) -> (record: Option<String>)
    ensures
        record matches Some(text) ==> record_check(password@, text@) == RecordCheck::Match,
        record matches Some(text) ==> (r < 256 && p < 256 ==> carries_cost(text@, log_n, r, p)),
{
    let params = scrypt::ScryptParams::new(log_n, r, p).ok()?;
    scrypt::scrypt_simple(password, &params).ok()
}

/// Calls `scrypt::scrypt_check`, which reads salt and parameters from the
/// record, hashes the password with them and compares in constant time. The
/// three outcomes of that call are handed on one for one. The call splits
/// the record at every `$` and gives up unless there are seven parts, the
/// first and the last empty and the second `rscrypt`: a record without that
/// frame is never read.
#[verifier::external_body]
fn check_record(password: &str, record: &str) -> (outcome: RecordCheck)
    ensures
        outcome == record_check(password@, record@),
        !framed_record(record@) ==> outcome == RecordCheck::Malformed,
{
    match scrypt::scrypt_check(password, record) {
        Ok(()) => RecordCheck::Match,
        Err(scrypt::errors::CheckError::HashMismatch) => RecordCheck::Mismatch,
        Err(scrypt::errors::CheckError::InvalidFormat) => RecordCheck::Malformed,
    }
}

impl RecordCheck {
    /// Whether the check lets the caller in: only on a match. A record that
    /// cannot be read counts as a wrong password.
    pub fn accepted(self) -> (ok: bool)
        ensures
            ok == (self == RecordCheck::Match),
    {
        match self {
            RecordCheck::Match => true,
            RecordCheck::Mismatch => false,
            RecordCheck::Malformed => false,
        }
    }
}

/// What hashing comes to, given what the hasher handed back: the record, or
/// the failure to make one.
pub fn record_or_failure(made: Option<String>) -> (record: Result<String, Error>)
    ensures
        record == match made {
            Some(text) => Ok::<String, Error>(text),
            None => Err(Error::Hashing),
        },
{
    match made {
        Some(text) => Ok(text),
        None => Err(Error::Hashing),
    }
}

/// Hashes a password with the fixed cost parameters. Every call draws its own
/// salt; whichever record comes back accepts the password and carries the
/// parameters it was made with.
pub fn hash(password: &str) -> (record: Result<String, Error>)
    ensures
        record matches Ok(text) ==> accepts(text@, password@),
        record matches Ok(text) ==> carries_fixed_cost(text@),
        record matches Err(failure) ==> failure == Error::Hashing,
{
    record_or_failure(scrypt_record(password, WORK_FACTOR_LOG2, BLOCK_SIZE_FACTOR, PARALLELISM))
}

/// Checks a password against a stored record and tells the three outcomes
/// apart. A text without the frame of a record is malformed.
pub fn check(password: &str, record: &str) -> (outcome: RecordCheck)
    ensures
        outcome == record_check(password@, record@),
        !framed_record(record@) ==> outcome == RecordCheck::Malformed,
{
    check_record(password, record)
}

/// Checks a password against a stored record. Any record that cannot be read
/// gives `false`, as a wrong password does; so does any text that lacks the
/// frame of a record.
pub fn verify(password: &str, record: &str) -> (ok: bool)
    ensures
        ok == accepts(record@, password@),
        record_check(password@, record@) == RecordCheck::Malformed ==> !ok,
        !framed_record(record@) ==> !ok,
{
    check(password, record).accepted()
}

/// A record carries the fixed cost parameters exactly where it begins with
/// `$rscrypt$0$BAIB$`.
pub proof fn lemma_fixed_cost_prefix(record: Seq<char>)
    ensures
        carries_fixed_cost(record) <==> "$rscrypt$0$BAIB$"@.is_prefix_of(record),
{
    reveal_strlit("ABCDEFGHIJKLMNOPQRSTUVWXYZabcdefghijklmnopqrstuvwxyz0123456789+/");
    reveal_strlit("$rscrypt$0$");
    reveal_strlit("$");
    reveal_strlit("$rscrypt$0$BAIB$");
    let field = cost_field(WORK_FACTOR_LOG2, BLOCK_SIZE_FACTOR, PARALLELISM);
    assert(field =~= seq!['B', 'A', 'I', 'B']);
    assert("$rscrypt$0$"@ + field + "$"@ =~= "$rscrypt$0$BAIB$"@);
}

} // verus!
