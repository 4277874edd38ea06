//! Plain operations on text and bytes that the library shares.
//!
//! Hexadecimal text, grouped decimals and calendar text are made by the
//! crates that the functions below call; what each of them returns is stated
//! here and not proved.

use chrono::DateTime;
use num_format::{Buffer, CustomFormat, Grouping};
use std::fmt::Write;
use vstd::prelude::*;

verus! {

/// The sixteen hexadecimal digits, lower case.
pub open spec fn hex_digits() -> Seq<char> {
    seq!['0', '1', '2', '3', '4', '5', '6', '7', '8', '9', 'a', 'b', 'c', 'd', 'e', 'f']
}

/// Bytes as hexadecimal text: two lower-case digits for each byte, the high
/// half first.
pub open spec fn hex_text(bytes: Seq<u8>) -> Seq<char> {
    Seq::new(
        2 * bytes.len(),
        |i: int|
            if i % 2 == 0 {
                hex_digits()[bytes[i / 2] as int / 16]
            } else {
                hex_digits()[bytes[i / 2] as int % 16]
            },
    )
}

/// The ten decimal digits.
pub open spec fn decimal_digits() -> Seq<char> {
    seq!['0', '1', '2', '3', '4', '5', '6', '7', '8', '9']
}

/// A number in decimal, without leading zeros.
pub open spec fn decimal(n: nat) -> Seq<char>
    decreases n,
{
    if n < 10 {
        seq![decimal_digits()[n as int]]
    } else {
        decimal(n / 10).push(decimal_digits()[(n % 10) as int])
    }
}

/// A number below 1000 in three digits.
pub open spec fn three_digits(n: nat) -> Seq<char> {
    seq![
        decimal_digits()[(n / 100) as int],
        decimal_digits()[(n / 10 % 10) as int],
        decimal_digits()[(n % 10) as int],
    ]
}

/// A number in decimal with `separator` between its groups of three digits,
/// counted from the right: 1234567 with `_` is `1_234_567`.
pub open spec fn grouped_decimal(n: nat, separator: Seq<char>) -> Seq<char>
    decreases n,
{
    if n < 1000 {
        decimal(n)
    } else {
        grouped_decimal(n / 1000, separator) + separator + three_digits(n % 1000)
    }
}

/// The text of an instant, given in nanoseconds since the Unix epoch, in UTC
/// under a `strftime` pattern; `None` where the pattern cannot be applied.
pub uninterp spec fn utc_text(nanos: i64, pattern: Seq<char>) -> Option<Seq<char>>;

/// `str::ends_with` with a string slice as the pattern: whether `suffix` is
/// the end of `text`.
#[verifier::external_body]
pub(crate) fn ends_with(text: &str, suffix: &str) -> (found: bool)
    ensures
        found == suffix@.is_suffix_of(text@),
{
    text.ends_with(suffix)
}

/// `hex::encode`: each byte as two lower-case hexadecimal digits.
#[verifier::external_body]
pub(crate) fn hex_encode(bytes: &Vec<u8>) -> (text: String)
    ensures
        text@ == hex_text(bytes@),
{
    hex::encode(bytes)
}

/// `num_format::Buffer::write_formatted` under a `CustomFormat` with standard
/// grouping and the separator given. The format takes a separator of at most
/// eight bytes.
#[verifier::external_body]
pub(crate) fn group_digits(value: u64, separator: &str) -> (text: String)
    requires
        separator.is_ascii(),
        separator@.len() <= 8,
    ensures
        text@ == grouped_decimal(value as nat, separator@),
{
    let format = CustomFormat::builder().grouping(Grouping::Standard).separator(separator).build().unwrap();
    let mut buffer = Buffer::new();
    buffer.write_formatted(&value, &format);
    buffer.to_string()
}

/// `chrono::DateTime::from_timestamp_nanos`, then `DateTime::format` with
/// the pattern, written out. A pattern that the formatter refuses gives
/// `None`; it refuses none that asks for year, month, day, hour, minute and
/// second in digits, as the pattern named in the second clause does.
#[verifier::external_body]
pub(crate) fn format_utc(nanos: i64, pattern: &str) -> (text: Option<String>)
    ensures
        text.deep_view() == utc_text(nanos, pattern@),
        pattern@ == "%Y-%m-%d %H:%M:%S"@ ==> text is Some,
{
    let mut text = String::new();
    write!(text, "{}", DateTime::from_timestamp_nanos(nanos).format(pattern)).ok().map(|_| text)
}

/// A copy of `bytes`.
pub fn copy_bytes(bytes: &Vec<u8>) -> (copy: Vec<u8>)
    ensures
        copy@ == bytes@,
{
    let mut copy: Vec<u8> = Vec::new();
    let mut i: usize = 0;
    while i < bytes.len()
        invariant
            i <= bytes.len(),
            copy@ == bytes@.subrange(0, i as int),
        decreases bytes.len() - i,
    {
        copy.push(bytes[i]);
        assert(copy@ =~= bytes@.subrange(0, i + 1));
        i += 1;
    }
    assert(copy@ =~= bytes@);
    copy
}

} // verus!
