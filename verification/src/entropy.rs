use vstd::prelude::*;
use rand::rand_core::{OsRng, TryRngCore};
use crate::text::is_digit;

verus! {

/// `OsRng::try_fill_bytes` on a 16-byte buffer: sixteen bytes from the
/// operating system's generator, or `None` where the system refuses them.
/// Nothing is stated of the bytes: they are random.
#[verifier::external_body]
pub(crate) fn os_random_16() -> (r: Option<[u8; 16]>)
{
    let mut keys = [0u8; 16];
    match OsRng.try_fill_bytes(&mut keys) {
        Ok(()) => Some(keys),
        Err(_) => None,
    }
}

/// `uuid::Builder::from_random_bytes(bytes).into_uuid()`, as bytes: the
/// bytes kept, but for the version nibble (high half of byte 6), set to 4,
/// and the variant bits (top two of byte 8), set to `10`. Its source does
/// exactly `b[8] = (b[8] & 0x3f) | 0x80` and `b[6] = (b[6] & 0x0f) | 0x40`.
#[verifier::external_body]
pub(crate) fn uuid_from_random_bytes(bytes: [u8; 16]) -> (r: [u8; 16])
    ensures
        r@ == bytes@.update(6, (bytes@[6] % 16 + 64) as u8).update(8, (bytes@[8] % 64 + 128) as u8),
{
    *uuid::Builder::from_random_bytes(bytes).into_uuid().as_bytes()
}

/// The seconds since 1970-01-01 UTC that the system clock reads, by
/// `SystemTime::now().duration_since(UNIX_EPOCH)`; `None` where the clock
/// reads earlier. It depends on the clock, so nothing more is stated.
#[verifier::external_body]
pub(crate) fn unix_seconds() -> (r: Option<u64>)
{
    match std::time::SystemTime::now().duration_since(std::time::UNIX_EPOCH) {
        Ok(d) => Some(d.as_secs()),
        Err(_) => None,
    }
}

/// A character that chrono writes in a timestamp: a digit or a sign.
pub open spec fn stamp_char(c: char) -> bool {
    is_digit(c) || c == '+' || c == '-'
}

/// What `DateTime::<Utc>::from_timestamp(secs, 0)` formats as
/// `%Y%m%d%H%M%S`, where chrono represents that time.
pub uninterp spec fn utc_stamp_of(secs: int) -> Seq<char>;

/// chrono's `DateTime::<Utc>::from_timestamp(secs, 0)` written with the
/// format `%Y%m%d%H%M%S`; `None` where chrono cannot represent the time.
/// Its source writes the year as four zero-padded digits, with a sign before
/// years below 0 or above 9999 and more digits where needed, then month, day,
/// hour, minute and second as two digits each; so the text has at least 14
/// characters, all digits or signs, and exactly 14 digits from 1970 to the
/// end of 9999. Which digits they are, the contract does not state.
#[verifier::external_body]
pub(crate) fn utc_stamp(secs: i64) -> (r: Option<String>)
    ensures
        r matches Some(t) ==> t@ == utc_stamp_of(secs as int) && t@.len() >= 14 && forall|i: int|
            0 <= i < t@.len() ==> stamp_char(#[trigger] t@[i]),
        0 <= secs < 253402300800 ==> (r matches Some(t) && t@.len() == 14 && forall|i: int|
            0 <= i < t@.len() ==> is_digit(#[trigger] t@[i])),
{
    match chrono::DateTime::<chrono::Utc>::from_timestamp(secs, 0) {
        Some(t) => Some(t.format("%Y%m%d%H%M%S").to_string()),
        None => None,
    }
}

} // verus!
