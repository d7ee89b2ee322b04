//! Plain-value identifiers and calendar values used across the library.
use vstd::prelude::*;
use crate::crypto::os_random_bytes;
use crate::text::hex_digit;

verus! {

/// A 128-bit universally unique identifier, held by its bits.
#[derive(Clone, Copy, Debug, PartialEq, Eq, Structural)]
pub struct Uuid {
    pub bits: u128,
}

impl Uuid {
    pub fn from_u128(bits: u128) -> (r: Uuid)
        ensures
            r.bits == bits,
    {
        Uuid { bits }
    }

    pub fn as_u128(&self) -> (r: u128)
        ensures
            r == self.bits,
    {
        self.bits
    }
}

/// A calendar date (proleptic Gregorian), as its year, month (1 to 12) and day (1 to 31).
#[derive(Clone, Copy, Debug, PartialEq, Eq, Structural)]
pub struct Date {
    pub year: i32,
    pub month: u32,
    pub day: u32,
}

/// A time of day, as its hour, minute, second and nanosecond.
#[derive(Clone, Copy, Debug, PartialEq, Eq, Structural)]
pub struct Time {
    pub hour: u32,
    pub minute: u32,
    pub second: u32,
    pub nanosecond: u32,
}

/// An instant, as its distance from 1970-01-01T00:00:00Z: whether it lies before that
/// moment, and how far from it, in whole seconds and nanoseconds (below 1,000,000,000).
#[derive(Clone, Copy, Debug, PartialEq, Eq, Structural)]
pub struct Timestamp {
    pub before_epoch: bool,
    pub secs: u64,
    pub nanos: u32,
}

impl Date {
    pub fn new(year: i32, month: u32, day: u32) -> (r: Date)
        ensures
            r == (Date { year, month, day }),
    {
        Date { year, month, day }
    }
}

/// The value of bytes read as a big-endian number.
pub open spec fn be_value(b: Seq<u8>) -> nat
    decreases b.len(),
{
    if b.len() == 0 {
        0
    } else {
        be_value(b.drop_last()) * 256 + (b.last() as nat)
    }
}

/// Random bytes made into a random (version 4) identifier of the RFC 4122 variant: the high
/// half of byte 6 becomes 4 and the two high bits of byte 8 become `10`.
pub open spec fn v4_bytes(b: Seq<u8>) -> Seq<u8> {
    b.update(6, (b[6] % 16 + 64) as u8).update(8, (b[8] % 64 + 128) as u8)
}

/// A random (version 4) identifier of the RFC 4122 variant: its version digit is 4 and the
/// two high bits of its variant byte are `10`.
pub open spec fn is_random_v4(bits: u128) -> bool {
    &&& (bits as nat / pow16(19)) % 16 == 4
    &&& (bits as nat / (4 * pow16(15))) % 4 == 2
}

/// Calls `uuid::Builder::from_random_bytes(bytes).into_uuid()` and returns its bits. The
/// builder keeps the bytes in big-endian order and sets the version (4, random) and the
/// RFC 4122 variant bits, `(b[6] & 0x0f) | 0x40` and `(b[8] & 0x3f) | 0x80`; the contract
/// claims that value, and the version and variant it carries.
#[verifier::external_body]
fn uuid_from_random_bytes(bytes: [u8; 16]) -> (r: Uuid)
    ensures
        r.bits == be_value(v4_bytes(bytes@)),
        is_random_v4(r.bits),
{
    Uuid { bits: uuid::Builder::from_random_bytes(bytes).into_uuid().as_u128() }
}

/// A fresh random (version 4) identifier from 16 bytes of the operating system's random
/// source; none when the source fails.
pub(crate) fn random_uuid() -> (r: Option<Uuid>)
    ensures
        r matches Some(u) ==> is_random_v4(u.bits),
        r matches Some(u) ==> exists|b: Seq<u8>| b.len() == 16 && u.bits == #[trigger] be_value(v4_bytes(b)),
{
    match os_random_bytes(16) {
        Some(b) => {
            let bytes: [u8; 16] = [
                b[0], b[1], b[2], b[3], b[4], b[5], b[6], b[7],
                b[8], b[9], b[10], b[11], b[12], b[13], b[14], b[15],
            ];
            let u = uuid_from_random_bytes(bytes);
            assert(u.bits == be_value(v4_bytes(bytes@)));
            Some(u)
        },
        None => None,
    }
}

/// Calls `std::time::UNIX_EPOCH.elapsed()`, the time from 1970-01-01T00:00:00Z to the
/// system clock's present reading. When the clock reads earlier, the call fails with how far
/// before that moment it reads (`SystemTimeError::duration`), and the instant is returned as
/// lying before it. The reading depends on the clock; the contract claims only that the
/// nanoseconds of a `Duration` (`subsec_nanos`) are below one billion, as std documents.
#[verifier::external_body]
pub(crate) fn now_utc() -> (r: Timestamp)
    ensures
        r.nanos < 1_000_000_000,
{
    match std::time::UNIX_EPOCH.elapsed() {
        Ok(d) => Timestamp { before_epoch: false, secs: d.as_secs(), nanos: d.subsec_nanos() },
        Err(e) => Timestamp { before_epoch: true, secs: e.duration().as_secs(), nanos: e.duration().subsec_nanos() },
    }
}

/// 16 to the power `e`.
pub open spec fn pow16(e: nat) -> nat
    decreases e,
{
    if e == 0 {
        1
    } else {
        16 * pow16((e - 1) as nat)
    }
}

/// The 32 lower-case hexadecimal digits of a 128-bit value, most significant first.
pub open spec fn hex_digits_128(bits: u128) -> Seq<char> {
    Seq::new(32, |i: int| hex_digit(((bits as nat / pow16((31 - i) as nat)) % 16) as u8))
}

/// The hyphenated form of an identifier: its 32 hexadecimal digits in groups of 8, 4, 4, 4
/// and 12, joined by `-`.
pub open spec fn hyphenated(bits: u128) -> Seq<char> {
    let h = hex_digits_128(bits);
    h.subrange(0, 8) + seq!['-'] + h.subrange(8, 12) + seq!['-'] + h.subrange(12, 16) + seq!['-']
        + h.subrange(16, 20) + seq!['-'] + h.subrange(20, 32)
}

/// Calls `uuid::Uuid::from_u128(bits).to_string()`. The uuid crate displays an identifier
/// in its hyphenated lower-case form: the value's 16 bytes in big-endian order as 32
/// hexadecimal digits, in groups of 8, 4, 4, 4 and 12 joined by `-`. The contract claims that.
#[verifier::external_body]
pub(crate) fn uuid_text(id: Uuid) -> (r: String)
    ensures
        r@ == hyphenated(id.bits),
{
    uuid::Uuid::from_u128(id.bits).to_string()
}

} // verus!
