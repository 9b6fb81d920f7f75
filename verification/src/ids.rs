//! Identifiers and instants: UUIDs held as 128-bit integers, and UTC
//! instants held as whole seconds plus nanoseconds since the Unix epoch.
use vstd::prelude::*;
use vstd::arithmetic::power::pow;
use crate::encoding::hex_digit;

verus! {

/// The hyphenated lowercase text of a UUID (8-4-4-4-12 hex digits).
pub open spec fn uuid_text(u: u128) -> Seq<char> {
    let h = Seq::new(32, |i: int| hex_digit((u as int / pow(16, (31 - i) as nat)) % 16));
    h.subrange(0, 8) + seq!['-'] + h.subrange(8, 12) + seq!['-'] + h.subrange(12, 16) + seq!['-']
        + h.subrange(16, 20) + seq!['-'] + h.subrange(20, 32)
}

/// The UUID that `uuid::Uuid::parse_str` reads from a text, if any.
pub uninterp spec fn uuid_parse(text: Seq<char>) -> Option<u128>;

/// A version-4 (random) UUID of the RFC 4122 variant.
pub open spec fn is_v4(u: u128) -> bool {
    (u >> 76u128) & 0xfu128 == 4 && (u >> 62u128) & 0x3u128 == 2
}

/// `uuid::Uuid::new_v4`: a random version-4 UUID. Only its version (4) and
/// variant (RFC 4122) bits are known.
#[verifier::external_body]
pub(crate) fn uuid_new_v4() -> (u: u128)
    ensures
        is_v4(u),
{
    uuid::Uuid::new_v4().as_u128()
}

/// `Uuid::to_string`: the hyphenated lowercase form, which `Uuid::parse_str`
/// reads back as the same UUID.
#[verifier::external_body]
pub(crate) fn uuid_to_string(u: u128) -> (s: String)
    ensures
        s@ == uuid_text(u),
        uuid_parse(s@) == Some(u),
{
    uuid::Uuid::from_u128(u).to_string()
}

#[verifier::external_type_specification]
#[verifier::external_body]
pub struct ExUuidError(uuid::Error);

/// `Uuid::parse_str`.
#[verifier::external_body]
pub(crate) fn uuid_from_str(s: &str) -> (r: Result<u128, uuid::Error>)
    ensures
        match r {
            Ok(u) => uuid_parse(s@) == Some(u),
            Err(_) => uuid_parse(s@) is None,
        },
{
    match uuid::Uuid::parse_str(s) {
        Ok(u) => Ok(u.as_u128()),
        Err(e) => Err(e),
    }
}

/// Seconds since the epoch of the first instant that `chrono::DateTime<Utc>`
/// can hold (year -262143, January 1st, midnight).
pub open spec fn min_instant_secs() -> int {
    -8334601228800
}

/// Seconds since the epoch of the last whole second that
/// `chrono::DateTime<Utc>` can hold (year 262142, December 31st, 23:59:59).
pub open spec fn max_instant_secs() -> int {
    8210266876799
}

/// A UTC instant: whole seconds since the Unix epoch and the nanoseconds
/// within that second.
#[derive(Clone, Copy, Debug, PartialEq, Eq)]
pub struct Timestamp {
    pub secs: i64,
    pub nanos: u32,
}

impl Timestamp {
    /// Sub-second part below one second, and an instant that a
    /// `chrono::DateTime<Utc>` can hold.
    pub open spec fn wf(self) -> bool {
        &&& self.nanos < 1_000_000_000
        &&& min_instant_secs() <= self.secs <= max_instant_secs()
    }

    /// `self` lies strictly before `other`.
    pub open spec fn before(self, other: Timestamp) -> bool {
        self.secs < other.secs || (self.secs == other.secs && self.nanos < other.nanos)
    }

    /// The instant of these parts, when it is a well-formed one.
    pub fn new(secs: i64, nanos: u32) -> (t: Option<Timestamp>)
        ensures
            t matches Some(v) ==> v.wf() && v.secs == secs && v.nanos == nanos,
            t is None ==> !(Timestamp { secs, nanos }).wf(),
    {
        if nanos < 1_000_000_000 && -8334601228800 <= secs && secs <= 8210266876799 {
            Some(Timestamp { secs, nanos })
        } else {
            None
        }
    }

    /// Whether `self` lies strictly before `other`.
    pub fn is_before(&self, other: &Timestamp) -> (b: bool)
        ensures
            b == self.before(*other),
    {
        self.secs < other.secs || (self.secs == other.secs && self.nanos < other.nanos)
    }
}

/// `DateTime::<Utc>::checked_add_signed` of `TimeDelta::try_seconds(secs)`:
/// the instant `secs` seconds later, present exactly when it lies within the
/// range that `DateTime<Utc>` can hold.
#[verifier::external_body]
pub(crate) fn chrono_add_seconds(t: Timestamp, secs: i64) -> (r: Option<Timestamp>)
    requires
        t.wf(),
    ensures
        r is Some <==> min_instant_secs() <= t.secs + secs <= max_instant_secs(),
        r matches Some(u) ==> u.secs == t.secs + secs && u.nanos == t.nanos,
{
    let start = match chrono::DateTime::<chrono::Utc>::from_timestamp(t.secs, t.nanos) {
        Some(d) => d,
        None => return None,
    };
    let delta = match chrono::TimeDelta::try_seconds(secs) {
        Some(d) => d,
        None => return None,
    };
    match start.checked_add_signed(delta) {
        Some(end) => Some(Timestamp { secs: end.timestamp(), nanos: end.timestamp_subsec_nanos() }),
        None => None,
    }
}

/// The instant `hours` hours after `now`, when `DateTime<Utc>` can hold it.
pub fn add_hours(now: Timestamp, hours: i64) -> (r: Option<Timestamp>)
    requires
        now.wf(),
    ensures
        r is Some <==> min_instant_secs() <= now.secs + hours * 3600 <= max_instant_secs(),
        r matches Some(t) ==> t.wf() && t.secs == now.secs + hours * 3600 && t.nanos == now.nanos,
{
    match hours.checked_mul(3600) {
        None => {
            assert(hours * 3600 > i64::MAX || hours * 3600 < i64::MIN);
            None
        },
        Some(secs) => chrono_add_seconds(now, secs),
    }
}

} // verus!
