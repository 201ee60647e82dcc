//! Timestamp value object: Unix milliseconds, no time library needed.

use vstd::prelude::*;
use crate::text::{decimal, push_decimal};

verus! {

/// Timestamp as Unix milliseconds since epoch.
#[derive(Debug, Clone, Copy, PartialEq, Eq, Structural, PartialOrd, Ord)]
pub struct Timestamp(i64);

impl View for Timestamp {
    type V = i64;

    closed spec fn view(&self) -> i64 {
        self.0
    }
}

/// `std::time::SystemTime`, carried opaquely.
#[verifier::external_type_specification]
#[verifier::external_body]
pub struct ExSystemTime(std::time::SystemTime);

/// `SystemTime::now`: the clock's reading; nothing is claimed of it.
#[verifier::external_body]
fn system_time_now() -> (r: std::time::SystemTime) {
    std::time::SystemTime::now()
}

/// `SystemTime::duration_since(UNIX_EPOCH)`: `None` where the time lies
/// before the epoch; the duration depends on the clock's reading and is not
/// described.
#[verifier::external_body]
fn elapsed_since_unix_epoch(t: &std::time::SystemTime) -> (r: Option<core::time::Duration>) {
    t.duration_since(std::time::UNIX_EPOCH).ok()
}

/// `Duration::as_millis`: whole milliseconds of the duration; the duration is
/// opaque here, so nothing is claimed of the number.
#[verifier::external_body]
fn duration_as_millis(d: &core::time::Duration) -> (r: u128) {
    d.as_millis()
}

/// The clock value kept from a reading: its milliseconds since the epoch cast
/// to `i64` (wrapping as `as` does), or 0 when the reading lies before the
/// epoch.
pub open spec fn clock_millis(ms: Option<u128>) -> i64 {
    match ms {
        Some(m) => m as i64,
        None => 0,
    }
}

/// Turns the milliseconds elapsed since the epoch, if any, into the stored
/// value: cast to `i64`, or 0 when the time lies before the epoch.
pub fn millis_or_zero(ms: Option<u128>) -> (r: i64)
    ensures
        r == clock_millis(ms),
{
    match ms {
        Some(m) => m as i64,
        None => 0,
    }
}

/// Milliseconds since the Unix epoch by the system clock, truncated to `i64`;
/// 0 when the clock reads before the epoch. Which reading the clock gives is
/// not described, so no clause fixes the number.
pub fn current_time_millis() -> (r: i64) {
    let now = system_time_now();
    let elapsed = match elapsed_since_unix_epoch(&now) {
        Some(d) => Some(duration_as_millis(&d)),
        None => None,
    };
    millis_or_zero(elapsed)
}

/// Decimal rendering of a signed number, with a leading `-` when negative.
pub open spec fn signed_decimal(n: int) -> Seq<char> {
    if n < 0 {
        "-"@ + decimal((-n) as nat)
    } else {
        decimal(n as nat)
    }
}

/// A signed number in decimal, with a leading `-` when negative.
pub fn signed_decimal_text(n: i64) -> (r: String)
    ensures
        r@ == signed_decimal(n as int),
{
    let mut out = String::new();
    if n < 0 {
        out.append("-");
        let m: u64 = ((-(n + 1)) as u64) + 1;
        push_decimal(&mut out, m);
    } else {
        push_decimal(&mut out, n as u64);
    }
    out
}

/// Rust's integer division (rounding toward zero) by 1000.
pub open spec fn div_1000_toward_zero(n: int) -> int {
    if n >= 0 {
        n / 1000
    } else {
        -((-n) / 1000)
    }
}

impl Timestamp {
    /// Creates a timestamp for the current time.
    pub fn now() -> (r: Self) {
        Timestamp(current_time_millis())
    }

    /// Creates from Unix milliseconds.
    pub fn from_millis(ms: i64) -> (r: Self)
        ensures
            r@ == ms,
    {
        Timestamp(ms)
    }

    /// Returns Unix milliseconds.
    pub fn as_i64(self) -> (r: i64)
        ensures
            r == self@,
    {
        self.0
    }

    /// Creates from seconds.
    pub fn from_secs(secs: i64) -> (r: Self)
        requires
            i64::MIN <= secs * 1000 <= i64::MAX,
        ensures
            r@ == secs * 1000,
    {
        Timestamp(secs * 1000)
    }

    /// Returns whole seconds since epoch, rounded toward zero.
    pub fn as_secs(self) -> (r: i64)
        ensures
            r == div_1000_toward_zero(self@ as int),
    {
        self.0 / 1000
    }

    /// Creates the zero timestamp.
    pub fn zero() -> (r: Self)
        ensures
            r@ == 0,
    {
        Timestamp(0)
    }

    /// Checks if this is zero.
    pub fn is_zero(self) -> (r: bool)
        ensures
            r == (self@ == 0),
    {
        self.0 == 0
    }

    /// The display form: the milliseconds in decimal.
    pub fn to_string(self) -> (r: String)
        ensures
            r@ == signed_decimal(self@ as int),
    {
        signed_decimal_text(self.0)
    }
}

impl Default for Timestamp {
    fn default() -> (r: Self)
        ensures
            r@ == 0,
    {
        Timestamp(0)
    }
}

impl From<i64> for Timestamp {
    fn from(ms: i64) -> (r: Self)
        ensures
            r@ == ms,
    {
        Timestamp(ms)
    }
}

impl From<Timestamp> for i64 {
    fn from(ts: Timestamp) -> (r: i64)
        ensures
            r == ts@,
    {
        ts.0
    }
}

impl vstd::std_specs::convert::FromSpecImpl<i64> for Timestamp {
    open spec fn obeys_from_spec() -> bool {
        true
    }

    closed spec fn from_spec(ms: i64) -> Timestamp {
        Timestamp(ms)
    }
}

impl vstd::std_specs::convert::FromSpecImpl<Timestamp> for i64 {
    open spec fn obeys_from_spec() -> bool {
        true
    }

    closed spec fn from_spec(ts: Timestamp) -> i64 {
        ts.0
    }
}

/// Seconds survive a round trip through milliseconds.
pub proof fn lemma_secs_round_trip(secs: i64)
    requires
        i64::MIN <= secs * 1000 <= i64::MAX,
    ensures
        div_1000_toward_zero(secs * 1000) == secs,
{
}

} // verus!
