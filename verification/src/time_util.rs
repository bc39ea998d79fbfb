//! The days left until a certificate's expiry, as the certificates view shows
//! them.
use crate::text::{int_decimal, push_i64, push_str};
use time::OffsetDateTime;
use vstd::prelude::*;
use x509_parser::time::ASN1Time;

verus! {

/// The ASN.1 time of `x509-parser`, carried through unchanged.
#[verifier::external_type_specification]
#[verifier::external_body]
pub struct ExASN1Time(ASN1Time);

/// The signed duration of `time`: the output of the subtraction that
/// `x509-parser` defines on ASN.1 times, declared so that the ASN.1 time can be.
/// No value of it passes through the library.
#[verifier::external_type_specification]
#[verifier::external_body]
pub struct ExSignedDuration(time::SignedDuration);

/// The whole days from now until `t`, negative once it has passed, from
/// `ASN1Time::to_datetime`, `OffsetDateTime::now_utc` and `whole_days` of their
/// difference. Nothing is claimed of its value: it depends on the clock.
#[verifier::external_body]
fn whole_days_until(t: &ASN1Time) -> (d: i64) {
    (t.to_datetime() - OffsetDateTime::now_utc()).whole_days()
}

/// A count of days as the certificates view shows it: the number and a `d`.
pub fn days_string(days: i64) -> (s: String)
    ensures
        s@ == int_decimal(days as int) + "d"@,
{
    let mut s = String::new();
    push_i64(&mut s, days);
    push_str(&mut s, "d");
    s
}

/// The days left until `asn1_time`, as the certificates view shows them.
pub fn asn1time_to_future_days_string(asn1_time: &ASN1Time) -> (s: String)
    ensures
        exists|days: i64| s@ == int_decimal(days as int) + "d"@,
{
    let days = whole_days_until(asn1_time);
    let s = days_string(days);
    assert(s@ == int_decimal(days as int) + "d"@);
    s
}

} // verus!
