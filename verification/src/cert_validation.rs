//! Certificate expiry checks with date parsing and a textual fallback.
use crate::text::{
    chars_of, collapse_double_spaces, collapse_spaces, contains, contains_str, parse_i32,
    parse_i32_spec, push_i64, push_str, split_words, to_lowercase, trim, trim_chars,
    unicode_lowercase, words, int_decimal,
};
use vstd::prelude::*;

verus! {

/// A point in time: seconds since the Unix epoch and the nanoseconds within that
/// second (up to 1,999,999,999 during a leap second).
pub type Instant = (i64, u32);

/// The instant that `DateTime::parse_from_str(s, fmt)` yields, converted to UTC,
/// or `None` when chrono rejects the input.
pub uninterp spec fn parsed_with_format(s: Seq<char>, fmt: Seq<char>) -> Option<Instant>;

/// The instant that `s.parse::<DateTime<Utc>>()` yields, or `None` when chrono
/// rejects the input.
pub uninterp spec fn parsed_utc(s: Seq<char>) -> Option<Instant>;

/// Calls `chrono::DateTime::parse_from_str` and converts the result to UTC. The
/// contract names the result; chrono's format grammar is not stated.
#[verifier::external_body]
fn parse_with_format(s: &str, fmt: &str) -> (r: Option<Instant>)
    ensures
        r == parsed_with_format(s@, fmt@),
        r matches Some(t) ==> t.1 < 2_000_000_000,
{
    match chrono::DateTime::parse_from_str(s, fmt) {
        Ok(dt) => {
            let utc = dt.with_timezone(&chrono::Utc);
            Some((utc.timestamp(), utc.timestamp_subsec_nanos()))
        },
        Err(_) => None,
    }
}

/// The instant that `NaiveDateTime::parse_from_str(s, fmt)` yields, read as UTC,
/// or `None` when chrono rejects the input.
pub uninterp spec fn parsed_naive_datetime(s: Seq<char>, fmt: Seq<char>) -> Option<Instant>;

/// The midnight (UTC) of the date that `NaiveDate::parse_from_str(s, fmt)`
/// yields, or `None` when chrono rejects the input.
pub uninterp spec fn parsed_naive_date(s: Seq<char>, fmt: Seq<char>) -> Option<Instant>;

/// Calls `chrono::NaiveDateTime::parse_from_str` and reads the result as UTC.
/// The contract names the result; chrono's format grammar is not stated.
#[verifier::external_body]
fn parse_naive_datetime(s: &str, fmt: &str) -> (r: Option<Instant>)
    ensures
        r == parsed_naive_datetime(s@, fmt@),
        r matches Some(t) ==> t.1 < 2_000_000_000,
{
    match chrono::NaiveDateTime::parse_from_str(s, fmt) {
        Ok(dt) => {
            let utc = dt.and_utc();
            Some((utc.timestamp(), utc.timestamp_subsec_nanos()))
        },
        Err(_) => None,
    }
}

/// Calls `chrono::NaiveDate::parse_from_str` and takes the date's midnight in
/// UTC. The contract names the result; chrono's format grammar is not stated,
/// but a midnight has no nanoseconds.
#[verifier::external_body]
fn parse_naive_date(s: &str, fmt: &str) -> (r: Option<Instant>)
    ensures
        r == parsed_naive_date(s@, fmt@),
        r matches Some(t) ==> t.1 == 0,
{
    match chrono::NaiveDate::parse_from_str(s, fmt) {
        Ok(d) => {
            let utc = d.and_time(chrono::NaiveTime::MIN).and_utc();
            Some((utc.timestamp(), utc.timestamp_subsec_nanos()))
        },
        Err(_) => None,
    }
}

/// Calls `str::parse::<chrono::DateTime<chrono::Utc>>`. The contract names the
/// result; the accepted syntax is not stated.
#[verifier::external_body]
fn parse_utc(s: &str) -> (r: Option<Instant>)
    ensures
        r == parsed_utc(s@),
        r matches Some(t) ==> t.1 < 2_000_000_000,
{
    match s.parse::<chrono::DateTime<chrono::Utc>>() {
        Ok(dt) => Some((dt.timestamp(), dt.timestamp_subsec_nanos())),
        Err(_) => None,
    }
}

/// Calls `chrono::Utc::now`. The current time is not a function of anything the
/// library holds, so nothing but the range of the nanoseconds is stated.
#[verifier::external_body]
fn now_utc() -> (r: Instant)
    ensures
        r.1 < 2_000_000_000,
{
    let now = chrono::Utc::now();
    (now.timestamp(), now.timestamp_subsec_nanos())
}

/// The date formats tried, in order, before chrono's own parser.
pub open spec fn expiry_formats() -> Seq<Seq<char>> {
    seq![
        "%Y-%m-%d %H:%M:%S %Z"@,
        "%Y-%m-%d %H:%M:%S"@,
        "%Y-%m-%dT%H:%M:%SZ"@,
        "%Y-%m-%dT%H:%M:%S%z"@,
        "%Y-%m-%d"@,
        "%b %d %Y"@,
        "%b %d, %Y"@,
        "%d %b %Y"@,
        "%d/%m/%Y"@,
        "%m/%d/%Y"@,
    ]
}

/// The instant `cleaned` denotes in the format `fmt`: with its own offset when
/// it carries one, else as a UTC date and time, else as a UTC date at midnight.
pub open spec fn parse_in_format(cleaned: Seq<char>, fmt: Seq<char>) -> Option<Instant> {
    match parsed_with_format(cleaned, fmt) {
        Some(t) => Some(t),
        None => match parsed_naive_datetime(cleaned, fmt) {
            Some(t) => Some(t),
            None => parsed_naive_date(cleaned, fmt),
        },
    }
}

/// The first parse of `cleaned` that succeeds with the formats from index `k` on,
/// then with chrono's own parser.
pub open spec fn parse_from_format(cleaned: Seq<char>, k: nat) -> Option<Instant>
    decreases 10 - k,
{
    if k >= 10 {
        parsed_utc(cleaned)
    } else {
        match parse_in_format(cleaned, expiry_formats()[k as int]) {
            Some(t) => Some(t),
            None => parse_from_format(cleaned, k + 1),
        }
    }
}

/// The input with surrounding whitespace removed and double spaces collapsed.
pub open spec fn cleaned_expiry(expires: Seq<char>) -> Seq<char> {
    collapse_double_spaces(trim(expires))
}

/// The instant an expiry text denotes, if any of the known formats accepts it.
pub open spec fn parsed_expiry(expires: Seq<char>) -> Option<Instant> {
    parse_from_format(cleaned_expiry(expires), 0)
}

/// `a` divided by a positive `b`, rounded toward zero.
pub open spec fn div_toward_zero(a: int, b: int) -> int {
    if a >= 0 {
        a / b
    } else {
        -((-a) / b)
    }
}

/// Nanoseconds since the epoch.
pub open spec fn total_nanos(t: Instant) -> int {
    t.0 * 1_000_000_000 + t.1
}

/// Whole days from `now` until `expiry` (negative when `expiry` is earlier),
/// counted toward zero as `TimeDelta::num_days` does.
pub open spec fn whole_days_between(expiry: Instant, now: Instant) -> int {
    div_toward_zero(total_nanos(expiry) - total_nanos(now), 86_400_000_000_000)
}

/// The word is a number within `0..=limit`.
pub open spec fn small_number(w: Seq<char>, limit: i32) -> bool {
    match parse_i32_spec(w) {
        Some(n) => 0 <= n <= limit,
        None => false,
    }
}

/// Some word is a number within `0..=limit`.
pub open spec fn has_small_number(ws: Seq<Seq<char>>, limit: i32) -> bool {
    exists|k: int| 0 <= k < ws.len() && #[trigger] small_number(ws[k], limit)
}

/// The textual heuristic for an expiry that could not be parsed as a date.
pub open spec fn fallback_expiring(expires: Seq<char>, warning_days: i64) -> bool {
    let lower = unicode_lowercase(expires);
    ||| contains(lower, "expired"@)
    ||| contains(lower, "invalid"@)
    ||| contains(lower, "revoked"@)
    ||| (contains(lower, "days"@) && has_small_number(words(expires), warning_days as i32))
    ||| contains(lower, "soon"@)
    ||| contains(lower, "warning"@)
    ||| contains(lower, "expiring"@)
}

/// The display text of an expiry, given the whole days left until it, if known.
pub open spec fn expiration_text(expires: Seq<char>, warning_days: i64, days: Option<i64>) -> Seq<
    char,
> {
    if expires.len() == 0 || expires == "-"@ {
        "Unknown"@
    } else {
        match days {
            Some(d) => if d < 0 {
                expires + " (Expired "@ + int_decimal(-d) + " days ago) 🔴"@
            } else if d <= warning_days {
                expires + " ("@ + int_decimal(d as int) + " days left) ⚠️"@
            } else {
                expires
            },
            None => if fallback_expiring(expires, warning_days) {
                expires + " ⚠️"@
            } else {
                expires
            },
        }
    }
}

/// The text for a known expiry date and a day count `d`: an expired
/// certificate (`d` below 0) is shown as expired that many days ago, never with
/// days left; one within the warning period with its days left and a warning;
/// any other with its date alone. An empty or `-` date reads "Unknown".
pub proof fn lemma_expiration_text_by_days(expires: Seq<char>, warning_days: i64, d: i64)
    ensures
        expires.len() == 0 || expires == "-"@ ==> expiration_text(expires, warning_days, Some(d)) == "Unknown"@,
        expires.len() > 0 && expires != "-"@ ==> expiration_text(expires, warning_days, Some(d)) == if d < 0 {
            expires + " (Expired "@ + int_decimal(-d) + " days ago) 🔴"@
        } else if d <= warning_days {
            expires + " ("@ + int_decimal(d as int) + " days left) ⚠️"@
        } else {
            expires
        },
{
}

/// Certificate validation utilities with date parsing.
pub struct CertificateValidator {
    expiry_warning_days: i64,
}

impl Default for CertificateValidator {
    fn default() -> (r: Self)
        ensures
            r.warning_days() == 30,
    {
        Self { expiry_warning_days: 30 }
    }
}

impl CertificateValidator {
    /// The number of days before expiry from which a certificate counts as expiring.
    pub closed spec fn warning_days(&self) -> i64 {
        self.expiry_warning_days
    }

    /// Creates a validator with a custom warning period.
    pub fn with_warning_days(days: i64) -> (r: Self)
        ensures
            r.warning_days() == days,
    {
        Self { expiry_warning_days: days }
    }

    /// Whether an expiry instant lies within the warning period from `now`
    /// (or before it).
    pub fn expiry_within_warning(&self, expiry: Instant, now: Instant) -> (b: bool)
        ensures
            b == (total_nanos(expiry) <= total_nanos(now) + self.warning_days() as int * 86_400_000_000_000),
    {
        let e: i128 = (expiry.0 as i128) * 1_000_000_000 + (expiry.1 as i128);
        let n: i128 = (now.0 as i128) * 1_000_000_000 + (now.1 as i128);
        let w: i128 = (self.expiry_warning_days as i128) * 86_400_000_000_000;
        e <= n + w
    }

    /// Checks whether the certificate expires within the warning period (or has
    /// expired); when the text is not a date, the textual heuristic decides.
    pub fn is_expiring_soon(&self, expires: &str) -> (b: bool)
        ensures
            parsed_expiry(expires@) is None ==> b == fallback_expiring(expires@, self.warning_days()),
            parsed_expiry(expires@) matches Some(e) ==> exists|now: Instant|
                b == (total_nanos(e) <= total_nanos(now) + self.warning_days() as int
                    * 86_400_000_000_000),
    {
        match self.parse_expiry_date(expires) {
            Some(expiry) => {
                let now = now_utc();
                self.expiry_within_warning(expiry, now)
            },
            None => self.fallback_expiry_check(expires),
        }
    }

    /// Whole days from `now` until `expiry`, negative when it lies in the past.
    pub fn days_between(expiry: Instant, now: Instant) -> (d: i64)
        ensures
            d as int == whole_days_between(expiry, now),
    {
        let e: i128 = (expiry.0 as i128) * 1_000_000_000 + (expiry.1 as i128);
        let n: i128 = (now.0 as i128) * 1_000_000_000 + (now.1 as i128);
        let diff: i128 = e - n;
        let q: i128 = if diff >= 0 {
            diff / 86_400_000_000_000
        } else {
            -((-diff) / 86_400_000_000_000)
        };
        assert(-0x8000_0000_0000_0000 <= q < 0x8000_0000_0000_0000) by (nonlinear_arith)
            requires
                -0x8000_0000_0000_0000_0000_0000 <= diff <= 0x8000_0000_0000_0000_0000_0000,
                diff >= 0 ==> q == diff / 86_400_000_000_000,
                diff < 0 ==> q == -((-diff) / 86_400_000_000_000),
        ;
        q as i64
    }

    /// The number of days until expiration (negative if expired), when the text is
    /// a date.
    pub fn days_until_expiry(&self, expires: &str) -> (r: Option<i64>)
        ensures
            r is Some <==> parsed_expiry(expires@) is Some,
            r matches Some(d) ==> exists|now: Instant|
                d == whole_days_between(parsed_expiry(expires@).unwrap(), now),
    {
        match self.parse_expiry_date(expires) {
            Some(expiry) => {
                let now = now_utc();
                Some(Self::days_between(expiry, now))
            },
            None => None,
        }
    }

    /// The display text of an expiry given the days until it (when it is a date).
    pub fn format_expiration_for_days(&self, expires: &str, days: Option<i64>) -> (s: String)
        ensures
            s@ == expiration_text(expires@, self.warning_days(), days),
            expires@.len() > 0 && expires@ != "-"@ ==> (days matches Some(d) ==> d < 0 ==> s@ == expires@
                + " (Expired "@ + int_decimal(-d) + " days ago) 🔴"@),
            expires@.len() > 0 && expires@ != "-"@ ==> (days matches Some(d) ==> 0 <= d <= self.warning_days()
                ==> s@ == expires@ + " ("@ + int_decimal(d as int) + " days left) ⚠️"@),
    {
        proof {
            if days is Some {
                lemma_expiration_text_by_days(expires@, self.warning_days(), days.unwrap());
            }
        }
        let v = chars_of(expires);
        if v.len() == 0 || (v.len() == 1 && v[0] == '-') {
            proof {
                reveal_strlit("-");
                if v@.len() == 1 {
                    assert(expires@ =~= "-"@);
                }
            }
            let mut u = String::new();
            push_str(&mut u, "Unknown");
            assert(u@ =~= "Unknown"@);
            return u;
        }
        proof {
            reveal_strlit("-");
            assert(expires@ != "-"@);
        }
        let mut s = String::new();
        push_str(&mut s, expires);
        assert(s@ =~= expires@);
        match days {
            Some(d) => {
                if d < 0 {
                    push_str(&mut s, " (Expired ");
                    let m: u64 = (-(d as i128)) as u64;
                    crate::text::push_u64(&mut s, m);
                    assert(int_decimal(-d) == crate::text::nat_decimal(m as nat));
                    push_str(&mut s, " days ago) 🔴");
                } else if d <= self.expiry_warning_days {
                    push_str(&mut s, " (");
                    push_i64(&mut s, d);
                    push_str(&mut s, " days left) ⚠️");
                }
            },
            None => {
                if self.fallback_expiry_check(expires) {
                    push_str(&mut s, " ⚠️");
                }
            },
        }
        s
    }

    /// Formats the expiration date with the appropriate warning.
    pub fn format_expiration_with_warning(&self, expires: &str) -> (s: String)
        ensures
            exists|days: Option<i64>|
                (days is Some <==> parsed_expiry(expires@) is Some) && s@ == expiration_text(
                    expires@,
                    self.warning_days(),
                    days,
                ),
            expires@.len() == 0 || expires@ == "-"@ ==> s@ == "Unknown"@,
    {
        let v = chars_of(expires);
        if v.len() == 0 || (v.len() == 1 && v[0] == '-') {
            let s = self.format_expiration_for_days(expires, None);
            proof {
                reveal_strlit("-");
                if v@.len() == 1 {
                    assert(expires@ =~= "-"@);
                }
                let d: Option<i64> = if parsed_expiry(expires@) is Some {
                    Some(0i64)
                } else {
                    None
                };
                assert(s@ == expiration_text(expires@, self.warning_days(), d));
            }
            return s;
        }
        let days = self.days_until_expiry(expires);
        let s = self.format_expiration_for_days(expires, days);
        assert((days is Some <==> parsed_expiry(expires@) is Some) && s@ == expiration_text(
            expires@,
            self.warning_days(),
            days,
        ));
        s
    }

    /// Parses the date formats commonly found in certificate data; a format
    /// without an offset is read as UTC, and a date alone as its midnight.
    pub fn parse_expiry_date(&self, expires: &str) -> (r: Option<Instant>)
        ensures
            r == parsed_expiry(expires@),
    {
        let formats: [&str; 10] = [
            "%Y-%m-%d %H:%M:%S %Z",
            "%Y-%m-%d %H:%M:%S",
            "%Y-%m-%dT%H:%M:%SZ",
            "%Y-%m-%dT%H:%M:%S%z",
            "%Y-%m-%d",
            "%b %d %Y",
            "%b %d, %Y",
            "%d %b %Y",
            "%d/%m/%Y",
            "%m/%d/%Y",
        ];
        let v = chars_of(expires);
        let trimmed = trim_chars(v.as_slice());
        let cleaned_chars = collapse_spaces(trimmed.as_slice());
        let cleaned = crate::text::string_of(cleaned_chars.as_slice());
        assert(cleaned@ == cleaned_expiry(expires@));
        let mut k: usize = 0;
        while k < 10
            invariant
                k <= 10,
                parse_from_format(cleaned@, k as nat) == parsed_expiry(expires@),
                cleaned@ == cleaned_expiry(expires@),
                forall|m: int| 0 <= m < 10 ==> (#[trigger] formats@[m])@ == expiry_formats()[m],
            decreases 10 - k,
        {
            if let Some(t) = parse_with_format(cleaned.as_str(), formats[k]) {
                return Some(t);
            }
            if let Some(t) = parse_naive_datetime(cleaned.as_str(), formats[k]) {
                return Some(t);
            }
            if let Some(t) = parse_naive_date(cleaned.as_str(), formats[k]) {
                return Some(t);
            }
            k = k + 1;
        }
        parse_utc(cleaned.as_str())
    }

    /// The textual heuristic used when the expiry is not a date.
    fn fallback_expiry_check(&self, expires: &str) -> (b: bool)
        ensures
            b == fallback_expiring(expires@, self.warning_days()),
    {
        let lower_s = to_lowercase(expires);
        let lower = chars_of(lower_s.as_str());
        if contains_str(lower.as_slice(), "expired") || contains_str(lower.as_slice(), "invalid")
            || contains_str(lower.as_slice(), "revoked") {
            return true;
        }
        let limit: i32 = #[verifier::truncate] (self.expiry_warning_days as i32);
        if contains_str(lower.as_slice(), "days") && has_number_within(expires, limit) {
            return true;
        }
        contains_str(lower.as_slice(), "soon") || contains_str(lower.as_slice(), "warning")
            || contains_str(lower.as_slice(), "expiring")
    }
}

/// Whether some whitespace-separated word of `text` is a number in `0..=limit`.
pub fn has_number_within(text: &str, limit: i32) -> (b: bool)
    ensures
        b == has_small_number(words(text@), limit),
{
    let v = chars_of(text);
    let ws = split_words(v.as_slice());
    let mut k: usize = 0;
    while k < ws.len()
        invariant
            k <= ws@.len(),
            ws@.len() == words(text@).len(),
            forall|m: int| 0 <= m < ws@.len() ==> (#[trigger] ws@[m])@ == words(text@)[m],
            forall|m: int| 0 <= m < k ==> !#[trigger] small_number(words(text@)[m], limit),
        decreases ws.len() - k,
    {
        if let Some(n) = parse_i32(ws[k].as_slice()) {
            if n >= 0 && n <= limit {
                assert(small_number(words(text@)[k as int], limit));
                return true;
            }
        }
        k = k + 1;
    }
    false
}

} // verus!
