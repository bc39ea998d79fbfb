//! What the views show of a resource: statuses, styles, shortened texts and the
//! lines of their cards and popups. Drawing them is the terminal's part.
use crate::container_app::{ProbeResult, ProbeStatus};
use crate::cert_validation::{has_number_within, has_small_number};
use crate::data::{Cert, Ingress, Namespace};
use crate::text::{
    byte_len, chars_eq_str, chars_for_bytes, chars_of, contains, contains_str, find, find_char, lines,
    nat_decimal, owned, parse_usize, parse_usize_spec, push_chars, push_str, push_u64, split_lines,
    to_lowercase, unicode_lowercase, words,
};
use crate::theme::{repeat, ColorRole, HealthColor, ResourceStatus, Symbols, TextType, UiHelpers};
use vstd::prelude::*;

verus! {

/// The text ends, after `n` of its characters, exactly at byte `b` of its UTF-8
/// encoding.
pub open spec fn cut_at(s: Seq<char>, n: int, b: int) -> bool {
    0 <= n <= s.len() && byte_len(s.take(n)) == b
}

/// Byte `b` of the UTF-8 encoding of `s` lies between two characters.
pub open spec fn byte_boundary(s: Seq<char>, b: int) -> bool {
    exists|n: int| cut_at(s, n, b)
}

/// The text as it fits in `max_len` bytes: unchanged when it fits, otherwise its
/// first `max_len - 1` bytes followed by an ellipsis.
pub open spec fn truncated(text: Seq<char>, max_len: usize, r: Seq<char>) -> bool {
    if byte_len(text) <= max_len {
        r == text
    } else {
        exists|n: int| #[trigger] cut_at(text, n, cut_len(max_len)) && r == text.take(n) + "…"@
    }
}

/// The bytes kept of a text cut to `max_len` bytes, leaving room for an ellipsis.
pub open spec fn cut_len(max_len: usize) -> int {
    if max_len > 0 {
        max_len - 1
    } else {
        0
    }
}

/// Shortens a text to `max_len` bytes with an ellipsis. The cut must fall
/// between two characters.
pub fn truncate_text(text: &str, max_len: usize) -> (r: String)
    requires
        byte_len(text@) > max_len ==> byte_boundary(text@, cut_len(max_len)),
    ensures
        truncated(text@, max_len, r@),
{
    let v = chars_of(text);
    if crate::text::byte_len_at_most(v.as_slice(), max_len) {
        return owned(text);
    }
    let b: usize = if max_len > 0 {
        max_len - 1
    } else {
        0
    };
    match chars_for_bytes(v.as_slice(), b) {
        Some(n) => {
            let mut r = String::new();
            let mut i: usize = 0;
            while i < n
                invariant
                    i <= n <= v@.len(),
                    r@ == v@.take(i as int),
                decreases n - i,
            {
                r.push(v[i]);
                assert(v@.take(i + 1) =~= v@.take(i as int).push(v@[i as int]));
                i = i + 1;
            }
            push_str(&mut r, "…");
            proof {
                assert(cut_at(text@, n as int, b as int) && r@ == text@.take(n as int) + "…"@);
                assert(cut_at(text@, n as int, cut_len(max_len)));
            }
            r
        },
        None => {
            proof {
                let n = choose|n: int| cut_at(text@, n, cut_len(max_len));
                assert(byte_len(v@.take(n)) == b);
            }
            owned(text)
        },
    }
}

/// The part of `s` after its last `c` (all of it when there is none).
pub open spec fn after_last(s: Seq<char>, c: char) -> Seq<char>
    decreases s.len(),
{
    if s.len() == 0 {
        s
    } else if s.last() == c {
        Seq::empty()
    } else {
        after_last(s.drop_last(), c).push(s.last())
    }
}

/// The part of `v` after its last `c`.
fn after_last_char(v: &[char], c: char) -> (r: Vec<char>)
    ensures
        r@ == after_last(v@, c),
{
    let mut k: usize = v.len();
    proof {
        assert(v@.take(v@.len() as int) =~= v@);
        assert(v@ + v@.skip(v@.len() as int) =~= v@);
    }
    while k > 0 && v[k - 1] != c
        invariant
            k <= v@.len(),
            after_last(v@, c) == after_last(v@.take(k as int), c) + v@.skip(k as int),
        decreases k,
    {
        proof {
            let t = v@.take(k as int);
            assert(t.drop_last() =~= v@.take(k - 1));
            assert(t.last() == v@[k - 1]);
            assert(v@.skip(k - 1) =~= seq![v@[k - 1]] + v@.skip(k as int));
            assert(after_last(v@.take(k - 1), c).push(v@[k - 1]) + v@.skip(k as int)
                =~= after_last(v@.take(k - 1), c) + v@.skip(k - 1));
        }
        k = k - 1;
    }
    proof {
        if k > 0 {
            let t = v@.take(k as int);
            assert(t.last() == c);
            assert(after_last(t, c) =~= Seq::<char>::empty());
        } else {
            assert(v@.take(0) =~= Seq::<char>::empty());
        }
        assert(Seq::<char>::empty() + v@.skip(k as int) =~= v@.skip(k as int));
    }
    crate::text::sub_chars(v, k, v.len())
}

/// The image reference without its registry and namespace path (the tag stays),
/// shortened to 35 bytes.
pub fn extract_image_name(full_image: &str) -> (r: String)
    requires
        byte_len(after_last(full_image@, '/')) > 35 ==> byte_boundary(after_last(full_image@, '/'), 34),
    ensures
        truncated(after_last(full_image@, '/'), 35, r@),
{
    let v = chars_of(full_image);
    let last = after_last_char(v.as_slice(), '/');
    let s = crate::text::string_of(last.as_slice());
    truncate_text(s.as_str(), 35)
}

/// The status of a container by its restarts: running without restarts, ready
/// with one or two, pending up to five, unknown up to ten, failed beyond (and for
/// a negative count).
pub open spec fn container_status(restart_count: i32) -> ResourceStatus {
    if restart_count == 0 {
        ResourceStatus::Running
    } else if 1 <= restart_count <= 2 {
        ResourceStatus::Ready
    } else if 3 <= restart_count <= 5 {
        ResourceStatus::Pending
    } else if 6 <= restart_count <= 10 {
        ResourceStatus::Unknown
    } else {
        ResourceStatus::Failed
    }
}

/// The status of a container by its restarts.
pub fn determine_container_status(restart_count: i32) -> (s: ResourceStatus)
    ensures
        s == container_status(restart_count),
{
    if restart_count == 0 {
        ResourceStatus::Running
    } else if 1 <= restart_count && restart_count <= 2 {
        ResourceStatus::Ready
    } else if 3 <= restart_count && restart_count <= 5 {
        ResourceStatus::Pending
    } else if 6 <= restart_count && restart_count <= 10 {
        ResourceStatus::Unknown
    } else {
        ResourceStatus::Failed
    }
}

/// The text style of a restart count: success without restarts, body for one
/// or two, warning up to five, error beyond (and for a negative count).
pub fn get_restart_style(restart_count: i32) -> (t: TextType)
    ensures
        t == (if restart_count == 0 {
            TextType::Success
        } else if 1 <= restart_count <= 2 {
            TextType::Body
        } else if 3 <= restart_count <= 5 {
            TextType::Warning
        } else {
            TextType::Error
        }),
{
    if restart_count == 0 {
        TextType::Success
    } else if 1 <= restart_count && restart_count <= 2 {
        TextType::Body
    } else if 3 <= restart_count && restart_count <= 5 {
        TextType::Warning
    } else {
        TextType::Error
    }
}

/// The filled cells, out of eight, of a container's restart bar: six for one or
/// two restarts, four up to five, two up to ten, none beyond.
pub open spec fn restart_cells(restart_count: i32) -> usize {
    if restart_count <= 2 {
        6
    } else if restart_count <= 5 {
        4
    } else if restart_count <= 10 {
        2
    } else {
        0
    }
}

/// The restart bar of a container card and its colour: a full shaded bar in green
/// without restarts, otherwise an eight-cell health bar that empties as restarts
/// grow.
pub fn restart_bar(restart_count: i32) -> (r: (String, HealthColor))
    ensures
        restart_count <= 0 ==> r.0@ == repeat("▓"@, 8) && r.1 == HealthColor::Success,
        restart_count > 0 ==> {
            let f = restart_cells(restart_count);
            &&& r.0@ == crate::theme::bar(f as nat, (8 - f) as nat)
            &&& r.1 == (if f >= 8 {
                HealthColor::Success
            } else if 4 * f >= 24 {
                HealthColor::Lime
            } else if 2 * f >= 8 {
                HealthColor::Warning
            } else if 4 * f >= 8 {
                HealthColor::Orange
            } else {
                HealthColor::Error
            })
        },
{
    if restart_count > 0 {
        let filled: usize = if restart_count <= 2 {
            6
        } else if restart_count <= 5 {
            4
        } else if restart_count <= 10 {
            2
        } else {
            0
        };
        UiHelpers::health_progress_bar(filled, 8, 8)
    } else {
        let mut s = String::new();
        crate::theme::push_repeat(&mut s, "▓", 8);
        (s, HealthColor::Success)
    }
}

/// A certificate expires soon (within 30 days, or is expired or invalid) by the
/// text of its expiry: it mentions "expired" or "invalid", or it counts days and
/// one of its words is a number from 0 to 30.
pub open spec fn expires_soon_text(expires: Seq<char>) -> bool {
    let l = unicode_lowercase(expires);
    contains(l, "expired"@) || contains(l, "invalid"@) || (contains(l, "days"@) && has_small_number(
        words(expires),
        30,
    ))
}

/// Whether the expiry text says the certificate expires within 30 days or has
/// expired.
pub fn is_expired_soon(expires: &str) -> (b: bool)
    ensures
        b == expires_soon_text(expires@),
{
    let lower = to_lowercase(expires);
    let l = chars_of(lower.as_str());
    let s = l.as_slice();
    contains_str(s, "expired") || contains_str(s, "invalid") || (contains_str(s, "days")
        && has_number_within(expires, 30))
}

/// A certificate is valid when its validity reads `true`, or `valid` in any case.
pub open spec fn cert_is_valid(is_valid: Seq<char>) -> bool {
    is_valid == "true"@ || unicode_lowercase(is_valid) == "valid"@
}

/// The status of a certificate: failed when invalid, pending when it expires
/// soon, running otherwise.
pub fn determine_cert_status(cert: &Cert) -> (s: ResourceStatus)
    ensures
        s == (if !cert_is_valid(cert.is_valid@) {
            ResourceStatus::Failed
        } else if expires_soon_text(cert.expires@) {
            ResourceStatus::Pending
        } else {
            ResourceStatus::Running
        }),
{
    let v = chars_of(cert.is_valid.as_str());
    let lower = to_lowercase(cert.is_valid.as_str());
    let l = chars_of(lower.as_str());
    let is_valid = chars_eq_str(v.as_slice(), "true") || chars_eq_str(l.as_slice(), "valid");
    let expiring = is_expired_soon(cert.expires.as_str());
    if !is_valid {
        ResourceStatus::Failed
    } else if expiring {
        ResourceStatus::Pending
    } else {
        ResourceStatus::Running
    }
}

/// The security label of a certificate.
pub fn get_security_indicator(is_valid: bool, is_expiring_soon: bool) -> (s: &'static str)
    ensures
        s@ == (if !is_valid {
            "🔓 INVALID"@
        } else if is_expiring_soon {
            "⚠️ EXPIRING"@
        } else {
            "🔒 SECURE"@
        }),
{
    if !is_valid {
        "🔓 INVALID"
    } else if is_expiring_soon {
        "⚠️ EXPIRING"
    } else {
        "🔒 SECURE"
    }
}

/// The text style of a certificate's security label.
pub fn get_security_style(is_valid: bool, is_expiring_soon: bool) -> (t: TextType)
    ensures
        t == (if !is_valid {
            TextType::Error
        } else if is_expiring_soon {
            TextType::Warning
        } else {
            TextType::Success
        }),
{
    if !is_valid {
        TextType::Error
    } else if is_expiring_soon {
        TextType::Warning
    } else {
        TextType::Success
    }
}

/// The expiry as shown: `Unknown` when missing, marked with a warning sign when
/// it is soon.
pub fn format_expiration_date(expires: &str) -> (s: String)
    ensures
        s@ == (if expires@.len() == 0 || expires@ == "-"@ {
            "Unknown"@
        } else if expires_soon_text(expires@) {
            expires@ + " ⚠️"@
        } else {
            expires@
        }),
{
    let v = chars_of(expires);
    if v.len() == 0 || chars_eq_str(v.as_slice(), "-") {
        owned("Unknown")
    } else if is_expired_soon(expires) {
        let mut s = owned(expires);
        push_str(&mut s, " ⚠️");
        s
    } else {
        owned(expires)
    }
}

/// A field of an ingress is set: not empty and not `-`.
pub open spec fn is_set(s: Seq<char>) -> bool {
    s.len() > 0 && s != "-"@
}

fn set(s: &str) -> (b: bool)
    ensures
        b == is_set(s@),
{
    let v = chars_of(s);
    v.len() > 0 && !chars_eq_str(v.as_slice(), "-")
}

/// The status of a namespace by its phase: running when `Active`, pending when
/// `Terminating`, unknown otherwise.
pub fn determine_namespace_status(namespace: &Namespace) -> (s: ResourceStatus)
    ensures
        s == (if namespace.status@ == "Active"@ {
            ResourceStatus::Running
        } else if namespace.status@ == "Terminating"@ {
            ResourceStatus::Pending
        } else {
            ResourceStatus::Unknown
        }),
{
    let v = chars_of(namespace.status.as_str());
    if chars_eq_str(v.as_slice(), "Active") {
        ResourceStatus::Running
    } else if chars_eq_str(v.as_slice(), "Terminating") {
        ResourceStatus::Pending
    } else {
        ResourceStatus::Unknown
    }
}

/// The status of an ingress route: failed without host or backend, pending
/// without path, unknown without port, running when secure (an `https://` host or
/// port 443), ready otherwise.
pub fn determine_route_status(ingress: &Ingress) -> (s: ResourceStatus)
    ensures
        s == (if !is_set(ingress.host@) || !is_set(ingress.backend_svc@) {
            ResourceStatus::Failed
        } else if !is_set(ingress.path@) {
            ResourceStatus::Pending
        } else if !is_set(ingress.port@) {
            ResourceStatus::Unknown
        } else if crate::text::starts_with(ingress.host@, "https://"@) || ingress.port@ == "443"@ {
            ResourceStatus::Running
        } else {
            ResourceStatus::Ready
        }),
{
    if !set(ingress.host.as_str()) || !set(ingress.backend_svc.as_str()) {
        ResourceStatus::Failed
    } else if !set(ingress.path.as_str()) {
        ResourceStatus::Pending
    } else if !set(ingress.port.as_str()) {
        ResourceStatus::Unknown
    } else {
        let h = chars_of(ingress.host.as_str());
        let p = chars_of(ingress.port.as_str());
        let https = chars_of("https://");
        if crate::text::starts_with_chars(h.as_slice(), https.as_slice()) || chars_eq_str(
            p.as_slice(),
            "443",
        ) {
            ResourceStatus::Running
        } else {
            ResourceStatus::Ready
        }
    }
}

/// The level class of a log line by its level text (in any case): error,
/// warning, info, debug, or other.
pub open spec fn level_class(level: Seq<char>) -> int {
    let l = unicode_lowercase(level);
    if contains(l, "error"@) || contains(l, "err"@) || contains(l, "fatal"@) {
        0
    } else if contains(l, "warn"@) || contains(l, "warning"@) {
        1
    } else if contains(l, "info"@) || contains(l, "information"@) {
        2
    } else if contains(l, "debug"@) || contains(l, "trace"@) {
        3
    } else {
        4
    }
}

fn level_class_of(level: &str) -> (c: u8)
    ensures
        c == level_class(level@),
{
    let lower = to_lowercase(level);
    let l = chars_of(lower.as_str());
    let s = l.as_slice();
    if contains_str(s, "error") || contains_str(s, "err") || contains_str(s, "fatal") {
        0
    } else if contains_str(s, "warn") || contains_str(s, "warning") {
        1
    } else if contains_str(s, "info") || contains_str(s, "information") {
        2
    } else if contains_str(s, "debug") || contains_str(s, "trace") {
        3
    } else {
        4
    }
}

/// The symbol of a log level: a cross for errors, a warning sign, a tick for
/// info, a dot for debug, a bullet otherwise.
pub fn get_log_level_symbol(level: &str) -> (s: &'static str)
    ensures
        s@ == (if level_class(level@) == 0 {
            Symbols::ERROR@
        } else if level_class(level@) == 1 {
            Symbols::WARNING@
        } else if level_class(level@) == 2 {
            Symbols::SUCCESS@
        } else if level_class(level@) == 3 {
            Symbols::DOT@
        } else {
            Symbols::BULLET@
        }),
{
    let c = level_class_of(level);
    if c == 0 {
        Symbols::ERROR
    } else if c == 1 {
        Symbols::WARNING
    } else if c == 2 {
        Symbols::SUCCESS
    } else if c == 3 {
        Symbols::DOT
    } else {
        Symbols::BULLET
    }
}

/// The text style of a log level.
pub fn get_log_level_style(level: &str) -> (t: TextType)
    ensures
        t == (if level_class(level@) == 0 {
            TextType::Error
        } else if level_class(level@) == 1 {
            TextType::Warning
        } else if level_class(level@) == 2 {
            TextType::Success
        } else if level_class(level@) == 3 {
            TextType::Caption
        } else {
            TextType::Body
        }),
{
    let c = level_class_of(level);
    if c == 0 {
        TextType::Error
    } else if c == 1 {
        TextType::Warning
    } else if c == 2 {
        TextType::Success
    } else if c == 3 {
        TextType::Caption
    } else {
        TextType::Body
    }
}

/// The part of a timestamp that holds the time: after the space of
/// `date time`; after the `T` of ISO 8601, up to a `Z` or fractional seconds;
/// otherwise all of it.
pub open spec fn time_part(d: Seq<char>) -> Seq<char> {
    match find_char(d, ' ') {
        Some(k) => d.skip(k + 1 as int),
        None => match find_char(d, 'T') {
            Some(t) => {
                let tp = d.skip(t + 1 as int);
                match find_char(tp, 'Z') {
                    Some(z) => tp.take(z as int),
                    None => match find_char(tp, '.') {
                        Some(p) => tp.take(p as int),
                        None => tp,
                    },
                }
            },
            None => d,
        },
    }
}

/// The part of a timestamp that is cut to its first five bytes (`HH:MM`).
pub open spec fn cut_candidate(d: Seq<char>) -> bool {
    if find_char(d, ' ') is Some || find_char(d, 'T') is Some {
        byte_len(time_part(d)) >= 5
    } else {
        byte_len(d) >= 5 && d.len() > 2 && d[2] == ':'
    }
}

/// `r` is the compact time of the timestamp `d`: empty for an empty timestamp;
/// otherwise the time part, cut to its first five bytes when it has that many
/// (for a bare time, only when its third character is `:`).
pub open spec fn compact_time(d: Seq<char>, r: Seq<char>) -> bool {
    if d.len() == 0 {
        r.len() == 0
    } else if cut_candidate(d) {
        exists|n: int| #[trigger] cut_at(time_part(d), n, 5) && r == time_part(d).take(n)
    } else {
        r == time_part(d)
    }
}

/// The first characters of `v` that make `b` bytes (which must end between two
/// characters).
fn take_bytes(v: &[char], b: usize) -> (r: Vec<char>)
    requires
        byte_boundary(v@, b as int),
    ensures
        exists|n: int| #[trigger] cut_at(v@, n, b as int) && r@ == v@.take(n),
{
    match chars_for_bytes(v, b) {
        Some(n) => {
            let r = crate::text::sub_chars(v, 0, n);
            assert(cut_at(v@, n as int, b as int));
            assert(r@ =~= v@.take(n as int));
            r
        },
        None => {
            proof {
                let n = choose|n: int| cut_at(v@, n, b as int);
                assert(byte_len(v@.take(n)) == b);
            }
            Vec::new()
        },
    }
}

/// The time of a log timestamp as `HH:MM` where it can be found. Where the cut
/// falls, it must fall between two characters.
pub fn extract_compact_time(datetime: &str) -> (r: String)
    requires
        cut_candidate(datetime@) ==> byte_boundary(time_part(datetime@), 5),
    ensures
        compact_time(datetime@, r@),
{
    let d = chars_of(datetime);
    if d.len() == 0 {
        return String::new();
    }
    let part: Vec<char> = match find(d.as_slice(), ' ') {
        Some(k) => crate::text::sub_chars(d.as_slice(), k + 1, d.len()),
        None => match find(d.as_slice(), 'T') {
            Some(t) => {
                let tp = crate::text::sub_chars(d.as_slice(), t + 1, d.len());
                match find(tp.as_slice(), 'Z') {
                    Some(z) => crate::text::sub_chars(tp.as_slice(), 0, z),
                    None => match find(tp.as_slice(), '.') {
                        Some(p) => crate::text::sub_chars(tp.as_slice(), 0, p),
                        None => tp,
                    },
                }
            },
            None => crate::text::sub_chars(d.as_slice(), 0, d.len()),
        },
    };
    proof {
        assert(part@ =~= time_part(d@));
    }
    let cut = if find(d.as_slice(), ' ').is_some() || find(d.as_slice(), 'T').is_some() {
        !crate::text::byte_len_at_most(part.as_slice(), 4)
    } else {
        !crate::text::byte_len_at_most(d.as_slice(), 4) && d.len() > 2 && d[2] == ':'
    };
    if cut {
        let t = take_bytes(part.as_slice(), 5);
        crate::text::string_of(t.as_slice())
    } else {
        crate::text::string_of(part.as_slice())
    }
}

/// The screen lines a text line takes at a width: one for an empty line,
/// otherwise its characters divided by the width, rounded up.
pub open spec fn line_rows(line: Seq<char>, width: nat) -> nat {
    if line.len() == 0 {
        1
    } else {
        ((line.len() + width - 1) / (width as int)) as nat
    }
}

/// The screen lines that the text lines take at a width.
pub open spec fn rows_of(ls: Seq<Seq<char>>, width: nat) -> nat
    decreases ls.len(),
{
    if ls.len() == 0 {
        0
    } else {
        rows_of(ls.drop_last(), width) + line_rows(ls.last(), width)
    }
}

/// A prefix of the lines takes no more screen lines than all of them.
pub proof fn lemma_rows_of_prefix(ls: Seq<Seq<char>>, k: int, width: nat)
    requires
        0 <= k <= ls.len(),
    ensures
        rows_of(ls.take(k), width) <= rows_of(ls, width),
    decreases ls.len(),
{
    if k < ls.len() {
        lemma_rows_of_prefix(ls.drop_last(), k, width);
        assert(ls.drop_last().take(k) =~= ls.take(k));
    } else {
        assert(ls.take(k) =~= ls);
    }
}

/// The height of a text wrapped at a width: its line count at width zero,
/// otherwise the screen lines of its lines, at least one.
pub open spec fn wrapped_height(text: Seq<char>, width: u16) -> nat {
    if width == 0 {
        lines(text).len()
    } else {
        let n = rows_of(lines(text), width as nat);
        if n > 1 {
            n
        } else {
            1
        }
    }
}

/// The height of a text wrapped at a width.
pub fn calculate_wrapped_height(text: &str, width: u16) -> (n: usize)
    requires
        wrapped_height(text@, width) <= usize::MAX,
    ensures
        n == wrapped_height(text@, width),
{
    let v = chars_of(text);
    let ls = split_lines(v.as_slice());
    if width == 0 {
        return ls.len();
    }
    let w = width as usize;
    let ghost all = lines(text@);
    let mut total: usize = 0;
    let mut i: usize = 0;
    while i < ls.len()
        invariant
            i <= ls@.len(),
            ls@.len() == all.len(),
            forall|k: int| 0 <= k < ls@.len() ==> (#[trigger] ls@[k])@ == all[k],
            w == width as usize,
            w > 0,
            total == rows_of(all.take(i as int), w as nat),
            rows_of(all, width as nat) <= usize::MAX,
        decreases ls.len() - i,
    {
        let len = ls[i].len();
        let add: usize = if len == 0 {
            1
        } else {
            assert(((len - 1) + w) / (w as int) == (len - 1) / (w as int) + 1) by (nonlinear_arith)
                requires
                    w > 0,
                    len > 0,
            ;
            (len - 1) / w + 1
        };
        proof {
            assert(all.take(i + 1).drop_last() =~= all.take(i as int));
            assert(all.take(i + 1).last() == all[i as int]);
            lemma_rows_of_prefix(all, i + 1, w as nat);
        }
        total = total + add;
        i = i + 1;
    }
    proof {
        assert(all.take(all.len() as int) =~= all);
    }
    if total > 1 {
        total
    } else {
        1
    }
}

/// Parses a `ready/total` container count; a bare number counts as both; what
/// does not parse counts as 0.
pub open spec fn container_count(s: Seq<char>) -> (usize, usize) {
    match find_char(s, '/') {
        Some(k) => (
            match parse_usize_spec(s.take(k as int)) {
                Some(v) => v,
                None => 0,
            },
            match parse_usize_spec(s.skip(k + 1 as int)) {
                Some(v) => v,
                None => 0,
            },
        ),
        None => {
            let c = match parse_usize_spec(s) {
                Some(v) => v,
                None => 0usize,
            };
            (c, c)
        },
    }
}

fn parse_or_zero(v: &[char]) -> (n: usize)
    ensures
        n == (match parse_usize_spec(v@) {
            Some(x) => x,
            None => 0,
        }),
{
    match parse_usize(v) {
        Some(x) => x,
        None => 0,
    }
}

/// Parses a pod's `ready/total` container count.
pub fn parse_container_count(containers_str: &str) -> (r: (usize, usize))
    ensures
        r == container_count(containers_str@),
{
    let v = chars_of(containers_str);
    match find(v.as_slice(), '/') {
        Some(k) => {
            let a = crate::text::sub_chars(v.as_slice(), 0, k);
            let b = crate::text::sub_chars(v.as_slice(), k + 1, v.len());
            assert(a@ =~= v@.take(k as int));
            assert(b@ =~= v@.skip(k + 1));
            (parse_or_zero(a.as_slice()), parse_or_zero(b.as_slice()))
        },
        None => {
            let c = parse_or_zero(v.as_slice());
            (c, c)
        },
    }
}

/// Parses a workload's `current/desired` pod count; without a `/`, (0, 0).
pub fn parse_replica_count(pods_str: &str) -> (r: (usize, usize))
    ensures
        r == (match find_char(pods_str@, '/') {
            Some(k) => container_count(pods_str@),
            None => (0usize, 0usize),
        }),
{
    let v = chars_of(pods_str);
    match find(v.as_slice(), '/') {
        Some(k) => parse_container_count(pods_str),
        None => (0, 0),
    }
}

/// Whether `s` is one of the given texts.
fn is_one_of(s: &[char], a: &str, b: &str, c: &str, d: &str) -> (r: bool)
    ensures
        r == (s@ == a@ || s@ == b@ || s@ == c@ || s@ == d@),
{
    chars_eq_str(s, a) || chars_eq_str(s, b) || chars_eq_str(s, c) || chars_eq_str(s, d)
}

/// The phase names that count as pending, failed and succeeded.
pub open spec fn pending_phase(s: Seq<char>) -> bool {
    s == "Pending"@ || s == "ContainerCreating"@ || s == "PodInitializing"@
}

/// The phase names that count as failed.
pub open spec fn failed_phase(s: Seq<char>) -> bool {
    s == "Failed"@ || s == "Error"@ || s == "CrashLoopBackOff"@ || s == "ImagePullBackOff"@
}

/// The phase names that count as finished well.
pub open spec fn succeeded_phase(s: Seq<char>) -> bool {
    s == "Succeeded"@ || s == "Completed"@
}

/// The status of a pod: running when its phase is `Running` and all of its
/// (at least one) containers are ready, pending while some are not; pending,
/// ready, failed or unknown by the phase otherwise.
pub fn determine_pod_status(status: &str, ready_containers: usize, total_containers: usize) -> (r: ResourceStatus)
    ensures
        r == (if status@ == "Running"@ {
            if ready_containers == total_containers && total_containers > 0 {
                ResourceStatus::Running
            } else {
                ResourceStatus::Pending
            }
        } else if pending_phase(status@) {
            ResourceStatus::Pending
        } else if succeeded_phase(status@) {
            ResourceStatus::Ready
        } else if failed_phase(status@) {
            ResourceStatus::Failed
        } else {
            ResourceStatus::Unknown
        }),
{
    let v = chars_of(status);
    let s = v.as_slice();
    if chars_eq_str(s, "Running") {
        if ready_containers == total_containers && total_containers > 0 {
            ResourceStatus::Running
        } else {
            ResourceStatus::Pending
        }
    } else if is_one_of(s, "Pending", "ContainerCreating", "PodInitializing", "Pending") {
        ResourceStatus::Pending
    } else if is_one_of(s, "Succeeded", "Completed", "Succeeded", "Completed") {
        ResourceStatus::Ready
    } else if is_one_of(s, "Failed", "Error", "CrashLoopBackOff", "ImagePullBackOff") {
        ResourceStatus::Failed
    } else {
        ResourceStatus::Unknown
    }
}

/// The text style of a pod's phase.
pub fn get_status_style(status: &str) -> (t: TextType)
    ensures
        t == (if pending_phase(status@) {
            TextType::Warning
        } else if failed_phase(status@) {
            TextType::Error
        } else if status@ == "Running"@ || succeeded_phase(status@) {
            TextType::Success
        } else {
            TextType::Caption
        }),
{
    let v = chars_of(status);
    let s = v.as_slice();
    if is_one_of(s, "Pending", "ContainerCreating", "PodInitializing", "Pending") {
        TextType::Warning
    } else if is_one_of(s, "Failed", "Error", "CrashLoopBackOff", "ImagePullBackOff") {
        TextType::Error
    } else if is_one_of(s, "Running", "Succeeded", "Completed", "Running") {
        TextType::Success
    } else {
        TextType::Caption
    }
}

/// How the level of a log line is drawn in the detail popup.
#[derive(Clone, Copy, Debug, PartialEq, Eq, Structural)]
pub enum LevelStyle {
    /// In the theme's error colour.
    ErrorColor,
    /// In the theme's warning colour.
    WarningColor,
    /// In the theme's info colour.
    InfoColor,
    /// In the caption style.
    Caption,
    /// In the body style.
    Body,
}

/// The style of a level in the log detail popup, by its exact lower-case name.
pub fn detail_level_style(level: &str) -> (st: LevelStyle)
    ensures
        ({
            let l = unicode_lowercase(level@);
            st == if l == "error"@ || l == "err"@ {
                LevelStyle::ErrorColor
            } else if l == "warn"@ || l == "warning"@ {
                LevelStyle::WarningColor
            } else if l == "info"@ {
                LevelStyle::InfoColor
            } else if l == "debug"@ {
                LevelStyle::Caption
            } else {
                LevelStyle::Body
            }
        }),
{
    let lower = to_lowercase(level);
    let l = chars_of(lower.as_str());
    let s = l.as_slice();
    if chars_eq_str(s, "error") || chars_eq_str(s, "err") {
        LevelStyle::ErrorColor
    } else if chars_eq_str(s, "warn") || chars_eq_str(s, "warning") {
        LevelStyle::WarningColor
    } else if chars_eq_str(s, "info") {
        LevelStyle::InfoColor
    } else if chars_eq_str(s, "debug") {
        LevelStyle::Caption
    } else {
        LevelStyle::Body
    }
}

/// The rows of the log detail popup's text: the message wrapped inside the
/// borders, and six rows of header.
pub open spec fn detail_text_height(message: Seq<char>, modal_width: u16) -> int {
    wrapped_height(message, if modal_width > 2 { (modal_width - 2) as u16 } else { 0 }) + 6int
}

/// The scrollbar of the log detail popup: shown when the text is taller than the
/// popup's inside, over the rows that do not fit, at the scroll position (at most
/// the last).
pub open spec fn detail_scrollbar(text_height: int, modal_height: u16, scroll: usize) -> Option<(int, int)> {
    let inside: int = if modal_height > 2 { modal_height - 2 } else { 0 };
    if text_height > inside {
        let range = text_height - inside;
        Some((range, if scroll < range { scroll as int } else { range }))
    } else {
        None
    }
}

/// The scrollbar of the log detail popup for a message, as its range and
/// position; none when the text fits.
pub fn log_detail_scrollbar(message: &str, modal_width: u16, modal_height: u16, scroll: usize) -> (r:
    Option<(usize, usize)>)
    requires
        detail_text_height(message@, modal_width) <= usize::MAX,
    ensures
        match (r, detail_scrollbar(detail_text_height(message@, modal_width), modal_height, scroll)) {
            (Some((a, b)), Some((x, y))) => a == x && b == y,
            (None, None) => true,
            _ => false,
        },
{
    let inner_width: u16 = if modal_width > 2 { modal_width - 2 } else { 0 };
    let text_height = calculate_wrapped_height(message, inner_width) + 6;
    let inside: usize = if modal_height > 2 { (modal_height - 2) as usize } else { 0 };
    if text_height > inside {
        let range = text_height - inside;
        Some((range, if scroll < range { scroll } else { range }))
    } else {
        None
    }
}

/// The symbol of a probe's handler: a globe for HTTP, a plug for TCP, a bolt for
/// a command, a question mark otherwise.
pub fn probe_handler_symbol(handler_type: &str) -> (s: &'static str)
    ensures
        s@ == (if handler_type@ == "HTTP"@ {
            "🌐"@
        } else if handler_type@ == "TCP"@ {
            "🔌"@
        } else if handler_type@ == "Exec"@ {
            "⚡"@
        } else {
            "❓"@
        }),
{
    let v = chars_of(handler_type);
    if chars_eq_str(v.as_slice(), "HTTP") {
        "🌐"
    } else if chars_eq_str(v.as_slice(), "TCP") {
        "🔌"
    } else if chars_eq_str(v.as_slice(), "Exec") {
        "⚡"
    } else {
        "❓"
    }
}

/// The theme colour of a probe's type.
#[derive(Clone, Copy, Debug, PartialEq, Eq, Structural)]
pub enum ProbeTypeColor {
    Error,
    Warning,
    Info,
    Primary,
}

/// The colour of a probe's type: red for liveness, amber for readiness, blue for
/// startup, the primary text colour otherwise.
pub fn probe_type_color(probe_type: &str) -> (c: ProbeTypeColor)
    ensures
        c == (if probe_type@ == "Liveness"@ {
            ProbeTypeColor::Error
        } else if probe_type@ == "Readiness"@ {
            ProbeTypeColor::Warning
        } else if probe_type@ == "Startup"@ {
            ProbeTypeColor::Info
        } else {
            ProbeTypeColor::Primary
        }),
{
    let v = chars_of(probe_type);
    if chars_eq_str(v.as_slice(), "Liveness") {
        ProbeTypeColor::Error
    } else if chars_eq_str(v.as_slice(), "Readiness") {
        ProbeTypeColor::Warning
    } else if chars_eq_str(v.as_slice(), "Startup") {
        ProbeTypeColor::Info
    } else {
        ProbeTypeColor::Primary
    }
}

/// The title of the probes panel; the focused panel tells its keys.
pub fn probes_title(is_focused: bool) -> (s: &'static str)
    ensures
        s@ == (if is_focused {
            "🏥 Health Probes [ENTER: execute • TAB: next panel]"@
        } else {
            "🏥 Health Probes"@
        }),
{
    if is_focused {
        "🏥 Health Probes [ENTER: execute • TAB: next panel]"
    } else {
        "🏥 Health Probes"
    }
}

/// The symbol and colour of a probe execution's outcome.
pub fn get_probe_status_display(status: ProbeStatus) -> (r: (&'static str, ColorRole))
    ensures
        r.0@ == (match status {
            ProbeStatus::Success => "✅"@,
            ProbeStatus::Failure => "❌"@,
            ProbeStatus::Timeout => "⏱️"@,
            ProbeStatus::Error => "🚫"@,
        }),
        r.1 == (match status {
            ProbeStatus::Success => ColorRole::Success,
            ProbeStatus::Failure => ColorRole::Error,
            ProbeStatus::Timeout => ColorRole::Warning,
            ProbeStatus::Error => ColorRole::Error,
        }),
{
    match status {
        ProbeStatus::Success => ("✅", ColorRole::Success),
        ProbeStatus::Failure => ("❌", ColorRole::Error),
        ProbeStatus::Timeout => ("⏱️", ColorRole::Warning),
        ProbeStatus::Error => ("🚫", ColorRole::Error),
    }
}

/// The symbol of a probe execution's outcome.
pub open spec fn status_symbol(status: ProbeStatus) -> Seq<char> {
    match status {
        ProbeStatus::Success => "✅"@,
        ProbeStatus::Failure => "❌"@,
        ProbeStatus::Timeout => "⏱️"@,
        ProbeStatus::Error => "🚫"@,
    }
}

/// The lines of the probe result popup: a header, the execution time and the
/// timestamp, the HTTP status and the error when there are some, and the whole
/// response body line by line.
pub open spec fn probe_result_text(r: ProbeResult) -> Seq<Seq<char>> {
    let head = seq![
        status_symbol(r.status) + " "@ + r.probe_type@ + " "@ + r.handler_type@ + " Probe Result"@,
        Seq::empty(),
        "Execution Time: "@ + nat_decimal(r.response_time_ms as nat) + "ms"@,
        "Timestamp: "@ + r.timestamp@,
    ];
    let code = match r.status_code {
        Some(c) => seq!["HTTP Status: "@ + nat_decimal(c as nat)],
        None => Seq::empty(),
    };
    let error = match r.error_message {
        Some(e) => seq![Seq::empty(), "Error: "@ + e@],
        None => Seq::empty(),
    };
    let body = if r.response_body@.len() > 0 {
        seq![Seq::empty(), "Response:"@] + lines(r.response_body@)
    } else {
        Seq::empty()
    };
    head + code + error + body
}

/// The views of some strings.
pub open spec fn views_of(v: Seq<String>) -> Seq<Seq<char>> {
    v.map_values(|s: String| s@)
}

fn push_string(out: &mut Vec<String>, line: String)
    ensures
        views_of(final(out)@) == views_of(old(out)@).push(line@),
{
    out.push(line);
    assert(views_of(out@) =~= views_of(old(out)@).push(line@));
}

/// The text lines of the probe result popup.
pub fn build_probe_result_lines(result: &ProbeResult) -> (r: Vec<String>)
    ensures
        views_of(r@) == probe_result_text(*result),
{
    let mut out: Vec<String> = Vec::new();
    let (symbol, _) = get_probe_status_display(result.status);
    let mut head = owned(symbol);
    push_str(&mut head, " ");
    push_str(&mut head, result.probe_type.as_str());
    push_str(&mut head, " ");
    push_str(&mut head, result.handler_type.as_str());
    push_str(&mut head, " Probe Result");
    push_string(&mut out, head);
    push_string(&mut out, String::new());
    let mut time = owned("Execution Time: ");
    push_u64(&mut time, result.response_time_ms);
    push_str(&mut time, "ms");
    push_string(&mut out, time);
    let mut stamp = owned("Timestamp: ");
    push_str(&mut stamp, result.timestamp.as_str());
    push_string(&mut out, stamp);
    let ghost head_views = views_of(out@);
    match result.status_code {
        Some(code) => {
            let mut c = owned("HTTP Status: ");
            push_u64(&mut c, code as u64);
            push_string(&mut out, c);
        },
        None => {},
    }
    let ghost code_views = views_of(out@);
    match &result.error_message {
        Some(e) => {
            push_string(&mut out, String::new());
            let mut m = owned("Error: ");
            push_str(&mut m, e.as_str());
            push_string(&mut out, m);
        },
        None => {},
    }
    let ghost error_views = views_of(out@);
    let body = chars_of(result.response_body.as_str());
    if body.len() > 0 {
        push_string(&mut out, String::new());
        push_string(&mut out, owned("Response:"));
        let ls = split_lines(body.as_slice());
        let ghost before = views_of(out@);
        let mut i: usize = 0;
        while i < ls.len()
            invariant
                i <= ls@.len(),
                ls@.len() == lines(body@).len(),
                forall|k: int| 0 <= k < ls@.len() ==> (#[trigger] ls@[k])@ == lines(body@)[k],
                views_of(out@) == before + lines(body@).take(i as int),
            decreases ls.len() - i,
        {
            let line = crate::text::string_of(ls[i].as_slice());
            push_string(&mut out, line);
            assert(lines(body@).take(i + 1) =~= lines(body@).take(i as int).push(lines(body@)[i as int]));
            assert(views_of(out@) =~= before + lines(body@).take(i + 1));
            i = i + 1;
        }
        assert(lines(body@).take(ls@.len() as int) =~= lines(body@));
    }
    proof {
        let r = *result;
        assert(head_views =~= seq![
            status_symbol(r.status) + " "@ + r.probe_type@ + " "@ + r.handler_type@ + " Probe Result"@,
            Seq::empty(),
            "Execution Time: "@ + nat_decimal(r.response_time_ms as nat) + "ms"@,
            "Timestamp: "@ + r.timestamp@,
        ]);
        assert(views_of(out@) =~= probe_result_text(*result));
    }
    out
}

} // verus!
