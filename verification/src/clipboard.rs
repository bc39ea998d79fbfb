//! The texts that the views copy to the clipboard: log lines, probe results and
//! configurations, environment variables and mounts.
use crate::container_app::{ProbeResult, ProbeStatus};
use crate::modern_ui::views_of;
use crate::text::{chars_of, find, find_char, nat_decimal, owned, push_chars, push_str, push_u64};
use vstd::prelude::*;

verus! {

/// The texts one after another, with `sep` between each two.
pub open spec fn joined(parts: Seq<Seq<char>>, sep: Seq<char>) -> Seq<char>
    decreases parts.len(),
{
    if parts.len() == 0 {
        Seq::empty()
    } else if parts.len() == 1 {
        parts[0]
    } else {
        joined(parts.drop_last(), sep) + sep + parts.last()
    }
}

/// Joins texts with newlines.
fn join_lines(parts: &Vec<String>) -> (r: String)
    ensures
        r@ == joined(views_of(parts@), "\n"@),
{
    let mut r = String::new();
    let mut i: usize = 0;
    while i < parts.len()
        invariant
            i <= parts@.len(),
            r@ == joined(views_of(parts@.take(i as int)), "\n"@),
        decreases parts.len() - i,
    {
        proof {
            assert(views_of(parts@.take(i + 1)).drop_last() =~= views_of(parts@.take(i as int)));
            assert(views_of(parts@.take(i + 1)).last() == parts@[i as int]@);
        }
        if i > 0 {
            push_str(&mut r, "\n");
        } else {
            assert(views_of(parts@.take(0)) =~= Seq::<Seq<char>>::empty());
        }
        push_str(&mut r, parts[i].as_str());
        i = i + 1;
    }
    assert(parts@.take(parts@.len() as int) =~= parts@);
    r
}

/// A log line without its leading timestamp: the text after the first space,
/// when what comes before it holds a `:` or a `[`.
pub open spec fn without_timestamp(line: Seq<char>) -> Seq<char> {
    match find_char(line, ' ') {
        Some(k) => {
            let t = line.take(k as int);
            if find_char(t, ':') is Some || find_char(t, '[') is Some {
                line.skip(k + 1 as int)
            } else {
                line
            }
        },
        None => line,
    }
}

/// `find_char` finds the first occurrence: none when `c` does not occur.
proof fn lemma_find_char_first(s: Seq<char>, c: char)
    ensures
        find_char(s, c) matches Some(k) ==> k < s.len() && s[k as int] == c && forall|i: int|
            0 <= i < k ==> #[trigger] s[i] != c,
        find_char(s, c) is None ==> forall|i: int| 0 <= i < s.len() ==> #[trigger] s[i] != c,
{
    crate::text::lemma_next_index_of(s, c, 0);
}

/// A log line's timestamp is its first word, the text before its first space:
/// when that word holds a `:` or a `[`, the line is copied from just after the
/// space; otherwise, whatever the rest of the line holds, and when the line
/// has no space, it is copied unchanged.
pub proof fn lemma_timestamp_is_the_first_word(line: Seq<char>, k: int)
    requires
        0 <= k < line.len(),
        line[k] == ' ',
        forall|i: int| 0 <= i < k ==> #[trigger] line[i] != ' ',
    ensures
        (exists|i: int| 0 <= i < k && (#[trigger] line[i] == ':' || line[i] == '[')) ==> without_timestamp(line)
            == line.skip(k + 1),
        (forall|i: int| 0 <= i < k ==> #[trigger] line[i] != ':' && line[i] != '[') ==> without_timestamp(line)
            == line,
{
    lemma_find_char_first(line, ' ');
    let j = find_char(line, ' ').unwrap() as int;
    assert(j == k) by {
        if j < k {
            assert(line[j] == ' ');
        }
        if k < j {
            assert(line[k] != ' ');
        }
    }
    let t = line.take(k);
    lemma_find_char_first(t, ':');
    lemma_find_char_first(t, '[');
    if exists|i: int| 0 <= i < k && (#[trigger] line[i] == ':' || line[i] == '[') {
        let i = choose|i: int| 0 <= i < k && (#[trigger] line[i] == ':' || line[i] == '[');
        assert(t[i] == line[i]);
    }
    if let Some(m) = find_char(t, ':') {
        assert(t[m as int] == line[m as int]);
    }
    if let Some(m) = find_char(t, '[') {
        assert(t[m as int] == line[m as int]);
    }
}

/// A line without a space is copied unchanged.
pub proof fn lemma_line_without_space_kept(line: Seq<char>)
    requires
        forall|i: int| 0 <= i < line.len() ==> #[trigger] line[i] != ' ',
    ensures
        without_timestamp(line) == line,
{
    lemma_find_char_first(line, ' ');
}

fn strip_timestamp(line: &str) -> (r: String)
    ensures
        r@ == without_timestamp(line@),
{
    let v = chars_of(line);
    match find(v.as_slice(), ' ') {
        Some(k) => {
            assert(k < v.len());
            let t = crate::text::sub_chars(v.as_slice(), 0, k);
            assert(t@ =~= v@.take(k as int));
            if find(t.as_slice(), ':').is_some() || find(t.as_slice(), '[').is_some() {
                let rest = crate::text::sub_chars(v.as_slice(), k + 1, v.len());
                assert(rest@ =~= v@.skip(k + 1));
                crate::text::string_of(rest.as_slice())
            } else {
                owned(line)
            }
        },
        None => owned(line),
    }
}

/// The text of copied log lines: the lines joined by newlines, without their
/// timestamps unless asked; an error when there are none.
pub fn log_copy_text(logs: &[String], include_timestamps: bool) -> (r: Result<String, String>)
    ensures
        logs@.len() == 0 ==> (r matches Err(e) && e@ == "No logs to copy"@),
        logs@.len() > 0 ==> (r matches Ok(t) && t@ == joined(
            if include_timestamps {
                views_of(logs@)
            } else {
                views_of(logs@).map_values(|l: Seq<char>| without_timestamp(l))
            },
            "\n"@,
        )),
{
    if logs.len() == 0 {
        return Err(owned("No logs to copy"));
    }
    let mut lines: Vec<String> = Vec::new();
    let mut i: usize = 0;
    while i < logs.len()
        invariant
            i <= logs@.len(),
            views_of(lines@) == (if include_timestamps {
                views_of(logs@.take(i as int))
            } else {
                views_of(logs@.take(i as int)).map_values(|l: Seq<char>| without_timestamp(l))
            }),
        decreases logs.len() - i,
    {
        let line = if include_timestamps {
            owned(logs[i].as_str())
        } else {
            strip_timestamp(logs[i].as_str())
        };
        let ghost prev = lines@;
        let ghost lv = line@;
        lines.push(line);
        proof {
            assert(views_of(lines@) =~= views_of(prev).push(lv));
            assert(logs@.take(i + 1) =~= logs@.take(i as int).push(logs@[i as int]));
            assert(views_of(logs@.take(i + 1)) =~= views_of(logs@.take(i as int)).push(logs@[i as int]@));
            assert(views_of(logs@.take(i + 1)).map_values(|l: Seq<char>| without_timestamp(l))
                =~= views_of(logs@.take(i as int)).map_values(|l: Seq<char>| without_timestamp(l)).push(
                without_timestamp(logs@[i as int]@),
            ));
            assert(views_of(lines@) =~= (if include_timestamps {
                views_of(logs@.take(i + 1))
            } else {
                views_of(logs@.take(i + 1)).map_values(|l: Seq<char>| without_timestamp(l))
            }));
        }
        i = i + 1;
    }
    assert(logs@.take(logs@.len() as int) =~= logs@);
    Ok(join_lines(&lines))
}

/// The debug name of a probe outcome.
pub open spec fn status_name(s: ProbeStatus) -> Seq<char> {
    match s {
        ProbeStatus::Success => "Success"@,
        ProbeStatus::Failure => "Failure"@,
        ProbeStatus::Timeout => "Timeout"@,
        ProbeStatus::Error => "Error"@,
    }
}

/// The copied text of a probe result: the probe, its outcome, response time and
/// timestamp, the HTTP status (or an empty line) and the response body (or a
/// note that there is none).
pub open spec fn probe_result_copy(r: ProbeResult) -> Seq<char> {
    "Probe Result - "@ + r.probe_type@ + " "@ + r.handler_type@ + "\nStatus: "@ + status_name(
        r.status,
    ) + "\nResponse Time: "@ + nat_decimal(r.response_time_ms as nat) + "ms\nTimestamp: "@
        + r.timestamp@ + "\n"@ + (match r.status_code {
        Some(c) => "HTTP Status: "@ + nat_decimal(c as nat),
        None => Seq::empty(),
    }) + "\n"@ + (if r.response_body@.len() == 0 {
        "No response body"@
    } else {
        "Response:\n"@ + r.response_body@
    })
}

/// The copied text of a probe result.
pub fn probe_result_copy_text(r: &ProbeResult) -> (t: String)
    ensures
        t@ == probe_result_copy(*r),
{
    let mut t = owned("Probe Result - ");
    push_str(&mut t, r.probe_type.as_str());
    push_str(&mut t, " ");
    push_str(&mut t, r.handler_type.as_str());
    push_str(&mut t, "\nStatus: ");
    push_str(
        &mut t,
        match r.status {
            ProbeStatus::Success => "Success",
            ProbeStatus::Failure => "Failure",
            ProbeStatus::Timeout => "Timeout",
            ProbeStatus::Error => "Error",
        },
    );
    push_str(&mut t, "\nResponse Time: ");
    push_u64(&mut t, r.response_time_ms);
    push_str(&mut t, "ms\nTimestamp: ");
    push_str(&mut t, r.timestamp.as_str());
    push_str(&mut t, "\n");
    match r.status_code {
        Some(c) => {
            push_str(&mut t, "HTTP Status: ");
            push_u64(&mut t, c as u64);
        },
        None => {},
    }
    push_str(&mut t, "\n");
    if chars_of(r.response_body.as_str()).len() == 0 {
        push_str(&mut t, "No response body");
    } else {
        push_str(&mut t, "Response:\n");
        push_str(&mut t, r.response_body.as_str());
    }
    proof {
        assert(t@ =~= probe_result_copy(*r));
    }
    t
}

/// The copied text of a probe's configuration.
pub fn probe_config_copy_text(probe_type: &str, handler_type: &str, details: &str) -> (t: String)
    ensures
        t@ == "Probe Configuration\nType: "@ + probe_type@ + "\nHandler: "@ + handler_type@
            + "\nDetails: "@ + details@,
{
    let mut t = owned("Probe Configuration\nType: ");
    push_str(&mut t, probe_type);
    push_str(&mut t, "\nHandler: ");
    push_str(&mut t, handler_type);
    push_str(&mut t, "\nDetails: ");
    push_str(&mut t, details);
    t
}

/// The first two columns of detail rows, each row as `first` `sep` `second`.
pub open spec fn pair_lines(rows: Seq<(String, String, Option<String>)>, sep: Seq<char>) -> Seq<Seq<char>> {
    rows.map_values(|r: (String, String, Option<String>)| r.0@ + sep + r.1@)
}

fn pairs_text(rows: &[(String, String, Option<String>)], sep: &str) -> (t: String)
    ensures
        t@ == joined(pair_lines(rows@, sep@), "\n"@),
{
    let mut lines: Vec<String> = Vec::new();
    let mut i: usize = 0;
    while i < rows.len()
        invariant
            i <= rows@.len(),
            views_of(lines@) == pair_lines(rows@.take(i as int), sep@),
        decreases rows.len() - i,
    {
        let mut l = owned(rows[i].0.as_str());
        push_str(&mut l, sep);
        push_str(&mut l, rows[i].1.as_str());
        let ghost prev = lines@;
        let ghost lv = l@;
        lines.push(l);
        proof {
            assert(views_of(lines@) =~= views_of(prev).push(lv));
            assert(rows@.take(i + 1) =~= rows@.take(i as int).push(rows@[i as int]));
            assert(views_of(lines@) =~= pair_lines(rows@.take(i + 1), sep@));
        }
        i = i + 1;
    }
    assert(rows@.take(rows@.len() as int) =~= rows@);
    join_lines(&lines)
}

/// The copied text of environment variables, one `NAME=value` per line; an error
/// when there are none.
pub fn env_vars_copy_text(env_vars: &[(String, String, Option<String>)]) -> (r: Result<String, String>)
    ensures
        env_vars@.len() == 0 ==> (r matches Err(e) && e@ == "No environment variables to copy"@),
        env_vars@.len() > 0 ==> (r matches Ok(t) && t@ == joined(pair_lines(env_vars@, "="@), "\n"@)),
{
    if env_vars.len() == 0 {
        return Err(owned("No environment variables to copy"));
    }
    Ok(pairs_text(env_vars, "="))
}

/// The copied text of mounts, one `name: path` per line; an error when there are
/// none.
pub fn mounts_copy_text(mounts: &[(String, String, Option<String>)]) -> (r: Result<String, String>)
    ensures
        mounts@.len() == 0 ==> (r matches Err(e) && e@ == "No mounts to copy"@),
        mounts@.len() > 0 ==> (r matches Ok(t) && t@ == joined(pair_lines(mounts@, ": "@), "\n"@)),
{
    if mounts.len() == 0 {
        return Err(owned("No mounts to copy"));
    }
    Ok(pairs_text(mounts, ": "))
}

} // verus!
