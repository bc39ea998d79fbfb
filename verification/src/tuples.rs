//! Tagging metric observations with where and when they were taken.
use crate::text::owned;
use vstd::prelude::*;

verus! {

/// The current time, in RFC 3339 form, from `chrono::Utc::now` and
/// `DateTime::to_rfc3339`. Nothing is claimed of its value: it is the clock's.
#[verifier::external_body]
fn now_rfc3339() -> (r: String) {
    chrono::Utc::now().to_rfc3339()
}

/// The text of a name/value pair.
pub open spec fn pair_view(p: (String, String)) -> (Seq<char>, Seq<char>) {
    (p.0@, p.1@)
}

/// The texts of an observation's pairs.
pub open spec fn observation_view(o: Vec<(String, String)>) -> Seq<(Seq<char>, Seq<char>)> {
    o@.map_values(|p: (String, String)| pair_view(p))
}

/// The pairs that tag an observation with the time, the pod, the app and the
/// namespace.
pub open spec fn tags(date: Seq<char>, pod: Seq<char>, app: Seq<char>, ns: Seq<char>) -> Seq<(Seq<char>, Seq<char>)> {
    seq![("k8p_datetime"@, date), ("k8p_podname"@, pod), ("k8p_appname"@, app), ("k8p_namespace"@, ns)]
}

/// Each observation of `r` is the one of `metrics` followed by the tags.
pub open spec fn tagged(
    metrics: Seq<Vec<(String, String)>>,
    r: Seq<Vec<(String, String)>>,
    date: Seq<char>,
    pod: Seq<char>,
    app: Seq<char>,
    ns: Seq<char>,
) -> bool {
    &&& r.len() == metrics.len()
    &&& forall|i: int|
        0 <= i < r.len() ==> observation_view(#[trigger] r[i]) == observation_view(metrics[i]) + tags(
            date,
            pod,
            app,
            ns,
        )
}

fn push_pair(o: &mut Vec<(String, String)>, name: &str, value: &str)
    ensures
        observation_view(*final(o)) == observation_view(*old(o)).push((name@, value@)),
{
    o.push((owned(name), owned(value)));
    assert(observation_view(*o) =~= observation_view(*old(o)).push((name@, value@)));
}

/// Tags every observation with the given time, pod, app and namespace.
pub fn format_at(
    metrics: Vec<Vec<(String, String)>>,
    date: &str,
    podname: &str,
    appname: &str,
    namespace: &str,
) -> (r: Vec<Vec<(String, String)>>)
    ensures
        tagged(metrics@, r@, date@, podname@, appname@, namespace@),
{
    let mut metrics = metrics;
    let ghost orig = metrics@;
    let n = metrics.len();
    let mut reversed: Vec<Vec<(String, String)>> = Vec::new();
    while metrics.len() > 0
        invariant
            n == orig.len(),
            metrics@ == orig.take(metrics@.len() as int),
            reversed@.len() + metrics@.len() == n,
            forall|k: int| 0 <= k < reversed@.len() ==> #[trigger] reversed@[k] == orig[n - 1 - k],
        decreases metrics.len(),
    {
        let ghost m = metrics@.len();
        let o = metrics.pop().unwrap();
        assert(o == orig[m - 1]);
        reversed.push(o);
        assert(metrics@ =~= orig.take(m - 1));
    }
    let mut out: Vec<Vec<(String, String)>> = Vec::new();
    while reversed.len() > 0
        invariant
            n == orig.len(),
            reversed@.len() + out@.len() == n,
            forall|k: int| 0 <= k < reversed@.len() ==> #[trigger] reversed@[k] == orig[n - 1 - k],
            forall|k: int|
                0 <= k < out@.len() ==> observation_view(#[trigger] out@[k]) == observation_view(orig[k]) + tags(
                    date@,
                    podname@,
                    appname@,
                    namespace@,
                ),
        decreases reversed.len(),
    {
        let ghost j = out@.len();
        let mut o = reversed.pop().unwrap();
        assert(o == orig[j as int]);
        push_pair(&mut o, "k8p_datetime", date);
        push_pair(&mut o, "k8p_podname", podname);
        push_pair(&mut o, "k8p_appname", appname);
        push_pair(&mut o, "k8p_namespace", namespace);
        assert(observation_view(o) =~= observation_view(orig[j as int]) + tags(
            date@,
            podname@,
            appname@,
            namespace@,
        ));
        out.push(o);
    }
    out
}

/// Tags every observation with the current time and the given pod, app and
/// namespace.
pub fn format(
    metrics: Vec<Vec<(String, String)>>,
    podname: &str,
    appname: &str,
    namespace: &str,
) -> (r: Vec<Vec<(String, String)>>)
    ensures
        exists|date: Seq<char>| tagged(metrics@, r@, date, podname@, appname@, namespace@),
{
    let date = now_rfc3339();
    let r = format_at(metrics, date.as_str(), podname, appname, namespace);
    assert(tagged(metrics@, r@, date@, podname@, appname@, namespace@));
    r
}

} // verus!
