//! Workload (replica set) logic: the merged workload list, the domain service and
//! the navigation handler of the workload view.
use crate::controller::{DomainService, NavTarget, NavigationHandler};
use crate::data::{Rs, RsPod};
use crate::order::{lemma_text_trichotomy, text_less, text_lt};
use crate::pod_app::PodSelector;
use crate::text::{chars_eq_str, chars_of, nat_decimal, owned, push_str, push_u64};
use std::collections::BTreeMap;
use vstd::prelude::*;

verus! {

/// `description` of the synthesized row that stands for the pods without an owner.
pub const UNOWNED_KIND: &'static str = "Unowned";

/// `description` of job rows.
pub const JOB_KIND: &'static str = "Job";

// ---------------------------------------------------------------------------
// Order of workload rows: by description (the kind), then by name
// ---------------------------------------------------------------------------

/// `x` sorts strictly before `y`: by description, then by name.
pub open spec fn row_lt(x: Rs, y: Rs) -> bool {
    text_lt(x.description@, y.description@) || (x.description@ == y.description@ && text_lt(
        x.name@,
        y.name@,
    ))
}

/// No row sorts strictly before an earlier one.
pub open spec fn rows_sorted(s: Seq<Rs>) -> bool {
    forall|i: int, j: int| 0 <= i < j < s.len() ==> !row_lt(#[trigger] s[j], #[trigger] s[i])
}

/// Rows in sorted order: no row's kind (its description) sorts before the kind
/// of an earlier row, and among rows of the same kind no name sorts before the
/// name of an earlier row, names compared whole, character by character.
pub open spec fn by_kind_then_name(s: Seq<Rs>) -> bool {
    forall|i: int, j: int|
        0 <= i < j < s.len() ==> {
            &&& !text_lt(#[trigger] s[j].description@, #[trigger] s[i].description@)
            &&& s[i].description@ == s[j].description@ ==> !text_lt(s[j].name@, s[i].name@)
        }
}

/// A list in which no row sorts strictly before an earlier one is ordered by
/// kind, then by the whole name.
pub proof fn lemma_sorted_rows_by_kind_then_name(s: Seq<Rs>)
    requires
        rows_sorted(s),
    ensures
        by_kind_then_name(s),
{
    assert forall|i: int, j: int| 0 <= i < j < s.len() implies {
        &&& !text_lt(#[trigger] s[j].description@, #[trigger] s[i].description@)
        &&& s[i].description@ == s[j].description@ ==> !text_lt(s[j].name@, s[i].name@)
    } by {
        assert(!row_lt(s[j], s[i]));
    }
}

proof fn lemma_row_lt_facts(x: Rs, y: Rs, z: Rs)
    ensures
        !row_lt(x, x),
        row_lt(x, y) ==> !row_lt(y, x),
        row_lt(x, y) && row_lt(y, z) ==> row_lt(x, z),
        !row_lt(x, y) && !row_lt(y, z) ==> !row_lt(x, z),
{
    lemma_text_trichotomy(x.description@, y.description@);
    lemma_text_trichotomy(y.description@, z.description@);
    lemma_text_trichotomy(x.description@, z.description@);
    lemma_text_trichotomy(x.name@, y.name@);
    lemma_text_trichotomy(y.name@, z.name@);
    lemma_text_trichotomy(x.name@, z.name@);
    if text_lt(x.description@, y.description@) && text_lt(y.description@, z.description@) {
        crate::order::lemma_text_lt_transitive(x.description@, y.description@, z.description@, 0);
    }
    if text_lt(x.name@, y.name@) && text_lt(y.name@, z.name@) {
        crate::order::lemma_text_lt_transitive(x.name@, y.name@, z.name@, 0);
    }
    if text_lt(y.description@, x.description@) && text_lt(z.description@, y.description@) {
        crate::order::lemma_text_lt_transitive(z.description@, y.description@, x.description@, 0);
    }
    if text_lt(y.name@, x.name@) && text_lt(z.name@, y.name@) {
        crate::order::lemma_text_lt_transitive(z.name@, y.name@, x.name@, 0);
    }
}

/// Whether `x` sorts strictly before `y`.
fn row_less(x: &Rs, y: &Rs) -> (r: bool)
    ensures
        r == row_lt(*x, *y),
{
    let xd = chars_of(x.description.as_str());
    let yd = chars_of(y.description.as_str());
    if text_less(xd.as_slice(), yd.as_slice()) {
        return true;
    }
    if text_less(yd.as_slice(), xd.as_slice()) {
        proof {
            lemma_text_trichotomy(x.description@, y.description@);
        }
        return false;
    }
    proof {
        lemma_text_trichotomy(x.description@, y.description@);
    }
    let xn = chars_of(x.name.as_str());
    let yn = chars_of(y.name.as_str());
    text_less(xn.as_slice(), yn.as_slice())
}

/// `out` holds the rows of `input` in the order `p` gives: `out[k]` is
/// `input[p[k]]`, no row is taken twice, and of two rows that compare equal
/// the one earlier in `input` comes first.
pub open spec fn stable_arrangement(input: Seq<Rs>, out: Seq<Rs>, p: Seq<int>) -> bool {
    &&& p.len() == out.len()
    &&& out.len() == input.len()
    &&& forall|k: int| 0 <= k < out.len() ==> 0 <= #[trigger] p[k] < input.len() && out[k] == input[p[k]]
    &&& forall|i: int, j: int| 0 <= i < j < out.len() ==> #[trigger] p[i] != #[trigger] p[j]
    &&& forall|i: int, j: int|
        0 <= i < j < out.len() && !row_lt(out[i], out[j]) ==> #[trigger] p[i] < #[trigger] p[j]
}

/// Sorts rows by description, then by name; rows that compare equal keep their
/// relative order.
pub fn sort_rows(rows: Vec<Rs>) -> (r: Vec<Rs>)
    ensures
        rows_sorted(r@),
        by_kind_then_name(r@),
        r@.to_multiset() == rows@.to_multiset(),
        exists|p: Seq<int>| stable_arrangement(rows@, r@, p),
{
    let mut rest = rows;
    let mut out: Vec<Rs> = Vec::new();
    let ghost mut idx: Seq<int> = Seq::empty();
    proof {
        vstd::seq_lib::lemma_multiset_commutative(out@, rest@);
        assert(out@ + rest@ =~= rest@);
        assert(rest@ =~= rows@.take(rest@.len() as int));
    }
    while rest.len() > 0
        invariant
            rows_sorted(out@),
            out@.to_multiset().add(rest@.to_multiset()) == rows@.to_multiset(),
            rest@ == rows@.take(rest@.len() as int),
            out@.len() + rest@.len() == rows@.len(),
            idx.len() == out@.len(),
            forall|k: int|
                0 <= k < out@.len() ==> rest@.len() <= #[trigger] idx[k] < rows@.len() && out@[k]
                    == rows@[idx[k]],
            forall|i: int, j: int| 0 <= i < j < out@.len() ==> #[trigger] idx[i] != #[trigger] idx[j],
            forall|i: int, j: int|
                0 <= i < j < out@.len() && !row_lt(out@[i], out@[j]) ==> #[trigger] idx[i]
                    < #[trigger] idx[j],
        decreases rest.len(),
    {
        let ghost before_rest = rest@;
        let ghost before_out = out@;
        let ghost old_idx = idx;
        let x = rest.pop().unwrap();
        proof {
            assert(before_rest =~= rest@.push(x));
            assert(rest@ =~= rows@.take(rest@.len() as int));
            assert(x == rows@[rest@.len() as int]);
        }
        let mut pos: usize = 0;
        while pos < out.len() && row_less(&out[pos], &x)
            invariant
                pos <= out@.len(),
                forall|k: int| 0 <= k < pos ==> row_lt(#[trigger] out@[k], x),
            decreases out.len() - pos,
        {
            pos = pos + 1;
        }
        let ghost old_out = out@;
        proof {
            assert forall|k: int| pos <= k < old_out.len() implies !row_lt(
                #[trigger] old_out[k],
                x,
            ) by {
                if k > pos {
                    lemma_row_lt_facts(old_out[k], old_out[pos as int], x);
                }
            }
        }
        out.insert(pos, x);
        proof {
            assert(out@ =~= old_out.take(pos as int).push(x) + old_out.skip(pos as int));
            assert forall|i: int, j: int| 0 <= i < j < out@.len() implies !row_lt(
                #[trigger] out@[j],
                #[trigger] out@[i],
            ) by {
                if i < pos && j == pos {
                    lemma_row_lt_facts(out@[i], x, x);
                } else if i < pos && j > pos {
                    assert(out@[j] == old_out[j - 1]);
                    assert(out@[i] == old_out[i]);
                } else if i == pos && j > pos {
                    assert(out@[j] == old_out[j - 1]);
                    lemma_row_lt_facts(x, old_out[j - 1], x);
                } else if i > pos {
                    assert(out@[j] == old_out[j - 1]);
                    assert(out@[i] == old_out[i - 1]);
                } else {
                    assert(out@[j] == old_out[j]);
                    assert(out@[i] == old_out[i]);
                }
            }
            broadcast use vstd::seq_lib::group_to_multiset_ensures, vstd::multiset::group_multiset_axioms;
            assert(out@.to_multiset() =~= old_out.to_multiset().insert(x));
            assert(before_rest.to_multiset() =~= rest@.to_multiset().insert(x));
            assert(out@.to_multiset().add(rest@.to_multiset()) =~= old_out.to_multiset().add(
                before_rest.to_multiset(),
            ));
            let m = rest@.len() as int;
            idx = old_idx.take(pos as int).push(m) + old_idx.skip(pos as int);
            assert forall|k: int| 0 <= k < out@.len() implies m <= #[trigger] idx[k] < rows@.len()
                && out@[k] == rows@[idx[k]] by {
                if k < pos {
                    assert(idx[k] == old_idx[k]);
                } else if k > pos {
                    assert(idx[k] == old_idx[k - 1]);
                    assert(out@[k] == old_out[k - 1]);
                }
            }
            assert forall|i: int, j: int| 0 <= i < j < out@.len() implies #[trigger] idx[i]
                != #[trigger] idx[j] by {
                if i < pos && j > pos {
                    assert(idx[i] == old_idx[i]);
                    assert(idx[j] == old_idx[j - 1]);
                } else if i > pos {
                    assert(idx[i] == old_idx[i - 1]);
                    assert(idx[j] == old_idx[j - 1]);
                } else if j < pos {
                    assert(idx[i] == old_idx[i]);
                    assert(idx[j] == old_idx[j]);
                } else if i == pos {
                    assert(idx[j] == old_idx[j - 1]);
                } else {
                    assert(idx[i] == old_idx[i]);
                }
            }
            assert forall|i: int, j: int|
                0 <= i < j < out@.len() && !row_lt(out@[i], out@[j]) implies #[trigger] idx[i]
                < #[trigger] idx[j] by {
                if i < pos && j > pos {
                    assert(idx[i] == old_idx[i]);
                    assert(idx[j] == old_idx[j - 1]);
                    assert(out@[i] == old_out[i]);
                    assert(out@[j] == old_out[j - 1]);
                } else if i > pos {
                    assert(idx[i] == old_idx[i - 1]);
                    assert(idx[j] == old_idx[j - 1]);
                    assert(out@[i] == old_out[i - 1]);
                    assert(out@[j] == old_out[j - 1]);
                } else if j < pos {
                    assert(idx[i] == old_idx[i]);
                    assert(idx[j] == old_idx[j]);
                    assert(out@[i] == old_out[i]);
                    assert(out@[j] == old_out[j]);
                } else if i == pos {
                    assert(idx[j] == old_idx[j - 1]);
                } else {
                    assert(out@[i] == old_out[i]);
                    assert(row_lt(out@[i], x));
                }
            }
        }
    }
    proof {
        vstd::seq_lib::lemma_multiset_commutative(out@, rest@);
        assert(out@ + rest@ =~= out@);
        assert(stable_arrangement(rows@, out@, idx));
        lemma_sorted_rows_by_kind_then_name(out@);
    }
    out
}

// ---------------------------------------------------------------------------
// The merged workload list
// ---------------------------------------------------------------------------

/// The synthesized row for `count` pods without an owner.
pub open spec fn is_unowned_row(row: Rs, count: nat) -> bool {
    &&& row.name@ == "(unowned)"@
    &&& row.owner@.len() == 0
    &&& row.description@ == UNOWNED_KIND@
    &&& row.age@.len() == 0
    &&& row.pods@ == nat_decimal(count)
    &&& row.selectors is None
    &&& row.events@.len() == 0
}

/// Collapses the unowned pods into a single workload row, or `None` when there are
/// none.
pub fn synthesize_unowned_row(unowned: &[RsPod]) -> (r: Option<Rs>)
    ensures
        unowned@.len() == 0 <==> r is None,
        r matches Some(row) ==> is_unowned_row(row, unowned@.len()),
{
    if unowned.len() == 0 {
        return None;
    }
    let count = unowned.len();
    let mut name = String::new();
    push_str(&mut name, "(unowned)");
    let mut description = String::new();
    push_str(&mut description, UNOWNED_KIND);
    let mut pods = String::new();
    push_u64(&mut pods, count as u64);
    proof {
        assert(name@ =~= "(unowned)"@);
        assert(description@ =~= UNOWNED_KIND@);
        assert(pods@ =~= nat_decimal(count as nat));
    }
    Some(
        Rs {
            name,
            owner: String::new(),
            description,
            age: String::new(),
            pods,
            selectors: None,
            events: Vec::new(),
        },
    )
}

/// The rows that the merged list holds, before sorting.
pub open spec fn merged_rows(
    rs: Seq<Rs>,
    ds: Seq<Rs>,
    ss: Seq<Rs>,
    jobs: Seq<Rs>,
    unowned_row: Option<Rs>,
) -> Seq<Rs> {
    let base = rs + ds + ss + jobs;
    match unowned_row {
        Some(row) => base.push(row),
        None => base,
    }
}

/// Combines replica set, daemon set, stateful set and job rows, plus one row for
/// the unowned pods when there are any, into one list sorted by kind, then name;
/// rows of the same kind and name stay in that order.
pub fn merge_workloads(rs: Vec<Rs>, ds: Vec<Rs>, ss: Vec<Rs>, jobs: Vec<Rs>, unowned: &[RsPod]) -> (r:
    Vec<Rs>)
    ensures
        rows_sorted(r@),
        by_kind_then_name(r@),
        exists|row: Option<Rs>|
            {
                &&& (row is None) == (unowned@.len() == 0)
                &&& row matches Some(u) ==> is_unowned_row(u, unowned@.len())
                &&& r@.to_multiset() == merged_rows(rs@, ds@, ss@, jobs@, row).to_multiset()
                &&& exists|p: Seq<int>| stable_arrangement(merged_rows(rs@, ds@, ss@, jobs@, row), r@, p)
            },
{
    let ghost g_rs = rs@;
    let ghost g_ds = ds@;
    let ghost g_ss = ss@;
    let ghost g_jobs = jobs@;
    let mut merged = rs;
    let mut ds = ds;
    let mut ss = ss;
    let mut jobs = jobs;
    merged.append(&mut ds);
    merged.append(&mut ss);
    merged.append(&mut jobs);
    let row = synthesize_unowned_row(unowned);
    let ghost g_row = row;
    match row {
        Some(u) => merged.push(u),
        None => {},
    }
    let ghost all = merged@;
    let r = sort_rows(merged);
    assert(all =~= merged_rows(g_rs, g_ds, g_ss, g_jobs, g_row));
    r
}


// ---------------------------------------------------------------------------
// Domain service of the workload view
// ---------------------------------------------------------------------------

/// Business logic of the workload view: the current rows and the selection.
pub struct ReplicaSetDomainService {
    pub current_data: Vec<Rs>,
    pub selected_index: Option<usize>,
}

/// The selected row, when the selection points into the rows.
pub open spec fn selected_row(data: Seq<Rs>, selected: Option<usize>) -> Option<Rs> {
    match selected {
        Some(i) => if i < data.len() {
            Some(data[i as int])
        } else {
            None
        },
        None => None,
    }
}

/// The selection after the rows have been replaced by `len` new rows: kept when
/// still in range, otherwise the first row, or none when there are no rows.
pub open spec fn selection_after_update(selected: Option<usize>, len: nat) -> Option<usize> {
    match selected {
        Some(i) => if i >= len {
            if len == 0 {
                None
            } else {
                Some(0)
            }
        } else {
            Some(i)
        },
        None => None,
    }
}

/// The actions offered by the workload view.
pub open spec fn available_actions(has_selection: bool) -> Seq<Seq<char>> {
    let base = seq!["view_pods"@, "view_yaml"@, "refresh"@];
    if has_selection {
        base + seq!["scale_up"@, "scale_down"@, "restart"@]
    } else {
        base
    }
}

/// The views of a vector of strings.
pub open spec fn string_views(v: Seq<String>) -> Seq<Seq<char>> {
    v.map_values(|s: String| s@)
}

/// What executing `action` yields for the given selected row.
pub open spec fn action_outcome(action: Seq<char>, selected: Option<Rs>) -> Result<
    Option<Option<Map<String, String>>>,
    Seq<char>,
> {
    if action == "view_pods"@ {
        match selected {
            None => Err("No ReplicaSet selected"@),
            Some(row) => match row.selectors {
                None => Err("No selectors available for selected ReplicaSet"@),
                Some(sel) => Ok(Some(Some(sel@))),
            },
        }
    } else if action == "view_ingress"@ || action == "view_events"@ {
        Ok(Some(None))
    } else {
        Ok(None)
    }
}

/// The result of an action matches its outcome: the error text, no navigation, or
/// navigation to the pods of the given selectors, the ingresses or the events.
pub open spec fn action_result_matches(
    action: Seq<char>,
    selected: Option<Rs>,
    r: Result<Option<NavTarget>, String>,
) -> bool {
    match action_outcome(action, selected) {
        Err(msg) => r is Err && r->Err_0@ == msg,
        Ok(None) => r == Ok::<Option<NavTarget>, String>(None),
        Ok(Some(Some(sel))) => r matches Ok(Some(NavTarget::Pod { selectors })) && selectors@ == sel,
        Ok(Some(None)) => if action == "view_ingress"@ {
            r matches Ok(Some(NavTarget::Ingress))
        } else {
            r matches Ok(Some(NavTarget::Event))
        },
    }
}

/// The label selectors whose pods are fetched ahead of time for `rows`: those
/// of the rows that have selectors, in order.
pub open spec fn prefetch_targets(rows: Seq<Rs>) -> Seq<Map<String, String>>
    decreases rows.len(),
{
    if rows.len() == 0 {
        seq![]
    } else {
        let t = prefetch_targets(rows.drop_last());
        match rows.last().selectors {
            Some(s) => t.push(s@),
            None => t,
        }
    }
}

/// The pod requests that prefetching the pods of `rows` schedules: one per row
/// with label selectors, among the first `limit` rows, in order.
pub fn pod_prefetch_selectors(rows: &[Rs], limit: usize) -> (r: Vec<PodSelector>)
    ensures
        ({
            let n: int = if rows@.len() < limit {
                rows@.len() as int
            } else {
                limit as int
            };
            let t = prefetch_targets(rows@.take(n));
            &&& r@.len() == t.len()
            &&& forall|k: int| 0 <= k < r@.len() ==> (#[trigger] r@[k] matches PodSelector::ByLabels(s) && s@ == t[k])
        }),
{
    let n = if rows.len() < limit {
        rows.len()
    } else {
        limit
    };
    let mut r: Vec<PodSelector> = Vec::new();
    let mut i: usize = 0;
    while i < n
        invariant
            i <= n,
            n <= rows@.len(),
            r@.len() == prefetch_targets(rows@.take(i as int)).len(),
            forall|k: int| 0 <= k < r@.len() ==> (#[trigger] r@[k] matches PodSelector::ByLabels(s) && s@
                == prefetch_targets(rows@.take(i as int))[k]),
        decreases n - i,
    {
        proof {
            assert(rows@.take(i + 1).drop_last() =~= rows@.take(i as int));
            assert(rows@.take(i + 1).last() == rows@[i as int]);
        }
        match &rows[i].selectors {
            Some(s) => {
                r.push(PodSelector::ByLabels(s.clone()));
            },
            None => {},
        }
        i = i + 1;
    }
    r
}

impl ReplicaSetDomainService {
    /// A service with no rows and no selection.
    pub fn new() -> (r: Self)
        ensures
            r.current_data@.len() == 0,
            r.selected_index is None,
    {
        Self { current_data: Vec::new(), selected_index: None }
    }

    /// The selected row, if the selection points into the rows.
    pub fn get_selected_replicaset(&self) -> (r: Option<&Rs>)
        ensures
            r matches Some(row) ==> selected_row(self.current_data@, self.selected_index) == Some(
                *row,
            ),
            r is None ==> selected_row(self.current_data@, self.selected_index) is None,
    {
        match self.selected_index {
            Some(index) => {
                if index < self.current_data.len() {
                    Some(&self.current_data[index])
                } else {
                    None
                }
            },
            None => None,
        }
    }

    /// Sets the selection.
    pub fn set_selection(&mut self, index: Option<usize>)
        ensures
            final(self).selected_index == index,
            final(self).current_data == old(self).current_data,
    {
        self.selected_index = index;
    }

    /// The outcome of an action, which leaves the service unchanged.
    fn outcome(&self, action: &str) -> (r: Result<Option<NavTarget>, String>)
        ensures
            action_result_matches(
                action@,
                selected_row(self.current_data@, self.selected_index),
                r,
            ),
    {
        let a = chars_of(action);
        proof {
            reveal_strlit("view_pods");
            reveal_strlit("view_ingress");
            reveal_strlit("view_events");
        }
        if chars_eq_str(a.as_slice(), "view_pods") {
            match self.get_selected_replicaset() {
                None => Err(owned("No ReplicaSet selected")),
                Some(selected_rs) => match &selected_rs.selectors {
                    None => Err(owned("No selectors available for selected ReplicaSet")),
                    Some(selectors) => Ok(Some(NavTarget::Pod { selectors: selectors.clone() })),
                },
            }
        } else if chars_eq_str(a.as_slice(), "view_ingress") {
            Ok(Some(NavTarget::Ingress))
        } else if chars_eq_str(a.as_slice(), "view_events") {
            Ok(Some(NavTarget::Event))
        } else {
            Ok(None)
        }
    }
}

impl Default for ReplicaSetDomainService {
    fn default() -> (r: Self)
        ensures
            r.current_data@.len() == 0,
            r.selected_index is None,
    {
        Self::new()
    }
}

impl DomainService<Rs> for ReplicaSetDomainService {
    /// Replaces the rows and keeps the selection valid.
    fn handle_data_update(&mut self, data: Vec<Rs>) -> (r: Result<(), String>)
        ensures
            r is Ok,
            final(self).current_data@ == data@,
            final(self).selected_index == selection_after_update(old(self).selected_index, data@.len()),
    {
        self.current_data = data;
        if let Some(index) = self.selected_index {
            if index >= self.current_data.len() {
                self.selected_index = if self.current_data.len() == 0 {
                    None
                } else {
                    Some(0)
                };
            }
        }
        Ok(())
    }

    /// The actions offered: view pods, view YAML and refresh, plus scaling and
    /// restart when a row is selected.
    fn get_available_actions(&self) -> (r: Vec<String>)
        ensures
            string_views(r@) == available_actions(
                selected_row(self.current_data@, self.selected_index) is Some,
            ),
    {
        let mut actions: Vec<String> = Vec::new();
        actions.push(owned("view_pods"));
        actions.push(owned("view_yaml"));
        actions.push(owned("refresh"));
        if self.get_selected_replicaset().is_some() {
            actions.push(owned("scale_up"));
            actions.push(owned("scale_down"));
            actions.push(owned("restart"));
        }
        assert(string_views(actions@) =~= available_actions(
            selected_row(self.current_data@, self.selected_index) is Some,
        ));
        actions
    }

    /// Executes an action: `view_pods` opens the pods of the selected row,
    /// `view_ingress` and `view_events` open those views, anything else does nothing.
    /// Executing an action gives its outcome for the selected row and leaves the
    /// rows and the selection as they were.
    open spec fn executes(&self, action: Seq<char>, after: &Self, r: Result<Option<NavTarget>, String>) -> bool {
        &&& action_result_matches(action, selected_row(self.current_data@, self.selected_index), r)
        &&& after.current_data == self.current_data
        &&& after.selected_index == self.selected_index
    }

    fn execute_action(&mut self, action: &str) -> (r: Result<Option<NavTarget>, String>)
        ensures
            action_result_matches(
                action@,
                selected_row(old(self).current_data@, old(self).selected_index),
                r,
            ),
            final(self).current_data == old(self).current_data,
            final(self).selected_index == old(self).selected_index,
    {
        self.outcome(action)
    }

    /// Checks that no row has an empty name.
    fn validate(&self) -> (r: Result<(), String>)
        ensures
            r is Ok <==> forall|k: int|
                0 <= k < self.current_data@.len() ==> (#[trigger] self.current_data@[k]).name@.len()
                    > 0,
            r matches Err(e) ==> e@ == "ReplicaSet with empty name found"@,
    {
        let mut k: usize = 0;
        while k < self.current_data.len()
            invariant
                k <= self.current_data@.len(),
                forall|m: int| 0 <= m < k ==> (#[trigger] self.current_data@[m]).name@.len() > 0,
            decreases self.current_data.len() - k,
        {
            if self.current_data[k].name.as_str().is_empty() {
                return Err(owned("ReplicaSet with empty name found"));
            }
            k = k + 1;
        }
        Ok(())
    }
}

/// Navigation handler of the workload view.
pub struct ReplicaSetNavigationHandler {
    domain_service: ReplicaSetDomainService,
}

impl ReplicaSetNavigationHandler {
    /// The domain service that the handler consults.
    pub closed spec fn service(&self) -> ReplicaSetDomainService {
        self.domain_service
    }

    pub fn new(domain_service: ReplicaSetDomainService) -> (r: Self)
        ensures
            r.service() == domain_service,
    {
        Self { domain_service }
    }
}

/// Whether navigation to `target` is possible with or without a selected row.
pub open spec fn navigable(target: Seq<char>, has_selection: bool) -> bool {
    if target == "view_pods"@ {
        has_selection
    } else {
        target == "view_ingress"@ || target == "view_events"@
    }
}

impl NavigationHandler for ReplicaSetNavigationHandler {
    /// Navigates as executing the action `target` on the service does.
    fn handle_navigation(&self, target: &str) -> (r: Result<Option<NavTarget>, String>)
        ensures
            action_result_matches(
                target@,
                selected_row(self.service().current_data@, self.service().selected_index),
                r,
            ),
    {
        self.domain_service.outcome(target)
    }

    /// The navigation targets: pods, ingresses and events.
    fn get_navigation_targets(&self) -> (r: Vec<String>)
        ensures
            string_views(r@) == seq!["view_pods"@, "view_ingress"@, "view_events"@],
    {
        let mut targets: Vec<String> = Vec::new();
        targets.push(owned("view_pods"));
        targets.push(owned("view_ingress"));
        targets.push(owned("view_events"));
        assert(string_views(targets@) =~= seq!["view_pods"@, "view_ingress"@, "view_events"@]);
        targets
    }

    /// Pods need a selected row; ingresses and events are always reachable.
    fn can_navigate_to(&self, target: &str) -> (b: bool)
        ensures
            b == navigable(
                target@,
                selected_row(self.service().current_data@, self.service().selected_index) is Some,
            ),
    {
        let t = chars_of(target);
        proof {
            reveal_strlit("view_pods");
            reveal_strlit("view_ingress");
            reveal_strlit("view_events");
        }
        if chars_eq_str(t.as_slice(), "view_pods") {
            self.domain_service.get_selected_replicaset().is_some()
        } else {
            chars_eq_str(t.as_slice(), "view_ingress") || chars_eq_str(t.as_slice(), "view_events")
        }
    }
}

} // verus!
