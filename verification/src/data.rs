//! Row types of the resource tables and the column-width calculators.
use crate::order::text_lt;
use crate::text::{chars_of, lines, max_nat, split_lines, string_of};
use std::collections::BTreeMap;
use vstd::prelude::*;

verus! {

/// Items that a table filter matches against one of their text fields.
pub trait Filterable {
    fn filter_by(&self) -> &str;
}

/// An event recorded for a resource.
#[derive(Eq, PartialEq, Clone, Debug)]
pub struct ResourceEvent {
    pub resource_name: String,
    pub object: String,
    pub message: String,
    pub reason: String,
    pub type_: String,
    pub age: String,
}

impl ResourceEvent {
    /// The displayed columns, in table order.
    pub fn ref_array(&self) -> (r: [&String; 5])
        ensures
            r@ == seq![&self.object, &self.message, &self.reason, &self.type_, &self.age],
    {
        [&self.object, &self.message, &self.reason, &self.type_, &self.age]
    }

    pub fn object(&self) -> (r: &str)
        ensures
            r@ == self.object@,
    {
        self.object.as_str()
    }

    pub fn message(&self) -> (r: &str)
        ensures
            r@ == self.message@,
    {
        self.message.as_str()
    }

    pub fn reason(&self) -> (r: &str)
        ensures
            r@ == self.reason@,
    {
        self.reason.as_str()
    }

    pub fn type_(&self) -> (r: &str)
        ensures
            r@ == self.type_@,
    {
        self.type_.as_str()
    }

    pub fn age(&self) -> (r: &str)
        ensures
            r@ == self.age@,
    {
        self.age.as_str()
    }
}

/// A label of a resource.
#[derive(Eq, PartialEq, Clone, Debug)]
pub struct ResourcceLabel {
    pub name: String,
    pub value: String,
}

/// A label of a replica set.
#[derive(Eq, PartialEq, Clone, Debug)]
pub struct RsLabel {
    pub name: String,
    pub value: String,
}

/// A volume mount of a container.
#[derive(Eq, PartialEq, Clone, Debug)]
pub struct ContainerMount {
    pub name: String,
    pub value: String,
}

/// An environment variable of a container.
#[derive(Eq, PartialEq, Clone, Debug)]
pub struct ContainerEnvVar {
    pub name: String,
    pub value: String,
}

/// A TLS certificate presented by an ingress host.
#[derive(Eq, PartialEq, Clone, Debug)]
pub struct Cert {
    pub host: String,
    pub is_valid: String,
    pub expires: String,
    pub issued_by: String,
}

impl Filterable for Cert {
    fn filter_by(&self) -> (r: &str)
        ensures
            r@ == self.host@,
    {
        self.host.as_str()
    }
}

/// A name/value row of a details panel, with an optional age.
pub trait Detail {
    /// The row's name.
    spec fn detail_name(&self) -> Seq<char>;

    /// The row's value.
    spec fn detail_value(&self) -> Seq<char>;

    /// The row's age, when it has one.
    spec fn detail_age(&self) -> Option<Seq<char>>;

    fn name(&self) -> (r: String)
        ensures
            r@ == self.detail_name(),
    ;

    fn value(&self) -> (r: String)
        ensures
            r@ == self.detail_value(),
    ;

    fn age(&self) -> (r: Option<String>)
        ensures
            r is Some <==> self.detail_age() is Some,
            r is Some ==> r.unwrap()@ == self.detail_age().unwrap(),
    ;
}

impl Detail for ContainerMount {
    open spec fn detail_name(&self) -> Seq<char> {
        self.name@
    }

    open spec fn detail_value(&self) -> Seq<char> {
        self.value@
    }

    open spec fn detail_age(&self) -> Option<Seq<char>> {
        None
    }

    fn name(&self) -> String {
        self.name.clone()
    }

    fn value(&self) -> String {
        self.value.clone()
    }

    fn age(&self) -> Option<String> {
        None
    }
}

impl Detail for ContainerEnvVar {
    open spec fn detail_name(&self) -> Seq<char> {
        self.name@
    }

    open spec fn detail_value(&self) -> Seq<char> {
        self.value@
    }

    open spec fn detail_age(&self) -> Option<Seq<char>> {
        None
    }

    fn name(&self) -> String {
        self.name.clone()
    }

    fn value(&self) -> String {
        self.value.clone()
    }

    fn age(&self) -> Option<String> {
        None
    }
}

impl Detail for ResourcceLabel {
    open spec fn detail_name(&self) -> Seq<char> {
        self.name@
    }

    open spec fn detail_value(&self) -> Seq<char> {
        self.value@
    }

    open spec fn detail_age(&self) -> Option<Seq<char>> {
        None
    }

    fn name(&self) -> String {
        self.name.clone()
    }

    fn value(&self) -> String {
        self.value.clone()
    }

    fn age(&self) -> Option<String> {
        None
    }
}

impl Detail for ResourceEvent {
    open spec fn detail_name(&self) -> Seq<char> {
        self.type_@
    }

    open spec fn detail_value(&self) -> Seq<char> {
        self.message@
    }

    open spec fn detail_age(&self) -> Option<Seq<char>> {
        Some(self.age@)
    }

    fn name(&self) -> String {
        self.type_.clone()
    }

    fn value(&self) -> String {
        self.message.clone()
    }

    fn age(&self) -> Option<String> {
        Some(self.age.clone())
    }
}

impl Filterable for ResourceEvent {
    fn filter_by(&self) -> (r: &str)
        ensures
            r@ == self.message@,
    {
        self.message.as_str()
    }
}

impl Cert {
    /// The displayed columns, in table order.
    pub fn ref_array(&self) -> (r: [&String; 4])
        ensures
            r@ == seq![&self.host, &self.is_valid, &self.expires, &self.issued_by],
    {
        [&self.host, &self.is_valid, &self.expires, &self.issued_by]
    }

    pub fn host(&self) -> (r: &str)
        ensures
            r@ == self.host@,
    {
        self.host.as_str()
    }

    pub fn is_valid(&self) -> (r: &str)
        ensures
            r@ == self.is_valid@,
    {
        self.is_valid.as_str()
    }

    pub fn expires(&self) -> (r: &str)
        ensures
            r@ == self.expires@,
    {
        self.expires.as_str()
    }

    pub fn issued_by(&self) -> (r: &str)
        ensures
            r@ == self.issued_by@,
    {
        self.issued_by.as_str()
    }
}

/// A container of a pod.
#[derive(Clone, Debug)]
pub struct Container {
    pub name: String,
    pub description: String,
    pub restarts: String,
    pub image: String,
    pub ports: String,
    pub envvars: Vec<ContainerEnvVar>,
    pub mounts: Vec<ContainerMount>,
    pub selectors: Option<BTreeMap<String, String>>,
    pub pod_name: String,
}

impl Filterable for Container {
    fn filter_by(&self) -> (r: &str)
        ensures
            r@ == self.name@,
    {
        self.name.as_str()
    }
}

impl Container {
    /// The displayed columns, in table order.
    pub fn ref_array(&self) -> (r: [&String; 5])
        ensures
            r@ == seq![&self.name, &self.description, &self.restarts, &self.image, &self.ports],
    {
        [&self.name, &self.description, &self.restarts, &self.image, &self.ports]
    }

    pub fn container(&self) -> (r: &str)
        ensures
            r@ == self.name@,
    {
        self.name.as_str()
    }

    pub fn description(&self) -> (r: &str)
        ensures
            r@ == self.description@,
    {
        self.description.as_str()
    }

    pub fn restarts(&self) -> (r: &str)
        ensures
            r@ == self.restarts@,
    {
        self.restarts.as_str()
    }

    pub fn image(&self) -> (r: &str)
        ensures
            r@ == self.image@,
    {
        self.image.as_str()
    }

    pub fn ports(&self) -> (r: &str)
        ensures
            r@ == self.ports@,
    {
        self.ports.as_str()
    }
}

/// A pod of a workload.
#[derive(Eq, PartialEq, Clone, Debug)]
pub struct RsPod {
    pub name: String,
    pub status: String,
    pub description: String,
    pub age: String,
    pub containers: String,
    pub selectors: Option<BTreeMap<String, String>>,
    pub events: Vec<ResourceEvent>,
}

impl Filterable for RsPod {
    fn filter_by(&self) -> (r: &str)
        ensures
            r@ == self.name@,
    {
        self.name.as_str()
    }
}

impl RsPod {
    /// The displayed columns, in table order.
    pub fn ref_array(&self) -> (r: [&String; 5])
        ensures
            r@ == seq![&self.name, &self.status, &self.containers, &self.age, &self.description],
    {
        [&self.name, &self.status, &self.containers, &self.age, &self.description]
    }

    pub fn status(&self) -> (r: &str)
        ensures
            r@ == self.status@,
    {
        self.status.as_str()
    }

    pub fn name(&self) -> (r: &str)
        ensures
            r@ == self.name@,
    {
        self.name.as_str()
    }

    pub fn description(&self) -> (r: &str)
        ensures
            r@ == self.description@,
    {
        self.description.as_str()
    }

    pub fn age(&self) -> (r: &str)
        ensures
            r@ == self.age@,
    {
        self.age.as_str()
    }

    pub fn containers(&self) -> (r: &str)
        ensures
            r@ == self.containers@,
    {
        self.containers.as_str()
    }
}

/// A workload row (replica set, daemon set, stateful set, job, or the unowned-pods row).
#[derive(Eq, PartialEq, Clone, Debug)]
pub struct Rs {
    pub name: String,
    pub owner: String,
    pub description: String,
    pub age: String,
    pub pods: String,
    pub selectors: Option<BTreeMap<String, String>>,
    pub events: Vec<ResourceEvent>,
}

impl Filterable for Rs {
    fn filter_by(&self) -> (r: &str)
        ensures
            r@ == self.name@,
    {
        self.name.as_str()
    }
}

impl Rs {
    /// The displayed columns, in table order.
    pub fn ref_array(&self) -> (r: [&String; 5])
        ensures
            r@ == seq![&self.name, &self.pods, &self.age, &self.description, &self.owner],
    {
        [&self.name, &self.pods, &self.age, &self.description, &self.owner]
    }

    pub fn name(&self) -> (r: &str)
        ensures
            r@ == self.name@,
    {
        self.name.as_str()
    }

    pub fn owner(&self) -> (r: &str)
        ensures
            r@ == self.owner@,
    {
        self.owner.as_str()
    }

    pub fn description(&self) -> (r: &str)
        ensures
            r@ == self.description@,
    {
        self.description.as_str()
    }

    pub fn age(&self) -> (r: &str)
        ensures
            r@ == self.age@,
    {
        self.age.as_str()
    }

    pub fn pods(&self) -> (r: &str)
        ensures
            r@ == self.pods@,
    {
        self.pods.as_str()
    }
}

/// A log line of a container.
#[derive(Eq, PartialEq, Clone, Debug)]
pub struct LogRec {
    pub datetime: String,
    pub level: String,
    pub message: String,
}

impl Filterable for LogRec {
    fn filter_by(&self) -> (r: &str)
        ensures
            r@ == self.message@,
    {
        self.message.as_str()
    }
}

impl LogRec {
    /// The displayed columns, in table order.
    pub fn ref_array(&self) -> (r: [&String; 3])
        ensures
            r@ == seq![&self.datetime, &self.level, &self.message],
    {
        [&self.datetime, &self.level, &self.message]
    }

    pub fn datetime(&self) -> (r: &str)
        ensures
            r@ == self.datetime@,
    {
        self.datetime.as_str()
    }

    pub fn level(&self) -> (r: &str)
        ensures
            r@ == self.level@,
    {
        self.level.as_str()
    }

    pub fn message(&self) -> (r: &str)
        ensures
            r@ == self.message@,
    {
        self.message.as_str()
    }
}

/// A namespace of the cluster.
#[derive(Clone, Debug)]
pub struct Namespace {
    pub name: String,
    /// The namespace's phase, such as `Active` or `Terminating`.
    pub status: String,
    pub age: String,
    /// Whether this is the namespace being browsed.
    pub is_current: bool,
}

impl Filterable for Namespace {
    fn filter_by(&self) -> (r: &str)
        ensures
            r@ == self.name@,
    {
        self.name.as_str()
    }
}

/// An ingress route.
#[derive(Clone, Debug)]
pub struct Ingress {
    pub name: String,
    pub host: String,
    pub path: String,
    pub backend_svc: String,
    pub port: String,
}

impl Filterable for Ingress {
    fn filter_by(&self) -> (r: &str)
        ensures
            r@ == self.name@,
    {
        self.name.as_str()
    }
}

impl Ingress {
    /// The displayed columns, in table order.
    pub fn ref_array(&self) -> (r: [&String; 5])
        ensures
            r@ == seq![&self.name, &self.host, &self.path, &self.backend_svc, &self.port],
    {
        [&self.name, &self.host, &self.path, &self.backend_svc, &self.port]
    }

    pub fn name(&self) -> (r: &str)
        ensures
            r@ == self.name@,
    {
        self.name.as_str()
    }

    pub fn host(&self) -> (r: &str)
        ensures
            r@ == self.host@,
    {
        self.host.as_str()
    }

    pub fn path(&self) -> (r: &str)
        ensures
            r@ == self.path@,
    {
        self.path.as_str()
    }

    pub fn backend_svc(&self) -> (r: &str)
        ensures
            r@ == self.backend_svc@,
    {
        self.backend_svc.as_str()
    }

    pub fn port(&self) -> (r: &str)
        ensures
            r@ == self.port@,
    {
        self.port.as_str()
    }
}


// ---------------------------------------------------------------------------
// Column widths
// ---------------------------------------------------------------------------

/// The displayed width of a string in terminal columns, as `unicode-width` computes it.
pub uninterp spec fn display_width(s: Seq<char>) -> nat;

/// Calls `UnicodeWidthStr::width`. The contract names the result; the crate's
/// rules give each printable ASCII character one column, so a string of printable
/// ASCII characters is as wide as it is long. The Unicode width tables are not stated.
#[verifier::external_body]
fn str_width(s: &str) -> (w: usize)
    ensures
        w == display_width(s@),
        (forall|k: int| 0 <= k < s@.len() ==> ' ' <= #[trigger] s@[k] <= '~') ==> w == s@.len(),
{
    unicode_width::UnicodeWidthStr::width(s)
}

/// The widths of the given strings.
pub open spec fn widths(strs: Seq<Seq<char>>) -> Seq<nat> {
    strs.map_values(|s: Seq<char>| display_width(s))
}

/// The widths of all lines of all given strings, in order.
pub open spec fn line_widths(strs: Seq<Seq<char>>) -> Seq<nat>
    decreases strs.len(),
{
    if strs.len() == 0 {
        seq![]
    } else {
        line_widths(strs.drop_last()) + widths(lines(strs.last()))
    }
}

/// The width of a column: the widest entry, or 0 when there is none.
pub open spec fn column_width(strs: Seq<Seq<char>>) -> nat {
    max_nat(widths(strs))
}

/// The width of a column whose entries may span several lines: the widest line.
pub open spec fn column_line_width(strs: Seq<Seq<char>>) -> nat {
    max_nat(line_widths(strs))
}

/// Every character is printable ASCII (a space up to `~`).
pub open spec fn printable_ascii(s: Seq<char>) -> bool {
    forall|k: int| 0 <= k < s.len() ==> ' ' <= #[trigger] s[k] <= '~'
}

/// Every entry is printable ASCII.
pub open spec fn all_printable(strs: Seq<Seq<char>>) -> bool {
    forall|i: int| 0 <= i < strs.len() ==> printable_ascii(#[trigger] strs[i])
}

/// Every line of every entry is printable ASCII.
pub open spec fn all_lines_printable(strs: Seq<Seq<char>>) -> bool {
    forall|i: int| 0 <= i < strs.len() ==> all_printable(lines(#[trigger] strs[i]))
}

/// The lengths of the given strings, in characters.
pub open spec fn lengths(strs: Seq<Seq<char>>) -> Seq<nat> {
    strs.map_values(|s: Seq<char>| s.len())
}

/// The lengths of all lines of all given strings, in order.
pub open spec fn line_lengths(strs: Seq<Seq<char>>) -> Seq<nat>
    decreases strs.len(),
{
    if strs.len() == 0 {
        seq![]
    } else {
        line_lengths(strs.drop_last()) + lengths(lines(strs.last()))
    }
}

/// The width of a column of printable ASCII entries: the longest entry, one
/// column per character.
pub open spec fn ascii_column_width(strs: Seq<Seq<char>>) -> nat {
    max_nat(lengths(strs))
}

/// The width of a column of printable ASCII lines: the longest line.
pub open spec fn ascii_column_line_width(strs: Seq<Seq<char>>) -> nat {
    max_nat(line_lengths(strs))
}

/// The views of the given string slices.
pub open spec fn views(strs: Seq<&str>) -> Seq<Seq<char>> {
    strs.map_values(|s: &str| s@)
}

proof fn lemma_views_push(v: Seq<&str>, x: &str)
    ensures
        views(v.push(x)) == views(v).push(x@),
{
    assert(views(v.push(x)) =~= views(v).push(x@));
}

/// The widest of the given strings.
fn max_width(strs: &[&str]) -> (m: usize)
    ensures
        m == column_width(views(strs@)),
        all_printable(views(strs@)) ==> m == ascii_column_width(views(strs@)),
{
    let mut m: usize = 0;
    let mut i: usize = 0;
    while i < strs.len()
        invariant
            i <= strs@.len(),
            m == max_nat(widths(views(strs@.take(i as int)))),
            all_printable(views(strs@.take(i as int))) ==> m == max_nat(lengths(views(strs@.take(i as int)))),
        decreases strs.len() - i,
    {
        let w = str_width(strs[i]);
        proof {
            let a = widths(views(strs@.take(i as int)));
            assert(widths(views(strs@.take(i + 1))) =~= a.push(display_width(strs@[i as int]@)));
            crate::text::lemma_max_nat_push(a, display_width(strs@[i as int]@));
            let l = lengths(views(strs@.take(i as int)));
            assert(lengths(views(strs@.take(i + 1))) =~= l.push(strs@[i as int]@.len()));
            crate::text::lemma_max_nat_push(l, strs@[i as int]@.len());
            assert(views(strs@.take(i + 1))[i as int] == strs@[i as int]@);
            if all_printable(views(strs@.take(i + 1))) {
                assert forall|k: int| 0 <= k < i implies printable_ascii(
                    #[trigger] views(strs@.take(i as int))[k],
                ) by {
                    assert(views(strs@.take(i as int))[k] == views(strs@.take(i + 1))[k]);
                }
                assert(printable_ascii(views(strs@.take(i + 1))[i as int]));
            }
        }
        if w > m {
            m = w;
        }
        i = i + 1;
    }
    assert(strs@.take(strs@.len() as int) =~= strs@);
    m
}

/// The widest line of the given strings.
fn max_line_width(strs: &[&str]) -> (m: usize)
    ensures
        m == column_line_width(views(strs@)),
        all_lines_printable(views(strs@)) ==> m == ascii_column_line_width(views(strs@)),
{
    let mut m: usize = 0;
    let mut i: usize = 0;
    while i < strs.len()
        invariant
            i <= strs@.len(),
            m == max_nat(line_widths(views(strs@.take(i as int)))),
            all_lines_printable(views(strs@.take(i as int))) ==> m == max_nat(
                line_lengths(views(strs@.take(i as int))),
            ),
        decreases strs.len() - i,
    {
        let cs = chars_of(strs[i]);
        let ls = split_lines(cs.as_slice());
        let ghost before = line_widths(views(strs@.take(i as int)));
        let ghost before_len = line_lengths(views(strs@.take(i as int)));
        let ghost lw = widths(lines(strs@[i as int]@));
        let ghost ll = lengths(lines(strs@[i as int]@));
        proof {
            assert(views(strs@.take(i + 1)).drop_last() =~= views(strs@.take(i as int)));
            assert(views(strs@.take(i + 1)).last() == strs@[i as int]@);
            assert(line_widths(views(strs@.take(i + 1))) == before + lw);
            assert(line_lengths(views(strs@.take(i + 1))) == before_len + ll);
        }
        let mut j: usize = 0;
        let mut lm: usize = 0;
        while j < ls.len()
            invariant
                j <= ls@.len(),
                ls@.len() == lines(cs@).len(),
                forall|k: int| 0 <= k < ls@.len() ==> (#[trigger] ls@[k])@ == lines(cs@)[k],
                cs@ == strs@[i as int]@,
                lw == widths(lines(strs@[i as int]@)),
                ll == lengths(lines(strs@[i as int]@)),
                lm == max_nat(lw.take(j as int)),
                all_printable(lines(cs@)) ==> lm == max_nat(ll.take(j as int)),
            decreases ls.len() - j,
        {
            let line = string_of(ls[j].as_slice());
            let w = str_width(line.as_str());
            proof {
                assert(lw.take(j + 1) =~= lw.take(j as int).push(lw[j as int]));
                assert(lw[j as int] == display_width(ls@[j as int]@));
                crate::text::lemma_max_nat_push(lw.take(j as int), lw[j as int]);
                assert(ll.take(j + 1) =~= ll.take(j as int).push(ll[j as int]));
                assert(ll[j as int] == ls@[j as int]@.len());
                crate::text::lemma_max_nat_push(ll.take(j as int), ll[j as int]);
                if all_printable(lines(cs@)) {
                    assert(printable_ascii(lines(cs@)[j as int]));
                }
            }
            if w > lm {
                lm = w;
            }
            j = j + 1;
        }
        proof {
            assert(lw.take(j as int) =~= lw);
            assert(ll.take(j as int) =~= ll);
            crate::text::lemma_max_nat_append(before, lw);
            crate::text::lemma_max_nat_append(before_len, ll);
            if all_lines_printable(views(strs@.take(i + 1))) {
                assert forall|k: int| 0 <= k < i implies all_printable(
                    lines(#[trigger] views(strs@.take(i as int))[k]),
                ) by {
                    assert(views(strs@.take(i as int))[k] == views(strs@.take(i + 1))[k]);
                }
                assert(views(strs@.take(i + 1))[i as int] == strs@[i as int]@);
                assert(all_printable(lines(views(strs@.take(i + 1))[i as int])));
            }
        }
        if lm > m {
            m = lm;
        }
        i = i + 1;
    }
    assert(strs@.take(strs@.len() as int) =~= strs@);
    m
}

/// Column widths of the log table: date, level and message.
pub fn log_constraint_len_calculator(items: &[LogRec]) -> (r: (u16, u16, u16))
    ensures
        r.0 == column_width(items@.map_values(|x: LogRec| x.datetime@)) as u16,
        all_printable(items@.map_values(|x: LogRec| x.datetime@)) ==> r.0 == ascii_column_width(items@.map_values(|x: LogRec| x.datetime@)) as u16,
        r.1 == column_width(items@.map_values(|x: LogRec| x.level@)) as u16,
        all_printable(items@.map_values(|x: LogRec| x.level@)) ==> r.1 == ascii_column_width(items@.map_values(|x: LogRec| x.level@)) as u16,
        r.2 == column_width(items@.map_values(|x: LogRec| x.message@)) as u16,
        all_printable(items@.map_values(|x: LogRec| x.message@)) ==> r.2 == ascii_column_width(items@.map_values(|x: LogRec| x.message@)) as u16,
{
    let mut a: Vec<&str> = Vec::new();
    let mut b: Vec<&str> = Vec::new();
    let mut c: Vec<&str> = Vec::new();
    let mut i: usize = 0;
    while i < items.len()
        invariant
            i <= items@.len(),
            views(a@) == items@.take(i as int).map_values(|x: LogRec| x.datetime@),
            a@.len() == i,
            views(b@) == items@.take(i as int).map_values(|x: LogRec| x.level@),
            b@.len() == i,
            views(c@) == items@.take(i as int).map_values(|x: LogRec| x.message@),
            c@.len() == i,
        decreases items.len() - i,
    {
        a.push(items[i].datetime());
        b.push(items[i].level());
        c.push(items[i].message());
        proof {
            assert(a@[i as int]@ == items@[i as int].datetime@);
            assert(views(a@) == items@.take(i + 1).map_values(|x: LogRec| x.datetime@)) by {
                assert(a@ =~= a@.drop_last().push(a@.last()));
                lemma_views_push(a@.drop_last(), a@.last());
                assert(items@.take(i + 1) =~= items@.take(i as int).push(items@[i as int]));
                assert(items@.take(i + 1).map_values(|x: LogRec| x.datetime@) =~= items@.take(i as int).map_values(|x: LogRec| x.datetime@).push(items@[i as int].datetime@));
            }
            assert(b@[i as int]@ == items@[i as int].level@);
            assert(views(b@) == items@.take(i + 1).map_values(|x: LogRec| x.level@)) by {
                assert(b@ =~= b@.drop_last().push(b@.last()));
                lemma_views_push(b@.drop_last(), b@.last());
                assert(items@.take(i + 1) =~= items@.take(i as int).push(items@[i as int]));
                assert(items@.take(i + 1).map_values(|x: LogRec| x.level@) =~= items@.take(i as int).map_values(|x: LogRec| x.level@).push(items@[i as int].level@));
            }
            assert(c@[i as int]@ == items@[i as int].message@);
            assert(views(c@) == items@.take(i + 1).map_values(|x: LogRec| x.message@)) by {
                assert(c@ =~= c@.drop_last().push(c@.last()));
                lemma_views_push(c@.drop_last(), c@.last());
                assert(items@.take(i + 1) =~= items@.take(i as int).push(items@[i as int]));
                assert(items@.take(i + 1).map_values(|x: LogRec| x.message@) =~= items@.take(i as int).map_values(|x: LogRec| x.message@).push(items@[i as int].message@));
            }
        }
        i = i + 1;
    }
    assert(items@.take(items@.len() as int) =~= items@);
    let w_a = max_width(a.as_slice());
    let w_b = max_width(b.as_slice());
    let w_c = max_width(c.as_slice());
    (w_a as u16, w_b as u16, w_c as u16)
}

/// Column widths of the event table: object, message, reason, type and age.
pub fn event_constraint_len_calculator(items: &[ResourceEvent]) -> (r: (u16, u16, u16, u16, u16))
    ensures
        r.0 == column_width(items@.map_values(|x: ResourceEvent| x.object@)) as u16,
        all_printable(items@.map_values(|x: ResourceEvent| x.object@)) ==> r.0 == ascii_column_width(items@.map_values(|x: ResourceEvent| x.object@)) as u16,
        r.1 == column_width(items@.map_values(|x: ResourceEvent| x.message@)) as u16,
        all_printable(items@.map_values(|x: ResourceEvent| x.message@)) ==> r.1 == ascii_column_width(items@.map_values(|x: ResourceEvent| x.message@)) as u16,
        r.2 == column_width(items@.map_values(|x: ResourceEvent| x.reason@)) as u16,
        all_printable(items@.map_values(|x: ResourceEvent| x.reason@)) ==> r.2 == ascii_column_width(items@.map_values(|x: ResourceEvent| x.reason@)) as u16,
        r.3 == column_width(items@.map_values(|x: ResourceEvent| x.type_@)) as u16,
        all_printable(items@.map_values(|x: ResourceEvent| x.type_@)) ==> r.3 == ascii_column_width(items@.map_values(|x: ResourceEvent| x.type_@)) as u16,
        r.4 == column_width(items@.map_values(|x: ResourceEvent| x.age@)) as u16,
        all_printable(items@.map_values(|x: ResourceEvent| x.age@)) ==> r.4 == ascii_column_width(items@.map_values(|x: ResourceEvent| x.age@)) as u16,
{
    let mut a: Vec<&str> = Vec::new();
    let mut b: Vec<&str> = Vec::new();
    let mut c: Vec<&str> = Vec::new();
    let mut d: Vec<&str> = Vec::new();
    let mut e: Vec<&str> = Vec::new();
    let mut i: usize = 0;
    while i < items.len()
        invariant
            i <= items@.len(),
            views(a@) == items@.take(i as int).map_values(|x: ResourceEvent| x.object@),
            a@.len() == i,
            views(b@) == items@.take(i as int).map_values(|x: ResourceEvent| x.message@),
            b@.len() == i,
            views(c@) == items@.take(i as int).map_values(|x: ResourceEvent| x.reason@),
            c@.len() == i,
            views(d@) == items@.take(i as int).map_values(|x: ResourceEvent| x.type_@),
            d@.len() == i,
            views(e@) == items@.take(i as int).map_values(|x: ResourceEvent| x.age@),
            e@.len() == i,
        decreases items.len() - i,
    {
        a.push(items[i].object());
        b.push(items[i].message());
        c.push(items[i].reason());
        d.push(items[i].type_());
        e.push(items[i].age());
        proof {
            assert(a@[i as int]@ == items@[i as int].object@);
            assert(views(a@) == items@.take(i + 1).map_values(|x: ResourceEvent| x.object@)) by {
                assert(a@ =~= a@.drop_last().push(a@.last()));
                lemma_views_push(a@.drop_last(), a@.last());
                assert(items@.take(i + 1) =~= items@.take(i as int).push(items@[i as int]));
                assert(items@.take(i + 1).map_values(|x: ResourceEvent| x.object@) =~= items@.take(i as int).map_values(|x: ResourceEvent| x.object@).push(items@[i as int].object@));
            }
            assert(b@[i as int]@ == items@[i as int].message@);
            assert(views(b@) == items@.take(i + 1).map_values(|x: ResourceEvent| x.message@)) by {
                assert(b@ =~= b@.drop_last().push(b@.last()));
                lemma_views_push(b@.drop_last(), b@.last());
                assert(items@.take(i + 1) =~= items@.take(i as int).push(items@[i as int]));
                assert(items@.take(i + 1).map_values(|x: ResourceEvent| x.message@) =~= items@.take(i as int).map_values(|x: ResourceEvent| x.message@).push(items@[i as int].message@));
            }
            assert(c@[i as int]@ == items@[i as int].reason@);
            assert(views(c@) == items@.take(i + 1).map_values(|x: ResourceEvent| x.reason@)) by {
                assert(c@ =~= c@.drop_last().push(c@.last()));
                lemma_views_push(c@.drop_last(), c@.last());
                assert(items@.take(i + 1) =~= items@.take(i as int).push(items@[i as int]));
                assert(items@.take(i + 1).map_values(|x: ResourceEvent| x.reason@) =~= items@.take(i as int).map_values(|x: ResourceEvent| x.reason@).push(items@[i as int].reason@));
            }
            assert(d@[i as int]@ == items@[i as int].type_@);
            assert(views(d@) == items@.take(i + 1).map_values(|x: ResourceEvent| x.type_@)) by {
                assert(d@ =~= d@.drop_last().push(d@.last()));
                lemma_views_push(d@.drop_last(), d@.last());
                assert(items@.take(i + 1) =~= items@.take(i as int).push(items@[i as int]));
                assert(items@.take(i + 1).map_values(|x: ResourceEvent| x.type_@) =~= items@.take(i as int).map_values(|x: ResourceEvent| x.type_@).push(items@[i as int].type_@));
            }
            assert(e@[i as int]@ == items@[i as int].age@);
            assert(views(e@) == items@.take(i + 1).map_values(|x: ResourceEvent| x.age@)) by {
                assert(e@ =~= e@.drop_last().push(e@.last()));
                lemma_views_push(e@.drop_last(), e@.last());
                assert(items@.take(i + 1) =~= items@.take(i as int).push(items@[i as int]));
                assert(items@.take(i + 1).map_values(|x: ResourceEvent| x.age@) =~= items@.take(i as int).map_values(|x: ResourceEvent| x.age@).push(items@[i as int].age@));
            }
        }
        i = i + 1;
    }
    assert(items@.take(items@.len() as int) =~= items@);
    let w_a = max_width(a.as_slice());
    let w_b = max_width(b.as_slice());
    let w_c = max_width(c.as_slice());
    let w_d = max_width(d.as_slice());
    let w_e = max_width(e.as_slice());
    (w_a as u16, w_b as u16, w_c as u16, w_d as u16, w_e as u16)
}

/// Column widths of the ingress table: name, host, path, backend service and port.
pub fn ingress_constraint_len_calculator(items: &[Ingress]) -> (r: (u16, u16, u16, u16, u16))
    ensures
        r.0 == column_width(items@.map_values(|x: Ingress| x.name@)) as u16,
        all_printable(items@.map_values(|x: Ingress| x.name@)) ==> r.0 == ascii_column_width(items@.map_values(|x: Ingress| x.name@)) as u16,
        r.1 == column_width(items@.map_values(|x: Ingress| x.host@)) as u16,
        all_printable(items@.map_values(|x: Ingress| x.host@)) ==> r.1 == ascii_column_width(items@.map_values(|x: Ingress| x.host@)) as u16,
        r.2 == column_width(items@.map_values(|x: Ingress| x.path@)) as u16,
        all_printable(items@.map_values(|x: Ingress| x.path@)) ==> r.2 == ascii_column_width(items@.map_values(|x: Ingress| x.path@)) as u16,
        r.3 == column_width(items@.map_values(|x: Ingress| x.backend_svc@)) as u16,
        all_printable(items@.map_values(|x: Ingress| x.backend_svc@)) ==> r.3 == ascii_column_width(items@.map_values(|x: Ingress| x.backend_svc@)) as u16,
        r.4 == column_width(items@.map_values(|x: Ingress| x.port@)) as u16,
        all_printable(items@.map_values(|x: Ingress| x.port@)) ==> r.4 == ascii_column_width(items@.map_values(|x: Ingress| x.port@)) as u16,
{
    let mut a: Vec<&str> = Vec::new();
    let mut b: Vec<&str> = Vec::new();
    let mut c: Vec<&str> = Vec::new();
    let mut d: Vec<&str> = Vec::new();
    let mut e: Vec<&str> = Vec::new();
    let mut i: usize = 0;
    while i < items.len()
        invariant
            i <= items@.len(),
            views(a@) == items@.take(i as int).map_values(|x: Ingress| x.name@),
            a@.len() == i,
            views(b@) == items@.take(i as int).map_values(|x: Ingress| x.host@),
            b@.len() == i,
            views(c@) == items@.take(i as int).map_values(|x: Ingress| x.path@),
            c@.len() == i,
            views(d@) == items@.take(i as int).map_values(|x: Ingress| x.backend_svc@),
            d@.len() == i,
            views(e@) == items@.take(i as int).map_values(|x: Ingress| x.port@),
            e@.len() == i,
        decreases items.len() - i,
    {
        a.push(items[i].name());
        b.push(items[i].host());
        c.push(items[i].path());
        d.push(items[i].backend_svc());
        e.push(items[i].port());
        proof {
            assert(a@[i as int]@ == items@[i as int].name@);
            assert(views(a@) == items@.take(i + 1).map_values(|x: Ingress| x.name@)) by {
                assert(a@ =~= a@.drop_last().push(a@.last()));
                lemma_views_push(a@.drop_last(), a@.last());
                assert(items@.take(i + 1) =~= items@.take(i as int).push(items@[i as int]));
                assert(items@.take(i + 1).map_values(|x: Ingress| x.name@) =~= items@.take(i as int).map_values(|x: Ingress| x.name@).push(items@[i as int].name@));
            }
            assert(b@[i as int]@ == items@[i as int].host@);
            assert(views(b@) == items@.take(i + 1).map_values(|x: Ingress| x.host@)) by {
                assert(b@ =~= b@.drop_last().push(b@.last()));
                lemma_views_push(b@.drop_last(), b@.last());
                assert(items@.take(i + 1) =~= items@.take(i as int).push(items@[i as int]));
                assert(items@.take(i + 1).map_values(|x: Ingress| x.host@) =~= items@.take(i as int).map_values(|x: Ingress| x.host@).push(items@[i as int].host@));
            }
            assert(c@[i as int]@ == items@[i as int].path@);
            assert(views(c@) == items@.take(i + 1).map_values(|x: Ingress| x.path@)) by {
                assert(c@ =~= c@.drop_last().push(c@.last()));
                lemma_views_push(c@.drop_last(), c@.last());
                assert(items@.take(i + 1) =~= items@.take(i as int).push(items@[i as int]));
                assert(items@.take(i + 1).map_values(|x: Ingress| x.path@) =~= items@.take(i as int).map_values(|x: Ingress| x.path@).push(items@[i as int].path@));
            }
            assert(d@[i as int]@ == items@[i as int].backend_svc@);
            assert(views(d@) == items@.take(i + 1).map_values(|x: Ingress| x.backend_svc@)) by {
                assert(d@ =~= d@.drop_last().push(d@.last()));
                lemma_views_push(d@.drop_last(), d@.last());
                assert(items@.take(i + 1) =~= items@.take(i as int).push(items@[i as int]));
                assert(items@.take(i + 1).map_values(|x: Ingress| x.backend_svc@) =~= items@.take(i as int).map_values(|x: Ingress| x.backend_svc@).push(items@[i as int].backend_svc@));
            }
            assert(e@[i as int]@ == items@[i as int].port@);
            assert(views(e@) == items@.take(i + 1).map_values(|x: Ingress| x.port@)) by {
                assert(e@ =~= e@.drop_last().push(e@.last()));
                lemma_views_push(e@.drop_last(), e@.last());
                assert(items@.take(i + 1) =~= items@.take(i as int).push(items@[i as int]));
                assert(items@.take(i + 1).map_values(|x: Ingress| x.port@) =~= items@.take(i as int).map_values(|x: Ingress| x.port@).push(items@[i as int].port@));
            }
        }
        i = i + 1;
    }
    assert(items@.take(items@.len() as int) =~= items@);
    let w_a = max_width(a.as_slice());
    let w_b = max_width(b.as_slice());
    let w_c = max_width(c.as_slice());
    let w_d = max_width(d.as_slice());
    let w_e = max_width(e.as_slice());
    (w_a as u16, w_b as u16, w_c as u16, w_d as u16, w_e as u16)
}

/// Column widths of the workload table: name, pods, age, description (widest line) and owner.
pub fn rs_constraint_len_calculator(items: &[Rs]) -> (r: (u16, u16, u16, u16, u16))
    ensures
        r.0 == column_width(items@.map_values(|x: Rs| x.name@)) as u16,
        all_printable(items@.map_values(|x: Rs| x.name@)) ==> r.0 == ascii_column_width(items@.map_values(|x: Rs| x.name@)) as u16,
        r.1 == column_width(items@.map_values(|x: Rs| x.pods@)) as u16,
        all_printable(items@.map_values(|x: Rs| x.pods@)) ==> r.1 == ascii_column_width(items@.map_values(|x: Rs| x.pods@)) as u16,
        r.2 == column_width(items@.map_values(|x: Rs| x.age@)) as u16,
        all_printable(items@.map_values(|x: Rs| x.age@)) ==> r.2 == ascii_column_width(items@.map_values(|x: Rs| x.age@)) as u16,
        r.3 == column_line_width(items@.map_values(|x: Rs| x.description@)) as u16,
        all_lines_printable(items@.map_values(|x: Rs| x.description@)) ==> r.3 == ascii_column_line_width(items@.map_values(|x: Rs| x.description@)) as u16,
        r.4 == column_width(items@.map_values(|x: Rs| x.owner@)) as u16,
        all_printable(items@.map_values(|x: Rs| x.owner@)) ==> r.4 == ascii_column_width(items@.map_values(|x: Rs| x.owner@)) as u16,
{
    let mut a: Vec<&str> = Vec::new();
    let mut b: Vec<&str> = Vec::new();
    let mut c: Vec<&str> = Vec::new();
    let mut d: Vec<&str> = Vec::new();
    let mut e: Vec<&str> = Vec::new();
    let mut i: usize = 0;
    while i < items.len()
        invariant
            i <= items@.len(),
            views(a@) == items@.take(i as int).map_values(|x: Rs| x.name@),
            a@.len() == i,
            views(b@) == items@.take(i as int).map_values(|x: Rs| x.pods@),
            b@.len() == i,
            views(c@) == items@.take(i as int).map_values(|x: Rs| x.age@),
            c@.len() == i,
            views(d@) == items@.take(i as int).map_values(|x: Rs| x.description@),
            d@.len() == i,
            views(e@) == items@.take(i as int).map_values(|x: Rs| x.owner@),
            e@.len() == i,
        decreases items.len() - i,
    {
        a.push(items[i].name());
        b.push(items[i].pods());
        c.push(items[i].age());
        d.push(items[i].description());
        e.push(items[i].owner());
        proof {
            assert(a@[i as int]@ == items@[i as int].name@);
            assert(views(a@) == items@.take(i + 1).map_values(|x: Rs| x.name@)) by {
                assert(a@ =~= a@.drop_last().push(a@.last()));
                lemma_views_push(a@.drop_last(), a@.last());
                assert(items@.take(i + 1) =~= items@.take(i as int).push(items@[i as int]));
                assert(items@.take(i + 1).map_values(|x: Rs| x.name@) =~= items@.take(i as int).map_values(|x: Rs| x.name@).push(items@[i as int].name@));
            }
            assert(b@[i as int]@ == items@[i as int].pods@);
            assert(views(b@) == items@.take(i + 1).map_values(|x: Rs| x.pods@)) by {
                assert(b@ =~= b@.drop_last().push(b@.last()));
                lemma_views_push(b@.drop_last(), b@.last());
                assert(items@.take(i + 1) =~= items@.take(i as int).push(items@[i as int]));
                assert(items@.take(i + 1).map_values(|x: Rs| x.pods@) =~= items@.take(i as int).map_values(|x: Rs| x.pods@).push(items@[i as int].pods@));
            }
            assert(c@[i as int]@ == items@[i as int].age@);
            assert(views(c@) == items@.take(i + 1).map_values(|x: Rs| x.age@)) by {
                assert(c@ =~= c@.drop_last().push(c@.last()));
                lemma_views_push(c@.drop_last(), c@.last());
                assert(items@.take(i + 1) =~= items@.take(i as int).push(items@[i as int]));
                assert(items@.take(i + 1).map_values(|x: Rs| x.age@) =~= items@.take(i as int).map_values(|x: Rs| x.age@).push(items@[i as int].age@));
            }
            assert(d@[i as int]@ == items@[i as int].description@);
            assert(views(d@) == items@.take(i + 1).map_values(|x: Rs| x.description@)) by {
                assert(d@ =~= d@.drop_last().push(d@.last()));
                lemma_views_push(d@.drop_last(), d@.last());
                assert(items@.take(i + 1) =~= items@.take(i as int).push(items@[i as int]));
                assert(items@.take(i + 1).map_values(|x: Rs| x.description@) =~= items@.take(i as int).map_values(|x: Rs| x.description@).push(items@[i as int].description@));
            }
            assert(e@[i as int]@ == items@[i as int].owner@);
            assert(views(e@) == items@.take(i + 1).map_values(|x: Rs| x.owner@)) by {
                assert(e@ =~= e@.drop_last().push(e@.last()));
                lemma_views_push(e@.drop_last(), e@.last());
                assert(items@.take(i + 1) =~= items@.take(i as int).push(items@[i as int]));
                assert(items@.take(i + 1).map_values(|x: Rs| x.owner@) =~= items@.take(i as int).map_values(|x: Rs| x.owner@).push(items@[i as int].owner@));
            }
        }
        i = i + 1;
    }
    assert(items@.take(items@.len() as int) =~= items@);
    let w_a = max_width(a.as_slice());
    let w_b = max_width(b.as_slice());
    let w_c = max_width(c.as_slice());
    let w_d = max_line_width(d.as_slice());
    let w_e = max_width(e.as_slice());
    (w_a as u16, w_b as u16, w_c as u16, w_d as u16, w_e as u16)
}

/// Column widths of the pod table: name, status, containers, age and description (widest line).
pub fn pod_constraint_len_calculator(items: &[RsPod]) -> (r: (u16, u16, u16, u16, u16))
    ensures
        r.0 == column_width(items@.map_values(|x: RsPod| x.name@)) as u16,
        all_printable(items@.map_values(|x: RsPod| x.name@)) ==> r.0 == ascii_column_width(items@.map_values(|x: RsPod| x.name@)) as u16,
        r.1 == column_width(items@.map_values(|x: RsPod| x.status@)) as u16,
        all_printable(items@.map_values(|x: RsPod| x.status@)) ==> r.1 == ascii_column_width(items@.map_values(|x: RsPod| x.status@)) as u16,
        r.2 == column_width(items@.map_values(|x: RsPod| x.containers@)) as u16,
        all_printable(items@.map_values(|x: RsPod| x.containers@)) ==> r.2 == ascii_column_width(items@.map_values(|x: RsPod| x.containers@)) as u16,
        r.3 == column_width(items@.map_values(|x: RsPod| x.age@)) as u16,
        all_printable(items@.map_values(|x: RsPod| x.age@)) ==> r.3 == ascii_column_width(items@.map_values(|x: RsPod| x.age@)) as u16,
        r.4 == column_line_width(items@.map_values(|x: RsPod| x.description@)) as u16,
        all_lines_printable(items@.map_values(|x: RsPod| x.description@)) ==> r.4 == ascii_column_line_width(items@.map_values(|x: RsPod| x.description@)) as u16,
{
    let mut a: Vec<&str> = Vec::new();
    let mut b: Vec<&str> = Vec::new();
    let mut c: Vec<&str> = Vec::new();
    let mut d: Vec<&str> = Vec::new();
    let mut e: Vec<&str> = Vec::new();
    let mut i: usize = 0;
    while i < items.len()
        invariant
            i <= items@.len(),
            views(a@) == items@.take(i as int).map_values(|x: RsPod| x.name@),
            a@.len() == i,
            views(b@) == items@.take(i as int).map_values(|x: RsPod| x.status@),
            b@.len() == i,
            views(c@) == items@.take(i as int).map_values(|x: RsPod| x.description@),
            c@.len() == i,
            views(d@) == items@.take(i as int).map_values(|x: RsPod| x.age@),
            d@.len() == i,
            views(e@) == items@.take(i as int).map_values(|x: RsPod| x.containers@),
            e@.len() == i,
        decreases items.len() - i,
    {
        a.push(items[i].name());
        b.push(items[i].status());
        c.push(items[i].description());
        d.push(items[i].age());
        e.push(items[i].containers());
        proof {
            assert(a@[i as int]@ == items@[i as int].name@);
            assert(views(a@) == items@.take(i + 1).map_values(|x: RsPod| x.name@)) by {
                assert(a@ =~= a@.drop_last().push(a@.last()));
                lemma_views_push(a@.drop_last(), a@.last());
                assert(items@.take(i + 1) =~= items@.take(i as int).push(items@[i as int]));
                assert(items@.take(i + 1).map_values(|x: RsPod| x.name@) =~= items@.take(i as int).map_values(|x: RsPod| x.name@).push(items@[i as int].name@));
            }
            assert(b@[i as int]@ == items@[i as int].status@);
            assert(views(b@) == items@.take(i + 1).map_values(|x: RsPod| x.status@)) by {
                assert(b@ =~= b@.drop_last().push(b@.last()));
                lemma_views_push(b@.drop_last(), b@.last());
                assert(items@.take(i + 1) =~= items@.take(i as int).push(items@[i as int]));
                assert(items@.take(i + 1).map_values(|x: RsPod| x.status@) =~= items@.take(i as int).map_values(|x: RsPod| x.status@).push(items@[i as int].status@));
            }
            assert(c@[i as int]@ == items@[i as int].description@);
            assert(views(c@) == items@.take(i + 1).map_values(|x: RsPod| x.description@)) by {
                assert(c@ =~= c@.drop_last().push(c@.last()));
                lemma_views_push(c@.drop_last(), c@.last());
                assert(items@.take(i + 1) =~= items@.take(i as int).push(items@[i as int]));
                assert(items@.take(i + 1).map_values(|x: RsPod| x.description@) =~= items@.take(i as int).map_values(|x: RsPod| x.description@).push(items@[i as int].description@));
            }
            assert(d@[i as int]@ == items@[i as int].age@);
            assert(views(d@) == items@.take(i + 1).map_values(|x: RsPod| x.age@)) by {
                assert(d@ =~= d@.drop_last().push(d@.last()));
                lemma_views_push(d@.drop_last(), d@.last());
                assert(items@.take(i + 1) =~= items@.take(i as int).push(items@[i as int]));
                assert(items@.take(i + 1).map_values(|x: RsPod| x.age@) =~= items@.take(i as int).map_values(|x: RsPod| x.age@).push(items@[i as int].age@));
            }
            assert(e@[i as int]@ == items@[i as int].containers@);
            assert(views(e@) == items@.take(i + 1).map_values(|x: RsPod| x.containers@)) by {
                assert(e@ =~= e@.drop_last().push(e@.last()));
                lemma_views_push(e@.drop_last(), e@.last());
                assert(items@.take(i + 1) =~= items@.take(i as int).push(items@[i as int]));
                assert(items@.take(i + 1).map_values(|x: RsPod| x.containers@) =~= items@.take(i as int).map_values(|x: RsPod| x.containers@).push(items@[i as int].containers@));
            }
        }
        i = i + 1;
    }
    assert(items@.take(items@.len() as int) =~= items@);
    let w_a = max_width(a.as_slice());
    let w_b = max_width(b.as_slice());
    let w_c = max_line_width(c.as_slice());
    let w_d = max_width(d.as_slice());
    let w_e = max_width(e.as_slice());
    (w_a as u16, w_b as u16, w_e as u16, w_d as u16, w_c as u16)
}

/// Column widths of the certificate table: host, validity, expiry (widest line) and issuer.
pub fn cert_constraint_len_calculator(items: &[Cert]) -> (r: (u16, u16, u16, u16))
    ensures
        r.0 == column_width(items@.map_values(|x: Cert| x.host@)) as u16,
        all_printable(items@.map_values(|x: Cert| x.host@)) ==> r.0 == ascii_column_width(items@.map_values(|x: Cert| x.host@)) as u16,
        r.1 == column_width(items@.map_values(|x: Cert| x.is_valid@)) as u16,
        all_printable(items@.map_values(|x: Cert| x.is_valid@)) ==> r.1 == ascii_column_width(items@.map_values(|x: Cert| x.is_valid@)) as u16,
        r.2 == column_line_width(items@.map_values(|x: Cert| x.expires@)) as u16,
        all_lines_printable(items@.map_values(|x: Cert| x.expires@)) ==> r.2 == ascii_column_line_width(items@.map_values(|x: Cert| x.expires@)) as u16,
        r.3 == column_width(items@.map_values(|x: Cert| x.issued_by@)) as u16,
        all_printable(items@.map_values(|x: Cert| x.issued_by@)) ==> r.3 == ascii_column_width(items@.map_values(|x: Cert| x.issued_by@)) as u16,
{
    let mut a: Vec<&str> = Vec::new();
    let mut b: Vec<&str> = Vec::new();
    let mut c: Vec<&str> = Vec::new();
    let mut d: Vec<&str> = Vec::new();
    let mut i: usize = 0;
    while i < items.len()
        invariant
            i <= items@.len(),
            views(a@) == items@.take(i as int).map_values(|x: Cert| x.host@),
            a@.len() == i,
            views(b@) == items@.take(i as int).map_values(|x: Cert| x.is_valid@),
            b@.len() == i,
            views(c@) == items@.take(i as int).map_values(|x: Cert| x.expires@),
            c@.len() == i,
            views(d@) == items@.take(i as int).map_values(|x: Cert| x.issued_by@),
            d@.len() == i,
        decreases items.len() - i,
    {
        a.push(items[i].host());
        b.push(items[i].is_valid());
        c.push(items[i].expires());
        d.push(items[i].issued_by());
        proof {
            assert(a@[i as int]@ == items@[i as int].host@);
            assert(views(a@) == items@.take(i + 1).map_values(|x: Cert| x.host@)) by {
                assert(a@ =~= a@.drop_last().push(a@.last()));
                lemma_views_push(a@.drop_last(), a@.last());
                assert(items@.take(i + 1) =~= items@.take(i as int).push(items@[i as int]));
                assert(items@.take(i + 1).map_values(|x: Cert| x.host@) =~= items@.take(i as int).map_values(|x: Cert| x.host@).push(items@[i as int].host@));
            }
            assert(b@[i as int]@ == items@[i as int].is_valid@);
            assert(views(b@) == items@.take(i + 1).map_values(|x: Cert| x.is_valid@)) by {
                assert(b@ =~= b@.drop_last().push(b@.last()));
                lemma_views_push(b@.drop_last(), b@.last());
                assert(items@.take(i + 1) =~= items@.take(i as int).push(items@[i as int]));
                assert(items@.take(i + 1).map_values(|x: Cert| x.is_valid@) =~= items@.take(i as int).map_values(|x: Cert| x.is_valid@).push(items@[i as int].is_valid@));
            }
            assert(c@[i as int]@ == items@[i as int].expires@);
            assert(views(c@) == items@.take(i + 1).map_values(|x: Cert| x.expires@)) by {
                assert(c@ =~= c@.drop_last().push(c@.last()));
                lemma_views_push(c@.drop_last(), c@.last());
                assert(items@.take(i + 1) =~= items@.take(i as int).push(items@[i as int]));
                assert(items@.take(i + 1).map_values(|x: Cert| x.expires@) =~= items@.take(i as int).map_values(|x: Cert| x.expires@).push(items@[i as int].expires@));
            }
            assert(d@[i as int]@ == items@[i as int].issued_by@);
            assert(views(d@) == items@.take(i + 1).map_values(|x: Cert| x.issued_by@)) by {
                assert(d@ =~= d@.drop_last().push(d@.last()));
                lemma_views_push(d@.drop_last(), d@.last());
                assert(items@.take(i + 1) =~= items@.take(i as int).push(items@[i as int]));
                assert(items@.take(i + 1).map_values(|x: Cert| x.issued_by@) =~= items@.take(i as int).map_values(|x: Cert| x.issued_by@).push(items@[i as int].issued_by@));
            }
        }
        i = i + 1;
    }
    assert(items@.take(items@.len() as int) =~= items@);
    let w_a = max_width(a.as_slice());
    let w_b = max_width(b.as_slice());
    let w_c = max_line_width(c.as_slice());
    let w_d = max_width(d.as_slice());
    (w_a as u16, w_b as u16, w_c as u16, w_d as u16)
}

/// Column widths of the container table: name, then description, restarts, image and ports (each by its widest line).
pub fn container_constraint_len_calculator(items: &[Container]) -> (r: (u16, u16, u16, u16, u16))
    ensures
        r.0 == column_width(items@.map_values(|x: Container| x.name@)) as u16,
        all_printable(items@.map_values(|x: Container| x.name@)) ==> r.0 == ascii_column_width(items@.map_values(|x: Container| x.name@)) as u16,
        r.1 == column_line_width(items@.map_values(|x: Container| x.description@)) as u16,
        all_lines_printable(items@.map_values(|x: Container| x.description@)) ==> r.1 == ascii_column_line_width(items@.map_values(|x: Container| x.description@)) as u16,
        r.2 == column_line_width(items@.map_values(|x: Container| x.restarts@)) as u16,
        all_lines_printable(items@.map_values(|x: Container| x.restarts@)) ==> r.2 == ascii_column_line_width(items@.map_values(|x: Container| x.restarts@)) as u16,
        r.3 == column_line_width(items@.map_values(|x: Container| x.image@)) as u16,
        all_lines_printable(items@.map_values(|x: Container| x.image@)) ==> r.3 == ascii_column_line_width(items@.map_values(|x: Container| x.image@)) as u16,
        r.4 == column_line_width(items@.map_values(|x: Container| x.ports@)) as u16,
        all_lines_printable(items@.map_values(|x: Container| x.ports@)) ==> r.4 == ascii_column_line_width(items@.map_values(|x: Container| x.ports@)) as u16,
{
    let mut a: Vec<&str> = Vec::new();
    let mut b: Vec<&str> = Vec::new();
    let mut c: Vec<&str> = Vec::new();
    let mut d: Vec<&str> = Vec::new();
    let mut e: Vec<&str> = Vec::new();
    let mut i: usize = 0;
    while i < items.len()
        invariant
            i <= items@.len(),
            views(a@) == items@.take(i as int).map_values(|x: Container| x.name@),
            a@.len() == i,
            views(b@) == items@.take(i as int).map_values(|x: Container| x.description@),
            b@.len() == i,
            views(c@) == items@.take(i as int).map_values(|x: Container| x.restarts@),
            c@.len() == i,
            views(d@) == items@.take(i as int).map_values(|x: Container| x.image@),
            d@.len() == i,
            views(e@) == items@.take(i as int).map_values(|x: Container| x.ports@),
            e@.len() == i,
        decreases items.len() - i,
    {
        a.push(items[i].container());
        b.push(items[i].description());
        c.push(items[i].restarts());
        d.push(items[i].image());
        e.push(items[i].ports());
        proof {
            assert(a@[i as int]@ == items@[i as int].name@);
            assert(views(a@) == items@.take(i + 1).map_values(|x: Container| x.name@)) by {
                assert(a@ =~= a@.drop_last().push(a@.last()));
                lemma_views_push(a@.drop_last(), a@.last());
                assert(items@.take(i + 1) =~= items@.take(i as int).push(items@[i as int]));
                assert(items@.take(i + 1).map_values(|x: Container| x.name@) =~= items@.take(i as int).map_values(|x: Container| x.name@).push(items@[i as int].name@));
            }
            assert(b@[i as int]@ == items@[i as int].description@);
            assert(views(b@) == items@.take(i + 1).map_values(|x: Container| x.description@)) by {
                assert(b@ =~= b@.drop_last().push(b@.last()));
                lemma_views_push(b@.drop_last(), b@.last());
                assert(items@.take(i + 1) =~= items@.take(i as int).push(items@[i as int]));
                assert(items@.take(i + 1).map_values(|x: Container| x.description@) =~= items@.take(i as int).map_values(|x: Container| x.description@).push(items@[i as int].description@));
            }
            assert(c@[i as int]@ == items@[i as int].restarts@);
            assert(views(c@) == items@.take(i + 1).map_values(|x: Container| x.restarts@)) by {
                assert(c@ =~= c@.drop_last().push(c@.last()));
                lemma_views_push(c@.drop_last(), c@.last());
                assert(items@.take(i + 1) =~= items@.take(i as int).push(items@[i as int]));
                assert(items@.take(i + 1).map_values(|x: Container| x.restarts@) =~= items@.take(i as int).map_values(|x: Container| x.restarts@).push(items@[i as int].restarts@));
            }
            assert(d@[i as int]@ == items@[i as int].image@);
            assert(views(d@) == items@.take(i + 1).map_values(|x: Container| x.image@)) by {
                assert(d@ =~= d@.drop_last().push(d@.last()));
                lemma_views_push(d@.drop_last(), d@.last());
                assert(items@.take(i + 1) =~= items@.take(i as int).push(items@[i as int]));
                assert(items@.take(i + 1).map_values(|x: Container| x.image@) =~= items@.take(i as int).map_values(|x: Container| x.image@).push(items@[i as int].image@));
            }
            assert(e@[i as int]@ == items@[i as int].ports@);
            assert(views(e@) == items@.take(i + 1).map_values(|x: Container| x.ports@)) by {
                assert(e@ =~= e@.drop_last().push(e@.last()));
                lemma_views_push(e@.drop_last(), e@.last());
                assert(items@.take(i + 1) =~= items@.take(i as int).push(items@[i as int]));
                assert(items@.take(i + 1).map_values(|x: Container| x.ports@) =~= items@.take(i as int).map_values(|x: Container| x.ports@).push(items@[i as int].ports@));
            }
        }
        i = i + 1;
    }
    assert(items@.take(items@.len() as int) =~= items@);
    let w_a = max_width(a.as_slice());
    let w_b = max_line_width(b.as_slice());
    let w_c = max_line_width(c.as_slice());
    let w_d = max_line_width(d.as_slice());
    let w_e = max_line_width(e.as_slice());
    (w_a as u16, w_b as u16, w_c as u16, w_d as u16, w_e as u16)
}

// ---------------------------------------------------------------------------
// Comparing rows field by field
// ---------------------------------------------------------------------------

/// Rows that can be compared field by field, as the data streams compare fresh
/// rows with those sent before.
pub trait SameRow: Sized {
    /// The two rows hold the same text in every field.
    spec fn same_row(&self, other: &Self) -> bool;

    /// Whether the two rows hold the same text in every field.
    fn is_same_row(&self, other: &Self) -> (b: bool)
        ensures
            b == self.same_row(other),
    ;
}

/// Two lists hold the same rows, in the same order.
pub open spec fn same_rows<T: SameRow>(a: Seq<T>, b: Seq<T>) -> bool {
    a.len() == b.len() && forall|k: int| 0 <= k < a.len() ==> (#[trigger] a[k]).same_row(&b[k])
}

/// Whether two lists hold the same rows, in the same order.
pub fn rows_are_same<T: SameRow>(a: &Vec<T>, b: &Vec<T>) -> (r: bool)
    ensures
        r == same_rows(a@, b@),
{
    if a.len() != b.len() {
        return false;
    }
    let mut k: usize = 0;
    while k < a.len()
        invariant
            k <= a@.len(),
            a@.len() == b@.len(),
            forall|m: int| 0 <= m < k ==> (#[trigger] a@[m]).same_row(&b@[m]),
        decreases a.len() - k,
    {
        if !a[k].is_same_row(&b[k]) {
            return false;
        }
        k = k + 1;
    }
    true
}

/// The label selectors as text: the labels' names mapped to their values.
pub open spec fn selectors_view(s: Option<BTreeMap<String, String>>) -> Option<Map<Seq<char>, Seq<char>>> {
    match s {
        Some(m) => Some(m.deep_view()),
        None => None,
    }
}

/// Compares two optional label maps with `==` (std's `PartialEq` for `Option`
/// and `BTreeMap`). Claimed: they are equal exactly when both are absent, or
/// both present with the same names mapped to the same values, compared as text.
#[verifier::external_body]
fn same_selectors(a: &Option<BTreeMap<String, String>>, b: &Option<BTreeMap<String, String>>) -> (r: bool)
    ensures
        r == (selectors_view(*a) == selectors_view(*b)),
{
    a == b
}

impl SameRow for ResourceEvent {
    open spec fn same_row(&self, other: &Self) -> bool {
        &&& self.resource_name@ == other.resource_name@
        &&& self.object@ == other.object@
        &&& self.message@ == other.message@
        &&& self.reason@ == other.reason@
        &&& self.type_@ == other.type_@
        &&& self.age@ == other.age@
    }

    fn is_same_row(&self, other: &Self) -> (b: bool) {
        self.resource_name == other.resource_name && self.object == other.object && self.message
            == other.message && self.reason == other.reason && self.type_ == other.type_ && self.age
            == other.age
    }
}

impl SameRow for Rs {
    open spec fn same_row(&self, other: &Self) -> bool {
        &&& self.name@ == other.name@
        &&& self.owner@ == other.owner@
        &&& self.description@ == other.description@
        &&& self.age@ == other.age@
        &&& self.pods@ == other.pods@
        &&& selectors_view(self.selectors) == selectors_view(other.selectors)
        &&& same_rows(self.events@, other.events@)
    }

    fn is_same_row(&self, other: &Self) -> (b: bool) {
        self.name == other.name && self.owner == other.owner && self.description == other.description
            && self.age == other.age && self.pods == other.pods && same_selectors(
            &self.selectors,
            &other.selectors,
        ) && rows_are_same(&self.events, &other.events)
    }
}

// ---------------------------------------------------------------------------
// The labels of a row
// ---------------------------------------------------------------------------

/// `rows` are the labels `m` as (name, value, no extra) rows, sorted by name,
/// each name once.
pub open spec fn label_rows(m: Map<String, String>, rows: Seq<(String, String, Option<String>)>) -> bool {
    &&& rows.len() == m.dom().len()
    &&& forall|k: int|
        0 <= k < rows.len() ==> m.contains_key((#[trigger] rows[k]).0) && m[rows[k].0] == rows[k].1
            && rows[k].2 is None
    &&& forall|i: int, j: int| 0 <= i < j < rows.len() ==> text_lt((#[trigger] rows[i]).0@, (#[trigger] rows[j]).0@)
}

/// Walks a label map with `BTreeMap::iter`, which hands out the entries sorted
/// by name, and copies each entry into a (name, value, no extra) row. Claimed:
/// `label_rows`, with `String`'s order being that of the names' characters.
#[verifier::external_body]
fn label_entries(m: &BTreeMap<String, String>) -> (r: Vec<(String, String, Option<String>)>)
    ensures
        label_rows(m@, r@),
{
    m.iter().map(|(name, value)| (name.clone(), value.clone(), None)).collect()
}

/// The labels of a row as (name, value) rows sorted by name; none without labels.
pub fn label_details(selectors: &Option<BTreeMap<String, String>>) -> (r: Vec<(String, String, Option<String>)>)
    ensures
        match selectors {
            Some(m) => label_rows(m@, r@),
            None => r@.len() == 0,
        },
{
    match selectors {
        Some(m) => label_entries(m),
        None => Vec::new(),
    }
}

} // verus!
