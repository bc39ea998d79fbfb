//! Sparklines: inline trend charts drawn with block characters.
use vstd::prelude::*;

verus! {

/// The sparkline character of level `i` (0 lowest, 7 highest): `▁` .. `█`.
pub open spec fn level_char(i: nat) -> char {
    (0x2581 + i) as char
}

/// The level (0..=7) that a value on the 0-100 scale is drawn at; larger values
/// count as 100.
pub open spec fn level_of(v: u8) -> nat {
    let c: nat = if v > 100 {
        100
    } else {
        v as nat
    };
    (c * 7) / 100
}

/// The sparkline character for a value on the 0-100 scale.
pub open spec fn spark_char(v: u8) -> char {
    level_char(level_of(v))
}

/// Converts a 0-100 value to a sparkline character.
pub fn value_to_char(value: u8) -> (c: char)
    ensures
        c == spark_char(value),
{
    let clamped: u32 = if value > 100 {
        100
    } else {
        value as u32
    };
    let index: u32 = (clamped * 7) / 100;
    assert(index <= 7);
    let chars: [char; 8] = ['▁', '▂', '▃', '▄', '▅', '▆', '▇', '█'];
    let c = chars[index as usize];
    assert(c == level_char(index as nat)) by {
        assert('▁' == level_char(0));
        assert('▂' == level_char(1));
        assert('▃' == level_char(2));
        assert('▄' == level_char(3));
        assert('▅' == level_char(4));
        assert('▆' == level_char(5));
        assert('▇' == level_char(6));
        assert('█' == level_char(7));
    }
    c
}

/// The sum of the values.
pub open spec fn sum_u8(s: Seq<u8>) -> nat
    decreases s.len(),
{
    if s.len() == 0 {
        0
    } else {
        sum_u8(s.drop_last()) + s.last() as nat
    }
}

/// Start of bucket `i` when `len` values are split into `target` buckets.
pub open spec fn bucket_start(i: nat, len: nat, target: nat) -> nat {
    (i * len) / target
}

/// The average of bucket `i`, rounded down; 0 for an empty bucket.
pub open spec fn bucket_average(values: Seq<u8>, i: nat, target: nat) -> nat {
    let len = values.len();
    let st = bucket_start(i, len, target);
    let en0 = bucket_start(i + 1, len, target);
    let en = if en0 < len {
        en0
    } else {
        len
    };
    if en <= st {
        0
    } else {
        sum_u8(values.subrange(st as int, en as int)) / ((en - st) as nat)
    }
}

/// `values` reduced to `target` bucket averages when it is longer than that,
/// unchanged otherwise.
pub open spec fn downsampled(values: Seq<u8>, target: nat) -> Seq<u8> {
    if values.len() <= target {
        values
    } else {
        Seq::new(target, |i: int| bucket_average(values, i as nat, target) as u8)
    }
}

proof fn lemma_sum_le(s: Seq<u8>)
    ensures
        sum_u8(s) <= 255 * s.len(),
    decreases s.len(),
{
    if s.len() > 0 {
        lemma_sum_le(s.drop_last());
    }
}

proof fn lemma_average_fits(s: Seq<u8>)
    requires
        s.len() > 0,
    ensures
        sum_u8(s) / s.len() <= 255,
{
    lemma_sum_le(s);
    assert(sum_u8(s) / s.len() <= 255) by (nonlinear_arith)
        requires
            sum_u8(s) <= 255 * s.len(),
            s.len() > 0,
    ;
}

/// The average of `values[st..en]`, rounded down.
fn average(values: &[u8], st: usize, en: usize) -> (a: u8)
    requires
        st < en <= values@.len(),
    ensures
        a as nat == sum_u8(values@.subrange(st as int, en as int)) / ((en - st) as nat),
{
    let mut sum: u128 = 0;
    let mut k: usize = st;
    while k < en
        invariant
            st <= k <= en,
            en <= values@.len(),
            sum as nat == sum_u8(values@.subrange(st as int, k as int)),
        decreases en - k,
    {
        proof {
            lemma_sum_le(values@.subrange(st as int, k as int));
            assert(values@.subrange(st as int, k + 1).drop_last() =~= values@.subrange(
                st as int,
                k as int,
            ));
        }
        assert(sum + 255 <= u128::MAX) by {
            assert(k - st <= usize::MAX);
            assert(255 * (k - st) + 255 <= u128::MAX) by (nonlinear_arith)
                requires
                    k - st <= usize::MAX,
                    usize::MAX <= u64::MAX,
            ;
        }
        sum = sum + values[k] as u128;
        k = k + 1;
    }
    proof {
        lemma_average_fits(values@.subrange(st as int, en as int));
    }
    (sum / ((en - st) as u128)) as u8
}

fn copy_values(values: &[u8]) -> (r: Vec<u8>)
    ensures
        r@ == values@,
{
    let mut r: Vec<u8> = Vec::new();
    let mut k: usize = 0;
    while k < values.len()
        invariant
            k <= values@.len(),
            r@ == values@.take(k as int),
        decreases values.len() - k,
    {
        r.push(values[k]);
        assert(values@.take(k + 1) =~= values@.take(k as int).push(values@[k as int]));
        k = k + 1;
    }
    assert(values@.take(k as int) =~= values@);
    r
}

/// Downsampling a series longer than `target` gives `target` values, value `i`
/// the mean of bucket `i` rounded down: times the bucket's size it is at most
/// the bucket's sum, and one more times the size exceeds the sum. Bucket `i`
/// holds the values from `i * len / target` up to `(i + 1) * len / target`,
/// both rounded down. A series no longer than `target` is kept as it is.
pub proof fn lemma_downsampled_values_are_bucket_means(values: Seq<u8>, target: nat)
    ensures
        values.len() <= target ==> downsampled(values, target) == values,
        values.len() > target ==> downsampled(values, target).len() == target,
        values.len() > target ==> forall|i: int|
            0 <= i < target ==> {
                let len = values.len();
                let st = (i * len) / (target as int);
                let en = ((i + 1) * len) / (target as int);
                let r = #[trigger] downsampled(values, target)[i] as int;
                st < en <= len ==> {
                    &&& r * (en - st) <= sum_u8(values.subrange(st, en))
                    &&& sum_u8(values.subrange(st, en)) < (r + 1) * (en - st)
                }
            },
{
    if values.len() > target {
        assert forall|i: int| 0 <= i < target implies {
            let len = values.len();
            let st = (i * len) / (target as int);
            let en = ((i + 1) * len) / (target as int);
            let r = #[trigger] downsampled(values, target)[i] as int;
            st < en <= len ==> {
                &&& r * (en - st) <= sum_u8(values.subrange(st, en))
                &&& sum_u8(values.subrange(st, en)) < (r + 1) * (en - st)
            }
        } by {
            let len = values.len();
            let st = (i * len) / (target as int);
            let en = ((i + 1) * len) / (target as int);
            if st < en <= len {
                let b = values.subrange(st, en);
                let n = en - st;
                lemma_average_fits(b);
                let a = sum_u8(b) / (n as nat);
                assert(bucket_start(i as nat, len, target) == st);
                assert(bucket_start((i + 1) as nat, len, target) == en);
                assert(bucket_average(values, i as nat, target) == a);
                assert(downsampled(values, target)[i] as int == a);
                assert(a * n <= sum_u8(b) < (a + 1) * n) by (nonlinear_arith)
                    requires
                        n > 0,
                        a == sum_u8(b) / (n as nat),
                ;
            }
        }
    }
}

/// Downsamples values to `target_len` buckets by averaging each bucket.
///
/// Bucket `i` covers the values from `i * len / target_len` up to
/// `(i + 1) * len / target_len`, both rounded down.
pub fn downsample(values: &[u8], target_len: usize) -> (r: Vec<u8>)
    ensures
        r@ == downsampled(values@, target_len as nat),
{
    if values.len() <= target_len {
        return copy_values(values);
    }
    let len = values.len();
    let mut r: Vec<u8> = Vec::new();
    let mut i: usize = 0;
    while i < target_len
        invariant
            i <= target_len,
            target_len < len,
            len == values@.len(),
            r@.len() == i,
            forall|k: int|
                0 <= k < i ==> #[trigger] r@[k] == bucket_average(
                    values@,
                    k as nat,
                    target_len as nat,
                ) as u8,
        decreases target_len - i,
    {
        assert(i * len <= (i + 1) * len) by (nonlinear_arith);
        assert((i + 1) * len <= len * len) by (nonlinear_arith)
            requires
                i < target_len < len,
        ;
        assert(len * len <= u128::MAX) by (nonlinear_arith)
            requires
                len <= u64::MAX,
        ;
        let st: u128 = (i as u128) * (len as u128) / (target_len as u128);
        let en0: u128 = ((i as u128) + 1) * (len as u128) / (target_len as u128);
        let en: u128 = if en0 < len as u128 {
            en0
        } else {
            len as u128
        };
        let a: u8 = if en <= st {
            0
        } else {
            average(values, st as usize, en as usize)
        };
        proof {
            assert(st == bucket_start(i as nat, len as nat, target_len as nat));
            assert(en0 == bucket_start((i + 1) as nat, len as nat, target_len as nat));
        }
        r.push(a);
        i = i + 1;
    }
    assert(r@ =~= downsampled(values@, target_len as nat));
    r
}

/// The sparkline drawn for `values`: one character per value, after reduction to
/// at most `max_width` buckets.
pub open spec fn sparkline(values: Seq<u8>, max_width: Option<usize>) -> Seq<char> {
    let shown = match max_width {
        Some(w) => downsampled(values, w as nat),
        None => values,
    };
    shown.map_values(|v: u8| spark_char(v))
}

/// A sparkline draws one bar per value shown, in order: the values themselves,
/// or with a width their downsampled means, at most `width` of them. A value
/// `v` is drawn as the bar `▁` + `min(v, 100) * 7 / 100`.
pub proof fn lemma_sparkline_draws_each_value(values: Seq<u8>, max_width: Option<usize>)
    ensures
        ({
            let shown = match max_width {
                Some(w) => downsampled(values, w as nat),
                None => values,
            };
            let line = sparkline(values, max_width);
            &&& line.len() == shown.len()
            &&& max_width matches Some(w) ==> shown.len() == if values.len() <= w { values.len() } else { w as nat }
            &&& forall|i: int| 0 <= i < line.len() ==> #[trigger] line[i] == ((0x2581 + (if shown[i] > 100 {
                100
            } else {
                shown[i] as int
            }) * 7 / 100) as char)
        }),
{
    if let Some(w) = max_width {
        lemma_downsampled_values_are_bucket_means(values, w as nat);
    }
}

/// Higher values never draw lower bars: 0 draws the lowest bar, 100 and above
/// the highest.
pub proof fn lemma_bars_rise_with_values(a: u8, b: u8)
    ensures
        a <= b ==> (spark_char(a) as u32) <= (spark_char(b) as u32),
        spark_char(0) == '▁',
        b >= 100 ==> spark_char(b) == '█',
{
    let ca: nat = if a > 100 { 100 } else { a as nat };
    let cb: nat = if b > 100 { 100 } else { b as nat };
    if a <= b {
        assert(ca * 7 / 100 <= cb * 7 / 100) by (nonlinear_arith)
            requires
                ca <= cb,
        ;
    }
}

/// Renders a sparkline from a series of values on the 0-100 scale, downsampling to
/// at most `max_width` characters when a width is given.
pub fn render_sparkline(values: &[u8], max_width: Option<usize>) -> (s: String)
    ensures
        s@ == sparkline(values@, max_width),
{
    if values.len() == 0 {
        let s = String::new();
        assert(s@ =~= sparkline(values@, max_width));
        return s;
    }
    let shown: Vec<u8> = match max_width {
        Some(width) => {
            if values.len() > width {
                downsample(values, width)
            } else {
                copy_values(values)
            }
        },
        None => copy_values(values),
    };
    let mut s = String::new();
    let mut k: usize = 0;
    while k < shown.len()
        invariant
            k <= shown@.len(),
            s@ == shown@.take(k as int).map_values(|v: u8| spark_char(v)),
        decreases shown.len() - k,
    {
        let c = value_to_char(shown[k]);
        s.push(c);
        assert(shown@.take(k + 1).map_values(|v: u8| spark_char(v)) =~= shown@.take(
            k as int,
        ).map_values(|v: u8| spark_char(v)).push(spark_char(shown@[k as int])));
        k = k + 1;
    }
    assert(shown@.take(shown@.len() as int) =~= shown@);
    s
}

/// Renders a sparkline followed by a space and the trend arrow; empty when there
/// are no values to draw.
pub fn render_sparkline_with_trend(values: &[u8], trend_arrow: &str, max_width: Option<usize>) -> (s:
    String)
    ensures
        sparkline(values@, max_width).len() == 0 ==> s@.len() == 0,
        sparkline(values@, max_width).len() > 0 ==> s@ == sparkline(values@, max_width) + seq![' ']
            + trend_arrow@,
{
    let mut s = render_sparkline(values, max_width);
    if s.as_str().is_empty() {
        String::new()
    } else {
        s.push(' ');
        crate::text::push_str(&mut s, trend_arrow);
        s
    }
}

/// The resource line drawn for usage, limit and a percentage already written
/// out: `usage/limit [percent%]`, then a space, the sparkline of at most ten
/// characters, a space and the trend arrow when there are values to draw.
pub open spec fn resource_line_text(usage: Seq<char>, limit: Seq<char>, percent: Seq<char>, values: Seq<u8>, trend_arrow: Seq<char>) -> Seq<char> {
    let head = usage + "/"@ + limit + " ["@ + percent + "%]"@;
    let spark = sparkline(values, Some(10usize));
    if spark.len() == 0 {
        head
    } else {
        head + " "@ + spark + " "@ + trend_arrow
    }
}

/// A compact resource line: usage, limit, the percentage (as written out by the
/// caller), the sparkline and the trend arrow; see `resource_line_text`.
pub fn resource_line(usage: &str, limit: &str, percent: &str, values: &[u8], trend_arrow: &str) -> (s: String)
    ensures
        s@ == resource_line_text(usage@, limit@, percent@, values@, trend_arrow@),
{
    let spark = render_sparkline(values, Some(10));
    let mut s = String::new();
    crate::text::push_str(&mut s, usage);
    crate::text::push_str(&mut s, "/");
    crate::text::push_str(&mut s, limit);
    crate::text::push_str(&mut s, " [");
    crate::text::push_str(&mut s, percent);
    crate::text::push_str(&mut s, "%]");
    if !spark.as_str().is_empty() {
        crate::text::push_str(&mut s, " ");
        crate::text::push_str(&mut s, spark.as_str());
        crate::text::push_str(&mut s, " ");
        crate::text::push_str(&mut s, trend_arrow);
    }
    proof {
        reveal_strlit("/");
        reveal_strlit(" [");
        reveal_strlit("%]");
        reveal_strlit(" ");
    }
    assert(s@ =~= resource_line_text(usage@, limit@, percent@, values@, trend_arrow@));
    s
}

/// Two values are drawn at levels in the same order as the values.
pub proof fn lemma_spark_level_monotone(a: u8, b: u8)
    requires
        a <= b,
    ensures
        level_of(a) <= level_of(b),
        level_of(b) <= 7,
{
    let ca: nat = if a > 100 {
        100
    } else {
        a as nat
    };
    let cb: nat = if b > 100 {
        100
    } else {
        b as nat
    };
    assert(ca <= cb);
    assert((ca * 7) / 100 <= (cb * 7) / 100) by (nonlinear_arith)
        requires
            ca <= cb,
    ;
    assert((cb * 7) / 100 <= 7) by (nonlinear_arith)
        requires
            cb <= 100,
    ;
}

/// A sparkline has one character per value, or `max_width` characters when the
/// values are more than that.
pub proof fn lemma_sparkline_length(values: Seq<u8>, max_width: Option<usize>)
    ensures
        sparkline(values, max_width).len() == match max_width {
            Some(w) => if values.len() > w {
                w as nat
            } else {
                values.len()
            },
            None => values.len(),
        },
{
}

} // verus!
