//! The settings and decisions of the data streams that feed the views: which
//! rows a view is sent, and where they come from.
use crate::data::{rows_are_same, same_rows, SameRow};
use crate::text::owned;
use vstd::prelude::*;

verus! {

/// Settings of a stream fed from the shared cache.
pub struct CacheStreamConfig {
    /// The cache keys whose updates the stream listens to.
    pub subscription_pattern: String,
    /// How often the cache is polled, in milliseconds.
    pub poll_interval_ms: u64,
    /// How many messages may wait in the stream's channel.
    pub channel_size: usize,
}

impl Default for CacheStreamConfig {
    /// All keys, a poll every second, room for a hundred messages.
    fn default() -> (r: Self)
        ensures
            r.subscription_pattern@ == "*"@,
            r.poll_interval_ms == 1000,
            r.channel_size == 100,
    {
        CacheStreamConfig { subscription_pattern: owned("*"), poll_interval_ms: 1000, channel_size: 100 }
    }
}

/// Makes the data streams of the views.
pub struct StreamFactory;

/// Rows are sent to a view when there are some and they differ, field by
/// field, from those it was sent last (for a cache stream, those it started
/// with).
pub open spec fn publishes<T: SameRow>(rows: Seq<T>, last: Seq<T>) -> bool {
    rows.len() > 0 && !same_rows(rows, last)
}

/// What woke a cache stream up.
#[derive(Clone, Copy, Debug, PartialEq, Eq, Structural)]
pub enum CacheTrigger {
    /// The first look at the cache when the stream starts.
    Initial,
    /// A cache update for the stream's subscription.
    Update,
    /// The poll interval passed and the cache had the rows.
    Poll,
    /// The poll interval passed, the cache missed, and stale rows were found.
    Stale,
}

/// What a cache stream does with the rows it read, in order.
#[derive(Clone, Copy, Debug, PartialEq, Eq, Structural)]
pub enum CacheStep {
    /// Nothing.
    Skip,
    /// Send the rows to the view.
    Send,
    /// Start fetching what the rows lead to ahead of time, and send nothing.
    Prefetch,
    /// Start fetching what the rows lead to ahead of time, then send the rows.
    PrefetchThenSend,
}

/// The step of a cache stream for rows read on `trigger`: rows are sent when
/// they are worth publishing against those the view started with. With a
/// prefetch configured, the prefetch comes first: on the first look and on an
/// update only for rows that are sent, on a poll hit for any rows; stale rows
/// never prefetch.
pub open spec fn cache_step_of<T: SameRow>(rows: Seq<T>, initial: Seq<T>, trigger: CacheTrigger, prefetch: bool) -> CacheStep {
    let send = publishes(rows, initial);
    let pre = prefetch && match trigger {
        CacheTrigger::Initial | CacheTrigger::Update => send,
        CacheTrigger::Poll => true,
        CacheTrigger::Stale => false,
    };
    if pre && send {
        CacheStep::PrefetchThenSend
    } else if pre {
        CacheStep::Prefetch
    } else if send {
        CacheStep::Send
    } else {
        CacheStep::Skip
    }
}

/// Where the rows of one source come from: the cache when it has them; on a
/// miss, the API's answer when it gave one; else the stale cache entry; else none.
pub open spec fn picked_rows<T>(cached: Option<Vec<T>>, fetched: Option<Vec<T>>, stale: Option<Vec<T>>) -> Seq<T> {
    match cached {
        Some(v) => v@,
        None => match fetched {
            Some(v) => v@,
            None => match stale {
                Some(v) => v@,
                None => Seq::empty(),
            },
        },
    }
}

impl StreamFactory {
    /// Whether fresh rows are sent to the view: there are some, and they are
    /// not the same, field by field, as `initial`.
    pub fn should_publish<T: SameRow>(rows: &Vec<T>, initial: &Vec<T>) -> (b: bool)
        ensures
            b == publishes(rows@, initial@),
    {
        rows.len() > 0 && !rows_are_same(rows, initial)
    }

    /// Whether rows differ, field by field, from the last rows sent.
    pub fn differs<T: SameRow>(rows: &Vec<T>, last: &Vec<T>) -> (b: bool)
        ensures
            b == !same_rows(rows@, last@),
    {
        !rows_are_same(rows, last)
    }

    /// What a cache stream does with the rows it read; see `cache_step_of`.
    pub fn cache_step<T: SameRow>(rows: &Vec<T>, initial: &Vec<T>, trigger: CacheTrigger, prefetch: bool) -> (s: CacheStep)
        ensures
            s == cache_step_of(rows@, initial@, trigger, prefetch),
    {
        let send = Self::should_publish(rows, initial);
        let pre = prefetch && match trigger {
            CacheTrigger::Initial | CacheTrigger::Update => send,
            CacheTrigger::Poll => true,
            CacheTrigger::Stale => false,
        };
        if pre && send {
            CacheStep::PrefetchThenSend
        } else if pre {
            CacheStep::Prefetch
        } else if send {
            CacheStep::Send
        } else {
            CacheStep::Skip
        }
    }

    /// The rows of one source after a cache lookup, and on a miss the API call
    /// and the stale entry.
    pub fn pick_rows<T>(cached: Option<Vec<T>>, fetched: Option<Vec<T>>, stale: Option<Vec<T>>) -> (r: Vec<T>)
        ensures
            r@ == picked_rows(cached, fetched, stale),
    {
        match cached {
            Some(v) => v,
            None => match fetched {
                Some(v) => v,
                None => match stale {
                    Some(v) => v,
                    None => Vec::new(),
                },
            },
        }
    }

    /// Whether rows fetched from the API go into the cache: when there are some.
    pub fn caches_fetched<T>(rows: &Vec<T>) -> (b: bool)
        ensures
            b == (rows@.len() > 0),
    {
        rows.len() > 0
    }
}

/// The rows a cache stream sends when it reads `reads` in turn, each with what
/// woke it up.
pub open spec fn cache_sends<T: SameRow>(initial: Seq<T>, reads: Seq<(Seq<T>, CacheTrigger)>, prefetch: bool) -> Seq<Seq<T>>
    decreases reads.len(),
{
    if reads.len() == 0 {
        seq![]
    } else {
        let rest = cache_sends(initial, reads.skip(1), prefetch);
        match cache_step_of(reads[0].0, initial, reads[0].1, prefetch) {
            CacheStep::Send | CacheStep::PrefetchThenSend => seq![reads[0].0] + rest,
            _ => rest,
        }
    }
}

/// A cache stream sends only rows it read that have rows and are not the same
/// as those the view started with; and with a prefetch configured, every send
/// on the first look or on an update comes right after its prefetch.
pub proof fn lemma_cache_stream_sends_changes<T: SameRow>(initial: Seq<T>, reads: Seq<(Seq<T>, CacheTrigger)>, prefetch: bool)
    ensures
        forall|k: int| 0 <= k < cache_sends(initial, reads, prefetch).len() ==> {
            let x = #[trigger] cache_sends(initial, reads, prefetch)[k];
            &&& x.len() > 0
            &&& !same_rows(x, initial)
            &&& exists|j: int| 0 <= j < reads.len() && reads[j].0 == x
        },
        forall|j: int| 0 <= j < reads.len() && prefetch && (reads[j].1 == CacheTrigger::Initial
            || reads[j].1 == CacheTrigger::Update) && publishes(reads[j].0, initial) ==> #[trigger] cache_step_of(
            reads[j].0,
            initial,
            reads[j].1,
            prefetch,
        ) == CacheStep::PrefetchThenSend,
    decreases reads.len(),
{
    if reads.len() > 0 {
        lemma_cache_stream_sends_changes(initial, reads.skip(1), prefetch);
        let rest = cache_sends(initial, reads.skip(1), prefetch);
        let e = cache_sends(initial, reads, prefetch);
        let sent = match cache_step_of(reads[0].0, initial, reads[0].1, prefetch) {
            CacheStep::Send | CacheStep::PrefetchThenSend => true,
            _ => false,
        };
        assert forall|k: int| 0 <= k < e.len() implies {
            let x = #[trigger] e[k];
            &&& x.len() > 0
            &&& !same_rows(x, initial)
            &&& exists|j: int| 0 <= j < reads.len() && reads[j].0 == x
        } by {
            if sent && k == 0 {
                assert(e[0] == reads[0].0);
            } else {
                let r: int = if sent { k - 1 } else { k };
                assert(e[k] == rest[r]);
                let j = choose|j: int| 0 <= j < reads.skip(1).len() && reads.skip(1)[j].0 == rest[r];
                assert(reads[j + 1].0 == e[k]);
            }
        }
    }
}

/// The rows among `reads` whose step sends them, in order.
pub open spec fn sent_rows<T>(reads: Seq<(Seq<T>, CacheTrigger)>, steps: Seq<CacheStep>) -> Seq<Seq<T>>
    decreases reads.len(),
{
    if reads.len() == 0 || steps.len() == 0 {
        seq![]
    } else {
        let rest = sent_rows(reads.skip(1), steps.skip(1));
        match steps[0] {
            CacheStep::Send | CacheStep::PrefetchThenSend => seq![reads[0].0] + rest,
            _ => rest,
        }
    }
}

/// A cache stream that asks `StreamFactory::cache_step` about each read in
/// turn, `steps[i]` being the answer for `reads[i]`, sends exactly the rows
/// `cache_sends` gives.
pub proof fn lemma_cache_steps_follow_sends<T: SameRow>(
    initial: Seq<T>,
    reads: Seq<(Seq<T>, CacheTrigger)>,
    prefetch: bool,
    steps: Seq<CacheStep>,
)
    requires
        steps.len() == reads.len(),
        forall|i: int| 0 <= i < reads.len() ==> #[trigger] steps[i] == cache_step_of(reads[i].0, initial, reads[i].1, prefetch),
    ensures
        sent_rows(reads, steps) == cache_sends(initial, reads, prefetch),
    decreases reads.len(),
{
    if reads.len() > 0 {
        let st = steps.skip(1);
        assert forall|i: int| 0 <= i < reads.skip(1).len() implies #[trigger] st[i] == cache_step_of(
            reads.skip(1)[i].0,
            initial,
            reads.skip(1)[i].1,
            prefetch,
        ) by {
            assert(steps[i + 1] == cache_step_of(reads[i + 1].0, initial, reads[i + 1].1, prefetch));
        }
        lemma_cache_steps_follow_sends(initial, reads.skip(1), prefetch, st);
        assert(steps[0] == cache_step_of(reads[0].0, initial, reads[0].1, prefetch));
    }
}

/// A cache stream that asks `StreamFactory::cache_step` about each read in
/// turn (`steps[i]` the answer for `reads[i]`) sends only rows it read that
/// have rows and are not the same as those the view started with; with a
/// prefetch configured, every send on the first look or on an update comes
/// right after its prefetch.
pub proof fn lemma_cache_stream_sends_only_changes<T: SameRow>(
    initial: Seq<T>,
    reads: Seq<(Seq<T>, CacheTrigger)>,
    prefetch: bool,
    steps: Seq<CacheStep>,
)
    requires
        steps.len() == reads.len(),
        forall|i: int| 0 <= i < reads.len() ==> #[trigger] steps[i] == cache_step_of(reads[i].0, initial, reads[i].1, prefetch),
    ensures
        forall|k: int| 0 <= k < sent_rows(reads, steps).len() ==> {
            let x = #[trigger] sent_rows(reads, steps)[k];
            &&& x.len() > 0
            &&& !same_rows(x, initial)
            &&& exists|j: int| 0 <= j < reads.len() && reads[j].0 == x
        },
        forall|j: int| 0 <= j < reads.len() && prefetch && (reads[j].1 == CacheTrigger::Initial
            || reads[j].1 == CacheTrigger::Update) && publishes(reads[j].0, initial) ==> #[trigger] steps[j]
            == CacheStep::PrefetchThenSend,
{
    lemma_cache_steps_follow_sends(initial, reads, prefetch, steps);
    lemma_cache_stream_sends_changes(initial, reads, prefetch);
    assert forall|j: int| 0 <= j < reads.len() && prefetch && (reads[j].1 == CacheTrigger::Initial
        || reads[j].1 == CacheTrigger::Update) && publishes(reads[j].0, initial) implies #[trigger] steps[j]
        == CacheStep::PrefetchThenSend by {
        assert(steps[j] == cache_step_of(reads[j].0, initial, reads[j].1, prefetch));
    }
}

} // verus!
