//! A cache of the filtered row indices and of computed statistics, so that views
//! recompute them only when their inputs change.
use crate::text::{chars_eq, chars_of};
use vstd::prelude::*;

verus! {

/// Cached filter results and statistics of a view.
#[derive(Default, Clone)]
pub struct UiCache {
    pub last_filter: String,
    pub filtered_indices: Vec<usize>,
    pub last_computed_stats: Option<String>,
    pub stats_generation: u64,
}

impl UiCache {
    /// Recomputes the filtered indices when the filter changed since the last
    /// call, and always for the empty filter: all items for an empty filter,
    /// otherwise the items on which `filter_fn` returns true, in order.
    pub fn update_filter_cache<T, F: Fn(&T, &str) -> bool>(
        &mut self,
        filter: &str,
        items: &[T],
        filter_fn: F,
    )
        requires
            forall|i: int| 0 <= i < items@.len() ==> call_requires(filter_fn, (&items@[i], filter)),
        ensures
            old(self).last_filter@ == filter@ && filter@.len() > 0 ==> *final(self) == *old(self),
            old(self).last_filter@ != filter@ || filter@.len() == 0 ==> {
                &&& final(self).last_filter@ == filter@
                &&& final(self).last_computed_stats == old(self).last_computed_stats
                &&& final(self).stats_generation == old(self).stats_generation
                &&& filter@.len() == 0 ==> final(self).filtered_indices@ == Seq::new(
                    items@.len(),
                    |i: int| i as usize,
                )
                &&& filter@.len() > 0 ==> {
                    &&& forall|a: int, b: int|
                        0 <= a < b < final(self).filtered_indices@.len() ==> final(self).filtered_indices@[a] < final(self).filtered_indices@[b]
                    &&& forall|k: int|
                        0 <= k < final(self).filtered_indices@.len() ==> {
                            let i = #[trigger] final(self).filtered_indices@[k];
                            i < items@.len() && call_ensures(filter_fn, (&items@[i as int], filter), true)
                        }
                    &&& forall|i: int|
                        0 <= i < items@.len() && !final(self).filtered_indices@.contains(i as usize)
                            ==> call_ensures(filter_fn, (&items@[i], filter), false)
                }
            },
    {
        let last = chars_of(self.last_filter.as_str());
        let f = chars_of(filter);
        if chars_eq(last.as_slice(), f.as_slice()) && f.len() > 0 {
            return ;
        }
        let mut indices: Vec<usize> = Vec::new();
        if f.len() == 0 {
            let mut i: usize = 0;
            while i < items.len()
                invariant
                    i <= items@.len(),
                    indices@ == Seq::new(i as nat, |k: int| k as usize),
                decreases items.len() - i,
            {
                indices.push(i);
                assert(indices@ =~= Seq::new((i + 1) as nat, |k: int| k as usize));
                i = i + 1;
            }
        } else {
            let mut i: usize = 0;
            while i < items.len()
                invariant
                    i <= items@.len(),
                    forall|m: int| 0 <= m < items@.len() ==> call_requires(filter_fn, (&items@[m], filter)),
                    forall|a: int, b: int| 0 <= a < b < indices@.len() ==> indices@[a] < indices@[b],
                    forall|k: int| 0 <= k < indices@.len() ==> indices@[k] < i,
                    forall|k: int|
                        0 <= k < indices@.len() ==> {
                            let m = #[trigger] indices@[k];
                            m < items@.len() && call_ensures(filter_fn, (&items@[m as int], filter), true)
                        },
                    forall|m: int|
                        0 <= m < i && !indices@.contains(m as usize) ==> call_ensures(
                            filter_fn,
                            (&items@[m], filter),
                            false,
                        ),
                decreases items.len() - i,
            {
                let keep = filter_fn(&items[i], filter);
                let ghost before = indices@;
                if keep {
                    indices.push(i);
                    assert(indices@[before.len() as int] == i);
                }
                proof {
                    assert forall|m: int|
                        0 <= m < i + 1 && !indices@.contains(m as usize) implies call_ensures(
                        filter_fn,
                        (&items@[m], filter),
                        false,
                    ) by {
                        if m < i {
                            if before.contains(m as usize) {
                                let k = choose|k: int| 0 <= k < before.len() && before[k] == m as usize;
                                assert(indices@[k] == m as usize);
                            }
                        } else if keep {
                            assert(indices@[before.len() as int] == i);
                        }
                    }
                }
                i = i + 1;
            }
        }
        self.filtered_indices = indices;
        self.last_filter = crate::text::string_of(f.as_slice());
    }

    /// The cached filtered indices.
    pub fn get_filtered_indices(&self) -> (r: &[usize])
        ensures
            r@ == self.filtered_indices@,
    {
        self.filtered_indices.as_slice()
    }

    /// Stores computed statistics unless they were computed for this generation
    /// already.
    pub fn update_stats_cache(&mut self, stats: String, generation: u64)
        ensures
            old(self).stats_generation != generation ==> final(self).last_computed_stats == Some(
                stats,
            ) && final(self).stats_generation == generation,
            old(self).stats_generation == generation ==> final(self).last_computed_stats == old(self).last_computed_stats && final(self).stats_generation == old(self).stats_generation,
            final(self).last_filter == old(self).last_filter,
            final(self).filtered_indices == old(self).filtered_indices,
    {
        if self.stats_generation != generation {
            self.last_computed_stats = Some(stats);
            self.stats_generation = generation;
        }
    }

    /// The cached statistics, if any.
    pub fn get_cached_stats(&self) -> (r: Option<&String>)
        ensures
            r matches Some(s) ==> self.last_computed_stats == Some(*s),
            r is None ==> self.last_computed_stats is None,
    {
        match &self.last_computed_stats {
            Some(s) => Some(s),
            None => None,
        }
    }
}

} // verus!
