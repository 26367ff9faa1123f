//! Host-side aggregation of received measurements.
//!
//! Decoded records are folded into a table of running statistics keyed by
//! metric name: first receipt of a name inserts `(sum: value, count: 1)`,
//! every later receipt adds the value to the sum and one to the count. Sums
//! and counts saturate at the maximum instead of wrapping. Entries are never
//! removed.
//!
//! The table is an explicitly constructed object handed by reference to
//! whatever performs the reporting; a process that wants one shared view
//! wraps one table in its own lock.

use vstd::prelude::*;

verus! {

/// One named running statistic: the sum of all reported values and the
/// number of reports received under that name.
pub struct MetricEntry {
    pub name: String,
    pub sum: u64,
    pub count: u64,
}

/// A table of running statistics keyed by metric name.
pub struct MetricsTable {
    entries: Vec<MetricEntry>,
}

/// The mathematical content of an entry sequence: the map from each name to
/// the sum and count stored beside it.
spec fn entries_map(s: Seq<MetricEntry>) -> Map<Seq<char>, (u64, u64)>
    decreases s.len(),
{
    if s.len() == 0 {
        Map::empty()
    } else {
        entries_map(s.drop_last()).insert(s.last().name@, (s.last().sum, s.last().count))
    }
}

/// The statistic a name holds after one more report of `value`: a fresh
/// `(value, 1)` for an unknown name, otherwise the running pair with `value`
/// added to the sum and one to the count, both saturating.
pub open spec fn spec_incremented(
    m: Map<Seq<char>, (u64, u64)>,
    name: Seq<char>,
    value: u64,
) -> (u64, u64) {
    if m.contains_key(name) {
        (m[name].0.saturating_add(value), m[name].1.saturating_add(1))
    } else {
        (value, 1)
    }
}

proof fn lemma_entries_map_domain(s: Seq<MetricEntry>, name: Seq<char>)
    ensures
        entries_map(s).contains_key(name) <==> exists|i: int|
            0 <= i < s.len() && s[i].name@ == name,
    decreases s.len(),
{
    if s.len() > 0 {
        lemma_entries_map_domain(s.drop_last(), name);
        if exists|i: int| 0 <= i < s.len() && s[i].name@ == name {
            let i = choose|i: int| 0 <= i < s.len() && s[i].name@ == name;
            if i < s.len() - 1 {
                assert(s.drop_last()[i].name@ == name);
            }
        }
    }
}

spec fn names_unique(s: Seq<MetricEntry>) -> bool {
    forall|p: int, q: int| 0 <= p < q < s.len() ==> s[p].name@ != s[q].name@
}

proof fn lemma_entries_map_get(s: Seq<MetricEntry>, i: int)
    requires
        names_unique(s),
        0 <= i < s.len(),
    ensures
        entries_map(s).contains_key(s[i].name@),
        entries_map(s)[s[i].name@] == (s[i].sum, s[i].count),
    decreases s.len(),
{
    if i < s.len() - 1 {
        assert(names_unique(s.drop_last())) by {
            assert(forall|p: int, q: int|
                0 <= p < q < s.drop_last().len() ==> s.drop_last()[p].name@
                    != s.drop_last()[q].name@);
        }
        lemma_entries_map_get(s.drop_last(), i);
        assert(s[i].name@ != s.last().name@);
    }
}

proof fn lemma_entries_map_remove(s: Seq<MetricEntry>, i: int)
    requires
        names_unique(s),
        0 <= i < s.len(),
    ensures
        entries_map(s.remove(i)) == entries_map(s).remove(s[i].name@),
    decreases s.len(),
{
    let name = s[i].name@;
    if i == s.len() - 1 {
        assert(s.remove(i) =~= s.drop_last());
        lemma_entries_map_domain(s.drop_last(), name);
        assert(forall|j: int| 0 <= j < s.drop_last().len() ==> s.drop_last()[j].name@ != name);
        assert(!entries_map(s.drop_last()).contains_key(name));
        assert(entries_map(s.drop_last()).insert(name, (s.last().sum, s.last().count)).remove(name)
            =~= entries_map(s.drop_last()));
    } else {
        assert(names_unique(s.drop_last())) by {
            assert(forall|p: int, q: int|
                0 <= p < q < s.drop_last().len() ==> s.drop_last()[p].name@
                    != s.drop_last()[q].name@);
        }
        lemma_entries_map_remove(s.drop_last(), i);
        assert(s.remove(i).drop_last() =~= s.drop_last().remove(i));
        assert(s.remove(i).last() == s.last());
        assert(name != s.last().name@);
        assert(entries_map(s.drop_last()).remove(name).insert(
            s.last().name@,
            (s.last().sum, s.last().count),
        ) =~= entries_map(s.drop_last()).insert(
            s.last().name@,
            (s.last().sum, s.last().count),
        ).remove(name));
    }
}

impl View for MetricsTable {
    type V = Map<Seq<char>, (u64, u64)>;

    closed spec fn view(&self) -> Map<Seq<char>, (u64, u64)> {
        entries_map(self.entries@)
    }
}

impl MetricsTable {
    /// Well-formedness: no metric name occupies two entries. Constructors
    /// establish it and every method preserves it.
    pub closed spec fn wf(&self) -> bool {
        names_unique(self.entries@)
    }

    /// An empty table.
    pub fn new() -> (r: MetricsTable)
        ensures
            r.wf(),
            r@ == Map::<Seq<char>, (u64, u64)>::empty(),
    {
        MetricsTable { entries: Vec::new() }
    }

    /// Fold one received measurement into the table: insert `(value, 1)` for
    /// a new name, otherwise add `value` to the running sum and one to the
    /// running count, saturating at the maximum.
    pub fn increment_metric(&mut self, metric: String, value: u64)
        requires
            old(self).wf(),
        ensures
            final(self).wf(),
            final(self)@ == old(self)@.insert(
                metric@,
                spec_incremented(old(self)@, metric@, value),
            ),
    {
        let ghost s0 = self.entries@;
        let n: usize = self.entries.len();
        let mut i: usize = 0;
        while i < n
            invariant
                *self == *old(self),
                names_unique(s0),
                s0 == self.entries@,
                n == s0.len(),
                0 <= i <= n,
                forall|j: int| 0 <= j < i ==> s0[j].name@ != metric@,
            decreases n - i,
        {
            if self.entries[i].name == metric {
                proof {
                    lemma_entries_map_get(s0, i as int);
                    lemma_entries_map_remove(s0, i as int);
                }
                let e = self.entries.remove(i);
                let updated = MetricEntry {
                    name: e.name,
                    sum: e.sum.saturating_add(value),
                    count: e.count.saturating_add(1),
                };
                self.entries.push(updated);
                proof {
                    let s1 = self.entries@;
                    assert(s1 == s0.remove(i as int).push(s1.last()));
                    assert(names_unique(s1)) by {
                        assert(forall|p: int|
                            0 <= p < s1.len() - 1 ==> s1[p] == if p < i as int {
                                s0[p]
                            } else {
                                s0[p + 1]
                            });
                    }
                    assert(s1.drop_last() =~= s0.remove(i as int));
                    assert(entries_map(s1) =~= entries_map(s0).insert(
                        metric@,
                        spec_incremented(entries_map(s0), metric@, value),
                    ));
                }
                return ;
            }
            i = i + 1;
        }
        proof {
            lemma_entries_map_domain(s0, metric@);
        }
        self.entries.push(MetricEntry { name: metric, sum: value, count: 1 });
        proof {
            let s1 = self.entries@;
            assert(s1.drop_last() =~= s0);
            assert(names_unique(s1)) by {
                assert(forall|p: int| 0 <= p < s1.len() - 1 ==> s1[p] == s0[p]);
            }
        }
    }

    /// The running `(sum, count)` recorded under a name, if any report of it
    /// has arrived.
    pub fn get(&self, metric: &str) -> (r: Option<(u64, u64)>)
        requires
            self.wf(),
        ensures
            r == if self@.contains_key(metric@) {
                Some(self@[metric@])
            } else {
                None::<(u64, u64)>
            },
    {
        let sought: String = metric.to_owned();
        let n: usize = self.entries.len();
        let mut i: usize = 0;
        while i < n
            invariant
                sought@ == metric@,
                names_unique(self.entries@),
                n == self.entries@.len(),
                0 <= i <= n,
                forall|j: int| 0 <= j < i ==> self.entries@[j].name@ != metric@,
            decreases n - i,
        {
            if self.entries[i].name == sought {
                proof {
                    lemma_entries_map_get(self.entries@, i as int);
                }
                return Some((self.entries[i].sum, self.entries[i].count));
            }
            i = i + 1;
        }
        proof {
            lemma_entries_map_domain(self.entries@, metric@);
        }
        None
    }

    /// How many distinct names the table holds.
    pub fn len(&self) -> (r: usize)
        requires
            self.wf(),
        ensures
            r == self@.dom().len(),
    {
        proof {
            lemma_entries_map_len(self.entries@);
        }
        self.entries.len()
    }
}

proof fn lemma_entries_map_len(s: Seq<MetricEntry>)
    requires
        names_unique(s),
    ensures
        entries_map(s).dom().len() == s.len(),
        entries_map(s).dom().finite(),
    decreases s.len(),
{
    if s.len() > 0 {
        assert(names_unique(s.drop_last())) by {
            assert(forall|p: int, q: int|
                0 <= p < q < s.drop_last().len() ==> s.drop_last()[p].name@
                    != s.drop_last()[q].name@);
        }
        lemma_entries_map_len(s.drop_last());
        lemma_entries_map_domain(s.drop_last(), s.last().name@);
        assert(forall|j: int| 0 <= j < s.drop_last().len() ==> s.drop_last()[j].name@
            != s.last().name@);
        assert(!entries_map(s.drop_last()).contains_key(s.last().name@));
    }
}

} // verus!
