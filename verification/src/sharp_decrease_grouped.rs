use vstd::prelude::*;

use crate::monitoring::{is_sharp_decrease, spec_sharp_decrease, Diff, Search};
use crate::queries::{
    add_filter, filters_view, range_query, spec_opt_str, spec_range_filter, Buckets,
    TermsCountQuery,
};
use crate::sharp_decrease::clone_doc_type;
use crate::time::{Duration, Timestamp};
use crate::Alert;

verus! {

/// No two entries carry the same key.
spec fn entry_keys_unique(s: Seq<(String, u64)>) -> bool {
    forall|i: int, j: int| 0 <= i < j < s.len() ==> s[i].0@ != s[j].0@
}

/// The mapping an entry list stands for; a later entry for a key replaces an
/// earlier one.
spec fn entries_map(s: Seq<(String, u64)>) -> Map<Seq<char>, u64>
    decreases s.len(),
{
    if s.len() == 0 {
        Map::empty()
    } else {
        entries_map(s.drop_last()).insert(s.last().0@, s.last().1)
    }
}

/// Some entry carries key `k`.
spec fn has_key(s: Seq<(String, u64)>, k: Seq<char>) -> bool {
    exists|i: int| 0 <= i < s.len() && s[i].0@ == k
}

proof fn lemma_entries_map_contains(s: Seq<(String, u64)>, k: Seq<char>)
    ensures
        entries_map(s).dom().contains(k) <==> has_key(s, k),
    decreases s.len(),
{
    if s.len() == 0 {
    } else {
        lemma_entries_map_contains(s.drop_last(), k);
        if k == s.last().0@ {
            assert(s[s.len() - 1].0@ == k);
        } else {
            if has_key(s, k) {
                let i = choose|i: int| 0 <= i < s.len() && s[i].0@ == k;
                assert(s.drop_last()[i].0@ == k);
            }
            if has_key(s.drop_last(), k) {
                let i = choose|i: int| 0 <= i < s.drop_last().len() && s.drop_last()[i].0@ == k;
                assert(s[i].0@ == k);
            }
        }
    }
}

proof fn lemma_entries_map_get(s: Seq<(String, u64)>, i: int)
    requires
        entry_keys_unique(s),
        0 <= i < s.len(),
    ensures
        entries_map(s).dom().contains(s[i].0@),
        entries_map(s)[s[i].0@] == s[i].1,
    decreases s.len(),
{
    if i < s.len() - 1 {
        assert(entry_keys_unique(s.drop_last()));
        lemma_entries_map_get(s.drop_last(), i);
        assert(s[i].0@ != s.last().0@);
    }
}

proof fn lemma_entries_map_remove(s: Seq<(String, u64)>, j: int)
    requires
        entry_keys_unique(s),
        0 <= j < s.len(),
    ensures
        entries_map(s.remove(j)) == entries_map(s).remove(s[j].0@),
    decreases s.len(),
{
    let k = s[j].0@;
    if j == s.len() - 1 {
        assert(s.remove(j) =~= s.drop_last());
        lemma_entries_map_contains(s.drop_last(), k);
        if has_key(s.drop_last(), k) {
            let i = choose|i: int| 0 <= i < s.drop_last().len() && s.drop_last()[i].0@ == k;
            assert(s[i].0@ == s[j].0@);
            assert(false);
        }
        assert(entries_map(s).remove(k) =~= entries_map(s.drop_last()));
    } else {
        assert(entry_keys_unique(s.drop_last()));
        lemma_entries_map_remove(s.drop_last(), j);
        assert(s.remove(j).drop_last() =~= s.drop_last().remove(j));
        assert(s.remove(j).last() == s.last());
        assert(s.last().0@ != k);
        assert(entries_map(s.drop_last()).remove(k).insert(s.last().0@, s.last().1)
            =~= entries_map(s.drop_last()).insert(s.last().0@, s.last().1).remove(k));
    }
}

/// The mapping a bucket list stands for: each bucket's key to its document
/// count, a later bucket for a key replacing an earlier one.
pub open spec fn spec_buckets_map(s: Seq<Buckets>) -> Map<Seq<char>, u64>
    decreases s.len(),
{
    if s.len() == 0 {
        Map::empty()
    } else {
        spec_buckets_map(s.drop_last()).insert(s.last().key@, s.last().doc_count)
    }
}

/// The per-group counts of one window: a mapping from group key to document
/// count, with unique keys and no meaningful order.
pub struct GroupedMetric {
    entries: Vec<(String, u64)>,
}

impl View for GroupedMetric {
    type V = Map<Seq<char>, u64>;

    closed spec fn view(&self) -> Map<Seq<char>, u64> {
        entries_map(self.entries@)
    }
}

fn find_key(entries: &Vec<(String, u64)>, key: &String) -> (r: Option<usize>)
    ensures
        match r {
            Some(j) => 0 <= j < entries@.len() && entries@[j as int].0@ == key@,
            None => forall|i: int| 0 <= i < entries@.len() ==> entries@[i].0@ != key@,
        },
{
    let mut j: usize = 0;
    while j < entries.len()
        invariant
            j <= entries@.len(),
            forall|i: int| 0 <= i < j ==> entries@[i].0@ != key@,
        decreases entries@.len() - j,
    {
        if entries[j].0.eq(key) {
            return Some(j);
        }
        j += 1;
    }
    None
}

impl GroupedMetric {
    /// Every key appears in at most one entry.
    pub closed spec fn wf(&self) -> bool {
        entry_keys_unique(self.entries@)
    }

    /// Assembles the per-group counts from the buckets of a terms-aggregation
    /// response. Should the backend ever repeat a key, the later bucket wins.
    pub fn from_buckets(buckets: &Vec<Buckets>) -> (m: GroupedMetric)
        ensures
            m.wf(),
            m@ == spec_buckets_map(buckets@),
    {
        let mut entries: Vec<(String, u64)> = Vec::new();
        let mut i: usize = 0;
        while i < buckets.len()
            invariant
                i <= buckets@.len(),
                entry_keys_unique(entries@),
                entries_map(entries@) == spec_buckets_map(buckets@.take(i as int)),
            decreases buckets@.len() - i,
        {
            let key = buckets[i].key.clone();
            let cnt = buckets[i].doc_count;
            let ghost before = entries@;
            match find_key(&entries, &key) {
                Some(j) => {
                    proof {
                        lemma_entries_map_remove(before, j as int);
                    }
                    entries.remove(j);
                    proof {
                        assert forall|a: int, b: int|
                            0 <= a < b < entries@.len() implies entries@[a].0@
                            != entries@[b].0@ by {
                            assert(entries@[a] == if a < j { before[a] } else { before[a + 1] });
                            assert(entries@[b] == if b < j { before[b] } else { before[b + 1] });
                        }
                        assert forall|a: int| 0 <= a < entries@.len() implies entries@[a].0@
                            != key@ by {
                            assert(entries@[a] == if a < j { before[a] } else { before[a + 1] });
                        }
                    }
                    let ghost removed = entries@;
                    entries.push((key, cnt));
                    proof {
                        assert(entries@.drop_last() =~= removed);
                        assert(entries_map(entries@) =~= entries_map(before).insert(
                            buckets@[i as int].key@,
                            cnt,
                        ));
                    }
                },
                None => {
                    entries.push((key, cnt));
                    proof {
                        assert(entries@.drop_last() =~= before);
                    }
                },
            }
            proof {
                assert(buckets@.take(i as int + 1).drop_last() =~= buckets@.take(i as int));
                assert(buckets@.take(i as int + 1).last() == buckets@[i as int]);
                assert(entries_map(entries@) =~= spec_buckets_map(buckets@.take(i as int + 1)));
            }
            i += 1;
        }
        proof {
            assert(buckets@.take(buckets@.len() as int) =~= buckets@);
        }
        GroupedMetric { entries }
    }

    /// The count recorded for `key`, if the window has that group at all.
    pub fn get(&self, key: &String) -> (r: Option<u64>)
        requires
            self.wf(),
        ensures
            self@.dom().contains(key@) ==> r == Some(self@[key@]),
            !self@.dom().contains(key@) ==> r is None,
    {
        proof {
            lemma_entries_map_contains(self.entries@, key@);
        }
        match find_key(&self.entries, key) {
            Some(j) => {
                proof {
                    lemma_entries_map_get(self.entries@, j as int);
                }
                Some(self.entries[j].1)
            },
            None => None,
        }
    }
}

/// The count a window records for a key, with zero for a key the window does
/// not have.
pub open spec fn spec_get_or_zero(m: Map<Seq<char>, u64>, k: Seq<char>) -> int {
    if m.dom().contains(k) {
        m[k] as int
    } else {
        0
    }
}

/// The keys a grouped evaluation alerts for: among all keys of either window,
/// exactly those whose pair of counts (absent meaning zero) fails the
/// sharp-decrease test.
pub open spec fn spec_grouped_alerts(
    old: Map<Seq<char>, u64>,
    new: Map<Seq<char>, u64>,
    factor: int,
    look_back: int,
) -> Set<Seq<char>> {
    Set::new(
        |k: Seq<char>|
            (old.dom().contains(k) || new.dom().contains(k)) && spec_sharp_decrease(
                spec_get_or_zero(old, k),
                spec_get_or_zero(new, k),
                factor,
                look_back,
            ),
    )
}

/// The group keys a list of alerts carries.
pub open spec fn spec_alert_keys(s: Seq<Alert>) -> Set<Seq<char>> {
    Set::new(
        |k: Seq<char>|
            exists|t: int| 0 <= t < s.len() && s[t].key is Some && s[t].key.unwrap()@ == k,
    )
}

/// A key absent from the old window never alerts, whatever the new window
/// counts for it: its old count reads as zero, and the scaled new count is
/// never below zero.
pub proof fn lemma_absent_from_old_never_alerts(
    old: Map<Seq<char>, u64>,
    new: Map<Seq<char>, u64>,
    factor: u8,
    look_back: u8,
    k: Seq<char>,
)
    requires
        !old.dom().contains(k),
    ensures
        !spec_grouped_alerts(old, new, factor as int, look_back as int).contains(k),
{
    let n = spec_get_or_zero(new, k);
    assert(0 <= n * factor * look_back) by (nonlinear_arith)
        requires
            0 <= n,
            0 <= factor as int,
            0 <= look_back as int,
    ;
}

/// Some entry among the first `n` of `entries` carries this alert's key and
/// fails the sharp-decrease test against the new window.
spec fn alert_covered(
    entries: Seq<(String, u64)>,
    newm: Map<Seq<char>, u64>,
    f: int,
    l: int,
    n: int,
    a: Alert,
) -> bool {
    exists|e: int|
        0 <= e < n && (#[trigger] entries[e]).0@ == a.key.unwrap()@ && spec_sharp_decrease(
            entries[e].1 as int,
            spec_get_or_zero(newm, entries[e].0@),
            f,
            l,
        )
}

/// A grouped monitor: watches per-group document counts of one search slice
/// and alerts, key by key, when a group's count in the newest interval drops
/// sharply against the preceding `look_back` intervals.
pub struct SharpDecreaseGrouped {
    /// Length of the monitored (new) window.
    pub interval: Duration,
    /// How many interval-lengths the old reference window spans.
    pub look_back: u8,
    /// Tolerated decrease ratio.
    pub factor: u8,
    /// The field whose values group the documents.
    pub key: String,
    /// How many top groups each window reports.
    pub groups_count: u32,
    pub search: Search,
}

impl SharpDecreaseGrouped {
    /// Builds the terms query for one window: the monitor's own filters plus
    /// exactly one range filter on the time field, appended to a fresh copy —
    /// `search.filters` itself is left as it is.
    pub fn terms_query(&self, from: Timestamp, to: Timestamp) -> (q: TermsCountQuery)
        requires
            from.wf(),
            to.wf(),
        ensures
            q.index@ == self.search.index@,
            spec_opt_str(q.doc_type) == spec_opt_str(self.search.doc_type),
            q.key@ == self.key@,
            q.count == self.groups_count,
            filters_view(q.filters@) == filters_view(self.search.filters@).push(
                spec_range_filter(self.search.time_field@, from, to),
            ),
    {
        TermsCountQuery {
            index: self.search.index.clone(),
            doc_type: clone_doc_type(&self.search.doc_type),
            filters: add_filter(
                &self.search.filters,
                range_query(self.search.time_field.clone(), from, to),
            ),
            key: self.key.clone(),
            count: self.groups_count,
        }
    }

    /// The decision half of one evaluation: applies the sharp-decrease test
    /// to every key of either window, a key absent from a window counting as
    /// zero, and returns one alert per failing key, tagged with that key. The
    /// alerted keys are exactly `spec_grouped_alerts` of the two windows; the
    /// order of the alerts carries no meaning.
    pub fn check(&self, m: &Diff<GroupedMetric>) -> (alerts: Vec<Alert>)
        requires
            m.old.wf(),
            m.new.wf(),
        ensures
            spec_alert_keys(alerts@) == spec_grouped_alerts(
                m.old@,
                m.new@,
                self.factor as int,
                self.look_back as int,
            ),
            forall|t: int| 0 <= t < alerts@.len() ==> alerts@[t].key is Some,
            forall|t: int, u: int|
                0 <= t < u < alerts@.len() ==> alerts@[t].key.unwrap()@
                    != alerts@[u].key.unwrap()@,
    {
        let ghost f = self.factor as int;
        let ghost l = self.look_back as int;
        let ghost oldm = m.old@;
        let ghost newm = m.new@;
        let ghost entries = m.old.entries@;
        let mut alerts: Vec<Alert> = Vec::new();
        let mut i: usize = 0;
        while i < m.old.entries.len()
            invariant
                i <= entries.len(),
                entries == m.old.entries@,
                m.old.wf(),
                m.new.wf(),
                newm == m.new@,
                f == self.factor as int,
                l == self.look_back as int,
                forall|t: int|
                    0 <= t < alerts@.len() ==> (#[trigger] alerts@[t]).key is Some
                        && alert_covered(entries, newm, f, l, i as int, alerts@[t]),
                forall|e: int|
                    0 <= e < i && spec_sharp_decrease(
                        (#[trigger] entries[e]).1 as int,
                        spec_get_or_zero(newm, entries[e].0@),
                        f,
                        l,
                    ) ==> spec_alert_keys(alerts@).contains(entries[e].0@),
                forall|t: int, u: int|
                    0 <= t < u < alerts@.len() ==> alerts@[t].key.unwrap()@
                        != alerts@[u].key.unwrap()@,
            decreases entries.len() - i,
        {
            let ghost before = alerts@;
            let ghost ki = entries[i as int].0@;
            let ghost condi = spec_sharp_decrease(
                entries[i as int].1 as int,
                spec_get_or_zero(newm, ki),
                f,
                l,
            );
            let key = &m.old.entries[i].0;
            let o = m.old.entries[i].1;
            let n = match m.new.get(key) {
                Some(v) => v,
                None => 0,
            };
            proof {
                assert(n as int == spec_get_or_zero(newm, ki));
            }
            let fired = is_sharp_decrease(o, n, self.factor, self.look_back);
            proof {
                assert(fired == condi);
            }
            if fired {
                alerts.push(Alert { key: Some(key.clone()) });
                proof {
                    assert(alerts@[before.len() as int].key.unwrap()@ == ki);
                }
            }
            proof {
                assert forall|t: int| 0 <= t < alerts@.len() implies (#[trigger] alerts@[t]).key
                    is Some && alert_covered(entries, newm, f, l, i as int + 1, alerts@[t]) by {
                    if t < before.len() {
                        assert(alerts@[t] == before[t]);
                        let e = choose|e: int|
                            0 <= e < i && (#[trigger] entries[e]).0@ == before[t].key.unwrap()@
                                && spec_sharp_decrease(
                                entries[e].1 as int,
                                spec_get_or_zero(newm, entries[e].0@),
                                f,
                                l,
                            );
                        assert(0 <= e < i + 1 && entries[e].0@ == alerts@[t].key.unwrap()@);
                    } else {
                        assert(condi);
                        assert((#[trigger] entries[i as int]).0@ == alerts@[t].key.unwrap()@);
                    }
                }
                assert forall|e: int|
                    0 <= e < i + 1 && spec_sharp_decrease(
                        (#[trigger] entries[e]).1 as int,
                        spec_get_or_zero(newm, entries[e].0@),
                        f,
                        l,
                    ) implies spec_alert_keys(alerts@).contains(entries[e].0@) by {
                    if e < i {
                        assert(spec_alert_keys(before).contains(entries[e].0@));
                        let t = choose|t: int|
                            0 <= t < before.len() && before[t].key is Some
                                && before[t].key.unwrap()@ == entries[e].0@;
                        assert(alerts@[t].key.unwrap()@ == entries[e].0@);
                    } else {
                        assert(condi);
                        let t = before.len() as int;
                        assert(alerts@[t].key is Some && alerts@[t].key.unwrap()@
                            == entries[e].0@);
                    }
                }
            }
            i += 1;
        }
        proof {
            let ks = spec_alert_keys(alerts@);
            let gs = spec_grouped_alerts(oldm, newm, f, l);
            assert forall|k: Seq<char>| ks.contains(k) implies gs.contains(k) by {
                let t = choose|t: int|
                    0 <= t < alerts@.len() && alerts@[t].key is Some && alerts@[t].key.unwrap()@
                        == k;
                let e = choose|e: int|
                    0 <= e < entries.len() && (#[trigger] entries[e]).0@
                        == alerts@[t].key.unwrap()@ && spec_sharp_decrease(
                        entries[e].1 as int,
                        spec_get_or_zero(newm, entries[e].0@),
                        f,
                        l,
                    );
                lemma_entries_map_get(entries, e);
            }
            assert forall|k: Seq<char>| gs.contains(k) implies ks.contains(k) by {
                lemma_entries_map_contains(entries, k);
                if !oldm.dom().contains(k) {
                    let n = spec_get_or_zero(newm, k);
                    assert(0 <= n * f * l) by (nonlinear_arith)
                        requires
                            0 <= n,
                            0 <= f,
                            0 <= l,
                    ;
                } else {
                    let e = choose|e: int| 0 <= e < entries.len() && entries[e].0@ == k;
                    lemma_entries_map_get(entries, e);
                    assert(spec_sharp_decrease(
                        entries[e].1 as int,
                        spec_get_or_zero(newm, entries[e].0@),
                        f,
                        l,
                    ));
                }
            }
            assert(ks =~= gs);
        }
        alerts
    }
}

} // verus!
