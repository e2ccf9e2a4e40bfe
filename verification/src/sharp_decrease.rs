use vstd::prelude::*;

use crate::monitoring::{is_sharp_decrease, spec_sharp_decrease, Diff, Search};
use crate::queries::{
    add_filter, filters_view, range_query, spec_opt_str, spec_range_filter, CountQuery,
};
use crate::time::{Duration, Timestamp};
use crate::Alert;

verus! {

/// Decides whether a pair of scalar counts is a sharp decrease, and turns the
/// verdict into alerts. Comparing the new count against the old one scaled by
/// `look_back` intervals tolerates short spikes in the reference window.
pub struct SharpDecreaseComparator {
    pub factor: u8,
    pub look_back: u8,
}

impl SharpDecreaseComparator {
    pub fn new(factor: u8, look_back: u8) -> (r: Self)
        ensures
            r.factor == factor,
            r.look_back == look_back,
    {
        SharpDecreaseComparator { factor, look_back }
    }

    /// One alert, carrying no key, exactly when the pair fails the
    /// sharp-decrease test; no alert otherwise.
    pub fn check(&self, metric: Diff<u64>) -> (alerts: Vec<Alert>)
        ensures
            spec_sharp_decrease(
                metric.old as int,
                metric.new as int,
                self.factor as int,
                self.look_back as int,
            ) ==> alerts@.len() == 1 && alerts@[0].key is None,
            !spec_sharp_decrease(
                metric.old as int,
                metric.new as int,
                self.factor as int,
                self.look_back as int,
            ) ==> alerts@.len() == 0,
    {
        if is_sharp_decrease(metric.old, metric.new, self.factor, self.look_back) {
            let mut alerts: Vec<Alert> = Vec::new();
            alerts.push(Alert { key: None });
            alerts
        } else {
            Vec::new()
        }
    }
}

/// A scalar monitor: watches the total document count of one search slice and
/// alerts when the count of the newest interval drops sharply against the
/// preceding `look_back` intervals.
pub struct SharpDecrease {
    /// Length of the monitored (new) window.
    pub interval: Duration,
    /// How many interval-lengths the old reference window spans.
    pub look_back: u8,
    /// Tolerated decrease ratio.
    pub factor: u8,
    pub search: Search,
}

impl SharpDecrease {
    /// Builds the count query for one window: the monitor's own filters plus
    /// exactly one range filter on the time field, appended to a fresh copy —
    /// `search.filters` itself is left as it is.
    pub fn count_query(&self, from: Timestamp, to: Timestamp) -> (q: CountQuery)
        requires
            from.wf(),
            to.wf(),
        ensures
            q.index@ == self.search.index@,
            spec_opt_str(q.doc_type) == spec_opt_str(self.search.doc_type),
            filters_view(q.filters@) == filters_view(self.search.filters@).push(
                spec_range_filter(self.search.time_field@, from, to),
            ),
    {
        CountQuery {
            index: self.search.index.clone(),
            doc_type: clone_doc_type(&self.search.doc_type),
            filters: add_filter(
                &self.search.filters,
                range_query(self.search.time_field.clone(), from, to),
            ),
        }
    }

    /// The decision half of one evaluation: compares the two loaded counts
    /// and returns the alerts to emit.
    pub fn check(&self, m: Diff<u64>) -> (alerts: Vec<Alert>)
        ensures
            spec_sharp_decrease(
                m.old as int,
                m.new as int,
                self.factor as int,
                self.look_back as int,
            ) ==> alerts@.len() == 1 && alerts@[0].key is None,
            !spec_sharp_decrease(
                m.old as int,
                m.new as int,
                self.factor as int,
                self.look_back as int,
            ) ==> alerts@.len() == 0,
    {
        SharpDecreaseComparator::new(self.factor, self.look_back).check(m)
    }
}

pub(crate) fn clone_doc_type(o: &Option<String>) -> (r: Option<String>)
    ensures
        spec_opt_str(r) == spec_opt_str(*o),
{
    match o {
        Some(s) => Some(s.clone()),
        None => None,
    }
}

} // verus!
