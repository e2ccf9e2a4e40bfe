use vstd::prelude::*;

use crate::queries::Filter;
use crate::sharp_decrease::SharpDecrease;
use crate::sharp_decrease_grouped::SharpDecreaseGrouped;
use crate::time::Duration;

verus! {

/// Describes the slice of data one monitor watches: where to look and which
/// documents count. Immutable for the monitor's lifetime; every query run
/// derives a fresh filter list from `filters` and never touches it.
pub struct Search {
    pub index: String,
    pub doc_type: Option<String>,
    pub filters: Vec<Filter>,
    pub time_field: String,
}

/// Pairs the value measured over the old (reference) window with the value
/// measured over the new (current) window. Built once per evaluation and
/// never mutated afterwards.
pub struct Diff<T> {
    pub old: T,
    pub new: T,
}

/// The sharp-decrease test on one pair of counts: the new count, scaled by
/// the decrease factor and by the number of interval-lengths the old window
/// spans, still falls short of the old count.
pub open spec fn spec_sharp_decrease(old: int, new: int, factor: int, look_back: int) -> bool {
    new * factor * look_back < old
}

/// Runs the sharp-decrease test on one pair of counts. The product is taken
/// in 128 bits, so no realistic count can overflow it.
pub fn is_sharp_decrease(old: u64, new: u64, factor: u8, look_back: u8) -> (r: bool)
    ensures
        r == spec_sharp_decrease(old as int, new as int, factor as int, look_back as int),
{
    let n: u128 = new as u128;
    let f: u128 = factor as u128;
    let l: u128 = look_back as u128;
    assert(n * f * l == (new as int) * (factor as int) * (look_back as int) && n * f < u128::MAX
        && n * f * l < u128::MAX) by (nonlinear_arith)
        requires
            n == new as int,
            f == factor as int,
            l == look_back as int,
            n <= u64::MAX,
            f <= u8::MAX,
            l <= u8::MAX,
    ;
    n * f * l < old as u128
}

/// Decides whether an old/new pair of scalar counts constitutes a sharp
/// decrease. `time_factor` is the number of interval-lengths in the old
/// window (the look-back), `factor` the tolerated decrease ratio.
pub struct Comparator {
    pub factor: u8,
    pub time_factor: u8,
}

impl Comparator {
    pub fn check(&self, diff: &Diff<u64>) -> (r: bool)
        ensures
            r == spec_sharp_decrease(
                diff.old as int,
                diff.new as int,
                self.factor as int,
                self.time_factor as int,
            ),
    {
        is_sharp_decrease(diff.old, diff.new, self.factor, self.time_factor)
    }
}

/// Why a monitor could not be built from its configuration. Configuration
/// errors are fatal at construction time; they are never retried.
#[derive(Clone, Copy, PartialEq, Eq, Structural, Debug)]
pub enum ConfigError {
    /// The decrease factor must be at least 1.
    NonPositiveFactor,
    /// The look-back must be at least 1.
    NonPositiveLookBack,
    /// The interval must not be negative.
    NegativeInterval,
}

/// Turns a validated configuration into the immutable monitor it describes.
pub trait IntoMonitoring: Sized {
    type Monitoring;

    /// The configurations the conversion accepts.
    spec fn valid(&self) -> bool;

    fn into_monitoring(self) -> Self::Monitoring
        requires
            self.valid(),
    ;
}

/// Configuration of a scalar monitor, as the bootstrap layer hands it over.
pub struct SharpDecreaseConfig {
    pub search: Search,
    /// Length of the monitored (new) window.
    pub interval: Duration,
    /// How many interval-lengths the old reference window spans.
    pub look_back: u8,
    /// Tolerated decrease ratio.
    pub factor: u8,
}

impl IntoMonitoring for SharpDecreaseConfig {
    type Monitoring = SharpDecrease;

    open spec fn valid(&self) -> bool {
        1 <= self.factor && 1 <= self.look_back && self.interval.wf()
    }

    fn into_monitoring(self) -> (m: SharpDecrease)
        ensures
            m.search == self.search,
            m.interval == self.interval,
            m.look_back == self.look_back,
            m.factor == self.factor,
    {
        SharpDecrease {
            interval: self.interval,
            look_back: self.look_back,
            factor: self.factor,
            search: self.search,
        }
    }
}

impl SharpDecreaseConfig {
    /// Validates the configuration once and builds the monitor: exactly the
    /// valid configurations yield one, and a rejected configuration names
    /// the first rule it broke (factor, then look-back, then interval).
    pub fn validate(self) -> (r: Result<SharpDecrease, ConfigError>)
        ensures
            self.valid() ==> (r matches Ok(m) && m.search == self.search && m.interval
                == self.interval && m.look_back == self.look_back && m.factor == self.factor),
            self.factor == 0 ==> r == Err::<SharpDecrease, ConfigError>(
                ConfigError::NonPositiveFactor,
            ),
            self.factor >= 1 && self.look_back == 0 ==> r == Err::<SharpDecrease, ConfigError>(
                ConfigError::NonPositiveLookBack,
            ),
            self.factor >= 1 && self.look_back >= 1 && self.interval.millis < 0 ==> r == Err::<
                SharpDecrease,
                ConfigError,
            >(ConfigError::NegativeInterval),
    {
        if self.factor < 1 {
            Err(ConfigError::NonPositiveFactor)
        } else if self.look_back < 1 {
            Err(ConfigError::NonPositiveLookBack)
        } else if self.interval.millis < 0 {
            Err(ConfigError::NegativeInterval)
        } else {
            Ok(self.into_monitoring())
        }
    }
}

/// Configuration of a grouped monitor: the scalar configuration plus the
/// grouping key field and the bucket bound.
pub struct GroupedSharpDecreaseConfig {
    pub search: Search,
    /// Length of the monitored (new) window.
    pub interval: Duration,
    /// How many interval-lengths the old reference window spans.
    pub look_back: u8,
    /// Tolerated decrease ratio.
    pub factor: u8,
    /// The field whose values group the documents.
    pub key_field: String,
    /// How many top groups each window reports.
    pub groups_count: u32,
}

impl IntoMonitoring for GroupedSharpDecreaseConfig {
    type Monitoring = SharpDecreaseGrouped;

    open spec fn valid(&self) -> bool {
        1 <= self.factor && 1 <= self.look_back && self.interval.wf()
    }

    fn into_monitoring(self) -> (m: SharpDecreaseGrouped)
        ensures
            m.search == self.search,
            m.interval == self.interval,
            m.look_back == self.look_back,
            m.factor == self.factor,
            m.key == self.key_field,
            m.groups_count == self.groups_count,
    {
        SharpDecreaseGrouped {
            interval: self.interval,
            look_back: self.look_back,
            factor: self.factor,
            key: self.key_field,
            groups_count: self.groups_count,
            search: self.search,
        }
    }
}

impl GroupedSharpDecreaseConfig {
    /// Validates the configuration once and builds the monitor, under the
    /// same rules as the scalar configuration.
    pub fn validate(self) -> (r: Result<SharpDecreaseGrouped, ConfigError>)
        ensures
            self.valid() ==> (r matches Ok(m) && m.search == self.search && m.interval
                == self.interval && m.look_back == self.look_back && m.factor == self.factor
                && m.key == self.key_field && m.groups_count == self.groups_count),
            self.factor == 0 ==> r == Err::<SharpDecreaseGrouped, ConfigError>(
                ConfigError::NonPositiveFactor,
            ),
            self.factor >= 1 && self.look_back == 0 ==> r == Err::<
                SharpDecreaseGrouped,
                ConfigError,
            >(ConfigError::NonPositiveLookBack),
            self.factor >= 1 && self.look_back >= 1 && self.interval.millis < 0 ==> r == Err::<
                SharpDecreaseGrouped,
                ConfigError,
            >(ConfigError::NegativeInterval),
    {
        if self.factor < 1 {
            Err(ConfigError::NonPositiveFactor)
        } else if self.look_back < 1 {
            Err(ConfigError::NonPositiveLookBack)
        } else if self.interval.millis < 0 {
            Err(ConfigError::NegativeInterval)
        } else {
            Ok(self.into_monitoring())
        }
    }
}

} // verus!
