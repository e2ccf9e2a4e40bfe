//! Detects sharp decreases in event volume. A monitor turns a search
//! descriptor and a time cursor into two comparable counts — or per-key
//! count maps — over adjacent time windows, and alerts when the newest
//! window's count falls short of the reference window's by more than the
//! configured factor. The query wire shapes, the window arithmetic, the
//! decision rules and the polling state machine are specified and verified
//! here; the HTTP transport and the response decoding stay outside the
//! library.

use vstd::prelude::*;

pub mod monitoring;
pub mod queries;
pub mod sharp_decrease;
pub mod sharp_decrease_grouped;
pub mod time;
pub mod walker;

verus! {

/// A signal that one evaluation found a sharp decrease. For a grouped
/// monitor the alert carries the group key it fired for; a scalar monitor
/// carries no key.
pub struct Alert {
    pub key: Option<String>,
}

} // verus!
