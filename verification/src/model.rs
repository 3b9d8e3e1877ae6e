//! Data model of the billing pipeline.
//!
//! Every value the pipeline reasons about is held here as a plain value:
//! money as whole cents, instants as epoch seconds, backend replies as
//! structs of options and vectors mirroring what the metrics store, the
//! secret store and the notification transport hand back.

use vstd::prelude::*;

verus! {

/// Latest epoch second the pipeline accepts for a window edge
/// (9999-12-31T23:59:59Z), so that rendering an instant always succeeds.
pub const MAX_EPOCH_SECS: i64 = 253402300799;

/// Seconds in the rolling window: one day.
pub const WINDOW_SECS: i64 = 86400;

/// Aggregation statistic requested from the metrics backend.
#[derive(Clone, Copy, Debug, PartialEq, Eq)]
pub enum Statistic {
    Maximum,
}

/// The queried time span.  `period_seconds` equals the whole span, so the
/// backend aggregates it into at most one datapoint.
#[derive(Clone, Copy, Debug, PartialEq, Eq)]
pub struct TimeWindow {
    pub start: i64,
    pub end: i64,
    pub period_seconds: i64,
}

impl TimeWindow {
    /// A window is well formed when it spans a positive, renderable range
    /// and its period equals its length.
    pub open spec fn well_formed(self) -> bool {
        0 <= self.start && self.start < self.end && self.end <= MAX_EPOCH_SECS
            && self.period_seconds == self.end - self.start
    }

    /// The rolling one-day window ending at `now`.
    pub fn last_day(now: i64) -> (w: TimeWindow)
        requires
            WINDOW_SECS <= now <= MAX_EPOCH_SECS,
        ensures
            w == window_for(now),
            w.well_formed(),
    {
        TimeWindow { start: now - WINDOW_SECS, end: now, period_seconds: WINDOW_SECS }
    }
}

/// The one-day window ending at `now`, as the pipeline's specification
/// speaks of it.
pub open spec fn window_for(now: i64) -> TimeWindow {
    TimeWindow { start: (now - WINDOW_SECS) as i64, end: now, period_seconds: WINDOW_SECS }
}

/// A dimension narrowing a metric query, such as `Currency=USD`.
#[derive(Clone, Debug, PartialEq, Eq)]
pub struct Dimension {
    pub name: String,
    pub value: String,
}

/// A dimension filter for listing metrics; an absent value is a wildcard,
/// not a literal empty string.
#[derive(Clone, Debug, PartialEq, Eq)]
pub struct DimensionFilter {
    pub name: String,
    pub value: Option<String>,
}

/// A scalar-statistic query.  `start_text` and `end_text` carry the window
/// edges rendered as RFC 3339 instants, as the backend expects them.
#[derive(Clone, Debug, PartialEq, Eq)]
pub struct MetricQuery {
    pub namespace: String,
    pub metric_name: String,
    pub dimensions: Vec<Dimension>,
    pub statistic: Statistic,
    pub window: TimeWindow,
    pub start_text: String,
    pub end_text: String,
}

/// A query listing metrics of a namespace, filtered by dimension name.
#[derive(Clone, Debug, PartialEq, Eq)]
pub struct ListQuery {
    pub namespace: String,
    pub metric_name: Option<String>,
    pub filters: Vec<DimensionFilter>,
}

/// One aggregated sample; the statistic value may be absent.
#[derive(Clone, Copy, Debug, PartialEq, Eq)]
pub struct Datapoint {
    pub maximum_cents: Option<u64>,
}

/// Reply to a scalar-statistic query.
#[derive(Clone, Debug, PartialEq, Eq)]
pub struct StatisticsResponse {
    pub datapoints: Option<Vec<Datapoint>>,
}

/// One listed metric: only its dimensions matter to the pipeline.
#[derive(Clone, Debug, PartialEq, Eq)]
pub struct MetricInfo {
    pub dimensions: Option<Vec<Dimension>>,
}

/// Reply to a list-metrics query.
#[derive(Clone, Debug, PartialEq, Eq)]
pub struct ListResponse {
    pub metrics: Option<Vec<MetricInfo>>,
}

/// The entry a secret store holds under a name; the decrypted value may be
/// absent.
#[derive(Clone, Debug, PartialEq, Eq)]
pub struct ParameterInfo {
    pub value: Option<String>,
}

/// Reply to a secret lookup; the store may have no entry at all.
#[derive(Clone, Debug, PartialEq, Eq)]
pub struct SecretResponse {
    pub parameter: Option<ParameterInfo>,
}

/// Cost of one billed service over the window.
#[derive(Clone, Debug, PartialEq, Eq)]
pub struct ServiceBilling {
    pub name: String,
    pub cost_cents: u64,
}

/// The aggregate: account-wide total and the per-service breakdown, in the
/// order the service names were listed.  The total is not reconciled
/// against the breakdown.
#[derive(Clone, Debug, PartialEq, Eq)]
pub struct Billing {
    pub total_cents: u64,
    pub services: Vec<ServiceBilling>,
}

/// One label/value row of a message attachment.
#[derive(Clone, Debug, PartialEq, Eq)]
pub struct MessageField {
    pub label: String,
    pub value: String,
}

/// A tabular attachment of the outgoing message.
#[derive(Clone, Debug, PartialEq, Eq)]
pub struct Attachment {
    pub title: String,
    pub fields: Vec<MessageField>,
}

/// The structured message handed to the notification transport.
#[derive(Clone, Debug, PartialEq, Eq)]
pub struct NotificationMessage {
    pub display_name: String,
    pub icon_hint: String,
    pub text: String,
    pub attachments: Vec<Attachment>,
}

/// Why an invocation failed.  Every failure is terminal: nothing is
/// retried, and no partial result is delivered.
#[derive(Clone, Debug, PartialEq, Eq)]
pub enum PipelineError {
    /// The metrics backend call itself failed.
    MetricsBackend(String),
    /// The secret store had no entry, or no decrypted value, for the name.
    SecretNotFound,
    /// The secret store call itself failed.
    SecretBackend(String),
    /// The notification transport reported a delivery failure.
    Delivery(String),
    /// The driver fed the pipeline a reply it did not ask for, or none.
    Configuration,
}

} // verus!
