//! Typed metrics for a QUIC and HTTP/3 transport.
//!
//! The transport reports what happens to it through the [`Metrics`] trait: one
//! method for each thing it can observe, each resolving to the handle of one
//! series. A series is a metric together with one combination of label
//! values. Labels are closed enumerations, so the number of series a metric
//! can have is known up front; the one label that could grow without bound, a
//! client address, is only ever attached as the network it belongs to.
//!
//! - [`labels`]: the reasons and stages that label a series, and the
//!   identifier of each.
//! - [`ip`]: client addresses, and their reduction to a network.
//! - [`metric`]: the metrics, with the name, help text, kind, label names and
//!   bucket boundaries of each.
//! - [`buckets`]: bucket boundaries, and the bucket that a value falls into.
//! - [`series`]: the handles of series, typed by the kind of metric.
//! - [`quic`] and [`tokio`]: one function for each metric, from label values
//!   to handle.
//! - [`metrics`]: the [`Metrics`] trait and its standard implementation.
//! - [`samples`]: what observations do to the samples of a registry.
//! - [`registry`]: a registry in memory.

pub mod buckets;
pub mod ip;
pub mod labels;
pub mod metric;
pub mod metrics;
pub mod quic;
pub mod registry;
pub mod samples;
pub mod series;
pub mod tokio;

pub use crate::metrics::DefaultMetrics;
pub use crate::metrics::Metrics;
