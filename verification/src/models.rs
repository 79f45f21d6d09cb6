//! The raw series that a metrics backend delivers, one per workload and kind.

use vstd::prelude::*;

verus! {

/// One sample: a time in seconds and a value in the metric's base unit (bytes).
#[derive(Debug, Clone, Copy, PartialEq, Eq, Structural)]
pub struct MetricPoint {
    pub timestamp: i64,
    pub value: u64,
}

/// The memory that one workload asked for, over time.
#[derive(Debug, Clone)]
pub struct MemoryRequest {
    pub pod_name: String,
    pub namespace: String,
    pub metrics: Vec<MetricPoint>,
}

/// The memory that one workload used, over time.
#[derive(Debug, Clone)]
pub struct MemoryUsage {
    pub pod_name: String,
    pub namespace: String,
    pub metrics: Vec<MetricPoint>,
}

/// What a series is: the workload's two names and its samples in time order.
pub struct SeriesView {
    pub pod_name: Seq<char>,
    pub namespace: Seq<char>,
    pub metrics: Seq<MetricPoint>,
}

impl View for MemoryRequest {
    type V = SeriesView;

    open spec fn view(&self) -> SeriesView {
        SeriesView { pod_name: self.pod_name@, namespace: self.namespace@, metrics: self.metrics@ }
    }
}

impl View for MemoryUsage {
    type V = SeriesView;

    open spec fn view(&self) -> SeriesView {
        SeriesView { pod_name: self.pod_name@, namespace: self.namespace@, metrics: self.metrics@ }
    }
}

} // verus!
