//! The series of the metrics of the runtime's tasks, each labelled by the
//! name of the task.

use crate::series::Counter;
use crate::series::CounterKey;
use crate::series::TimeHistogram;
use crate::series::TimeHistogramKey;
use std::sync::Arc;
use vstd::prelude::*;

verus! {

/// Histogram of task schedule delays
pub fn runtime_task_schedule_delay_histogram(task: &Arc<str>) -> (histogram: TimeHistogram)
    ensures
        histogram@ == TimeHistogramKey::TokioRuntimeTaskScheduleDelayHistogram((**task)@),
{
    TimeHistogram::TokioRuntimeTaskScheduleDelayHistogram((**task).to_owned())
}

/// Histogram of task poll durations
pub fn runtime_task_poll_duration_histogram(task: &Arc<str>) -> (histogram: TimeHistogram)
    ensures
        histogram@ == TimeHistogramKey::TokioRuntimeTaskPollDurationHistogram((**task)@),
{
    TimeHistogram::TokioRuntimeTaskPollDurationHistogram((**task).to_owned())
}

/// Helps us get a rough idea of if our waker is causing issues.
pub fn runtime_task_total_poll_time_micros(task: &Arc<str>) -> (counter: Counter)
    ensures
        counter@ == CounterKey::TokioRuntimeTaskTotalPollTimeMicros((**task)@),
{
    Counter::TokioRuntimeTaskTotalPollTimeMicros((**task).to_owned())
}

} // verus!
