//! Counts and durations of the runs of an optimizer, for those who watch the
//! system. Nothing here decides what an optimizer does.

use vstd::prelude::*;

verus! {

/// What is reported of the runs so far.
#[derive(Clone, Copy, Debug, PartialEq, Eq, Structural)]
pub struct OperationDurationStatistics {
    /// Number of runs that succeeded.
    pub count: usize,
    /// Number of runs that failed.
    pub fail_count: usize,
    /// Mean duration of the runs that succeeded, in microseconds.
    pub avg_duration_micros: Option<u64>,
    /// Shortest run that succeeded, in microseconds.
    pub min_duration_micros: Option<u64>,
    /// Longest run that succeeded, in microseconds.
    pub max_duration_micros: Option<u64>,
}

/// Collects the outcome of each run. The counters only grow, and stay at the
/// largest value they can hold once they reach it.
#[derive(Clone, Copy, Debug, PartialEq, Eq, Structural)]
pub struct OperationDurationsAggregator {
    pub ok_count: usize,
    pub fail_count: usize,
    pub total_duration_micros: u64,
    pub min_duration_micros: Option<u64>,
    pub max_duration_micros: Option<u64>,
}

impl OperationDurationsAggregator {
    /// The aggregator after one more run that took `duration_micros`.
    pub open spec fn after(self, success: bool, duration_micros: u64) -> OperationDurationsAggregator {
        if success {
            OperationDurationsAggregator {
                ok_count: self.ok_count.saturating_add(1),
                fail_count: self.fail_count,
                total_duration_micros: self.total_duration_micros.saturating_add(duration_micros),
                min_duration_micros: match self.min_duration_micros {
                    Some(shortest) if shortest <= duration_micros => Some(shortest),
                    _ => Some(duration_micros),
                },
                max_duration_micros: match self.max_duration_micros {
                    Some(longest) if longest >= duration_micros => Some(longest),
                    _ => Some(duration_micros),
                },
            }
        } else {
            OperationDurationsAggregator { fail_count: self.fail_count.saturating_add(1), ..self }
        }
    }

    /// What the aggregator reports.
    pub open spec fn statistics(self) -> OperationDurationStatistics {
        OperationDurationStatistics {
            count: self.ok_count,
            fail_count: self.fail_count,
            avg_duration_micros: if self.ok_count > 0 {
                Some((self.total_duration_micros as int / self.ok_count as int) as u64)
            } else {
                None
            },
            min_duration_micros: self.min_duration_micros,
            max_duration_micros: self.max_duration_micros,
        }
    }

    /// The aggregator that has seen no run.
    pub open spec fn empty() -> OperationDurationsAggregator {
        OperationDurationsAggregator {
            ok_count: 0,
            fail_count: 0,
            total_duration_micros: 0,
            min_duration_micros: None,
            max_duration_micros: None,
        }
    }

    /// An aggregator that has seen no run.
    pub fn new() -> (aggregator: OperationDurationsAggregator)
        ensures
            aggregator == OperationDurationsAggregator::empty(),
    {
        OperationDurationsAggregator {
            ok_count: 0,
            fail_count: 0,
            total_duration_micros: 0,
            min_duration_micros: None,
            max_duration_micros: None,
        }
    }

    /// Records one more run.
    pub fn add_operation_result(&mut self, success: bool, duration_micros: u64)
        ensures
            *final(self) == old(self).after(success, duration_micros),
    {
        if success {
            self.ok_count = self.ok_count.saturating_add(1);
            self.total_duration_micros = self.total_duration_micros.saturating_add(duration_micros);
            self.min_duration_micros = match self.min_duration_micros {
                Some(shortest) if shortest <= duration_micros => Some(shortest),
                _ => Some(duration_micros),
            };
            self.max_duration_micros = match self.max_duration_micros {
                Some(longest) if longest >= duration_micros => Some(longest),
                _ => Some(duration_micros),
            };
        } else {
            self.fail_count = self.fail_count.saturating_add(1);
        }
    }

    /// What is reported of the runs recorded so far.
    pub fn get_statistics(&self) -> (statistics: OperationDurationStatistics)
        ensures
            statistics == self.statistics(),
    {
        OperationDurationStatistics {
            count: self.ok_count,
            fail_count: self.fail_count,
            avg_duration_micros: if self.ok_count > 0 {
                Some(self.total_duration_micros / (self.ok_count as u64))
            } else {
                None
            },
            min_duration_micros: self.min_duration_micros,
            max_duration_micros: self.max_duration_micros,
        }
    }
}

} // verus!
