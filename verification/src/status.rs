//! Exit statuses of macro executions.

use vstd::prelude::*;

verus! {

/// How a macro execution ended. `time` is a Unix timestamp in seconds.
#[derive(Debug)]
pub enum ExitStatus {
    Success { time: i64 },
    Killed { time: i64 },
    Error { error_msg: String, time: i64 },
}

/// Mathematical model of an [`ExitStatus`].
pub enum ExitStatusView {
    Success { time: int },
    Killed { time: int },
    Error { error_msg: Seq<char>, time: int },
}

impl View for ExitStatus {
    type V = ExitStatusView;

    open spec fn view(&self) -> ExitStatusView {
        match self {
            ExitStatus::Success { time } => ExitStatusView::Success { time: *time as int },
            ExitStatus::Killed { time } => ExitStatusView::Killed { time: *time as int },
            ExitStatus::Error { error_msg, time } => ExitStatusView::Error {
                error_msg: error_msg@,
                time: *time as int,
            },
        }
    }
}

/// The model of an optional status.
pub open spec fn optional_status(status: Option<ExitStatus>) -> Option<ExitStatusView> {
    match status {
        Some(s) => Some(s@),
        None => None,
    }
}

impl Clone for ExitStatus {
    fn clone(&self) -> (copy: ExitStatus)
        ensures
            copy == *self,
    {
        match self {
            ExitStatus::Success { time } => ExitStatus::Success { time: *time },
            ExitStatus::Killed { time } => ExitStatus::Killed { time: *time },
            ExitStatus::Error { error_msg, time } => ExitStatus::Error {
                error_msg: error_msg.clone(),
                time: *time,
            },
        }
    }
}

} // verus!
