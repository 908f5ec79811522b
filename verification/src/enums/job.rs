//! The life cycle of a job.
use vstd::prelude::*;

use crate::text::str_eq;

verus! {

/// The life cycle state of a job.
#[derive(Debug, Clone, Copy, PartialEq, Eq, Structural)]
pub enum JobStateEnum {
    Submitted,
    Queued,
    Running,
    Completed,
    Failed,
}

impl JobStateEnum {
    /// The text that the value is shown and sent as.
    pub open spec fn text(self) -> Seq<char> {
        match self {
            JobStateEnum::Submitted => "Submitted"@,
            JobStateEnum::Queued => "Queued"@,
            JobStateEnum::Running => "Running"@,
            JobStateEnum::Completed => "Completed"@,
            JobStateEnum::Failed => "Failed"@,
        }
    }

    /// The value that a text names, if any.
    pub open spec fn parse_text(s: Seq<char>) -> Option<JobStateEnum> {
        if s == "Submitted"@ {
            Some(JobStateEnum::Submitted)
        } else if s == "Queued"@ {
            Some(JobStateEnum::Queued)
        } else if s == "Running"@ {
            Some(JobStateEnum::Running)
        } else if s == "Completed"@ {
            Some(JobStateEnum::Completed)
        } else if s == "Failed"@ {
            Some(JobStateEnum::Failed)
        } else {
            None
        }
    }

    /// The display text of the value.
    pub fn label(&self) -> (r: &'static str)
        ensures
            r@ == self.text(),
    {
        match self {
            JobStateEnum::Submitted => "Submitted",
            JobStateEnum::Queued => "Queued",
            JobStateEnum::Running => "Running",
            JobStateEnum::Completed => "Completed",
            JobStateEnum::Failed => "Failed",
        }
    }

    /// Reads the value from its text.
    pub fn from_label(s: &str) -> (r: Result<JobStateEnum, ()>)
        ensures
            r == (match Self::parse_text(s@) {
                Some(e) => Ok(e),
                None => Err(()),
            }),
    {
        if str_eq(s, "Submitted") {
            Ok(JobStateEnum::Submitted)
        } else if str_eq(s, "Queued") {
            Ok(JobStateEnum::Queued)
        } else if str_eq(s, "Running") {
            Ok(JobStateEnum::Running)
        } else if str_eq(s, "Completed") {
            Ok(JobStateEnum::Completed)
        } else if str_eq(s, "Failed") {
            Ok(JobStateEnum::Failed)
        } else {
            Err(())
        }
    }


}

impl std::str::FromStr for JobStateEnum {
    type Err = ();

    fn from_str(s: &str) -> (r: Result<JobStateEnum, ()>)
        ensures
            r == (match JobStateEnum::parse_text(s@) {
                Some(e) => Ok(e),
                None => Err(()),
            }),
    {
        JobStateEnum::from_label(s)
    }
}

/// Every value reads back from the text it is shown as.
pub proof fn job_state_text_round_trip(e: JobStateEnum)
    ensures
        JobStateEnum::parse_text(e.text()) == Some(e),
{
    reveal_strlit("Completed");
    reveal_strlit("Failed");
    reveal_strlit("Queued");
    reveal_strlit("Running");
    reveal_strlit("Submitted");
    assert("Submitted"@.len() != "Queued"@.len());
    assert("Submitted"@.len() != "Running"@.len());
    assert("Submitted"@[0] != "Completed"@[0]);
    assert("Submitted"@.len() != "Failed"@.len());
    assert("Queued"@.len() != "Running"@.len());
    assert("Queued"@.len() != "Completed"@.len());
    assert("Queued"@[0] != "Failed"@[0]);
    assert("Running"@.len() != "Completed"@.len());
    assert("Running"@.len() != "Failed"@.len());
    assert("Completed"@.len() != "Failed"@.len());
}

} // verus!
