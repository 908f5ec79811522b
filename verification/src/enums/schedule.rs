//! When a job runs.
use vstd::prelude::*;

use crate::text::str_eq;

verus! {

/// How a job is scheduled: once, or by a cron expression.
#[derive(Debug, Clone, Copy, PartialEq, Eq, Structural)]
pub enum ScheduleTypeEnum {
    Once,
    Cron,
}

impl ScheduleTypeEnum {
    /// The text that the value is shown and sent as.
    pub open spec fn text(self) -> Seq<char> {
        match self {
            ScheduleTypeEnum::Once => "Once"@,
            ScheduleTypeEnum::Cron => "Cron"@,
        }
    }

    /// The value that a text names, if any.
    pub open spec fn parse_text(s: Seq<char>) -> Option<ScheduleTypeEnum> {
        if s == "Once"@ {
            Some(ScheduleTypeEnum::Once)
        } else if s == "Cron"@ {
            Some(ScheduleTypeEnum::Cron)
        } else {
            None
        }
    }

    /// The text that the value is stored as in its database column.
    pub open spec fn stored_text(self) -> Seq<char> {
        match self {
            ScheduleTypeEnum::Once => "Once"@,
            ScheduleTypeEnum::Cron => "Cron"@,
        }
    }

    /// The display text of the value.
    pub fn label(&self) -> (r: &'static str)
        ensures
            r@ == self.text(),
    {
        match self {
            ScheduleTypeEnum::Once => "Once",
            ScheduleTypeEnum::Cron => "Cron",
        }
    }

    /// Reads the value from its text.
    pub fn from_label(s: &str) -> (r: Result<ScheduleTypeEnum, ()>)
        ensures
            r == (match Self::parse_text(s@) {
                Some(e) => Ok(e),
                None => Err(()),
            }),
    {
        if str_eq(s, "Once") {
            Ok(ScheduleTypeEnum::Once)
        } else if str_eq(s, "Cron") {
            Ok(ScheduleTypeEnum::Cron)
        } else {
            Err(())
        }
    }

    /// The text written to the database column.
    pub fn db_text(&self) -> (r: &'static str)
        ensures
            r@ == self.stored_text(),
    {
        match self {
            ScheduleTypeEnum::Once => "Once",
            ScheduleTypeEnum::Cron => "Cron",
        }
    }

    /// Reads the value from the text of a database column; any other text is refused.
    pub fn from_db_text(s: &str) -> (r: Result<ScheduleTypeEnum, &'static str>)
        ensures
            match Self::parse_text(s@) {
                Some(e) => r == Ok::<ScheduleTypeEnum, &'static str>(e),
                None => r matches Err(m) && m@ == "Unexpected value for ScheduleTypeEnum"@,
            },
    {
        match Self::from_label(s) {
            Ok(e) => Ok(e),
            Err(()) => Err("Unexpected value for ScheduleTypeEnum"),
        }
    }

}

impl std::str::FromStr for ScheduleTypeEnum {
    type Err = ();

    fn from_str(s: &str) -> (r: Result<ScheduleTypeEnum, ()>)
        ensures
            r == (match ScheduleTypeEnum::parse_text(s@) {
                Some(e) => Ok(e),
                None => Err(()),
            }),
    {
        ScheduleTypeEnum::from_label(s)
    }
}

/// Every value reads back from the text it is shown as.
pub proof fn schedule_type_text_round_trip(e: ScheduleTypeEnum)
    ensures
        ScheduleTypeEnum::parse_text(e.text()) == Some(e),
{
    reveal_strlit("Cron");
    reveal_strlit("Once");
    assert("Once"@[0] != "Cron"@[0]);
}

/// Every value reads back from the text it is stored as.
pub proof fn schedule_type_stored_round_trip(e: ScheduleTypeEnum)
    ensures
        ScheduleTypeEnum::parse_text(e.stored_text()) == Some(e),
{
    reveal_strlit("Cron");
    reveal_strlit("Once");
    assert("Once"@[0] != "Cron"@[0]);
}

} // verus!
