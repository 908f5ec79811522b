//! Worker status and operating system.
use vstd::prelude::*;

use crate::text::str_eq;

verus! {

/// The status of a worker as the core sees it.
#[derive(Debug, Clone, Copy, PartialEq, Eq, Structural)]
pub enum WorkerStatusEnum {
    Idle,
    Busy,
    Offline,
    Unreachable,
}

impl WorkerStatusEnum {
    /// The text that the value is shown and sent as.
    pub open spec fn text(self) -> Seq<char> {
        match self {
            WorkerStatusEnum::Idle => "Idle"@,
            WorkerStatusEnum::Busy => "Busy"@,
            WorkerStatusEnum::Offline => "Offline"@,
            WorkerStatusEnum::Unreachable => "Unreachable"@,
        }
    }

    /// The value that a text names, if any.
    pub open spec fn parse_text(s: Seq<char>) -> Option<WorkerStatusEnum> {
        if s == "Idle"@ {
            Some(WorkerStatusEnum::Idle)
        } else if s == "Busy"@ {
            Some(WorkerStatusEnum::Busy)
        } else if s == "Offline"@ {
            Some(WorkerStatusEnum::Offline)
        } else if s == "Unreachable"@ {
            Some(WorkerStatusEnum::Unreachable)
        } else {
            None
        }
    }

    /// The text that the value is stored as in its database column.
    pub open spec fn stored_text(self) -> Seq<char> {
        match self {
            WorkerStatusEnum::Idle => "Idle"@,
            WorkerStatusEnum::Busy => "Busy"@,
            WorkerStatusEnum::Offline => "Offline"@,
            WorkerStatusEnum::Unreachable => "Unreachable"@,
        }
    }

    /// The display text of the value.
    pub fn label(&self) -> (r: &'static str)
        ensures
            r@ == self.text(),
    {
        match self {
            WorkerStatusEnum::Idle => "Idle",
            WorkerStatusEnum::Busy => "Busy",
            WorkerStatusEnum::Offline => "Offline",
            WorkerStatusEnum::Unreachable => "Unreachable",
        }
    }

    /// Reads the value from its text.
    pub fn from_label(s: &str) -> (r: Result<WorkerStatusEnum, ()>)
        ensures
            r == (match Self::parse_text(s@) {
                Some(e) => Ok(e),
                None => Err(()),
            }),
    {
        if str_eq(s, "Idle") {
            Ok(WorkerStatusEnum::Idle)
        } else if str_eq(s, "Busy") {
            Ok(WorkerStatusEnum::Busy)
        } else if str_eq(s, "Offline") {
            Ok(WorkerStatusEnum::Offline)
        } else if str_eq(s, "Unreachable") {
            Ok(WorkerStatusEnum::Unreachable)
        } else {
            Err(())
        }
    }

    /// The text written to the database column.
    pub fn db_text(&self) -> (r: &'static str)
        ensures
            r@ == self.stored_text(),
    {
        match self {
            WorkerStatusEnum::Idle => "Idle",
            WorkerStatusEnum::Busy => "Busy",
            WorkerStatusEnum::Offline => "Offline",
            WorkerStatusEnum::Unreachable => "Unreachable",
        }
    }

    /// Reads the value from the text of a database column; any other text is refused.
    pub fn from_db_text(s: &str) -> (r: Result<WorkerStatusEnum, &'static str>)
        ensures
            match Self::parse_text(s@) {
                Some(e) => r == Ok::<WorkerStatusEnum, &'static str>(e),
                None => r matches Err(m) && m@ == "Unexpected value"@,
            },
    {
        match Self::from_label(s) {
            Ok(e) => Ok(e),
            Err(()) => Err("Unexpected value"),
        }
    }

}

impl std::str::FromStr for WorkerStatusEnum {
    type Err = ();

    fn from_str(s: &str) -> (r: Result<WorkerStatusEnum, ()>)
        ensures
            r == (match WorkerStatusEnum::parse_text(s@) {
                Some(e) => Ok(e),
                None => Err(()),
            }),
    {
        WorkerStatusEnum::from_label(s)
    }
}

/// Every value reads back from the text it is shown as.
pub proof fn worker_status_text_round_trip(e: WorkerStatusEnum)
    ensures
        WorkerStatusEnum::parse_text(e.text()) == Some(e),
{
    reveal_strlit("Busy");
    reveal_strlit("Idle");
    reveal_strlit("Offline");
    reveal_strlit("Unreachable");
    assert("Idle"@[0] != "Busy"@[0]);
    assert("Idle"@.len() != "Offline"@.len());
    assert("Idle"@.len() != "Unreachable"@.len());
    assert("Busy"@.len() != "Offline"@.len());
    assert("Busy"@.len() != "Unreachable"@.len());
    assert("Offline"@.len() != "Unreachable"@.len());
}

/// Every value reads back from the text it is stored as.
pub proof fn worker_status_stored_round_trip(e: WorkerStatusEnum)
    ensures
        WorkerStatusEnum::parse_text(e.stored_text()) == Some(e),
{
    reveal_strlit("Busy");
    reveal_strlit("Idle");
    reveal_strlit("Offline");
    reveal_strlit("Unreachable");
    assert("Idle"@[0] != "Busy"@[0]);
    assert("Idle"@.len() != "Offline"@.len());
    assert("Idle"@.len() != "Unreachable"@.len());
    assert("Busy"@.len() != "Offline"@.len());
    assert("Busy"@.len() != "Unreachable"@.len());
    assert("Offline"@.len() != "Unreachable"@.len());
}


/// The operating system a worker runs.
#[derive(Debug, Clone, Copy, PartialEq, Eq, Structural)]
pub enum OSEnum {
    Linux,
    Windows,
    MacOSEnum,
    Any,
}

impl OSEnum {
    /// The text that the value is shown and sent as.
    pub open spec fn text(self) -> Seq<char> {
        match self {
            OSEnum::Linux => "Linux"@,
            OSEnum::Windows => "Windows"@,
            OSEnum::MacOSEnum => "MacOS"@,
            OSEnum::Any => "Any"@,
        }
    }

    /// The value that a text names, if any.
    pub open spec fn parse_text(s: Seq<char>) -> Option<OSEnum> {
        if s == "Linux"@ {
            Some(OSEnum::Linux)
        } else if s == "Windows"@ {
            Some(OSEnum::Windows)
        } else if s == "MacOSEnum"@ {
            Some(OSEnum::MacOSEnum)
        } else if s == "Any"@ {
            Some(OSEnum::Any)
        } else {
            None
        }
    }

    /// The text that the value is stored as in its database column.
    pub open spec fn stored_text(self) -> Seq<char> {
        match self {
            OSEnum::Linux => "Linux"@,
            OSEnum::Windows => "Windows"@,
            OSEnum::MacOSEnum => "MacOSEnum"@,
            OSEnum::Any => "Any"@,
        }
    }

    /// The display text of the value.
    pub fn label(&self) -> (r: &'static str)
        ensures
            r@ == self.text(),
    {
        match self {
            OSEnum::Linux => "Linux",
            OSEnum::Windows => "Windows",
            OSEnum::MacOSEnum => "MacOS",
            OSEnum::Any => "Any",
        }
    }

    /// Reads the value from its text.
    pub fn from_label(s: &str) -> (r: Result<OSEnum, ()>)
        ensures
            r == (match Self::parse_text(s@) {
                Some(e) => Ok(e),
                None => Err(()),
            }),
    {
        if str_eq(s, "Linux") {
            Ok(OSEnum::Linux)
        } else if str_eq(s, "Windows") {
            Ok(OSEnum::Windows)
        } else if str_eq(s, "MacOSEnum") {
            Ok(OSEnum::MacOSEnum)
        } else if str_eq(s, "Any") {
            Ok(OSEnum::Any)
        } else {
            Err(())
        }
    }

    /// The text written to the database column.
    pub fn db_text(&self) -> (r: &'static str)
        ensures
            r@ == self.stored_text(),
    {
        match self {
            OSEnum::Linux => "Linux",
            OSEnum::Windows => "Windows",
            OSEnum::MacOSEnum => "MacOSEnum",
            OSEnum::Any => "Any",
        }
    }

    /// Reads the value from the text of a database column; any other text is refused.
    pub fn from_db_text(s: &str) -> (r: Result<OSEnum, &'static str>)
        ensures
            match Self::parse_text(s@) {
                Some(e) => r == Ok::<OSEnum, &'static str>(e),
                None => r matches Err(m) && m@ == "Unexpected value"@,
            },
    {
        match Self::from_label(s) {
            Ok(e) => Ok(e),
            Err(()) => Err("Unexpected value"),
        }
    }

}

impl std::str::FromStr for OSEnum {
    type Err = ();

    fn from_str(s: &str) -> (r: Result<OSEnum, ()>)
        ensures
            r == (match OSEnum::parse_text(s@) {
                Some(e) => Ok(e),
                None => Err(()),
            }),
    {
        OSEnum::from_label(s)
    }
}

/// Every value but `MacOSEnum` reads back from the text it is shown as.
pub proof fn os_text_round_trip(e: OSEnum)
    requires
        e != OSEnum::MacOSEnum,
    ensures
        OSEnum::parse_text(e.text()) == Some(e),
{
    reveal_strlit("Any");
    reveal_strlit("Linux");
    reveal_strlit("MacOS");
    reveal_strlit("MacOSEnum");
    reveal_strlit("Windows");
    assert("Linux"@.len() != "Windows"@.len());
    assert("Linux"@.len() != "MacOSEnum"@.len());
    assert("Linux"@.len() != "Any"@.len());
    assert("Windows"@.len() != "MacOSEnum"@.len());
    assert("Windows"@.len() != "Any"@.len());
    assert("MacOSEnum"@.len() != "Any"@.len());
    assert("MacOS"@[0] != "Linux"@[0]);
    assert("MacOS"@.len() != "Windows"@.len());
    assert("MacOS"@.len() != "MacOSEnum"@.len());
    assert("MacOS"@.len() != "Any"@.len());
}

/// The one value whose shown text does not read back: OSEnum::MacOSEnum.
pub proof fn os_text_round_trip_exception()
    ensures
        OSEnum::parse_text(OSEnum::MacOSEnum.text()) == None::<OSEnum>,
{
    reveal_strlit("Any");
    reveal_strlit("Linux");
    reveal_strlit("MacOS");
    reveal_strlit("MacOSEnum");
    reveal_strlit("Windows");
    assert("Linux"@.len() != "Windows"@.len());
    assert("Linux"@.len() != "MacOSEnum"@.len());
    assert("Linux"@.len() != "Any"@.len());
    assert("Windows"@.len() != "MacOSEnum"@.len());
    assert("Windows"@.len() != "Any"@.len());
    assert("MacOSEnum"@.len() != "Any"@.len());
    assert("MacOS"@[0] != "Linux"@[0]);
    assert("MacOS"@.len() != "Windows"@.len());
    assert("MacOS"@.len() != "MacOSEnum"@.len());
    assert("MacOS"@.len() != "Any"@.len());
}

/// Every value reads back from the text it is stored as.
pub proof fn os_stored_round_trip(e: OSEnum)
    ensures
        OSEnum::parse_text(e.stored_text()) == Some(e),
{
    reveal_strlit("Any");
    reveal_strlit("Linux");
    reveal_strlit("MacOS");
    reveal_strlit("MacOSEnum");
    reveal_strlit("Windows");
    assert("Linux"@.len() != "Windows"@.len());
    assert("Linux"@.len() != "MacOSEnum"@.len());
    assert("Linux"@.len() != "Any"@.len());
    assert("Windows"@.len() != "MacOSEnum"@.len());
    assert("Windows"@.len() != "Any"@.len());
    assert("MacOSEnum"@.len() != "Any"@.len());
    assert("MacOS"@[0] != "Linux"@[0]);
    assert("MacOS"@.len() != "Windows"@.len());
    assert("MacOS"@.len() != "MacOSEnum"@.len());
    assert("MacOS"@.len() != "Any"@.len());
}

} // verus!
