//! Core lifecycle events, heartbeat pulses and the modules of the core.
use vstd::prelude::*;

use crate::text::str_eq;

verus! {

/// A lifecycle event broadcast to every module of the core.
#[derive(Debug, Clone, Copy, PartialEq, Eq, Structural)]
pub enum CoreEvent {
    Startup,
    Shutdown,
    Restart,
}

impl CoreEvent {
    /// The text that the value is shown and sent as.
    pub open spec fn text(self) -> Seq<char> {
        match self {
            CoreEvent::Startup => "Startup"@,
            CoreEvent::Shutdown => "Shutdown"@,
            CoreEvent::Restart => "Restart"@,
        }
    }

    /// The value that a text names, if any.
    pub open spec fn parse_text(s: Seq<char>) -> Option<CoreEvent> {
        if s == "Startup"@ {
            Some(CoreEvent::Startup)
        } else if s == "Shutdown"@ {
            Some(CoreEvent::Shutdown)
        } else if s == "Restart"@ {
            Some(CoreEvent::Restart)
        } else {
            None
        }
    }

    /// The display text of the value.
    pub fn label(&self) -> (r: &'static str)
        ensures
            r@ == self.text(),
    {
        match self {
            CoreEvent::Startup => "Startup",
            CoreEvent::Shutdown => "Shutdown",
            CoreEvent::Restart => "Restart",
        }
    }

    /// Reads the value from its text.
    pub fn from_label(s: &str) -> (r: Result<CoreEvent, ()>)
        ensures
            r == (match Self::parse_text(s@) {
                Some(e) => Ok(e),
                None => Err(()),
            }),
    {
        if str_eq(s, "Startup") {
            Ok(CoreEvent::Startup)
        } else if str_eq(s, "Shutdown") {
            Ok(CoreEvent::Shutdown)
        } else if str_eq(s, "Restart") {
            Ok(CoreEvent::Restart)
        } else {
            Err(())
        }
    }


}

impl std::str::FromStr for CoreEvent {
    type Err = ();

    fn from_str(s: &str) -> (r: Result<CoreEvent, ()>)
        ensures
            r == (match CoreEvent::parse_text(s@) {
                Some(e) => Ok(e),
                None => Err(()),
            }),
    {
        CoreEvent::from_label(s)
    }
}

/// Every value reads back from the text it is shown as.
pub proof fn core_event_text_round_trip(e: CoreEvent)
    ensures
        CoreEvent::parse_text(e.text()) == Some(e),
{
    reveal_strlit("Restart");
    reveal_strlit("Shutdown");
    reveal_strlit("Startup");
    assert("Startup"@.len() != "Shutdown"@.len());
    assert("Startup"@[0] != "Restart"@[0]);
    assert("Shutdown"@.len() != "Restart"@.len());
}


/// A heartbeat pulse of the core: slow (a minute), medium (a second) or fast (50 ms).
#[derive(Debug, Clone, Copy, PartialEq, Eq, Structural)]
pub enum Pulse {
    Slow,
    Medium,
    Fast,
}

impl Pulse {
    /// The text that the value is shown and sent as.
    pub open spec fn text(self) -> Seq<char> {
        match self {
            Pulse::Slow => "Slow"@,
            Pulse::Medium => "Medium"@,
            Pulse::Fast => "Fast"@,
        }
    }

    /// The value that a text names, if any.
    pub open spec fn parse_text(s: Seq<char>) -> Option<Pulse> {
        if s == "Slow"@ {
            Some(Pulse::Slow)
        } else if s == "Medium"@ {
            Some(Pulse::Medium)
        } else if s == "Fast"@ {
            Some(Pulse::Fast)
        } else {
            None
        }
    }

    /// The display text of the value.
    pub fn label(&self) -> (r: &'static str)
        ensures
            r@ == self.text(),
    {
        match self {
            Pulse::Slow => "Slow",
            Pulse::Medium => "Medium",
            Pulse::Fast => "Fast",
        }
    }

    /// Reads the value from its text.
    pub fn from_label(s: &str) -> (r: Result<Pulse, ()>)
        ensures
            r == (match Self::parse_text(s@) {
                Some(e) => Ok(e),
                None => Err(()),
            }),
    {
        if str_eq(s, "Slow") {
            Ok(Pulse::Slow)
        } else if str_eq(s, "Medium") {
            Ok(Pulse::Medium)
        } else if str_eq(s, "Fast") {
            Ok(Pulse::Fast)
        } else {
            Err(())
        }
    }


}

impl std::str::FromStr for Pulse {
    type Err = ();

    fn from_str(s: &str) -> (r: Result<Pulse, ()>)
        ensures
            r == (match Pulse::parse_text(s@) {
                Some(e) => Ok(e),
                None => Err(()),
            }),
    {
        Pulse::from_label(s)
    }
}

/// Every value reads back from the text it is shown as.
pub proof fn pulse_text_round_trip(e: Pulse)
    ensures
        Pulse::parse_text(e.text()) == Some(e),
{
    reveal_strlit("Fast");
    reveal_strlit("Medium");
    reveal_strlit("Slow");
    assert("Slow"@.len() != "Medium"@.len());
    assert("Slow"@[0] != "Fast"@[0]);
    assert("Medium"@.len() != "Fast"@.len());
}


/// A module of the core.
#[derive(Debug, Clone, Copy, PartialEq, Eq, Structural)]
pub enum SystemModuleEnum {
    Dispatcher,
    Harvester,
    Hibernator,
    Receiver,
    Scheduler,
    TaskArchive,
}

impl SystemModuleEnum {
    /// The text that the value is shown and sent as.
    pub open spec fn text(self) -> Seq<char> {
        match self {
            SystemModuleEnum::Dispatcher => "Dispatcher"@,
            SystemModuleEnum::Harvester => "Harvester"@,
            SystemModuleEnum::Hibernator => "Hibernator"@,
            SystemModuleEnum::Receiver => "Receiver"@,
            SystemModuleEnum::Scheduler => "Scheduler"@,
            SystemModuleEnum::TaskArchive => "TaskArchive"@,
        }
    }

    /// The value that a text names, if any.
    pub open spec fn parse_text(s: Seq<char>) -> Option<SystemModuleEnum> {
        if s == "Dispatcher"@ {
            Some(SystemModuleEnum::Dispatcher)
        } else if s == "Harvester"@ {
            Some(SystemModuleEnum::Harvester)
        } else if s == "Hibernator"@ {
            Some(SystemModuleEnum::Hibernator)
        } else if s == "Receiver"@ {
            Some(SystemModuleEnum::Receiver)
        } else if s == "Scheduler"@ {
            Some(SystemModuleEnum::Scheduler)
        } else if s == "TaskArchive"@ {
            Some(SystemModuleEnum::TaskArchive)
        } else {
            None
        }
    }

    /// The text that the value is stored as in its database column.
    pub open spec fn stored_text(self) -> Seq<char> {
        match self {
            SystemModuleEnum::Dispatcher => "Dispatcher"@,
            SystemModuleEnum::Harvester => "Harvester"@,
            SystemModuleEnum::Hibernator => "Hibernator"@,
            SystemModuleEnum::Receiver => "Receiver"@,
            SystemModuleEnum::Scheduler => "Scheduler"@,
            SystemModuleEnum::TaskArchive => "TaskArchive"@,
        }
    }

    /// The display text of the value.
    pub fn label(&self) -> (r: &'static str)
        ensures
            r@ == self.text(),
    {
        match self {
            SystemModuleEnum::Dispatcher => "Dispatcher",
            SystemModuleEnum::Harvester => "Harvester",
            SystemModuleEnum::Hibernator => "Hibernator",
            SystemModuleEnum::Receiver => "Receiver",
            SystemModuleEnum::Scheduler => "Scheduler",
            SystemModuleEnum::TaskArchive => "TaskArchive",
        }
    }

    /// Reads the value from its text.
    pub fn from_label(s: &str) -> (r: Result<SystemModuleEnum, ()>)
        ensures
            r == (match Self::parse_text(s@) {
                Some(e) => Ok(e),
                None => Err(()),
            }),
    {
        if str_eq(s, "Dispatcher") {
            Ok(SystemModuleEnum::Dispatcher)
        } else if str_eq(s, "Harvester") {
            Ok(SystemModuleEnum::Harvester)
        } else if str_eq(s, "Hibernator") {
            Ok(SystemModuleEnum::Hibernator)
        } else if str_eq(s, "Receiver") {
            Ok(SystemModuleEnum::Receiver)
        } else if str_eq(s, "Scheduler") {
            Ok(SystemModuleEnum::Scheduler)
        } else if str_eq(s, "TaskArchive") {
            Ok(SystemModuleEnum::TaskArchive)
        } else {
            Err(())
        }
    }

    /// The text written to the database column.
    pub fn db_text(&self) -> (r: &'static str)
        ensures
            r@ == self.stored_text(),
    {
        match self {
            SystemModuleEnum::Dispatcher => "Dispatcher",
            SystemModuleEnum::Harvester => "Harvester",
            SystemModuleEnum::Hibernator => "Hibernator",
            SystemModuleEnum::Receiver => "Receiver",
            SystemModuleEnum::Scheduler => "Scheduler",
            SystemModuleEnum::TaskArchive => "TaskArchive",
        }
    }

    /// Reads the value from the text of a database column; any other text is refused.
    pub fn from_db_text(s: &str) -> (r: Result<SystemModuleEnum, &'static str>)
        ensures
            match Self::parse_text(s@) {
                Some(e) => r == Ok::<SystemModuleEnum, &'static str>(e),
                None => r matches Err(m) && m@ == "Unexpected value"@,
            },
    {
        match Self::from_label(s) {
            Ok(e) => Ok(e),
            Err(()) => Err("Unexpected value"),
        }
    }

    /// The module at a position of `variants()`; any other position gives the dispatcher.
    pub open spec fn from_index(idx: int) -> SystemModuleEnum {
        if idx == 1 {
            SystemModuleEnum::Harvester
        } else if idx == 2 {
            SystemModuleEnum::Hibernator
        } else if idx == 3 {
            SystemModuleEnum::Receiver
        } else if idx == 4 {
            SystemModuleEnum::Scheduler
        } else if idx == 5 {
            SystemModuleEnum::TaskArchive
        } else {
            SystemModuleEnum::Dispatcher
        }
    }

    /// The position of the module in `variants()`.
    pub open spec fn index(self) -> int {
        match self {
            SystemModuleEnum::Dispatcher => 0,
            SystemModuleEnum::Harvester => 1,
            SystemModuleEnum::Hibernator => 2,
            SystemModuleEnum::Receiver => 3,
            SystemModuleEnum::Scheduler => 4,
            SystemModuleEnum::TaskArchive => 5,
        }
    }

    /// The display texts of all modules, in declaration order.
    pub fn variants() -> (r: &'static [&'static str])
        ensures
            r@.len() == 6,
            forall|i: int| 0 <= i < 6 ==> (#[trigger] r@[i])@ == Self::from_index(i).text(),
    {
        let r: &'static [&'static str] = &[
            "Dispatcher",
            "Harvester",
            "Hibernator",
            "Receiver",
            "Scheduler",
            "TaskArchive",
        ];
        r
    }

    /// The module at a position; positions past the end give the dispatcher.
    pub fn from_position(idx: usize) -> (r: SystemModuleEnum)
        ensures
            r == Self::from_index(idx as int),
    {
        if idx == 0 {
            SystemModuleEnum::Dispatcher
        } else if idx == 1 {
            SystemModuleEnum::Harvester
        } else if idx == 2 {
            SystemModuleEnum::Hibernator
        } else if idx == 3 {
            SystemModuleEnum::Receiver
        } else if idx == 4 {
            SystemModuleEnum::Scheduler
        } else if idx == 5 {
            SystemModuleEnum::TaskArchive
        } else {
            SystemModuleEnum::Dispatcher
        }
    }

}

impl std::str::FromStr for SystemModuleEnum {
    type Err = ();

    fn from_str(s: &str) -> (r: Result<SystemModuleEnum, ()>)
        ensures
            r == (match SystemModuleEnum::parse_text(s@) {
                Some(e) => Ok(e),
                None => Err(()),
            }),
    {
        SystemModuleEnum::from_label(s)
    }
}

/// Every value reads back from the text it is shown as.
pub proof fn system_module_text_round_trip(e: SystemModuleEnum)
    ensures
        SystemModuleEnum::parse_text(e.text()) == Some(e),
{
    reveal_strlit("Dispatcher");
    reveal_strlit("Harvester");
    reveal_strlit("Hibernator");
    reveal_strlit("Receiver");
    reveal_strlit("Scheduler");
    reveal_strlit("TaskArchive");
    assert("Dispatcher"@.len() != "Harvester"@.len());
    assert("Dispatcher"@[0] != "Hibernator"@[0]);
    assert("Dispatcher"@.len() != "Receiver"@.len());
    assert("Dispatcher"@.len() != "Scheduler"@.len());
    assert("Dispatcher"@.len() != "TaskArchive"@.len());
    assert("Harvester"@.len() != "Hibernator"@.len());
    assert("Harvester"@.len() != "Receiver"@.len());
    assert("Harvester"@[0] != "Scheduler"@[0]);
    assert("Harvester"@.len() != "TaskArchive"@.len());
    assert("Hibernator"@.len() != "Receiver"@.len());
    assert("Hibernator"@.len() != "Scheduler"@.len());
    assert("Hibernator"@.len() != "TaskArchive"@.len());
    assert("Receiver"@.len() != "Scheduler"@.len());
    assert("Receiver"@.len() != "TaskArchive"@.len());
    assert("Scheduler"@.len() != "TaskArchive"@.len());
}

/// Every value reads back from the text it is stored as.
pub proof fn system_module_stored_round_trip(e: SystemModuleEnum)
    ensures
        SystemModuleEnum::parse_text(e.stored_text()) == Some(e),
{
    reveal_strlit("Dispatcher");
    reveal_strlit("Harvester");
    reveal_strlit("Hibernator");
    reveal_strlit("Receiver");
    reveal_strlit("Scheduler");
    reveal_strlit("TaskArchive");
    assert("Dispatcher"@.len() != "Harvester"@.len());
    assert("Dispatcher"@[0] != "Hibernator"@[0]);
    assert("Dispatcher"@.len() != "Receiver"@.len());
    assert("Dispatcher"@.len() != "Scheduler"@.len());
    assert("Dispatcher"@.len() != "TaskArchive"@.len());
    assert("Harvester"@.len() != "Hibernator"@.len());
    assert("Harvester"@.len() != "Receiver"@.len());
    assert("Harvester"@[0] != "Scheduler"@[0]);
    assert("Harvester"@.len() != "TaskArchive"@.len());
    assert("Hibernator"@.len() != "Receiver"@.len());
    assert("Hibernator"@.len() != "Scheduler"@.len());
    assert("Hibernator"@.len() != "TaskArchive"@.len());
    assert("Receiver"@.len() != "Scheduler"@.len());
    assert("Receiver"@.len() != "TaskArchive"@.len());
    assert("Scheduler"@.len() != "TaskArchive"@.len());
}


impl From<usize> for SystemModuleEnum {
    fn from(idx: usize) -> (r: SystemModuleEnum) {
        SystemModuleEnum::from_position(idx)
    }
}

impl vstd::std_specs::convert::FromSpecImpl<usize> for SystemModuleEnum {
    open spec fn obeys_from_spec() -> bool {
        true
    }

    open spec fn from_spec(idx: usize) -> SystemModuleEnum {
        SystemModuleEnum::from_index(idx as int)
    }
}

/// Every module sits at its own position of `variants()`.
pub proof fn system_module_index_round_trip(e: SystemModuleEnum)
    ensures
        0 <= e.index() < 6,
        SystemModuleEnum::from_index(e.index()) == e,
{
}

} // verus!
