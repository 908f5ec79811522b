//! How a job hands back its output.
use vstd::prelude::*;

use crate::text::str_eq;

verus! {

/// Where a job's output is collected from: its stdout, or files that it writes.
#[derive(Debug, Clone, Copy, PartialEq, Eq, Structural)]
pub enum OutputTypeEnum {
    Stdout,
    Files,
}

impl OutputTypeEnum {
    /// The text that the value is shown and sent as.
    pub open spec fn text(self) -> Seq<char> {
        match self {
            OutputTypeEnum::Stdout => "Stdout"@,
            OutputTypeEnum::Files => "Files"@,
        }
    }

    /// The value that a text names, if any.
    pub open spec fn parse_text(s: Seq<char>) -> Option<OutputTypeEnum> {
        if s == "Stdout"@ {
            Some(OutputTypeEnum::Stdout)
        } else if s == "Files"@ {
            Some(OutputTypeEnum::Files)
        } else {
            None
        }
    }

    /// The text that the value is stored as in its database column.
    pub open spec fn stored_text(self) -> Seq<char> {
        match self {
            OutputTypeEnum::Stdout => "Stdout"@,
            OutputTypeEnum::Files => "Files"@,
        }
    }

    /// The display text of the value.
    pub fn label(&self) -> (r: &'static str)
        ensures
            r@ == self.text(),
    {
        match self {
            OutputTypeEnum::Stdout => "Stdout",
            OutputTypeEnum::Files => "Files",
        }
    }

    /// Reads the value from its text.
    pub fn from_label(s: &str) -> (r: Result<OutputTypeEnum, ()>)
        ensures
            r == (match Self::parse_text(s@) {
                Some(e) => Ok(e),
                None => Err(()),
            }),
    {
        if str_eq(s, "Stdout") {
            Ok(OutputTypeEnum::Stdout)
        } else if str_eq(s, "Files") {
            Ok(OutputTypeEnum::Files)
        } else {
            Err(())
        }
    }

    /// The text written to the database column.
    pub fn db_text(&self) -> (r: &'static str)
        ensures
            r@ == self.stored_text(),
    {
        match self {
            OutputTypeEnum::Stdout => "Stdout",
            OutputTypeEnum::Files => "Files",
        }
    }

    /// Reads the value from the text of a database column; any other text is refused.
    pub fn from_db_text(s: &str) -> (r: Result<OutputTypeEnum, &'static str>)
        ensures
            match Self::parse_text(s@) {
                Some(e) => r == Ok::<OutputTypeEnum, &'static str>(e),
                None => r matches Err(m) && m@ == "Unexpected value"@,
            },
    {
        match Self::from_label(s) {
            Ok(e) => Ok(e),
            Err(()) => Err("Unexpected value"),
        }
    }

}

impl std::str::FromStr for OutputTypeEnum {
    type Err = ();

    fn from_str(s: &str) -> (r: Result<OutputTypeEnum, ()>)
        ensures
            r == (match OutputTypeEnum::parse_text(s@) {
                Some(e) => Ok(e),
                None => Err(()),
            }),
    {
        OutputTypeEnum::from_label(s)
    }
}

/// Every value reads back from the text it is shown as.
pub proof fn output_type_text_round_trip(e: OutputTypeEnum)
    ensures
        OutputTypeEnum::parse_text(e.text()) == Some(e),
{
    reveal_strlit("Files");
    reveal_strlit("Stdout");
    assert("Stdout"@.len() != "Files"@.len());
}

/// Every value reads back from the text it is stored as.
pub proof fn output_type_stored_round_trip(e: OutputTypeEnum)
    ensures
        OutputTypeEnum::parse_text(e.stored_text()) == Some(e),
{
    reveal_strlit("Files");
    reveal_strlit("Stdout");
    assert("Stdout"@.len() != "Files"@.len());
}

} // verus!
