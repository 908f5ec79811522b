//! How a job's image is fetched and unpacked.
use vstd::prelude::*;

use crate::text::str_eq;

verus! {

/// The format of the downloaded image, how it is extracted.
#[derive(Debug, Clone, Copy, PartialEq, Eq, Structural)]
pub enum ImageFormatEnum {
    Tarball,
    DockerRegistry,
}

impl ImageFormatEnum {
    /// The text that the value is shown and sent as.
    pub open spec fn text(self) -> Seq<char> {
        match self {
            ImageFormatEnum::Tarball => "Tarball"@,
            ImageFormatEnum::DockerRegistry => "DockerRegistry"@,
        }
    }

    /// The value that a text names, if any.
    pub open spec fn parse_text(s: Seq<char>) -> Option<ImageFormatEnum> {
        if s == "Tarball"@ {
            Some(ImageFormatEnum::Tarball)
        } else if s == "DockerRegistry"@ {
            Some(ImageFormatEnum::DockerRegistry)
        } else {
            None
        }
    }

    /// The text that the value is stored as in its database column.
    pub open spec fn stored_text(self) -> Seq<char> {
        match self {
            ImageFormatEnum::Tarball => "Tarball"@,
            ImageFormatEnum::DockerRegistry => "DockerRegistry"@,
        }
    }

    /// The display text of the value.
    pub fn label(&self) -> (r: &'static str)
        ensures
            r@ == self.text(),
    {
        match self {
            ImageFormatEnum::Tarball => "Tarball",
            ImageFormatEnum::DockerRegistry => "DockerRegistry",
        }
    }

    /// Reads the value from its text.
    pub fn from_label(s: &str) -> (r: Result<ImageFormatEnum, ()>)
        ensures
            r == (match Self::parse_text(s@) {
                Some(e) => Ok(e),
                None => Err(()),
            }),
    {
        if str_eq(s, "Tarball") {
            Ok(ImageFormatEnum::Tarball)
        } else if str_eq(s, "DockerRegistry") {
            Ok(ImageFormatEnum::DockerRegistry)
        } else {
            Err(())
        }
    }

    /// The text written to the database column.
    pub fn db_text(&self) -> (r: &'static str)
        ensures
            r@ == self.stored_text(),
    {
        match self {
            ImageFormatEnum::Tarball => "Tarball",
            ImageFormatEnum::DockerRegistry => "DockerRegistry",
        }
    }

    /// Reads the value from the text of a database column; any other text is refused.
    pub fn from_db_text(s: &str) -> (r: Result<ImageFormatEnum, &'static str>)
        ensures
            match Self::parse_text(s@) {
                Some(e) => r == Ok::<ImageFormatEnum, &'static str>(e),
                None => r matches Err(m) && m@ == "Unexpected value for ImageFormat"@,
            },
    {
        match Self::from_label(s) {
            Ok(e) => Ok(e),
            Err(()) => Err("Unexpected value for ImageFormat"),
        }
    }

}

impl std::str::FromStr for ImageFormatEnum {
    type Err = ();

    fn from_str(s: &str) -> (r: Result<ImageFormatEnum, ()>)
        ensures
            r == (match ImageFormatEnum::parse_text(s@) {
                Some(e) => Ok(e),
                None => Err(()),
            }),
    {
        ImageFormatEnum::from_label(s)
    }
}

/// Every value reads back from the text it is shown as.
pub proof fn image_format_text_round_trip(e: ImageFormatEnum)
    ensures
        ImageFormatEnum::parse_text(e.text()) == Some(e),
{
    reveal_strlit("DockerRegistry");
    reveal_strlit("Tarball");
    assert("Tarball"@.len() != "DockerRegistry"@.len());
}

/// Every value reads back from the text it is stored as.
pub proof fn image_format_stored_round_trip(e: ImageFormatEnum)
    ensures
        ImageFormatEnum::parse_text(e.stored_text()) == Some(e),
{
    reveal_strlit("DockerRegistry");
    reveal_strlit("Tarball");
    assert("Tarball"@.len() != "DockerRegistry"@.len());
}

} // verus!
