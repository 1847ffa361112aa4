//! Error values reported by the asset database and the resource pools.

use vstd::prelude::*;
use vstd::string::StringExecFns;

verus! {

/// A pool or a fixed buffer has no free slot left.
#[derive(Debug)]
pub struct SlotError {}

/// The requested entry is not registered in the asset database.
#[derive(Debug)]
pub struct LookupError {
    pub entry: String,
}

/// The entry is registered, but the file behind it could not be loaded.
#[derive(Debug)]
pub struct LoadingError {
    pub entry: String,
    pub path: String,
}

#[derive(Debug)]
pub enum Error {
    LookupError(LookupError),
    LoadingError(LoadingError),
    SlotError(),
}

impl SlotError {
    /// The text shown to a user for this error.
    pub fn message(&self) -> (text: String)
        ensures
            text@ == "Ran out of slots!"@,
    {
        String::from_str("Ran out of slots!")
    }
}

impl LookupError {
    /// The text shown to a user: the fixed sentence with the entry's name in it.
    pub fn message(&self) -> (text: String)
        ensures
            text@ == "Could not find requested entry "@ + self.entry@ + " in database!"@,
    {
        let mut text = String::from_str("Could not find requested entry ");
        text.append(self.entry.as_str());
        text.append(" in database!");
        text
    }
}

impl LoadingError {
    /// The text shown to a user: the entry's name and the path that was tried.
    pub fn message(&self) -> (text: String)
        ensures
            text@ == "Failed to load requested entry "@ + self.entry@
                + " in database! Attempted path: "@ + self.path@,
    {
        let mut text = String::from_str("Failed to load requested entry ");
        text.append(self.entry.as_str());
        text.append(" in database! Attempted path: ");
        text.append(self.path.as_str());
        text
    }
}

impl Error {
    /// The text shown to a user, taken from the error that this value wraps.
    pub fn message(&self) -> (text: String)
        ensures
            text@ == self.message_text(),
    {
        match self {
            Error::LookupError(e) => e.message(),
            Error::LoadingError(e) => e.message(),
            Error::SlotError() => String::from_str("Ran out of slots!"),
        }
    }

    /// The characters of `message`.
    pub open spec fn message_text(&self) -> Seq<char> {
        match self {
            Error::LookupError(e) => "Could not find requested entry "@ + e.entry@
                + " in database!"@,
            Error::LoadingError(e) => "Failed to load requested entry "@ + e.entry@
                + " in database! Attempted path: "@ + e.path@,
            Error::SlotError() => "Ran out of slots!"@,
        }
    }

    /// True of a loading error for `entry` whose attempted path is `path`.
    pub open spec fn is_loading(&self, entry: Seq<char>, path: Seq<char>) -> bool {
        self matches Error::LoadingError(e) && e.entry@ == entry && e.path@ == path
    }
}

/// A bare path that failed to load becomes a loading error for an unknown entry.
impl From<String> for Error {
    fn from(value: String) -> (err: Error)
        ensures
            err.is_loading("[UNKNOWN]"@, value@),
    {
        Error::LoadingError(LoadingError { entry: String::from_str("[UNKNOWN]"), path: value })
    }
}

impl vstd::std_specs::convert::FromSpecImpl<String> for Error {
    /// What `from` gives is stated with `from` itself: a value of the
    /// result type cannot be written down here.
    open spec fn obeys_from_spec() -> bool {
        false
    }

    open spec fn from_spec(value: String) -> Error {
        Error::SlotError()
    }
}

/// True of a loading error for `entry` whose attempted path is the text
/// that `Display` gives for `source`.
pub open spec fn shows_image_error(error: Error, entry: Seq<char>, source: image::ImageError) -> bool {
    error matches Error::LoadingError(e) && e.entry@ == entry
        && vstd::string::to_string_from_display_ensures::<image::ImageError>(&source, e.path)
}

/// An image that cannot be read becomes a loading error for an unknown
/// entry, with the decoder's message in the place of the path.
impl From<image::ImageError> for Error {
    fn from(value: image::ImageError) -> (err: Error)
        ensures
            shows_image_error(err, "[UNKNOWN]"@, value),
    {
        let path = value.to_string();
        Error::LoadingError(LoadingError { entry: String::from_str("[UNKNOWN]"), path })
    }
}

impl vstd::std_specs::convert::FromSpecImpl<image::ImageError> for Error {
    open spec fn obeys_from_spec() -> bool {
        false
    }

    open spec fn from_spec(value: image::ImageError) -> Error {
        Error::SlotError()
    }
}

impl Error {
    /// The loading error for a file that could not be read: for an unknown
    /// entry, with the system's message in the place of the path.
    pub fn io(message: String) -> (err: Error)
        ensures
            err.is_loading("[UNKNOWN]"@, message@),
    {
        Error::LoadingError(LoadingError { entry: String::from_str("[UNKNOWN]"), path: message })
    }

    /// The loading error for a configuration that does not parse: for the
    /// entry `JSON FILE`, with the parser's message in the place of the
    /// path.
    pub fn json(message: String) -> (err: Error)
        ensures
            err.is_loading("JSON FILE"@, message@),
    {
        Error::LoadingError(LoadingError { entry: String::from_str("JSON FILE"), path: message })
    }
}

} // verus!
