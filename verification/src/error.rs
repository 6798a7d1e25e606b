//! Errors of asset loading and of asset sources.
use vstd::prelude::*;

use crate::text::push_str;

verus! {

/// Description of an error raised by a source, a format or an asset build.
#[derive(Debug)]
pub struct Report {
    message: String,
}

impl View for Report {
    type V = Seq<char>;

    closed spec fn view(&self) -> Seq<char> {
        self.message@
    }
}

impl Clone for Report {
    fn clone(&self) -> (r: Self)
        ensures
            r@ == self@,
    {
        Report { message: self.message.clone() }
    }
}

impl Report {
    /// Wraps the description of an error.
    pub fn new(message: String) -> (r: Report)
        ensures
            r@ == message@,
    {
        Report { message }
    }

    /// The description.
    pub fn message(&self) -> (r: &str)
        ensures
            r@ == self@,
    {
        self.message.as_str()
    }
}

/// Error type for sources.
#[derive(Debug)]
pub enum SourceError {
    /// Asset is not found in the source.
    NotFound,
    /// Custom source error.
    Error(Report),
}

impl Clone for SourceError {
    fn clone(&self) -> (r: Self)
        ensures
            match (*self, r) {
                (SourceError::NotFound, SourceError::NotFound) => true,
                (SourceError::Error(a), SourceError::Error(b)) => a@ == b@,
                _ => false,
            },
    {
        match self {
            SourceError::NotFound => SourceError::NotFound,
            SourceError::Error(e) => SourceError::Error(e.clone()),
        }
    }
}

/// Error occurred in process of asset loading.
#[derive(Debug)]
pub enum Error {
    /// Asset was not found among registered sources.
    NotFound,
    /// Failed to spawn loading task.
    SpawnError,
    /// Asset instance building failed.
    Asset(Report),
    /// Asset decoding failed.
    Format(Report),
    /// Source in which asset was found failed to load it.
    Source(Report),
}

/// Kind of an [`Error`] and its description, for contracts.
pub open spec fn error_view(e: Error) -> (int, Seq<char>) {
    match e {
        Error::NotFound => (0, Seq::empty()),
        Error::SpawnError => (1, Seq::empty()),
        Error::Asset(r) => (2, r@),
        Error::Format(r) => (3, r@),
        Error::Source(r) => (4, r@),
    }
}

/// The loading error a source error becomes: not found stays not found, any
/// other is a source error with the same description.
pub open spec fn error_from_source(e: SourceError) -> (int, Seq<char>) {
    match e {
        SourceError::NotFound => (0, Seq::empty()),
        SourceError::Error(r) => (4, r@),
    }
}

impl Clone for Error {
    fn clone(&self) -> (r: Self)
        ensures
            error_view(r) == error_view(*self),
    {
        match self {
            Error::NotFound => Error::NotFound,
            Error::SpawnError => Error::SpawnError,
            Error::Asset(e) => Error::Asset(e.clone()),
            Error::Format(e) => Error::Format(e.clone()),
            Error::Source(e) => Error::Source(e.clone()),
        }
    }
}

impl From<SourceError> for Error {
    fn from(err: SourceError) -> (r: Error) {
        match err {
            SourceError::NotFound => Error::NotFound,
            SourceError::Error(err) => Error::Source(err),
        }
    }
}

impl vstd::std_specs::convert::FromSpecImpl<SourceError> for Error {
    open spec fn obeys_from_spec() -> bool {
        true
    }

    open spec fn from_spec(err: SourceError) -> Error {
        match err {
            SourceError::NotFound => Error::NotFound,
            SourceError::Error(err) => Error::Source(err),
        }
    }
}

/// Law: converting a source error keeps "not found" and the description of any
/// other failure.
pub proof fn lemma_source_error_conversion(e: SourceError)
    ensures
        error_view(<Error as vstd::std_specs::convert::FromSpec<SourceError>>::from_spec(e))
            == error_from_source(e),
{
}

/// `Display` text of a loading error.
pub open spec fn error_text(e: Error) -> Seq<char> {
    match e {
        Error::NotFound => "Asset not found"@,
        Error::SpawnError => "Failed to spawn loading task"@,
        Error::Asset(r) => "Asset error: "@ + r@,
        Error::Format(r) => "Format error: "@ + r@,
        Error::Source(r) => "Source error: "@ + r@,
    }
}

/// `Debug` text of a loading error.
pub open spec fn error_debug_text(e: Error) -> Seq<char> {
    match e {
        Error::NotFound => "Error::NotFound"@,
        Error::SpawnError => "Error::SpawnError"@,
        Error::Asset(r) => "Error::Asset("@ + r@ + ")"@,
        Error::Format(r) => "Error::Format("@ + r@ + ")"@,
        Error::Source(r) => "Error::Source("@ + r@ + ")"@,
    }
}

/// `Display` text of a source error.
pub open spec fn source_error_text(e: SourceError) -> Seq<char> {
    match e {
        SourceError::NotFound => "Asset not found"@,
        SourceError::Error(r) => "Source error: "@ + r@,
    }
}

/// `Debug` text of a source error.
pub open spec fn source_error_debug_text(e: SourceError) -> Seq<char> {
    match e {
        SourceError::NotFound => "SourceError::NotFound"@,
        SourceError::Error(r) => "SourceError::Error("@ + r@ + ")"@,
    }
}

impl Error {
    /// The error's text (its `Display` form).
    pub fn message(&self) -> (r: String)
        ensures
            r@ == error_text(*self),
    {
        let mut s = String::new();
        proof {
            reveal_strlit("Asset not found");
            reveal_strlit("Failed to spawn loading task");
            reveal_strlit("Asset error: ");
            reveal_strlit("Format error: ");
            reveal_strlit("Source error: ");
        }
        match self {
            Error::NotFound => push_str(&mut s, "Asset not found"),
            Error::SpawnError => push_str(&mut s, "Failed to spawn loading task"),
            Error::Asset(e) => {
                push_str(&mut s, "Asset error: ");
                push_str(&mut s, e.message());
            },
            Error::Format(e) => {
                push_str(&mut s, "Format error: ");
                push_str(&mut s, e.message());
            },
            Error::Source(e) => {
                push_str(&mut s, "Source error: ");
                push_str(&mut s, e.message());
            },
        }
        s
    }

    /// The error's `Debug` text.
    pub fn debug_message(&self) -> (r: String)
        ensures
            r@ == error_debug_text(*self),
    {
        let mut s = String::new();
        proof {
            reveal_strlit("Error::NotFound");
            reveal_strlit("Error::SpawnError");
            reveal_strlit("Error::Asset(");
            reveal_strlit("Error::Format(");
            reveal_strlit("Error::Source(");
            reveal_strlit(")");
        }
        match self {
            Error::NotFound => push_str(&mut s, "Error::NotFound"),
            Error::SpawnError => push_str(&mut s, "Error::SpawnError"),
            Error::Asset(e) => {
                push_str(&mut s, "Error::Asset(");
                push_str(&mut s, e.message());
                push_str(&mut s, ")");
            },
            Error::Format(e) => {
                push_str(&mut s, "Error::Format(");
                push_str(&mut s, e.message());
                push_str(&mut s, ")");
            },
            Error::Source(e) => {
                push_str(&mut s, "Error::Source(");
                push_str(&mut s, e.message());
                push_str(&mut s, ")");
            },
        }
        s
    }

    /// The description of the error's cause, if it has one (its `source`).
    pub fn source(&self) -> (r: Option<&Report>)
        ensures
            match *self {
                Error::Asset(e) => r == Some(&e),
                Error::Format(e) => r == Some(&e),
                Error::Source(e) => r == Some(&e),
                _ => r is None,
            },
    {
        match self {
            Error::NotFound => None,
            Error::SpawnError => None,
            Error::Asset(e) => Some(e),
            Error::Format(e) => Some(e),
            Error::Source(e) => Some(e),
        }
    }
}

impl SourceError {
    /// The error's text (its `Display` form).
    pub fn message(&self) -> (r: String)
        ensures
            r@ == source_error_text(*self),
    {
        let mut s = String::new();
        proof {
            reveal_strlit("Asset not found");
            reveal_strlit("Source error: ");
        }
        match self {
            SourceError::NotFound => push_str(&mut s, "Asset not found"),
            SourceError::Error(e) => {
                push_str(&mut s, "Source error: ");
                push_str(&mut s, e.message());
            },
        }
        s
    }

    /// The error's `Debug` text.
    pub fn debug_message(&self) -> (r: String)
        ensures
            r@ == source_error_debug_text(*self),
    {
        let mut s = String::new();
        proof {
            reveal_strlit("SourceError::NotFound");
            reveal_strlit("SourceError::Error(");
            reveal_strlit(")");
        }
        match self {
            SourceError::NotFound => push_str(&mut s, "SourceError::NotFound"),
            SourceError::Error(e) => {
                push_str(&mut s, "SourceError::Error(");
                push_str(&mut s, e.message());
                push_str(&mut s, ")");
            },
        }
        s
    }

    /// The error a failed read becomes: a missing file means the asset is not
    /// in this source, any other failure is a source error.
    pub fn from_read_failure(not_found: bool, message: String) -> (r: SourceError)
        ensures
            not_found ==> r is NotFound,
            !not_found ==> (r matches SourceError::Error(e) && e@ == message@),
    {
        if not_found {
            SourceError::NotFound
        } else {
            SourceError::Error(Report::new(message))
        }
    }
}

/// Error of a source that does not have the asset.
#[derive(Clone, Copy, Debug)]
pub struct AssetNotFound;

impl AssetNotFound {
    /// The error's text (its `Display` form).
    pub fn message(&self) -> (r: &'static str)
        ensures
            r@ == "Asset not found"@,
    {
        "Asset not found"
    }
}

/// Error of a spawner that could not start a task.
#[derive(Clone, Copy, Debug)]
pub struct SpawnError;

} // verus!
