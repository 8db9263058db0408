use vstd::prelude::*;

verus! {

/// The kinds of failure that generation or verification can report.
#[derive(Clone, Copy, Debug, PartialEq, Eq, Structural)]
pub enum ErrorType {
    /// The secret supplied was not a base-32 string.
    NonBase32,
    /// No counter value could be derived from the clock and step duration.
    InvalidCounter,
    /// The requested verification window does not fit in the counter type.
    InvalidOffset,
}

/// The fixed description that each kind of error carries.
pub open spec fn kind_text(k: ErrorType) -> Seq<char> {
    match k {
        ErrorType::NonBase32 => "The secret provided is not a base-32 string."@,
        ErrorType::InvalidCounter => "Could not calculate a value for the current counter."@,
        ErrorType::InvalidOffset => "Either the duration provdided or the offset specified is too large."@,
    }
}

/// Describes why an operation failed: a kind plus a human-readable text.
#[derive(Clone, PartialEq, Debug)]
pub struct Error {
    err_type: ErrorType,
    desc: String,
}

impl Error {
    /// The kind of this error, as contracts speak of it.
    pub closed spec fn kind(&self) -> ErrorType {
        self.err_type
    }

    /// The descriptive text of this error.
    pub closed spec fn text(&self) -> Seq<char> {
        self.desc@
    }

    /// Creates a new error of the given kind.
    pub fn new(error_type: ErrorType, description: &'static str) -> (r: Error)
        ensures
            r.kind() == error_type,
            r.text() == description@,
    {
        Error { err_type: error_type, desc: description.to_owned() }
    }

    /// Returns the kind of error that occurred.
    pub fn error_type(&self) -> (r: ErrorType)
        ensures
            r == self.kind(),
    {
        self.err_type
    }

    /// Returns a description of the error that occurred.
    pub fn description(&self) -> (r: String)
        ensures
            r@ == self.text(),
    {
        self.desc.clone()
    }
}

} // verus!
