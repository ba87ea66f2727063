//! Errors met while decoding a message.
use vstd::prelude::*;
use vstd::string::StringExecFns;

verus! {

/// Why a message could not be decoded: a field is missing, or a field does
/// not hold what it should.
#[derive(Debug, Clone)]
pub enum Error {
    MissingField(&'static str),
    InvalidField(&'static str, String),
}

/// The model of an [`Error`].
pub enum ErrorView {
    MissingField(Seq<char>),
    InvalidField(Seq<char>, Seq<char>),
}

impl DeepView for Error {
    type V = ErrorView;

    open spec fn deep_view(&self) -> ErrorView {
        match self {
            Error::MissingField(path) => ErrorView::MissingField(path@),
            Error::InvalidField(path, msg) => ErrorView::InvalidField(path@, msg@),
        }
    }
}

/// The model of a decoding result.
pub open spec fn result_view<T: DeepView>(r: Result<T, Error>) -> Result<T::V, ErrorView> {
    match r {
        Ok(t) => Ok(t.deep_view()),
        Err(e) => Err(e.deep_view()),
    }
}

/// The text that describes an error of this kind.
pub open spec fn spec_description(e: ErrorView) -> Seq<char> {
    match e {
        ErrorView::MissingField(_) => "Missing message field"@,
        ErrorView::InvalidField(_, _) => "Invalid message field"@,
    }
}

/// The text that an error displays.
pub open spec fn spec_display(e: ErrorView) -> Seq<char> {
    match e {
        ErrorView::MissingField(path) => "Missing message field: "@ + path,
        ErrorView::InvalidField(path, msg) => "Invalid message field: "@ + msg + " (at `"@ + path + "`)"@,
    }
}

impl Error {
    /// A short description of the kind of error.
    pub fn description(&self) -> (r: &'static str)
        ensures
            r@ == spec_description(self.deep_view()),
    {
        match self {
            Error::MissingField(_) => "Missing message field",
            Error::InvalidField(_, _) => "Invalid message field",
        }
    }

    /// The message that describes this error.
    pub fn display(&self) -> (r: String)
        ensures
            r@ == spec_display(self.deep_view()),
    {
        match self {
            Error::MissingField(path) => String::from_str("Missing message field: ").concat(path),
            Error::InvalidField(path, msg) => String::from_str("Invalid message field: ").concat(
                msg.as_str(),
            ).concat(" (at `").concat(path).concat("`)"),
        }
    }
}

} // verus!
