//! Error types returned by this crate.

use vstd::prelude::*;
use vstd::string::to_string_from_display_ensures;

verus! {

/// `std::string::FromUtf8Error`, carried as it is: nothing inside it is
/// read here.
#[verifier::external_type_specification]
#[verifier::external_body]
pub struct ExFromUtf8Error(std::string::FromUtf8Error);

/// `std::io::Error`, carried as it is: nothing inside it is read here.
#[verifier::external_type_specification]
#[verifier::external_body]
pub struct ExIoError(std::io::Error);

/// `serde_json::Error`, carried as it is: nothing inside it is read here.
#[verifier::external_type_specification]
#[verifier::external_body]
pub struct ExJsonError(serde_json::Error);

/// The failures that this crate itself reports.
#[derive(Clone, Copy, PartialEq, Eq, Structural, PartialOrd, Ord, Debug, Hash)]
pub enum LensError {
    /// A buffer that carries an error was given as input.
    InputErrorUnsupportedError,
    /// An error could not be written to a transport buffer.
    FailedToWriteErrorToMemError,
    /// The parameters of the module were read before they were set.
    ParametersNotSetError,
}

impl LensError {
    /// The text of each failure.
    pub open spec fn text(self) -> Seq<char> {
        match self {
            LensError::InputErrorUnsupportedError =>
                "Using errors as inputs is currently unsupported."@,
            LensError::FailedToWriteErrorToMemError =>
                "An error occured when attempting to write an error to memory."@,
            LensError::ParametersNotSetError => "Parameters have not been set."@,
        }
    }

    /// The text of the failure, as a string slice.
    pub fn as_str(&self) -> (text: &'static str)
        ensures
            text@ == self.text(),
    {
        match self {
            LensError::InputErrorUnsupportedError =>
                "Using errors as inputs is currently unsupported.",
            LensError::FailedToWriteErrorToMemError =>
                "An error occured when attempting to write an error to memory.",
            LensError::ParametersNotSetError => "Parameters have not been set.",
        }
    }

    /// The text of the failure, as an owned string.
    pub fn to_string(&self) -> (text: String)
        ensures
            text@ == self.text(),
    {
        self.as_str().to_owned()
    }
}

/// Any error that a function of this crate returns.
#[derive(Debug)]
pub enum SdkError {
    /// Bytes that are not the UTF-8 form of a text. No function of this crate
    /// fails with it: it is here for those who read the message of an error
    /// buffer and report with this type.
    FromUtf8(std::string::FromUtf8Error),
    /// A length that does not fit the integer type that has to hold it.
    TryFromInt(std::num::TryFromIntError),
    /// A transport buffer that ends before what it announces.
    Io(std::io::Error),
    /// Text that is not the JSON form of a value, or a value that has none.
    Json(serde_json::Error),
    /// A failure that this crate itself reports.
    Lens(LensError),
}

impl SdkError {
    /// Whether `text` describes the error: for `Lens` it is the text of the
    /// failure, for the others what the error carried says of itself when
    /// `std` asks it for a string.
    pub open spec fn described_by(self, text: String) -> bool {
        match self {
            SdkError::FromUtf8(error) => to_string_from_display_ensures::<
                std::string::FromUtf8Error,
            >(&error, text),
            SdkError::TryFromInt(error) => to_string_from_display_ensures::<
                std::num::TryFromIntError,
            >(&error, text),
            SdkError::Io(error) => to_string_from_display_ensures::<std::io::Error>(&error, text),
            SdkError::Json(error) => to_string_from_display_ensures::<serde_json::Error>(
                &error,
                text,
            ),
            SdkError::Lens(failure) => text@ == failure.text(),
        }
    }

    /// The description of the error.
    pub fn to_string(&self) -> (text: String)
        ensures
            self.described_by(text),
    {
        match self {
            SdkError::FromUtf8(error) => error.to_string(),
            SdkError::TryFromInt(error) => error.to_string(),
            SdkError::Io(error) => error.to_string(),
            SdkError::Json(error) => error.to_string(),
            SdkError::Lens(error) => error.to_string(),
        }
    }
}

impl From<std::string::FromUtf8Error> for SdkError {
    fn from(err: std::string::FromUtf8Error) -> (error: SdkError) {
        SdkError::FromUtf8(err)
    }
}

impl vstd::std_specs::convert::FromSpecImpl<std::string::FromUtf8Error> for SdkError {
    open spec fn obeys_from_spec() -> bool {
        true
    }

    open spec fn from_spec(err: std::string::FromUtf8Error) -> SdkError {
        SdkError::FromUtf8(err)
    }
}

impl From<std::num::TryFromIntError> for SdkError {
    fn from(err: std::num::TryFromIntError) -> (error: SdkError) {
        SdkError::TryFromInt(err)
    }
}

impl vstd::std_specs::convert::FromSpecImpl<std::num::TryFromIntError> for SdkError {
    open spec fn obeys_from_spec() -> bool {
        true
    }

    open spec fn from_spec(err: std::num::TryFromIntError) -> SdkError {
        SdkError::TryFromInt(err)
    }
}

impl From<std::io::Error> for SdkError {
    fn from(err: std::io::Error) -> (error: SdkError) {
        SdkError::Io(err)
    }
}

impl vstd::std_specs::convert::FromSpecImpl<std::io::Error> for SdkError {
    open spec fn obeys_from_spec() -> bool {
        true
    }

    open spec fn from_spec(err: std::io::Error) -> SdkError {
        SdkError::Io(err)
    }
}

impl From<serde_json::Error> for SdkError {
    fn from(err: serde_json::Error) -> (error: SdkError) {
        SdkError::Json(err)
    }
}

impl vstd::std_specs::convert::FromSpecImpl<serde_json::Error> for SdkError {
    open spec fn obeys_from_spec() -> bool {
        true
    }

    open spec fn from_spec(err: serde_json::Error) -> SdkError {
        SdkError::Json(err)
    }
}

impl From<LensError> for SdkError {
    fn from(err: LensError) -> (error: SdkError) {
        SdkError::Lens(err)
    }
}

impl vstd::std_specs::convert::FromSpecImpl<LensError> for SdkError {
    open spec fn obeys_from_spec() -> bool {
        true
    }

    open spec fn from_spec(err: LensError) -> SdkError {
        SdkError::Lens(err)
    }
}

} // verus!
