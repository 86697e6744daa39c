//! The parameter channel: the place where a module keeps the parameters
//! that its host sets, and from which every transform call reads them.

use vstd::prelude::*;
use vstd::utf8::encode_utf8;
use crate::error::{LensError, SdkError};
use crate::transport::{decoding, nil_ptr, to_mem, try_from_mem, written, Decoding};
use crate::wire::ERROR_TYPE_ID;

verus! {

/// What a read of the channel gives, by what the channel holds.
pub open spec fn reading<P>(held: Option<P>) -> Result<P, LensError> {
    match held {
        Some(parameters) => Ok(parameters),
        None => Err(LensError::ParametersNotSetError),
    }
}

/// What the channel holds once `parameters` were set, whatever it held.
pub open spec fn storing<P>(held: Option<P>, parameters: P) -> Option<P> {
    Some(parameters)
}

/// The parameters of one module instance: absent until the host sets them,
/// and from then on the value that was set last.
pub struct Parameters<P> {
    held: Option<P>,
}

impl<P> View for Parameters<P> {
    type V = Option<P>;

    closed spec fn view(&self) -> Option<P> {
        self.held
    }
}

impl<P> Parameters<P> {
    /// A channel in which nothing was set yet.
    pub fn new() -> (channel: Self)
        ensures
            channel@ == None::<P>,
    {
        Parameters { held: None }
    }

    /// Stores `parameters` in place of what was held.
    pub fn set(&mut self, parameters: P)
        ensures
            final(self)@ == storing(old(self)@, parameters),
    {
        self.held = Some(parameters);
    }

    /// The parameters that were set last. Fails with
    /// `ParametersNotSetError` where none were set yet.
    pub fn get(&self) -> (parameters: Result<&P, LensError>)
        ensures
            match reading(self@) {
                Ok(held) => parameters == Ok::<&P, LensError>(&held),
                Err(failure) => parameters == Err::<&P, LensError>(failure),
            },
    {
        match &self.held {
            Some(parameters) => Ok(parameters),
            None => Err(LensError::ParametersNotSetError),
        }
    }
}

/// What `parameter_of` gives for a buffer that reads as `decoding`: the
/// value, or the failure to read it; a buffer that carries no value gives
/// `ParametersNotSetError`.
pub open spec fn delivers(
    result: Result<serde_json::Value, SdkError>,
    decoding: Decoding,
) -> bool {
    match decoding {
        Decoding::Value(value) => result == Ok::<_, SdkError>(value),
        Decoding::Absent | Decoding::EndOfStream => result == Err::<serde_json::Value, _>(
            SdkError::Lens(LensError::ParametersNotSetError),
        ),
        Decoding::UnsupportedInput => result == Err::<serde_json::Value, _>(
            SdkError::Lens(LensError::InputErrorUnsupportedError),
        ),
        Decoding::Truncated => result matches Err(SdkError::Io(_)),
        Decoding::Malformed(failure) => result == Err::<serde_json::Value, _>(
            SdkError::Json(failure),
        ),
    }
}

/// Reads the parameters that a host sent in a transport buffer.
pub fn parameter_of(buffer: Vec<u8>) -> (result: Result<serde_json::Value, SdkError>)
    ensures
        delivers(result, decoding(buffer@)),
{
    match try_from_mem(buffer) {
        Ok(decoded) => decoded.ok_or(SdkError::Lens(LensError::ParametersNotSetError)),
        Err(error) => Err(error),
    }
}

/// The buffer that answers a call that set parameters: the nil buffer where
/// it succeeded, and otherwise an error buffer with the description of the
/// failure.
pub fn acknowledge(result: Result<(), SdkError>) -> (buffer: Vec<u8>)
    ensures
        match result {
            Ok(_) => buffer@ == seq![0u8],
            Err(error) => exists|description: String|
                {
                    &&& #[trigger] error.described_by(description)
                    &&& written(ERROR_TYPE_ID, encode_utf8(description@), buffer@)
                },
        },
        result matches Err(SdkError::Lens(failure)) ==> written(
            ERROR_TYPE_ID,
            encode_utf8(failure.text()),
            buffer@,
        ),
{
    match result {
        Ok(_) => nil_ptr(),
        Err(error) => {
            let description = error.to_string();
            to_mem(ERROR_TYPE_ID, description.as_str().as_bytes())
        },
    }
}

impl Parameters<serde_json::Value> {
    /// Reads the parameters that a host sent in `buffer` and stores them.
    /// Where the buffer cannot be read or carries no value, the call fails
    /// and the channel holds what it held.
    pub fn try_set_param(&mut self, buffer: Vec<u8>) -> (result: Result<(), SdkError>)
        ensures
            match decoding(buffer@) {
                Decoding::Value(value) => result is Ok && final(self)@ == Some(value),
                _ => result is Err && final(self)@ == old(self)@,
            },
            result matches Err(error) ==> delivers(
                Err::<serde_json::Value, _>(error),
                decoding(buffer@),
            ),
    {
        match parameter_of(buffer) {
            Ok(parameters) => {
                self.set(parameters);
                Ok(())
            },
            Err(error) => Err(error),
        }
    }

    /// Reads the parameters that a host sent in `buffer`, stores them, and
    /// returns the buffer that answers the host: see `try_set_param` and
    /// `acknowledge`.
    pub fn set_param(&mut self, buffer: Vec<u8>) -> (answer: Vec<u8>)
        ensures
            match decoding(buffer@) {
                Decoding::Value(value) => answer@ == seq![0u8] && final(self)@ == Some(value),
                Decoding::Absent | Decoding::EndOfStream => final(self)@ == old(self)@ && written(
                    ERROR_TYPE_ID,
                    encode_utf8(LensError::ParametersNotSetError.text()),
                    answer@,
                ),
                Decoding::UnsupportedInput => final(self)@ == old(self)@ && written(
                    ERROR_TYPE_ID,
                    encode_utf8(LensError::InputErrorUnsupportedError.text()),
                    answer@,
                ),
                _ => final(self)@ == old(self)@ && exists|description: Seq<char>|
                    written(ERROR_TYPE_ID, #[trigger] encode_utf8(description), answer@),
            },
    {
        let result = self.try_set_param(buffer);
        acknowledge(result)
    }
}

/// Reading before anything was set fails with `ParametersNotSetError`. Once
/// parameters were set, every read gives them, whatever was held before,
/// until others are set.
pub proof fn law_parameter_gating<P>(held: Option<P>, parameters: P)
    ensures
        reading(None::<P>) == Err::<P, LensError>(LensError::ParametersNotSetError),
        reading(storing(held, parameters)) == Ok::<P, LensError>(parameters),
{
}

} // verus!
