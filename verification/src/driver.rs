//! The transform driver: one call of a transform, answered with one
//! transport buffer.

use vstd::prelude::*;
use vstd::string::to_string_from_display_ensures;
use vstd::utf8::encode_utf8;
use crate::input::InputIterator;
use crate::json;
use crate::json::json_text;
use crate::option::StreamOption;
use crate::transport::{law_written_is_whole, nil_ptr, to_mem, written};
use crate::wire::{
    encoding, frame, occupied, Frame, EOS_TYPE_ID, ERROR_TYPE_ID, JSON_TYPE_ID,
};

verus! {

/// Whether `buffer` reports a failure by what the failure says of itself.
pub open spec fn reports_failure<E: std::fmt::Display>(failure: E, buffer: Seq<u8>) -> bool {
    exists|description: String|
        #[trigger] to_string_from_display_ensures::<E>(&failure, description) && written(
            ERROR_TYPE_ID,
            encode_utf8(description@),
            buffer,
        )
}

/// Whether `buffer` carries a value, given what writing the value as JSON
/// text came to: the text under the JSON type id, or a report of the failure
/// to write it.
pub open spec fn carries<E: std::fmt::Display>(
    serialized: Result<Vec<u8>, E>,
    buffer: Seq<u8>,
) -> bool {
    match serialized {
        Ok(text) => written(JSON_TYPE_ID, text@, buffer),
        Err(failure) => reports_failure(failure, buffer),
    }
}

/// Whether `buffer` answers a transform call that came to `outcome`, where
/// the value, if there is one, stands as what writing it as JSON text came
/// to.
pub open spec fn answers_written<X: std::fmt::Display, E: std::fmt::Display>(
    outcome: Result<StreamOption<Result<Vec<u8>, X>>, E>,
    buffer: Seq<u8>,
) -> bool {
    match outcome {
        Ok(StreamOption::Value(serialized)) => carries(serialized, buffer),
        Ok(StreamOption::Absent) => buffer == seq![0u8],
        Ok(StreamOption::EndOfStream) => buffer == encoding(EOS_TYPE_ID, Seq::<u8>::empty()),
        Err(failure) => reports_failure(failure, buffer),
    }
}

/// Whether `buffer` answers a transform call that came to `outcome`: a
/// value goes out as its JSON text wherever `serde_json` writes it, and as
/// the report of the failure to write it wherever it does not.
pub open spec fn answers<E: std::fmt::Display>(
    outcome: Result<StreamOption<serde_json::Value>, E>,
    buffer: Seq<u8>,
) -> bool {
    match outcome {
        Ok(StreamOption::Value(value)) => match json_text(value) {
            Ok(text) => written(JSON_TYPE_ID, text, buffer),
            Err(failure) => reports_failure(failure, buffer),
        },
        Ok(StreamOption::Absent) => buffer == seq![0u8],
        Ok(StreamOption::EndOfStream) => buffer == encoding(EOS_TYPE_ID, Seq::<u8>::empty()),
        Err(failure) => reports_failure(failure, buffer),
    }
}

/// Every answer is a whole transport buffer, and the answer to a failure is
/// one that a reader takes for an error: no failure goes out as a corrupted
/// or a cut buffer.
pub proof fn law_answer_is_whole<E: std::fmt::Display>(
    outcome: Result<StreamOption<serde_json::Value>, E>,
    buffer: Seq<u8>,
)
    requires
        answers(outcome, buffer),
    ensures
        occupied(buffer) == Some(buffer.len()),
        outcome is Err ==> frame(buffer) == Frame::Error,
        outcome matches Ok(StreamOption::Value(value)) ==> (json_text(value) is Err ==> frame(
            buffer,
        ) == Frame::Error),
{
    match outcome {
        Ok(StreamOption::Value(value)) => match json_text(value) {
            Ok(text) => {
                law_written_is_whole(JSON_TYPE_ID, text, buffer);
            },
            Err(failure) => {
                lemma_report_is_whole(failure, buffer);
            },
        },
        Ok(StreamOption::Absent) => {},
        Ok(StreamOption::EndOfStream) => {
            crate::wire::law_encoding_occupies_itself(EOS_TYPE_ID, Seq::<u8>::empty());
        },
        Err(failure) => {
            lemma_report_is_whole(failure, buffer);
        },
    }
}

/// Every answer to a transform that gives its value as written text is a
/// whole transport buffer, and the answer to a failure, of the transform or
/// of writing the value, is one that a reader takes for an error.
pub proof fn law_written_answer_is_whole<X: std::fmt::Display, E: std::fmt::Display>(
    outcome: Result<StreamOption<Result<Vec<u8>, X>>, E>,
    buffer: Seq<u8>,
)
    requires
        answers_written(outcome, buffer),
    ensures
        occupied(buffer) == Some(buffer.len()),
        outcome is Err ==> frame(buffer) == Frame::Error,
        outcome matches Ok(StreamOption::Value(Err(_))) ==> frame(buffer) == Frame::Error,
{
    match outcome {
        Ok(StreamOption::Value(Ok(text))) => {
            law_written_is_whole(JSON_TYPE_ID, text@, buffer);
        },
        Ok(StreamOption::Value(Err(failure))) => {
            lemma_report_is_whole(failure, buffer);
        },
        Ok(StreamOption::Absent) => {},
        Ok(StreamOption::EndOfStream) => {
            crate::wire::law_encoding_occupies_itself(EOS_TYPE_ID, Seq::<u8>::empty());
        },
        Err(failure) => {
            lemma_report_is_whole(failure, buffer);
        },
    }
}

/// The report of a failure is a whole error buffer.
proof fn lemma_report_is_whole<E: std::fmt::Display>(failure: E, buffer: Seq<u8>)
    requires
        reports_failure(failure, buffer),
    ensures
        occupied(buffer) == Some(buffer.len()),
        frame(buffer) == Frame::Error,
{
    let description = choose|description: String|
        #[trigger] to_string_from_display_ensures::<E>(&failure, description) && written(
            ERROR_TYPE_ID,
            encode_utf8(description@),
            buffer,
        );
    law_written_is_whole(ERROR_TYPE_ID, encode_utf8(description@), buffer);
}

/// The error buffer that reports `failure` by what it says of itself.
pub fn fail<E: std::fmt::Display>(failure: &E) -> (buffer: Vec<u8>)
    ensures
        reports_failure(*failure, buffer@),
{
    let description = failure.to_string();
    let buffer = to_mem(ERROR_TYPE_ID, description.as_str().as_bytes());
    assert(to_string_from_display_ensures::<E>(failure, description));
    buffer
}

/// The buffer for a value, given what writing the value as JSON text came
/// to.
pub fn carry<E: std::fmt::Display>(serialized: Result<Vec<u8>, E>) -> (buffer: Vec<u8>)
    ensures
        carries(serialized, buffer@),
{
    match serialized {
        Ok(text) => to_mem(JSON_TYPE_ID, text.as_slice()),
        Err(failure) => fail(&failure),
    }
}

/// The buffer that answers a transform call that came to `outcome`, where
/// the value, if there is one, was already written as JSON text: the text
/// goes out under the JSON type id, the two sentinels go out as themselves,
/// and a failure, of the transform or of writing the value, goes out as an
/// error buffer with its description.
pub fn answer<X: std::fmt::Display, E: std::fmt::Display>(
    outcome: Result<StreamOption<Result<Vec<u8>, X>>, E>,
) -> (buffer: Vec<u8>)
    ensures
        answers_written(outcome, buffer@),
{
    match outcome {
        Ok(StreamOption::Value(serialized)) => carry(serialized),
        Ok(StreamOption::Absent) => nil_ptr(),
        Ok(StreamOption::EndOfStream) => to_mem(EOS_TYPE_ID, &[]),
        Err(failure) => fail(&failure),
    }
}

/// The buffer that answers a transform call that came to `outcome`: a value
/// goes out as JSON text, the two sentinels go out as themselves, and a
/// failure goes out as an error buffer with its description.
pub fn respond<E: std::fmt::Display>(
    outcome: Result<StreamOption<serde_json::Value>, E>,
) -> (buffer: Vec<u8>)
    ensures
        answers(outcome, buffer@),
{
    match outcome {
        Ok(StreamOption::Value(value)) => answer::<_, E>(
            Ok(StreamOption::Value(json::to_vec(&value))),
        ),
        Ok(StreamOption::Absent) => answer::<serde_json::Error, E>(Ok(StreamOption::Absent)),
        Ok(StreamOption::EndOfStream) => answer::<serde_json::Error, E>(
            Ok(StreamOption::EndOfStream),
        ),
        Err(failure) => answer::<serde_json::Error, E>(Err(failure)),
    }
}

/// Executes the given `transform` once and returns the transport buffer
/// that answers the call, as `next` does, for a transform that gives its
/// value as what writing it as JSON text came to.
pub fn next_written<F, T, X, E>(next_ptr: F, transform: T) -> (buffer: Vec<u8>)
    where
        F: Fn() -> Vec<u8>,
        T: Fn(&mut InputIterator<F>) -> Result<StreamOption<Result<Vec<u8>, X>>, E>,
        X: std::fmt::Display,
        E: std::fmt::Display,
    requires
        call_requires(next_ptr, ()),
        forall|iterator: &mut InputIterator<F>|
            iterator.source() == next_ptr && iterator.pulled() == Seq::<Seq<u8>>::empty()
                ==> call_requires(transform, (iterator,)),
    ensures
        exists|
            iterator: &mut InputIterator<F>,
            outcome: Result<StreamOption<Result<Vec<u8>, X>>, E>,
        |
            {
                &&& iterator.source() == next_ptr
                &&& iterator.pulled() == Seq::<Seq<u8>>::empty()
                &&& #[trigger] call_ensures(transform, (iterator,), outcome)
                &&& answers_written(outcome, buffer@)
            },
{
    let mut iterator = InputIterator::new(next_ptr);
    let outcome = transform(&mut iterator);
    answer(outcome)
}

/// Executes the given `transform` once and returns the transport buffer
/// that answers the call.
///
/// `transform` is given an adapter over `next_ptr`, the source of input
/// buffers, which has pulled nothing yet, and may pull any number of items
/// from it before it returns. What it returns decides the answer, as in
/// `respond`.
pub fn next<F, T, E>(next_ptr: F, transform: T) -> (buffer: Vec<u8>)
    where
        F: Fn() -> Vec<u8>,
        T: Fn(&mut InputIterator<F>) -> Result<StreamOption<serde_json::Value>, E>,
        E: std::fmt::Display,
    requires
        call_requires(next_ptr, ()),
        forall|iterator: &mut InputIterator<F>|
            iterator.source() == next_ptr && iterator.pulled() == Seq::<Seq<u8>>::empty()
                ==> call_requires(transform, (iterator,)),
    ensures
        exists|
            iterator: &mut InputIterator<F>,
            outcome: Result<StreamOption<serde_json::Value>, E>,
        |
            {
                &&& iterator.source() == next_ptr
                &&& iterator.pulled() == Seq::<Seq<u8>>::empty()
                &&& #[trigger] call_ensures(transform, (iterator,), outcome)
                &&& answers(outcome, buffer@)
            },
{
    let mut iterator = InputIterator::new(next_ptr);
    let outcome = transform(&mut iterator);
    respond(outcome)
}

} // verus!
