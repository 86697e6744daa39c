//! Transport buffers: how a value is written for the other side of the
//! boundary, and how what the other side wrote is read.

use vstd::prelude::*;
use vstd::slice::{slice_subrange, slice_to_vec};
use vstd::utf8::encode_utf8;
use crate::endian;
use crate::error::{LensError, SdkError};
use crate::json;
use crate::json::{json_parse, json_text};
use crate::option::StreamOption;
use crate::wire::{
    byte_type_id, encodable, encoding, length_in, frame, header_length, lemma_length_field,
    length_field, occupied, type_id_byte, Frame, EOS_TYPE_ID, ERROR_TYPE_ID, JSON_TYPE_ID,
    NIL_TYPE_ID,
};

verus! {

/// What reading a transport buffer comes to.
pub enum Decoding {
    /// A value.
    Value(serde_json::Value),
    /// No value: the buffer says so by its type id, or its payload is the JSON
    /// form of null.
    Absent,
    /// The end of the stream.
    EndOfStream,
    /// The buffer carries an error, which is not read as input.
    UnsupportedInput,
    /// The buffer ends before what it announces.
    Truncated,
    /// The payload is not the JSON form of a value: the failure to read it.
    Malformed(serde_json::Error),
}

/// What the reader makes of a text under a JSON type id, by what
/// `serde_json` reads from the text.
pub open spec fn decoding_of_text(text: Seq<u8>) -> Decoding {
    match json_parse(text) {
        Ok(Some(value)) => Decoding::Value(value),
        Ok(None) => Decoding::Absent,
        Err(failure) => Decoding::Malformed(failure),
    }
}

/// What reading the transport buffer at the start of `memory` comes to.
pub open spec fn decoding(memory: Seq<u8>) -> Decoding {
    match frame(memory) {
        Frame::Error => Decoding::UnsupportedInput,
        Frame::Nil => Decoding::Absent,
        Frame::EndOfStream => Decoding::EndOfStream,
        Frame::Truncated => Decoding::Truncated,
        Frame::Json(payload) => decoding_of_text(payload),
    }
}

/// Whether `result` is how the reader reports `decoding`. Each failure has
/// its own kind of error; of the error that `std` made for a buffer that
/// ends too early, only the kind is fixed here.
pub open spec fn reports(
    result: Result<StreamOption<serde_json::Value>, SdkError>,
    decoding: Decoding,
) -> bool {
    match decoding {
        Decoding::Value(value) => result == Ok::<_, SdkError>(StreamOption::Value(value)),
        Decoding::Absent => result == Ok::<_, SdkError>(StreamOption::<serde_json::Value>::Absent),
        Decoding::EndOfStream => result == Ok::<_, SdkError>(
            StreamOption::<serde_json::Value>::EndOfStream,
        ),
        Decoding::UnsupportedInput => result == Err::<StreamOption<serde_json::Value>, _>(
            SdkError::Lens(LensError::InputErrorUnsupportedError),
        ),
        Decoding::Truncated => result matches Err(SdkError::Io(_)),
        Decoding::Malformed(failure) => result == Err::<StreamOption<serde_json::Value>, _>(
            SdkError::Json(failure),
        ),
    }
}

/// Whether `result` is how the reader of frames reports `frame`: a JSON
/// payload comes out as its bytes, not yet read as text.
pub open spec fn frames(result: Result<StreamOption<Vec<u8>>, SdkError>, frame: Frame) -> bool {
    match frame {
        Frame::Json(payload) => result matches Ok(StreamOption::Value(text)) && text@ == payload,
        Frame::Nil => result == Ok::<_, SdkError>(StreamOption::<Vec<u8>>::Absent),
        Frame::EndOfStream => result == Ok::<_, SdkError>(StreamOption::<Vec<u8>>::EndOfStream),
        Frame::Error => result == Err::<StreamOption<Vec<u8>>, _>(
            SdkError::Lens(LensError::InputErrorUnsupportedError),
        ),
        Frame::Truncated => result matches Err(SdkError::Io(_)),
    }
}

/// The error buffer that reports a failure by its description. Where the
/// description is too long to be carried, the buffer reports that an error
/// could not be written.
pub open spec fn failure_report(description: Seq<char>) -> Seq<u8> {
    if encode_utf8(description).len() <= u32::MAX {
        encoding(ERROR_TYPE_ID, encode_utf8(description))
    } else {
        encoding(ERROR_TYPE_ID, encode_utf8(LensError::FailedToWriteErrorToMemError.text()))
    }
}

/// Whether `buffer` is what writing `message` under `type_id` gives: the
/// encoding where there is one, and otherwise the report of the failure to
/// write, which is a length that the length field cannot hold.
pub open spec fn written(type_id: i8, message: Seq<u8>, buffer: Seq<u8>) -> bool {
    if encodable(type_id, message) {
        buffer == encoding(type_id, message)
    } else {
        exists|failure: SdkError, description: String|
            {
                &&& failure is TryFromInt
                &&& #[trigger] failure.described_by(description)
                &&& buffer == failure_report(description@)
            }
    }
}

/// Returns the buffer of a nil value: one zeroed byte, which a host reads as
/// a value that is absent.
pub fn nil_ptr() -> (buffer: Vec<u8>)
    ensures
        buffer@ == seq![0u8],
        frame(buffer@) == Frame::Nil,
{
    let buffer = vec![0u8];
    assert(buffer@ =~= seq![0u8]);
    buffer
}

/// Reserves `size` bytes and returns the buffer that owns them: the room
/// into which whoever asked writes a transport buffer before anything reads
/// it. Until then every byte is zero, so that a reader that comes too early
/// finds a nil value.
///
/// No allocation holds more than `isize::MAX` bytes, so no more can be asked
/// for.
pub fn allocate(size: usize) -> (buffer: Vec<u8>)
    requires
        size <= isize::MAX,
    ensures
        buffer@ == Seq::new(size as nat, |i: int| 0u8),
        size > 0 ==> frame(buffer@) == Frame::Nil,
{
    let buffer = vec![0u8; size];
    assert(buffer@ =~= Seq::new(size as nat, |i: int| 0u8));
    buffer
}

/// The number of leading bytes of a transport buffer that tell how many
/// bytes it occupies, given its type id.
pub fn header_len(type_id: i8) -> (len: usize)
    ensures
        len == header_length(type_id),
{
    if type_id == NIL_TYPE_ID || type_id == EOS_TYPE_ID {
        1
    } else {
        5
    }
}

/// The number of bytes that the transport buffer at the start of `memory`
/// occupies: what has to be reclaimed once the buffer was consumed. Only the
/// header is read. Fails with `Io` where `memory` ends inside the header, and
/// with `TryFromInt` where the number does not fit a `usize`.
pub fn transport_len(memory: &[u8]) -> (len: Result<usize, SdkError>)
    ensures
        match occupied(memory@) {
            None => len matches Err(SdkError::Io(_)),
            Some(n) => if n <= usize::MAX {
                len == Ok::<usize, SdkError>(n as usize)
            } else {
                len matches Err(SdkError::TryFromInt(_))
            },
        },
{
    let type_id = match endian::read_i8(memory) {
        Ok(type_id) => type_id,
        Err(error) => return Err(SdkError::from(error)),
    };
    if header_len(type_id) == 1 {
        return Ok(1);
    }
    let field = slice_subrange(memory, 1, memory.len());
    let length = match endian::read_u32(field) {
        Ok(length) => length,
        Err(error) => return Err(SdkError::from(error)),
    };
    assert(field@.subrange(0, 4) =~= memory@.subrange(1, 5));
    let total: u64 = 5u64 + length as u64;
    match usize::try_from(total) {
        Ok(len) => Ok(len),
        Err(error) => Err(SdkError::from(error)),
    }
}

/// Reads the transport buffer at the start of `buffer` as far as its
/// frame goes: a JSON payload comes out as its bytes, copied and not yet read
/// as text. The buffer is consumed.
///
/// Fails with `InputErrorUnsupportedError` on a negative type id, and with
/// `Io` where the buffer ends before its type id, inside its length or
/// before the end of its payload.
pub fn payload_of(buffer: Vec<u8>) -> (result: Result<StreamOption<Vec<u8>>, SdkError>)
    ensures
        frames(result, frame(buffer@)),
{
    let memory = buffer.as_slice();
    let type_id = match endian::read_i8(memory) {
        Ok(type_id) => type_id,
        Err(error) => return Err(SdkError::from(error)),
    };
    if type_id == NIL_TYPE_ID {
        return Ok(StreamOption::Absent);
    }
    if type_id == EOS_TYPE_ID {
        return Ok(StreamOption::EndOfStream);
    }
    if type_id < 0 {
        return Result::from(LensError::InputErrorUnsupportedError);
    }
    let field = slice_subrange(memory, 1, memory.len());
    let length = match endian::read_u32(field) {
        Ok(length) => length,
        Err(error) => return Err(SdkError::from(error)),
    };
    assert(field@.subrange(0, 4) =~= memory@.subrange(1, 5));
    let len = length as usize;
    if memory.len() - 5 < len {
        return Err(SdkError::Io(endian::unexpected_eof()));
    }
    Ok(StreamOption::Value(slice_to_vec(slice_subrange(memory, 5, 5 + len))))
}

/// What was read from a JSON text, as the reader of a transport buffer gives
/// it: a value, no value where the text was the JSON form of null, or the
/// failure to read the text.
pub fn value_of<T>(parsed: Result<Option<T>, serde_json::Error>) -> (result: Result<
    StreamOption<T>,
    SdkError,
>)
    ensures
        result == (match parsed {
            Ok(Some(value)) => Ok::<_, SdkError>(StreamOption::Value(value)),
            Ok(None) => Ok::<_, SdkError>(StreamOption::<T>::Absent),
            Err(failure) => Err::<StreamOption<T>, _>(SdkError::Json(failure)),
        }),
{
    match parsed {
        Ok(Some(value)) => Ok(StreamOption::Value(value)),
        Ok(None) => Ok(StreamOption::Absent),
        Err(error) => Err(SdkError::from(error)),
    }
}

/// Reads the transport buffer at the start of `buffer` and gives what it
/// carries. The buffer is consumed: the value returned owns all it holds.
///
/// type id | read as | what follows the id
/// --- | --- | ---
/// below 0 | an error | not read: fails with `InputErrorUnsupportedError`
/// 0 | no value | not read: `Absent`
/// 127 | the end of the stream | not read: `EndOfStream`
/// any other | JSON | the length of the text, then the text
///
/// A text that is the JSON form of null gives `Absent`, as the type id 0
/// does. Fails with `Io` where the buffer ends before its type id, inside
/// its length or before the end of its text, and with `Json`, carrying the
/// failure of `serde_json`, where the text is not the JSON form of a value.
pub fn try_from_mem(buffer: Vec<u8>) -> (result: Result<
    StreamOption<serde_json::Value>,
    SdkError,
>)
    ensures
        reports(result, decoding(buffer@)),
        buffer@.len() > 0 && byte_type_id(buffer@[0]) < 0 ==> result == Err::<
            StreamOption<serde_json::Value>,
            _,
        >(SdkError::Lens(LensError::InputErrorUnsupportedError)),
{
    match payload_of(buffer) {
        Ok(StreamOption::Value(text)) => value_of(json::from_slice(text.as_slice())),
        Ok(StreamOption::Absent) => Ok(StreamOption::Absent),
        Ok(StreamOption::EndOfStream) => Ok(StreamOption::EndOfStream),
        Err(error) => Err(error),
    }
}

/// Every character has at most four bytes in UTF-8.
proof fn lemma_utf8_len(chars: Seq<char>)
    ensures
        encode_utf8(chars).len() <= 4 * chars.len(),
    decreases chars.len(),
{
    if chars.len() > 0 {
        lemma_utf8_len(chars.drop_first());
    }
}

/// The byte that carries a type id.
fn type_id_to_byte(type_id: i8) -> (byte: u8)
    ensures
        byte == type_id_byte(type_id),
{
    if type_id < 0 {
        (type_id as i16 + 256) as u8
    } else {
        type_id as u8
    }
}

/// Writes the type id, the length and the message, one after the other.
fn write_frame(type_id: i8, length: u32, message: &[u8]) -> (buffer: Vec<u8>)
    requires
        type_id != EOS_TYPE_ID,
        message@.len() == length,
    ensures
        buffer@ == encoding(type_id, message@),
{
    let mut buffer: Vec<u8> = Vec::with_capacity(message.len().saturating_add(5));
    buffer.push(type_id_to_byte(type_id));
    let mut field: Vec<u8> = vec![0u8; 4];
    endian::write_u32(&mut field, length);
    buffer.append(&mut field);
    buffer.extend_from_slice(message);
    assert(buffer@ =~= encoding(type_id, message@));
    buffer
}

/// Writes the given `message` bytes to a transport buffer under `type_id`:
/// the type id, the length of the message and the message, or the type id
/// alone where it denotes the end of the stream.
///
/// Fails with `TryFromInt` where the length of the message does not fit the
/// length field. Nothing is written then.
pub fn try_to_mem(type_id: i8, message: &[u8]) -> (buffer: Result<Vec<u8>, SdkError>)
    ensures
        encodable(type_id, message@) ==> (buffer matches Ok(bytes) && bytes@ == encoding(
            type_id,
            message@,
        )),
        !encodable(type_id, message@) ==> buffer matches Err(SdkError::TryFromInt(_)),
{
    if type_id == EOS_TYPE_ID {
        let buffer = vec![type_id_to_byte(type_id)];
        assert(buffer@ =~= encoding(type_id, message@));
        return Ok(buffer);
    }
    match u32::try_from(message.len()) {
        Ok(length) => Ok(write_frame(type_id, length, message)),
        Err(error) => Err(SdkError::from(error)),
    }
}

/// Writes an error buffer that reports a failure by its `description`. Where
/// the description cannot be written, the buffer reports that instead: its
/// message is then the text of `LensError::FailedToWriteErrorToMemError`.
pub fn report_failure(description: &str) -> (buffer: Vec<u8>)
    ensures
        buffer@ == failure_report(description@),
{
    match try_to_mem(ERROR_TYPE_ID, description.as_bytes()) {
        Ok(buffer) => buffer,
        Err(_) => {
            let notice = LensError::FailedToWriteErrorToMemError.as_str().as_bytes();
            proof {
                reveal_strlit("An error occured when attempting to write an error to memory.");
                lemma_utf8_len(LensError::FailedToWriteErrorToMemError.text());
            }
            write_frame(ERROR_TYPE_ID, notice.len() as u32, notice)
        },
    }
}

/// Writes the given `message` bytes to a transport buffer under `type_id`,
/// as `try_to_mem` does. Where that fails, the buffer returned is an error
/// buffer that reports the failure, written by `report_failure`.
pub fn to_mem(type_id: i8, message: &[u8]) -> (buffer: Vec<u8>)
    ensures
        written(type_id, message@, buffer@),
        encodable(type_id, message@) ==> buffer@ == encoding(type_id, message@),
{
    match try_to_mem(type_id, message) {
        Ok(buffer) => buffer,
        Err(error) => {
            let description = error.to_string();
            report_failure(description.as_str())
        },
    }
}

/// Reading what was written under a JSON type id gives what `serde_json`
/// reads from the text that was written: the frame adds nothing and loses
/// nothing.
pub proof fn law_round_trip(type_id: i8, text: Seq<u8>)
    requires
        0 < type_id < EOS_TYPE_ID,
        text.len() <= u32::MAX,
    ensures
        decoding(encoding(type_id, text)) == decoding_of_text(text),
{
    crate::wire::law_frame_of_encoding(type_id, text);
}

/// A value comes back as itself from the buffer that carries its JSON text,
/// wherever `serde_json` reads from that text the value that it wrote, and
/// the length field can hold the length of the text.
pub proof fn law_value_round_trip(value: serde_json::Value)
    ensures
        json_text(value) matches Ok(text) ==> (text.len() <= u32::MAX && json_parse(text) == Ok::<
            _,
            serde_json::Error,
        >(Some(value)) ==> decoding(encoding(JSON_TYPE_ID, text)) == Decoding::Value(value)),
{
    if let Ok(text) = json_text(value) {
        if text.len() <= u32::MAX {
            law_round_trip(JSON_TYPE_ID, text);
        }
    }
}

/// A buffer written under the nil type id reads as an absent value, and one
/// written under the type id of the end of the stream reads as the end of
/// the stream, whatever message was given to the writer.
pub proof fn law_sentinel_identity(message: Seq<u8>)
    ensures
        decoding(encoding(NIL_TYPE_ID, message)) == Decoding::Absent,
        decoding(encoding(EOS_TYPE_ID, message)) == Decoding::EndOfStream,
{
    crate::wire::lemma_type_id_byte(NIL_TYPE_ID, 0);
    crate::wire::lemma_type_id_byte(EOS_TYPE_ID, 0);
}

/// A buffer under a JSON type id whose text is the JSON form of null reads
/// as an absent value, exactly as a buffer under the nil type id does.
pub proof fn law_embedded_null(type_id: i8, text: Seq<u8>, message: Seq<u8>)
    requires
        0 < type_id < EOS_TYPE_ID,
        text.len() <= u32::MAX,
    ensures
        json_parse(text) == Ok::<_, serde_json::Error>(None::<serde_json::Value>) ==> decoding(
            encoding(type_id, text),
        ) == Decoding::Absent,
        json_parse(text) == Ok::<_, serde_json::Error>(None::<serde_json::Value>) ==> decoding(
            encoding(type_id, text),
        ) == decoding(encoding(NIL_TYPE_ID, message)),
{
    law_round_trip(type_id, text);
    law_sentinel_identity(message);
}

/// A buffer with a negative type id is never read as a value: whatever
/// follows the id, reading it comes to `UnsupportedInput`.
pub proof fn law_negative_type_id(memory: Seq<u8>)
    requires
        memory.len() > 0,
        byte_type_id(memory[0]) < 0,
    ensures
        decoding(memory) == Decoding::UnsupportedInput,
{
}

/// Reading a buffer looks at no byte behind the ones that the buffer
/// occupies: the bytes that are reclaimed once it was consumed are the bytes
/// that decided what was read.
pub proof fn law_reading_stays_inside(memory: Seq<u8>, n: nat)
    requires
        occupied(memory) == Some(n),
        n <= memory.len(),
    ensures
        decoding(memory) == decoding(memory.subrange(0, n as int)),
{
    crate::wire::law_reader_stays_inside(memory, n);
}

/// A failure report is a whole error buffer, whatever the description: a
/// reader takes it for an error, and its length field counts exactly the
/// bytes of the message behind it, so that the report occupies all of its
/// bytes and no more.
pub proof fn law_failure_report(description: Seq<char>)
    ensures
        frame(failure_report(description)) == Frame::Error,
        occupied(failure_report(description)) == Some(failure_report(description).len()),
        failure_report(description).len() == 5 + length_in(
            failure_report(description).subrange(1, 5),
        ),
{
    let notice = encode_utf8(LensError::FailedToWriteErrorToMemError.text());
    reveal_strlit("An error occured when attempting to write an error to memory.");
    lemma_utf8_len(LensError::FailedToWriteErrorToMemError.text());
    let message = if encode_utf8(description).len() <= u32::MAX {
        encode_utf8(description)
    } else {
        notice
    };
    crate::wire::law_frame_of_encoding(ERROR_TYPE_ID, message);
    crate::wire::law_encoding_occupies_itself(ERROR_TYPE_ID, message);
    lemma_length_field(message.len() as u32);
    assert(encoding(ERROR_TYPE_ID, message).subrange(1, 5) =~= length_field(message.len() as u32));
}

/// Nothing is written in a corrupted or a cut form: what comes of writing a
/// message, the report of a failure to write too, is a buffer whose length
/// field counts exactly the bytes behind it. (Under the nil type id the
/// writer adds a length and the message, of which a reader takes no
/// notice: that id is left out.) Under the error type id the buffer is one
/// that a reader takes for an error, whether the message was written or the
/// failure to write it.
pub proof fn law_written_is_whole(type_id: i8, message: Seq<u8>, buffer: Seq<u8>)
    requires
        written(type_id, message, buffer),
        type_id != NIL_TYPE_ID,
    ensures
        occupied(buffer) == Some(buffer.len()),
        type_id < 0 || !encodable(type_id, message) ==> frame(buffer) == Frame::Error,
{
    if encodable(type_id, message) {
        crate::wire::law_encoding_occupies_itself(type_id, message);
        crate::wire::law_frame_of_encoding(type_id, message);
    } else {
        let (failure, description) = choose|failure: SdkError, description: String|
            {
                &&& failure is TryFromInt
                &&& #[trigger] failure.described_by(description)
                &&& buffer == failure_report(description@)
            };
        law_failure_report(description@);
    }
}

} // verus!
