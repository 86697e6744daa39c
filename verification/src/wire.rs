//! The layout of a transport buffer.
//!
//! A buffer starts with one byte, the type id in two's complement. The id of
//! the end of a stream stands alone. After any other id the encoder writes
//! the length of the payload, four bytes with the least significant first,
//! and then the payload. A reader takes a negative id for an error, zero for
//! a value that is absent, and any other positive id for a JSON payload; of
//! an absent value it reads the id and nothing more.

use vstd::prelude::*;

verus! {

/// A type id that denotes a simple string-based error.
pub const ERROR_TYPE_ID: i8 = -1;

/// A type id that denotes a nil value.
pub const NIL_TYPE_ID: i8 = 0;

/// A type id that denotes a JSON value.
pub const JSON_TYPE_ID: i8 = 1;

/// A type id that denotes the end of the stream: the source will yield no
/// further value.
pub const EOS_TYPE_ID: i8 = 127;

/// The byte that carries a type id.
pub open spec fn type_id_byte(type_id: i8) -> u8 {
    if type_id < 0 {
        (type_id + 256) as u8
    } else {
        type_id as u8
    }
}

/// The type id that a byte carries.
pub open spec fn byte_type_id(byte: u8) -> i8 {
    if byte < 128 {
        byte as i8
    } else {
        (byte - 256) as i8
    }
}

/// The four bytes of a length, least significant first.
pub open spec fn length_field(length: u32) -> Seq<u8> {
    seq![
        (length % 256) as u8,
        (length / 256 % 256) as u8,
        (length / 65536 % 256) as u8,
        (length / 16777216) as u8,
    ]
}

/// The length that the first four bytes of `field` spell.
pub open spec fn length_in(field: Seq<u8>) -> nat
    recommends
        field.len() >= 4,
{
    (field[0] + 256 * field[1] + 65536 * field[2] + 16777216 * field[3]) as nat
}

/// Whether a message can be carried under a type id: the length field has to
/// hold the length of the message, unless the id stands alone.
pub open spec fn encodable(type_id: i8, message: Seq<u8>) -> bool {
    type_id == EOS_TYPE_ID || message.len() <= u32::MAX
}

/// The transport buffer that carries `message` under `type_id`.
pub open spec fn encoding(type_id: i8, message: Seq<u8>) -> Seq<u8>
    recommends
        encodable(type_id, message),
{
    if type_id == EOS_TYPE_ID {
        seq![type_id_byte(type_id)]
    } else {
        seq![type_id_byte(type_id)] + length_field(message.len() as u32) + message
    }
}

/// The number of leading bytes that tell how long a buffer with this type id
/// is: the id alone where nothing follows it, the id and the length field
/// otherwise.
pub open spec fn header_length(type_id: i8) -> nat {
    if type_id == NIL_TYPE_ID || type_id == EOS_TYPE_ID {
        1
    } else {
        5
    }
}

/// The number of bytes that the transport buffer at the start of `memory`
/// occupies, or `None` where `memory` ends inside the header.
pub open spec fn occupied(memory: Seq<u8>) -> Option<nat> {
    if memory.len() == 0 {
        None
    } else if header_length(byte_type_id(memory[0])) == 1 {
        Some(1)
    } else if memory.len() < 5 {
        None
    } else {
        Some(5 + length_in(memory.subrange(1, 5)))
    }
}

/// What a reader finds at the start of a region of memory.
pub enum Frame {
    /// An error: nothing of it is read beyond the type id.
    Error,
    /// A value that is absent.
    Nil,
    /// The end of the stream.
    EndOfStream,
    /// A JSON payload, with its bytes.
    Json(Seq<u8>),
    /// The region ends before the type id, inside the length field, or before
    /// the last byte of the payload that the length field announces.
    Truncated,
}

/// The frame at the start of `memory`. Bytes behind the frame are not read.
pub open spec fn frame(memory: Seq<u8>) -> Frame {
    if memory.len() == 0 {
        Frame::Truncated
    } else if byte_type_id(memory[0]) == NIL_TYPE_ID {
        Frame::Nil
    } else if byte_type_id(memory[0]) == EOS_TYPE_ID {
        Frame::EndOfStream
    } else if byte_type_id(memory[0]) < 0 {
        Frame::Error
    } else if memory.len() < 5 {
        Frame::Truncated
    } else if memory.len() - 5 < length_in(memory.subrange(1, 5)) {
        Frame::Truncated
    } else {
        Frame::Json(memory.subrange(5, 5 + length_in(memory.subrange(1, 5)) as int))
    }
}

/// A type id and the byte that carries it stand for each other.
pub proof fn lemma_type_id_byte(type_id: i8, byte: u8)
    ensures
        byte_type_id(type_id_byte(type_id)) == type_id,
        type_id_byte(byte_type_id(byte)) == byte,
        byte_type_id(byte) < 0 <==> byte >= 128,
{
}

/// The length field spells the length it was made from.
pub proof fn lemma_length_field(length: u32)
    ensures
        length_field(length).len() == 4,
        length_in(length_field(length)) == length,
{
}

/// Reading what the encoder wrote gives the kind that the type id stands
/// for, and for a JSON id the message itself, byte for byte.
pub proof fn law_frame_of_encoding(type_id: i8, message: Seq<u8>)
    requires
        encodable(type_id, message),
    ensures
        type_id < 0 ==> frame(encoding(type_id, message)) == Frame::Error,
        type_id == NIL_TYPE_ID ==> frame(encoding(type_id, message)) == Frame::Nil,
        type_id == EOS_TYPE_ID ==> frame(encoding(type_id, message)) == Frame::EndOfStream,
        0 < type_id < EOS_TYPE_ID ==> frame(encoding(type_id, message)) == Frame::Json(message),
{
    lemma_type_id_byte(type_id, 0);
    if type_id != EOS_TYPE_ID {
        let length = message.len() as u32;
        let buffer = encoding(type_id, message);
        lemma_length_field(length);
        assert(buffer.subrange(1, 5) =~= length_field(length));
        assert(buffer.subrange(5, 5 + length) =~= message);
    }
}

/// The length field of an encoded buffer counts exactly the payload bytes
/// behind it: a buffer under an id that carries a payload occupies all of
/// its bytes, neither fewer nor more.
pub proof fn law_encoding_occupies_itself(type_id: i8, message: Seq<u8>)
    requires
        encodable(type_id, message),
        type_id != NIL_TYPE_ID,
    ensures
        occupied(encoding(type_id, message)) == Some(encoding(type_id, message).len()),
        type_id != EOS_TYPE_ID ==> encoding(type_id, message).len() == 5 + message.len(),
{
    lemma_type_id_byte(type_id, 0);
    if type_id != EOS_TYPE_ID {
        let length = message.len() as u32;
        lemma_length_field(length);
        assert(encoding(type_id, message).subrange(1, 5) =~= length_field(length));
    }
}

/// The header decides how many bytes a buffer occupies: whoever has read
/// as many leading bytes as `header_length` asks for the type id knows the
/// number, whatever follows them.
pub proof fn law_header_decides(memory: Seq<u8>)
    requires
        memory.len() > 0,
        memory.len() >= header_length(byte_type_id(memory[0])),
    ensures
        occupied(memory) is Some,
        occupied(memory) == occupied(
            memory.subrange(0, header_length(byte_type_id(memory[0])) as int),
        ),
{
    let header = memory.subrange(0, header_length(byte_type_id(memory[0])) as int);
    assert(header[0] == memory[0]);
    if header_length(byte_type_id(memory[0])) == 5 {
        assert(header.subrange(1, 5) =~= memory.subrange(1, 5));
    }
}

/// A reader stays inside the buffer: what it finds depends on no byte
/// behind the ones that the buffer occupies.
pub proof fn law_reader_stays_inside(memory: Seq<u8>, n: nat)
    requires
        occupied(memory) == Some(n),
        n <= memory.len(),
    ensures
        frame(memory) == frame(memory.subrange(0, n as int)),
{
    let inside = memory.subrange(0, n as int);
    assert(inside[0] == memory[0]);
    if header_length(byte_type_id(memory[0])) == 5 {
        assert(inside.subrange(1, 5) =~= memory.subrange(1, 5));
        assert(inside.subrange(5, n as int) =~= memory.subrange(5, n as int));
    }
}

/// A reader finds a buffer truncated exactly where no byte is there at all,
/// or the type id announces a JSON payload and fewer bytes are there than
/// the buffer occupies.
pub proof fn law_truncated(memory: Seq<u8>)
    ensures
        frame(memory) == Frame::Truncated <==> memory.len() == 0 || (0 < byte_type_id(memory[0])
            < EOS_TYPE_ID && match occupied(memory) {
            Some(n) => memory.len() < n,
            None => true,
        }),
{
}

} // verus!
