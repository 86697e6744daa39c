//! The pull adapter: a sequence of input items over the host's source of
//! transport buffers.

use vstd::prelude::*;
use crate::error::{LensError, SdkError};
use crate::json;
use crate::option::StreamOption;
use crate::transport::{decoding, payload_of, value_of, Decoding};
use crate::wire::{frame, Frame};

verus! {

/// Whether the buffers pulled so far can be what an adapter pulled: none but
/// the last of them may announce the end of the stream, since the adapter
/// pulls nothing after that.
pub open spec fn pulled_in_order(pulled: Seq<Seq<u8>>) -> bool {
    forall|i: int| 0 <= i < pulled.len() - 1 ==> !(#[trigger] decoding(pulled[i]) is EndOfStream)
}

/// Whether the last buffer pulled announced the end of the stream.
pub open spec fn ends(pulled: Seq<Seq<u8>>) -> bool {
    pulled.len() > 0 && decoding(pulled.last()) is EndOfStream
}

/// In what an adapter pulled, the buffer that announces the end of the
/// stream is the last one: the adapter asked for nothing after it.
pub proof fn law_end_is_last(pulled: Seq<Seq<u8>>, i: int)
    requires
        pulled_in_order(pulled),
        0 <= i < pulled.len(),
        decoding(pulled[i]) is EndOfStream,
    ensures
        i == pulled.len() - 1,
        ends(pulled),
{
}

/// The item that the adapter yields for what was read from one buffer: the
/// end of the stream ends the sequence, and anything else is an item of it,
/// a failure too.
pub fn item_of<T>(decoded: Result<StreamOption<T>, SdkError>) -> (item: Option<
    Result<Option<T>, SdkError>,
>)
    ensures
        item == (match decoded {
            Ok(StreamOption::Value(value)) => Some(Ok::<_, SdkError>(Some(value))),
            Ok(StreamOption::Absent) => Some(Ok::<_, SdkError>(None::<T>)),
            Ok(StreamOption::EndOfStream) => None::<Result<Option<T>, SdkError>>,
            Err(error) => Some(Err::<Option<T>, _>(error)),
        }),
{
    match decoded {
        Ok(StreamOption::Value(value)) => Some(Ok(Some(value))),
        Ok(StreamOption::Absent) => Some(Ok(None)),
        Ok(StreamOption::EndOfStream) => None,
        Err(error) => Some(Err(error)),
    }
}

/// Whether `item` is what the adapter yields for a buffer whose frame is
/// `frame`, where the payload is asked for as bytes.
pub open spec fn yields_payload(
    item: Option<Result<Option<Vec<u8>>, SdkError>>,
    frame: Frame,
) -> bool {
    match frame {
        Frame::Json(payload) => item matches Some(Ok(Some(text))) && text@ == payload,
        Frame::Nil => item == Some(Ok::<_, SdkError>(None::<Vec<u8>>)),
        Frame::EndOfStream => item is None,
        Frame::Error => item == Some(
            Err::<Option<Vec<u8>>, _>(SdkError::Lens(LensError::InputErrorUnsupportedError)),
        ),
        Frame::Truncated => item matches Some(Err(SdkError::Io(_))),
    }
}

/// Whether `item` is what the adapter yields for a buffer that reads as
/// `decoding`.
pub open spec fn yields(
    item: Option<Result<Option<serde_json::Value>, SdkError>>,
    decoding: Decoding,
) -> bool {
    match decoding {
        Decoding::Value(value) => item == Some(Ok::<_, SdkError>(Some(value))),
        Decoding::Absent => item == Some(Ok::<_, SdkError>(None::<serde_json::Value>)),
        Decoding::EndOfStream => item is None,
        Decoding::UnsupportedInput => item == Some(
            Err::<Option<serde_json::Value>, _>(
                SdkError::Lens(LensError::InputErrorUnsupportedError),
            ),
        ),
        Decoding::Truncated => item matches Some(Err(SdkError::Io(_))),
        Decoding::Malformed(failure) => item == Some(
            Err::<Option<serde_json::Value>, _>(SdkError::Json(failure)),
        ),
    }
}

/// A sequence of input items, pulled one at a time from a source of
/// transport buffers. The sequence ends when the source announces the end of
/// the stream, and the source is not asked again after that.
pub struct InputIterator<F: Fn() -> Vec<u8>> {
    next_ptr: F,
    progress: Progress,
}

/// How far an adapter has come: whether it has met the end of the stream,
/// and the buffers that it has pulled.
struct Progress {
    exhausted: bool,
    pulled: Ghost<Seq<Seq<u8>>>,
}

impl<F: Fn() -> Vec<u8>> InputIterator<F> {
    #[verifier::type_invariant]
    spec fn well_formed(self) -> bool {
        &&& call_requires(self.next_ptr, ())
        &&& pulled_in_order(self.progress.pulled@)
        &&& self.progress.exhausted == ends(self.progress.pulled@)
    }

    /// The source that the adapter pulls from.
    pub closed spec fn source(self) -> F {
        self.next_ptr
    }

    /// The buffers pulled from the source so far, the first one first.
    pub closed spec fn pulled(self) -> Seq<Seq<u8>> {
        self.progress.pulled@
    }

    /// An adapter over `next`, which has pulled nothing yet.
    pub fn new(next: F) -> (iterator: Self)
        requires
            call_requires(next, ()),
        ensures
            iterator.source() == next,
            iterator.pulled() == Seq::<Seq<u8>>::empty(),
    {
        InputIterator {
            next_ptr: next,
            progress: Progress { exhausted: false, pulled: Ghost(Seq::empty()) },
        }
    }

    /// The next item of the sequence with its payload as bytes, not yet
    /// read as text, or `None` at the end of the sequence.
    ///
    /// Before the end, one buffer is pulled from the source and its frame is
    /// read; a buffer whose frame cannot be read gives an item that is an
    /// error, and does not end the sequence. The buffer that announces the
    /// end of the stream gives `None`. From then on every call gives `None`
    /// and pulls nothing.
    pub fn next_payload(&mut self) -> (item: Option<Result<Option<Vec<u8>>, SdkError>>)
        ensures
            final(self).source() == old(self).source(),
            pulled_in_order(final(self).pulled()),
            ends(old(self).pulled()) ==> item is None && final(self).pulled() == old(
                self,
            ).pulled(),
            !ends(old(self).pulled()) ==> exists|buffer: Vec<u8>|
                {
                    &&& #[trigger] call_ensures(old(self).source(), (), buffer)
                    &&& final(self).pulled() == old(self).pulled().push(buffer@)
                    &&& yields_payload(item, frame(buffer@))
                },
    {
        proof {
            use_type_invariant(&*self);
        }
        if self.progress.exhausted {
            return None;
        }
        let buffer = (self.next_ptr)();
        let ghost bytes = buffer@;
        let ghost witness = buffer;
        let item = item_of(payload_of(buffer));
        self.progress = Progress {
            exhausted: item.is_none(),
            pulled: Ghost(self.progress.pulled@.push(bytes)),
        };
        proof {
            assert(call_ensures(old(self).source(), (), witness));
        }
        item
    }

    /// The next item of the sequence, or `None` at its end.
    ///
    /// Before the end, one buffer is pulled from the source and read, and the
    /// item is what the buffer carries; a buffer that cannot be read gives an
    /// item that is an error, and does not end the sequence. The buffer that
    /// announces the end of the stream gives `None`. From then on every call
    /// gives `None` and pulls nothing.
    pub fn next(&mut self) -> (item: Option<Result<Option<serde_json::Value>, SdkError>>)
        ensures
            final(self).source() == old(self).source(),
            pulled_in_order(final(self).pulled()),
            ends(old(self).pulled()) ==> item is None && final(self).pulled() == old(
                self,
            ).pulled(),
            !ends(old(self).pulled()) ==> exists|buffer: Vec<u8>|
                {
                    &&& #[trigger] call_ensures(old(self).source(), (), buffer)
                    &&& final(self).pulled() == old(self).pulled().push(buffer@)
                    &&& yields(item, decoding(buffer@))
                },
    {
        let payload = self.next_payload();
        let ghost witness = choose|buffer: Vec<u8>|
            {
                &&& #[trigger] call_ensures(old(self).source(), (), buffer)
                &&& self.pulled() == old(self).pulled().push(buffer@)
                &&& yields_payload(payload, frame(buffer@))
            };
        let item = match payload {
            Some(Ok(Some(text))) => item_of(value_of(json::from_slice(text.as_slice()))),
            Some(Ok(None)) => Some(Ok(None)),
            Some(Err(error)) => Some(Err(error)),
            None => None,
        };
        proof {
            if !ends(old(self).pulled()) {
                assert(call_ensures(old(self).source(), (), witness));
                assert(yields(item, decoding(witness@)));
            }
        }
        item
    }
}

} // verus!
