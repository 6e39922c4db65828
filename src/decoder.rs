//! Carving CBOR values off the front of a byte buffer, one frame per call.
use vstd::prelude::*;

use crate::counted::Counted;
use bytes::BytesMut;
use serde::de::DeserializeOwned;
use serde_cbor::error::Error as CborError;
use std::marker::PhantomData;

verus! {

/// `bytes::BytesMut`, the caller's growable buffer.
#[verifier::external_type_specification]
#[verifier::external_body]
pub struct ExBytesMut(BytesMut);

/// `serde_cbor::error::Error`, the deserializer's diagnostic.
#[verifier::external_type_specification]
#[verifier::external_body]
pub struct ExCborError(CborError);

/// The bytes a buffer holds, front first.
pub uninterp spec fn buffer_bytes(b: BytesMut) -> Seq<u8>;

/// Relies on `BytesMut`'s `AsRef<[u8]>`: a view of exactly the held bytes.
#[verifier::external_body]
fn held<'b>(b: &'b BytesMut) -> (r: &'b [u8])
    ensures
        r@ == buffer_bytes(*b),
{
    b.as_ref()
}

/// Relies on `BytesMut::split_to`: the first `at` bytes leave the buffer,
/// the others stay in order.
#[verifier::external_body]
fn drop_front(b: &mut BytesMut, at: usize)
    requires
        at <= buffer_bytes(*old(b)).len(),
    ensures
        buffer_bytes(*final(b)) == buffer_bytes(*old(b)).subrange(
            at as int,
            buffer_bytes(*old(b)).len() as int,
        ),
{
    b.split_to(at);
}

/// Relies on `serde_cbor::Deserializer::from_reader`, driven for one value of
/// `Item`: it pulls its bytes only through `r`, whose own reads never run past
/// the end of the source, and does not look for trailing bytes.
#[verifier::external_body]
fn read_one<Item: DeserializeOwned>(r: &mut Counted) -> (res: Result<Item, CborError>)
    ensures
        final(r).source() == old(r).source(),
        old(r).count() <= final(r).count(),
{
    let mut de = serde_cbor::Deserializer::from_reader(r);
    Item::deserialize(&mut de)
}

/// Relies on `serde_cbor::error::Error::is_eof`: the input ended before the
/// value did, whether the deserializer saw it itself or through an
/// `UnexpectedEof` from its reader.
#[verifier::external_body]
fn ran_out(e: &CborError) -> bool {
    e.is_eof()
}

/// What one attempt at the front of a buffer found.
pub enum Outcome<Item> {
    /// A whole value, and the number of bytes it took.
    Decoded(Item, usize),
    /// The bytes end before a value does.
    Incomplete,
    /// The bytes cannot be a value of the item type.
    Malformed(CborError),
}

/// The outcome of one pass of the deserializer: a value read after
/// `consumed` bytes is a decoded frame of that length; an error is a request
/// for more bytes when it says the input ended (`eof`), and malformed input
/// otherwise, carrying the deserializer's own diagnostic.
pub open spec fn classified<Item>(res: Result<Item, CborError>, consumed: usize, eof: bool) -> Outcome<
    Item,
> {
    match res {
        Ok(v) => Outcome::Decoded(v, consumed),
        Err(e) => if eof {
            Outcome::Incomplete
        } else {
            Outcome::Malformed(e)
        },
    }
}

/// Sorts the deserializer's result into an [`Outcome`]: `consumed` is how many
/// bytes it read, `eof` whether its error says the input ran out.
pub fn classify<Item>(res: Result<Item, CborError>, consumed: usize, eof: bool) -> (r: Outcome<
    Item,
>)
    ensures
        r == classified(res, consumed, eof),
{
    match res {
        Ok(item) => Outcome::Decoded(item, consumed),
        Err(e) => {
            if eof {
                Outcome::Incomplete
            } else {
                Outcome::Malformed(e)
            }
        },
    }
}

/// What a buffer holds after an attempt with `outcome`: a decoded frame is
/// taken off the front, anything else leaves the bytes as they were.
pub open spec fn after<Item>(bytes: Seq<u8>, outcome: Outcome<Item>) -> Seq<u8> {
    match outcome {
        Outcome::Decoded(_, n) => bytes.subrange(n as int, bytes.len() as int),
        _ => bytes,
    }
}

/// An attempt's outcome fits the bytes it was made on.
pub open spec fn fits<Item>(bytes: Seq<u8>, outcome: Outcome<Item>) -> bool {
    match outcome {
        Outcome::Decoded(_, n) => n <= bytes.len(),
        _ => true,
    }
}

/// What the caller is told of an attempt with `outcome`.
pub open spec fn reported<Item>(outcome: Outcome<Item>) -> Result<Option<Item>, CborError> {
    match outcome {
        Outcome::Decoded(v, _) => Ok(Some(v)),
        Outcome::Incomplete => Ok(None),
        Outcome::Malformed(e) => Err(e),
    }
}

/// Applies an attempt's outcome to the buffer it was made on: removes the
/// bytes of a decoded frame from the front and hands its value out; leaves
/// the buffer untouched when more bytes are needed or the input is malformed.
pub fn settle<Item>(src: &mut BytesMut, outcome: Outcome<Item>) -> (r: Result<
    Option<Item>,
    CborError,
>)
    requires
        fits(buffer_bytes(*old(src)), outcome),
    ensures
        r == reported(outcome),
        buffer_bytes(*final(src)) == after(buffer_bytes(*old(src)), outcome),
{
    match outcome {
        Outcome::Decoded(item, n) => {
            drop_front(src, n);
            Ok(Some(item))
        },
        Outcome::Incomplete => Ok(None),
        Outcome::Malformed(e) => Err(e),
    }
}

/// A decoded frame takes exactly its own bytes off the front: whatever
/// followed it in the buffer, a next frame whole or in part, is what the
/// buffer then holds, byte for byte.
pub proof fn frame_leaves_what_follows<Item>(frame: Seq<u8>, rest: Seq<u8>, value: Item)
    requires
        frame.len() + rest.len() <= usize::MAX,
    ensures
        fits(frame + rest, Outcome::Decoded(value, frame.len() as usize)),
        after(frame + rest, Outcome::Decoded(value, frame.len() as usize)) == rest,
        reported(Outcome::Decoded(value, frame.len() as usize)) == Ok::<Option<Item>, CborError>(
            Some(value),
        ),
{
    assert((frame + rest).subrange(frame.len() as int, (frame + rest).len() as int) =~= rest);
}

/// An attempt that decodes nothing removes nothing: the buffer holds the
/// same bytes after it, so a repeated attempt starts from the same input.
pub proof fn failure_keeps_every_byte<Item>(bytes: Seq<u8>, outcome: Outcome<Item>)
    requires
        !(outcome is Decoded),
    ensures
        fits(bytes, outcome),
        after(bytes, outcome) == bytes,
        reported(outcome) is Ok ==> reported(outcome) == Ok::<Option<Item>, CborError>(None),
{
}

/// A deserializer error never consumes bytes: one that says the input ended
/// is reported as `Ok(None)`, any other is handed on unchanged as `Err`, and
/// either way the buffer keeps every byte.
pub proof fn errors_keep_bytes_and_pass_through<Item>(
    bytes: Seq<u8>,
    e: CborError,
    consumed: usize,
    eof: bool,
)
    ensures
        after(bytes, classified(Err::<Item, CborError>(e), consumed, eof)) == bytes,
        reported(classified(Err::<Item, CborError>(e), consumed, eof)) == (if eof {
            Ok::<Option<Item>, CborError>(None)
        } else {
            Err::<Option<Item>, CborError>(e)
        }),
{
}

/// A CBOR frame decoder for values of `Item`. It keeps nothing between calls:
/// bytes not yet decoded stay in the caller's buffer.
pub struct Decoder<Item> {
    _data: PhantomData<Item>,
}

impl<Item: DeserializeOwned> Decoder<Item> {
    /// Creates a new decoder.
    pub fn new() -> (r: Self) {
        Decoder { _data: PhantomData }
    }

    /// Tries to read one value from the front of `data`, counting the bytes
    /// the deserializer pulls, and sorts the result with [`classify`]: the
    /// outcome is the classification of what the deserializer returned, with
    /// the count of bytes it read (never more than `data` has) and whether its
    /// error says the input ran out.
    pub fn attempt(&self, data: &[u8]) -> (r: Outcome<Item>)
        ensures
            fits(data@, r),
            exists|res: Result<Item, CborError>, consumed: usize, eof: bool|
                consumed <= data@.len() && r == #[trigger] classified(res, consumed, eof),
    {
        let mut reader = Counted::new(data);
        let res = read_one::<Item>(&mut reader);
        let consumed = reader.consumed();
        let eof = match &res {
            Ok(_) => false,
            Err(e) => ran_out(e),
        };
        classify(res, consumed, eof)
    }

    /// Decodes one frame from the front of `src`: the outcome of
    /// [`Decoder::attempt`] on the buffer's bytes, applied by [`settle`]. On a
    /// value, exactly the bytes of its frame are removed; on `Ok(None)` (more
    /// bytes needed) and on an error the buffer keeps every byte.
    pub fn decode(&mut self, src: &mut BytesMut) -> (r: Result<Option<Item>, CborError>)
        ensures
            exists|res: Result<Item, CborError>, consumed: usize, eof: bool|
                {
                    &&& fits(buffer_bytes(*old(src)), #[trigger] classified(res, consumed, eof))
                    &&& r == reported(classified(res, consumed, eof))
                    &&& buffer_bytes(*final(src)) == after(
                        buffer_bytes(*old(src)),
                        classified(res, consumed, eof),
                    )
                },
    {
        let outcome = self.attempt(held(src));
        settle(src, outcome)
    }
}

} // verus!
