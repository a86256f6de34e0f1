//! A codec that passes bytes through without serialization, so that the xDS
//! client layer, not the transport, decides what the messages are.

use vstd::prelude::*;

use bytes::Bytes;
use tonic::codec::{DecodeBuf, EncodeBuf};
use tonic::Status;

use crate::outside::{
    bytes_as_slice, bytes_content, decode_buf_content, decode_buf_copy_to_bytes,
    decode_buf_remaining, encode_buf_content, encode_buf_put_slice,
    encode_buf_remaining_mut,
};

verus! {

/// A codec that passes bytes through.
#[derive(Debug, Clone, Copy)]
pub struct BytesCodec;

/// Writes a message as it is.
#[derive(Debug)]
pub struct BytesEncoder;

/// Reads a message as it is.
#[derive(Debug)]
pub struct BytesDecoder;

/// Whether `after` is `before` with the bytes of a message appended.
pub open spec fn encodes(item: Bytes, before: EncodeBuf<'_>, after: EncodeBuf<'_>) -> bool {
    encode_buf_content(after) == encode_buf_content(before) + bytes_content(item)
}

/// Whether `item` is all that `before` held, and `after` holds nothing more.
pub open spec fn decodes(before: DecodeBuf<'_>, after: DecodeBuf<'_>, item: Bytes) -> bool {
    &&& bytes_content(item) == decode_buf_content(before)
    &&& decode_buf_content(after).len() == 0
}

/// Whether a buffer has room for a message.
pub open spec fn has_room(buf: EncodeBuf<'_>, item: Bytes) -> bool {
    encode_buf_content(buf).len() + bytes_content(item).len() <= isize::MAX
}

impl BytesCodec {
    /// The encoder of this codec.
    pub fn encoder(&mut self) -> (encoder: BytesEncoder)
        ensures
            encoder == BytesEncoder,
            *final(self) == *old(self),
    {
        BytesEncoder
    }

    /// The decoder of this codec.
    pub fn decoder(&mut self) -> (decoder: BytesDecoder)
        ensures
            decoder == BytesDecoder,
            *final(self) == *old(self),
    {
        BytesDecoder
    }
}

impl BytesEncoder {
    /// Appends the bytes of `item` to `dst`; this always succeeds. The buffer
    /// has to have room for them.
    pub fn encode(&mut self, item: Bytes, dst: &mut EncodeBuf<'_>) -> (res: Result<(), Status>)
        requires
            has_room(*old(dst), item),
        ensures
            res is Ok,
            encodes(item, *old(dst), *final(dst)),
    {
        encode_buf_put_slice(dst, bytes_as_slice(&item));
        Ok(())
    }

    /// Appends the bytes of `item` to `dst` where there is room for them, see
    /// [`BytesEncoder::encode`]; else gives `None` and leaves `dst` as it was.
    pub fn encode_if_room(
        &mut self,
        item: Bytes,
        dst: &mut EncodeBuf<'_>,
    ) -> (res: Option<Result<(), Status>>)
        ensures
            res is Some <==> has_room(*old(dst), item),
            res matches Some(done) ==> done is Ok && encodes(item, *old(dst), *final(dst)),
            res is None ==> *final(dst) == *old(dst),
    {
        if bytes_as_slice(&item).len() <= encode_buf_remaining_mut(dst) {
            Some(self.encode(item, dst))
        } else {
            None
        }
    }
}

impl BytesDecoder {
    /// Takes all that `src` holds as one message, an empty one included; this
    /// always succeeds.
    pub fn decode(&mut self, src: &mut DecodeBuf<'_>) -> (res: Result<Option<Bytes>, Status>)
        ensures
            res matches Ok(Some(item)) && decodes(*old(src), *final(src), item),
    {
        let count = decode_buf_remaining(src);
        let item = decode_buf_copy_to_bytes(src, count);
        proof {
            let all = decode_buf_content(*old(src));
            assert(all.take(all.len() as int) =~= all);
        }
        Ok(Some(item))
    }
}

} // verus!
