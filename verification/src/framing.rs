//! Length-prefixed chunk framing for the TCP transport.
//!
//! A chunk is a 3-byte big-endian length header followed by that many payload
//! bytes.  A framed message is three chunks in fixed order: action name
//! (UTF-8 text), envelope (JSON bytes), payload (opaque bytes).  The largest
//! representable chunk length is `2^24 - 1`; encoding a longer chunk fails
//! rather than silently truncating.

use crate::envelope::{spec_parse_envelope, Envelope, EnvelopeView, ParseError};
use vstd::prelude::*;
use vstd::slice::slice_to_vec;
use vstd::string::StrSliceExecFns;
use vstd::utf8::{decode_utf8, encode_utf8, valid_utf8};

verus! {

/// Largest chunk length representable in the 3-byte header, plus one.
pub const CHUNK_LENGTH_LIMIT: usize = 0x1000000;

/// A failure while encoding or decoding the chunk framing.
#[derive(Clone, Copy, Debug, PartialEq, Eq)]
pub enum FrameError {
    /// A chunk body would need a length of `2^24` or more.
    LengthTooLarge,
    /// Fewer than 3 bytes remain where a length header was expected.
    HeaderTruncated,
    /// The buffer ends before the declared chunk length is reached.
    BodyTruncated,
    /// The action chunk of a framed message is not valid UTF-8.
    ActionNotUtf8,
    /// The envelope chunk of a framed message does not parse.
    BadEnvelope(ParseError),
}

/// The 3-byte big-endian header encoding a chunk length.
pub open spec fn spec_encode_length(n: nat) -> Seq<u8> {
    seq![
        ((n / 0x10000) % 0x100) as u8,
        ((n / 0x100) % 0x100) as u8,
        (n % 0x100) as u8,
    ]
}

/// The chunk length read back from a 3-byte big-endian header.
pub open spec fn spec_decode_length(b: Seq<u8>) -> int
    recommends
        b.len() == 3,
{
    b[0] * 0x10000 + b[1] * 0x100 + b[2]
}

/// One framed chunk: the length header followed by the body.
pub open spec fn spec_chunk(body: Seq<u8>) -> Seq<u8>
    recommends
        body.len() < CHUNK_LENGTH_LIMIT,
{
    spec_encode_length(body.len()) + body
}

/// Decoding a header is the inverse of encoding a length below `2^24`.
pub proof fn lemma_length_round_trip(n: nat)
    requires
        n < CHUNK_LENGTH_LIMIT,
    ensures
        spec_decode_length(spec_encode_length(n)) == n,
{
    assert((n / 0x10000) % 0x100 * 0x10000 + (n / 0x100) % 0x100 * 0x100 + n % 0x100 == n)
        by (nonlinear_arith)
        requires
            n < 0x1000000,
    ;
}

/// Encode a chunk length as its 3-byte big-endian header.
///
/// Returns the header exactly when `length` is below `2^24`; a larger length
/// cannot be represented and is rejected.
pub fn encode_length(length: usize) -> (r: Result<[u8; 3], FrameError>)
    ensures
        length < CHUNK_LENGTH_LIMIT ==> (r matches Ok(b) && b@ == spec_encode_length(
            length as nat,
        )),
        length >= CHUNK_LENGTH_LIMIT ==> r == Err::<[u8; 3], FrameError>(
            FrameError::LengthTooLarge,
        ),
{
    if length >= CHUNK_LENGTH_LIMIT {
        Err(FrameError::LengthTooLarge)
    } else {
        Ok(length_to_bytes(&length))
    }
}

/// The 3-byte big-endian header for a chunk length already known to fit.
pub fn length_to_bytes(length: &usize) -> (r: [u8; 3])
    requires
        *length < CHUNK_LENGTH_LIMIT,
    ensures
        r@ == spec_encode_length(*length as nat),
{
    let b0: u8 = ((*length / 0x10000) % 0x100) as u8;
    let b1: u8 = ((*length / 0x100) % 0x100) as u8;
    let b2: u8 = (*length % 0x100) as u8;
    let r = [b0, b1, b2];
    proof {
        assert(r@ =~= spec_encode_length(*length as nat));
    }
    r
}

/// Read a chunk length back from a 3-byte big-endian header.
pub fn decode_length(bytes: &[u8; 3]) -> (n: usize)
    ensures
        n == spec_decode_length(bytes@),
        n < CHUNK_LENGTH_LIMIT,
{
    (bytes[0] as usize) * 0x10000 + (bytes[1] as usize) * 0x100 + (bytes[2] as usize)
}

/// Interpret the first 3 bytes of `bytes` as a big-endian chunk length.
///
/// Fails exactly when fewer than 3 bytes are present.
pub fn bytes_to_index(bytes: &[u8]) -> (r: Result<usize, FrameError>)
    ensures
        bytes@.len() < 3 ==> r == Err::<usize, FrameError>(FrameError::HeaderTruncated),
        bytes@.len() >= 3 ==> (r matches Ok(n) && n == spec_decode_length(bytes@.take(3))
            && n < CHUNK_LENGTH_LIMIT),
{
    if bytes.len() < 3 {
        Err(FrameError::HeaderTruncated)
    } else {
        let n: usize = (bytes[0] as usize) * 0x10000 + (bytes[1] as usize) * 0x100 + (
        bytes[2] as usize);
        proof {
            assert(bytes@.take(3)[0] == bytes@[0]);
            assert(bytes@.take(3)[1] == bytes@[1]);
            assert(bytes@.take(3)[2] == bytes@[2]);
        }
        Ok(n)
    }
}

/// The result of reading one chunk at `off`: the chunk body and the offset
/// just past it, or the framing failure.
pub open spec fn spec_read_chunk(b: Seq<u8>, off: int) -> Result<(Seq<u8>, int), FrameError> {
    if off + 3 > b.len() {
        Err(FrameError::HeaderTruncated)
    } else {
        let len = spec_decode_length(b.subrange(off, off + 3));
        if off + 3 + len > b.len() {
            Err(FrameError::BodyTruncated)
        } else {
            Ok((b.subrange(off + 3, off + 3 + len), off + 3 + len))
        }
    }
}

/// Read the chunk that starts at `offset`: a 3-byte length header followed by
/// that many body bytes.
///
/// On success returns the body and the offset immediately after it, so that a
/// caller can walk a buffer of consecutive chunks without re-slicing it.
/// Fails with `HeaderTruncated` when fewer than 3 bytes remain at `offset`,
/// and with `BodyTruncated` when the declared length extends past the end of
/// `buffer`; it never reads outside `buffer`.
pub fn read_next_chunk(buffer: &[u8], offset: usize) -> (r: Result<(Vec<u8>, usize), FrameError>)
    ensures
        match r {
            Ok((chunk, next)) => spec_read_chunk(buffer@, offset as int) == Ok::<
                (Seq<u8>, int),
                FrameError,
            >((chunk@, next as int)),
            Err(e) => spec_read_chunk(buffer@, offset as int) == Err::<
                (Seq<u8>, int),
                FrameError,
            >(e),
        },
{
    if offset > buffer.len() || buffer.len() - offset < 3 {
        return Err(FrameError::HeaderTruncated);
    }
    let len: usize = (buffer[offset] as usize) * 0x10000 + (buffer[offset + 1] as usize) * 0x100
        + (buffer[offset + 2] as usize);
    proof {
        let header = buffer@.subrange(offset as int, offset as int + 3);
        assert(header[0] == buffer@[offset as int]);
        assert(header[1] == buffer@[offset as int + 1]);
        assert(header[2] == buffer@[offset as int + 2]);
    }
    if buffer.len() - (offset + 3) < len {
        return Err(FrameError::BodyTruncated);
    }
    let body_start: usize = offset + 3;
    let end: usize = body_start + len;
    let mut chunk: Vec<u8> = Vec::new();
    let mut i: usize = body_start;
    while i < end
        invariant
            body_start <= i <= end,
            end <= buffer@.len(),
            chunk@ == buffer@.subrange(body_start as int, i as int),
        decreases end - i,
    {
        chunk.push(buffer[i]);
        proof {
            assert(chunk@ =~= buffer@.subrange(body_start as int, i as int + 1));
        }
        i += 1;
    }
    Ok((chunk, end))
}

/// Read the chunk at the start of `bytes`.
///
/// Fails exactly as `read_next_chunk` does at offset 0.
pub fn read_next_byte_chunk(bytes: &[u8]) -> (r: Result<(Vec<u8>, usize), FrameError>)
    ensures
        match r {
            Ok((chunk, next)) => spec_read_chunk(bytes@, 0) == Ok::<(Seq<u8>, int), FrameError>(
                (chunk@, next as int),
            ),
            Err(e) => spec_read_chunk(bytes@, 0) == Err::<(Seq<u8>, int), FrameError>(e),
        },
{
    read_next_chunk(bytes, 0)
}

/// The outbound two-chunk frame for a posted event: the event name followed
/// by the body.
pub open spec fn spec_pack(event: Seq<char>, body: Seq<u8>) -> Seq<u8> {
    spec_chunk(encode_utf8(event)) + spec_chunk(body)
}

/// The three-chunk frame of an inbound message: action, envelope, payload.
pub open spec fn spec_encode_message(action: Seq<u8>, envelope: Seq<u8>, payload: Seq<u8>) -> Seq<
    u8,
> {
    spec_chunk(action) + spec_chunk(envelope) + spec_chunk(payload)
}

/// Append one chunk (header plus body) to a frame under construction.
fn append_chunk(out: &mut Vec<u8>, body: &[u8])
    requires
        body@.len() < CHUNK_LENGTH_LIMIT,
    ensures
        final (out)@ == old(out)@ + spec_chunk(body@),
{
    let header = length_to_bytes(&body.len());
    out.push(header[0]);
    out.push(header[1]);
    out.push(header[2]);
    let mut tail = slice_to_vec(body);
    out.append(&mut tail);
    proof {
        assert(out@ =~= old(out)@ + spec_chunk(body@));
    }
}

/// Frame an outbound event post: the chunk of the event name followed by the
/// chunk of the body.
///
/// Fails exactly when the event name's UTF-8 bytes or the body are too long
/// for a chunk.
pub fn pack(event: &str, body: &[u8]) -> (r: Result<Vec<u8>, FrameError>)
    ensures
        encode_utf8(event@).len() < CHUNK_LENGTH_LIMIT && body@.len() < CHUNK_LENGTH_LIMIT ==> (
        r matches Ok(v) && v@ == spec_pack(event@, body@)),
        !(encode_utf8(event@).len() < CHUNK_LENGTH_LIMIT && body@.len() < CHUNK_LENGTH_LIMIT)
            ==> r == Err::<Vec<u8>, FrameError>(FrameError::LengthTooLarge),
{
    let event_bytes = event.as_bytes_vec();
    if event_bytes.len() >= CHUNK_LENGTH_LIMIT || body.len() >= CHUNK_LENGTH_LIMIT {
        return Err(FrameError::LengthTooLarge);
    }
    let mut out: Vec<u8> = Vec::new();
    append_chunk(&mut out, event_bytes.as_slice());
    append_chunk(&mut out, body);
    proof {
        assert(out@ =~= spec_pack(event@, body@));
    }
    Ok(out)
}

/// Frame an inbound-style message: the chunks of the action name, the
/// envelope bytes and the payload, in that fixed order.
///
/// Fails exactly when one of the three parts is too long for a chunk.
pub fn encode_message(action: &str, envelope_bytes: &[u8], payload: &[u8]) -> (r: Result<
    Vec<u8>,
    FrameError,
>)
    ensures
        encode_utf8(action@).len() < CHUNK_LENGTH_LIMIT && envelope_bytes@.len()
            < CHUNK_LENGTH_LIMIT && payload@.len() < CHUNK_LENGTH_LIMIT ==> (r matches Ok(v)
            && v@ == spec_encode_message(encode_utf8(action@), envelope_bytes@, payload@)),
        !(encode_utf8(action@).len() < CHUNK_LENGTH_LIMIT && envelope_bytes@.len()
            < CHUNK_LENGTH_LIMIT && payload@.len() < CHUNK_LENGTH_LIMIT) ==> r == Err::<
            Vec<u8>,
            FrameError,
        >(FrameError::LengthTooLarge),
{
    let action_bytes = action.as_bytes_vec();
    if action_bytes.len() >= CHUNK_LENGTH_LIMIT || envelope_bytes.len() >= CHUNK_LENGTH_LIMIT
        || payload.len() >= CHUNK_LENGTH_LIMIT {
        return Err(FrameError::LengthTooLarge);
    }
    let mut out: Vec<u8> = Vec::new();
    append_chunk(&mut out, action_bytes.as_slice());
    append_chunk(&mut out, envelope_bytes);
    append_chunk(&mut out, payload);
    proof {
        assert(out@ =~= spec_encode_message(encode_utf8(action@), envelope_bytes@, payload@));
    }
    Ok(out)
}

/// Relies on `String::from_utf8`: it succeeds exactly on valid UTF-8 input,
/// returning the string whose bytes are the input.
#[verifier::external_body]
fn string_from_utf8(bytes: Vec<u8>) -> (r: Option<String>)
    ensures
        r matches Some(s) ==> encode_utf8(s@) == bytes@,
        r is None ==> !valid_utf8(bytes@),
{
    String::from_utf8(bytes).ok()
}

/// The decoded form of a framed message: three chunks read in order, the
/// first as UTF-8 action text, the second as an envelope, the third kept as
/// opaque payload bytes; or the first failure met in that order.
pub open spec fn spec_decode_message(b: Seq<u8>) -> Result<
    (Seq<char>, EnvelopeView, Seq<u8>),
    FrameError,
> {
    match spec_read_chunk(b, 0) {
        Err(e) => Err(e),
        Ok((action_bytes, i)) => if !valid_utf8(action_bytes) {
            Err(FrameError::ActionNotUtf8)
        } else {
            match spec_read_chunk(b, i) {
                Err(e) => Err(e),
                Ok((envelope_bytes, j)) => match spec_parse_envelope(envelope_bytes) {
                    Err(pe) => Err(FrameError::BadEnvelope(pe)),
                    Ok(env) => match spec_read_chunk(b, j) {
                        Err(e) => Err(e),
                        Ok((payload, _k)) => Ok((decode_utf8(action_bytes), env, payload)),
                    },
                },
            }
        },
    }
}

/// Decode a framed message into its action name, envelope and payload.
///
/// The inverse of `encode_message`: reads the three chunks sequentially,
/// decodes the first as UTF-8 text and the second as an envelope, and hands
/// the third back unmodified.  Fails with the first framing, UTF-8 or
/// envelope failure met, and ignores any bytes after the third chunk.
pub fn decode_message(buffer: &[u8]) -> (r: Result<(String, Envelope, Vec<u8>), FrameError>)
    ensures
        match r {
            Ok(t) => spec_decode_message(buffer@) == Ok::<
                (Seq<char>, EnvelopeView, Seq<u8>),
                FrameError,
            >((t.0@, t.1@, t.2@)),
            Err(e) => spec_decode_message(buffer@) == Err::<
                (Seq<char>, EnvelopeView, Seq<u8>),
                FrameError,
            >(e),
        },
{
    let (action_bytes, i) = match read_next_chunk(buffer, 0) {
        Ok(t) => t,
        Err(e) => {
            return Err(e);
        },
    };
    let ghost ab = action_bytes@;
    let action = match string_from_utf8(action_bytes) {
        Some(s) => s,
        None => {
            return Err(FrameError::ActionNotUtf8);
        },
    };
    proof {
        broadcast use vstd::utf8::encode_utf8_valid_utf8, vstd::utf8::encode_utf8_decode_utf8;

        assert(valid_utf8(ab));
        assert(decode_utf8(ab) == action@);
    }
    let (envelope_bytes, j) = match read_next_chunk(buffer, i) {
        Ok(t) => t,
        Err(e) => {
            return Err(e);
        },
    };
    let envelope = match Envelope::from_bytes(envelope_bytes.as_slice()) {
        Ok(env) => env,
        Err(pe) => {
            return Err(FrameError::BadEnvelope(pe));
        },
    };
    let (payload, _k) = match read_next_chunk(buffer, j) {
        Ok(t) => t,
        Err(e) => {
            return Err(e);
        },
    };
    Ok((action, envelope, payload))
}

/// Extract the action, envelope and payload of an inbound TCP-mode
/// invocation from the fully read input stream.
pub fn get_args(input: &[u8]) -> (r: Result<(String, Envelope, Vec<u8>), FrameError>)
    ensures
        match r {
            Ok(t) => spec_decode_message(input@) == Ok::<
                (Seq<char>, EnvelopeView, Seq<u8>),
                FrameError,
            >((t.0@, t.1@, t.2@)),
            Err(e) => spec_decode_message(input@) == Err::<
                (Seq<char>, EnvelopeView, Seq<u8>),
                FrameError,
            >(e),
        },
{
    decode_message(input)
}

/// Reading at the offset where a chunk starts inside a larger buffer yields
/// exactly that chunk's body, and the next offset lands just past it.
pub proof fn lemma_read_chunk_in_context(b: Seq<u8>, off: int, body: Seq<u8>)
    requires
        body.len() < CHUNK_LENGTH_LIMIT,
        0 <= off,
        off + 3 + body.len() <= b.len(),
        b.subrange(off, off + 3 + body.len() as int) == spec_chunk(body),
    ensures
        spec_read_chunk(b, off) == Ok::<(Seq<u8>, int), FrameError>(
            (body, off + 3 + body.len() as int),
        ),
{
    let sub = b.subrange(off, off + 3 + body.len() as int);
    assert(b.subrange(off, off + 3) =~= spec_encode_length(body.len())) by {
        assert forall|i: int| 0 <= i < 3 implies b.subrange(off, off + 3)[i]
            == spec_encode_length(body.len())[i] by {
            assert(b.subrange(off, off + 3)[i] == sub[i]);
            assert(sub[i] == spec_chunk(body)[i]);
        }
    }
    lemma_length_round_trip(body.len());
    assert(b.subrange(off + 3, off + 3 + body.len() as int) =~= body) by {
        assert forall|i: int| 0 <= i < body.len() implies b.subrange(
            off + 3,
            off + 3 + body.len() as int,
        )[i] == body[i] by {
            assert(b.subrange(off + 3, off + 3 + body.len() as int)[i] == sub[3 + i]);
            assert(sub[3 + i] == spec_chunk(body)[3 + i]);
        }
    }
}

/// Round trip: a message framed from an action, envelope bytes and payload
/// that each fit in a chunk decodes back to that action, the envelope those
/// bytes describe, and that payload; when the envelope bytes describe none,
/// decoding fails with exactly that envelope failure.
#[verifier::rlimit(60)]
pub proof fn lemma_message_round_trip(action: Seq<char>, envelope_bytes: Seq<u8>, payload: Seq<u8>)
    requires
        encode_utf8(action).len() < CHUNK_LENGTH_LIMIT,
        envelope_bytes.len() < CHUNK_LENGTH_LIMIT,
        payload.len() < CHUNK_LENGTH_LIMIT,
    ensures
        spec_decode_message(spec_encode_message(encode_utf8(action), envelope_bytes, payload))
            == match spec_parse_envelope(envelope_bytes) {
            Ok(env) => Ok::<(Seq<char>, EnvelopeView, Seq<u8>), FrameError>(
                (action, env, payload),
            ),
            Err(pe) => Err::<(Seq<char>, EnvelopeView, Seq<u8>), FrameError>(
                FrameError::BadEnvelope(pe),
            ),
        },
{
    vstd::utf8::encode_utf8_valid_utf8(action);
    vstd::utf8::encode_utf8_decode_utf8(action);
    let a = encode_utf8(action);
    let m = spec_encode_message(a, envelope_bytes, payload);
    let c1 = spec_chunk(a);
    let c2 = spec_chunk(envelope_bytes);
    let c3 = spec_chunk(payload);
    let i = c1.len() as int;
    let j = i + c2.len() as int;
    assert(m.subrange(0, i) =~= c1);
    lemma_read_chunk_in_context(m, 0, a);
    assert(m.subrange(i, j) =~= c2);
    lemma_read_chunk_in_context(m, i, envelope_bytes);
    assert(m.subrange(j, m.len() as int) =~= c3);
    lemma_read_chunk_in_context(m, j, payload);
}

} // verus!
