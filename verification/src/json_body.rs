//! Construction of the JSON bodies of control messages.
//!
//! Replies and channel broadcasts carry a JSON body on the wire.  The bodies
//! are built here byte by byte against an exact specification: string
//! contents are escaped as JSON string escaping demands (quote, backslash,
//! and control characters, the common ones by their short escapes and the
//! rest as `\u00XX`), and raw payload bytes are carried as a JSON array of
//! decimal numbers.

use vstd::prelude::*;
use vstd::string::StrSliceExecFns;
use vstd::utf8::encode_utf8;

verus! {

/// The lower-case hex digit for a value below 16, as a byte.
pub open spec fn spec_hex_digit(n: u8) -> u8
    recommends
        n < 16,
{
    if n < 10 {
        (0x30 + n) as u8
    } else {
        (0x57 + n) as u8
    }
}

/// How one byte of a JSON string's UTF-8 content appears inside the quotes:
/// quote and backslash are escaped, control bytes take their short escape or
/// a `\u00XX` escape, and every other byte stands as itself.
pub open spec fn spec_escape_byte(b: u8) -> Seq<u8> {
    if b == 0x22 {  // quote
        seq![0x5cu8, 0x22u8]
    } else if b == 0x5c {  // backslash
        seq![0x5cu8, 0x5cu8]
    } else if b == 0x08 {  // backspace
        seq![0x5cu8, 0x62u8]
    } else if b == 0x09 {  // tab
        seq![0x5cu8, 0x74u8]
    } else if b == 0x0a {  // line feed
        seq![0x5cu8, 0x6eu8]
    } else if b == 0x0c {  // form feed
        seq![0x5cu8, 0x66u8]
    } else if b == 0x0d {  // carriage return
        seq![0x5cu8, 0x72u8]
    } else if b < 0x20 {
        seq![0x5cu8, 0x75u8, 0x30u8, 0x30u8, spec_hex_digit(b / 16), spec_hex_digit(b % 16)]
    } else {
        seq![b]
    }
}

/// A byte sequence escaped for use inside a JSON string literal.
pub open spec fn spec_escape_bytes(s: Seq<u8>) -> Seq<u8>
    decreases s.len(),
{
    if s.len() == 0 {
        Seq::empty()
    } else {
        spec_escape_bytes(s.drop_last()) + spec_escape_byte(s.last())
    }
}

/// The shortest decimal digits of a byte value, as bytes.
pub open spec fn spec_u8_decimal(n: u8) -> Seq<u8> {
    if n < 10 {
        seq![(0x30 + n) as u8]
    } else if n < 100 {
        seq![(0x30 + n / 10) as u8, (0x30 + n % 10) as u8]
    } else {
        seq![(0x30 + n / 100) as u8, (0x30 + (n / 10) % 10) as u8, (0x30 + n % 10) as u8]
    }
}

/// The comma-separated decimal values of the given bytes: the inside of the
/// JSON array that carries a raw payload.
pub open spec fn spec_content_array(c: Seq<u8>) -> Seq<u8>
    decreases c.len(),
{
    if c.len() == 0 {
        Seq::empty()
    } else if c.len() == 1 {
        spec_u8_decimal(c[0])
    } else {
        spec_content_array(c.drop_last()) + seq![0x2cu8] + spec_u8_decimal(c.last())
    }
}

/// The reply control body: a JSON object holding the declared content type
/// under `headers.contentType` and the raw payload bytes under `content`.
pub open spec fn spec_reply_body(content_type: Seq<char>, content: Seq<u8>) -> Seq<u8> {
    encode_utf8("{\"headers\":{\"contentType\":\""@) + spec_escape_bytes(encode_utf8(content_type))
        + encode_utf8("\"},\"content\":["@) + spec_content_array(content) + encode_utf8("]}"@)
}

/// The broadcast control body: a JSON object with the target channel, the
/// event name and the payload, all three as strings.
pub open spec fn spec_broadcast_body(to: Seq<char>, event: Seq<char>, payload: Seq<char>) -> Seq<
    u8,
> {
    encode_utf8("{\"to\":\""@) + spec_escape_bytes(encode_utf8(to)) + encode_utf8(
        "\",\"event\":\""@,
    ) + spec_escape_bytes(encode_utf8(event)) + encode_utf8("\",\"payload\":\""@)
        + spec_escape_bytes(encode_utf8(payload)) + encode_utf8("\"}"@)
}

fn hex_digit(n: u8) -> (r: u8)
    requires
        n < 16,
    ensures
        r == spec_hex_digit(n),
{
    if n < 10 {
        0x30 + n
    } else {
        0x57 + n
    }
}

fn push_escaped_byte(out: &mut Vec<u8>, b: u8)
    ensures
        final (out)@ == old(out)@ + spec_escape_byte(b),
{
    if b == 0x22 {
        out.push(0x5c);
        out.push(0x22);
    } else if b == 0x5c {
        out.push(0x5c);
        out.push(0x5c);
    } else if b == 0x08 {
        out.push(0x5c);
        out.push(0x62);
    } else if b == 0x09 {
        out.push(0x5c);
        out.push(0x74);
    } else if b == 0x0a {
        out.push(0x5c);
        out.push(0x6e);
    } else if b == 0x0c {
        out.push(0x5c);
        out.push(0x66);
    } else if b == 0x0d {
        out.push(0x5c);
        out.push(0x72);
    } else if b < 0x20 {
        out.push(0x5c);
        out.push(0x75);
        out.push(0x30);
        out.push(0x30);
        out.push(hex_digit(b / 16));
        out.push(hex_digit(b % 16));
    } else {
        out.push(b);
    }
    proof {
        assert(out@ =~= old(out)@ + spec_escape_byte(b));
    }
}

fn append_escaped(out: &mut Vec<u8>, s: &[u8])
    ensures
        final (out)@ == old(out)@ + spec_escape_bytes(s@),
{
    let mut i: usize = 0;
    while i < s.len()
        invariant
            i <= s@.len(),
            out@ == old(out)@ + spec_escape_bytes(s@.take(i as int)),
        decreases s@.len() - i,
    {
        push_escaped_byte(out, s[i]);
        proof {
            assert(s@.take(i + 1).drop_last() =~= s@.take(i as int));
            assert(s@.take(i + 1).last() == s@[i as int]);
        }
        i += 1;
    }
    proof {
        assert(s@.take(s@.len() as int) =~= s@);
    }
}

fn push_u8_decimal(out: &mut Vec<u8>, n: u8)
    ensures
        final (out)@ == old(out)@ + spec_u8_decimal(n),
{
    if n < 10 {
        out.push(0x30 + n);
    } else if n < 100 {
        out.push(0x30 + n / 10);
        out.push(0x30 + n % 10);
    } else {
        out.push(0x30 + n / 100);
        out.push(0x30 + (n / 10) % 10);
        out.push(0x30 + n % 10);
    }
    proof {
        assert(out@ =~= old(out)@ + spec_u8_decimal(n));
    }
}

fn append_content_array(out: &mut Vec<u8>, c: &[u8])
    ensures
        final (out)@ == old(out)@ + spec_content_array(c@),
{
    let mut i: usize = 0;
    while i < c.len()
        invariant
            i <= c@.len(),
            out@ == old(out)@ + spec_content_array(c@.take(i as int)),
        decreases c@.len() - i,
    {
        if i > 0 {
            out.push(0x2c);
        }
        push_u8_decimal(out, c[i]);
        proof {
            if i == 0 {
                assert(c@.take(1)[0] == c@[0]);
                assert(c@.take(1).len() == 1);
            } else {
                assert(c@.take(i + 1).drop_last() =~= c@.take(i as int));
                assert(c@.take(i + 1).last() == c@[i as int]);
            }
            assert(out@ =~= old(out)@ + spec_content_array(c@.take(i + 1)));
        }
        i += 1;
    }
    proof {
        assert(c@.take(c@.len() as int) =~= c@);
    }
}

fn append_str_bytes(out: &mut Vec<u8>, s: &str)
    ensures
        final (out)@ == old(out)@ + encode_utf8(s@),
{
    let mut v = s.as_bytes_vec();
    out.append(&mut v);
}

/// Build the reply control body for the given content type and payload.
pub fn reply_body(content_type: &str, content: &[u8]) -> (r: Vec<u8>)
    ensures
        r@ == spec_reply_body(content_type@, content@),
{
    let mut out: Vec<u8> = Vec::new();
    append_str_bytes(&mut out, "{\"headers\":{\"contentType\":\"");
    let ct = content_type.as_bytes_vec();
    append_escaped(&mut out, ct.as_slice());
    append_str_bytes(&mut out, "\"},\"content\":[");
    append_content_array(&mut out, content);
    append_str_bytes(&mut out, "]}");
    out
}

/// Build the broadcast control body for the given channel, event and
/// payload.
pub fn broadcast_body(to: &str, event: &str, payload: &str) -> (r: Vec<u8>)
    ensures
        r@ == spec_broadcast_body(to@, event@, payload@),
{
    let mut out: Vec<u8> = Vec::new();
    append_str_bytes(&mut out, "{\"to\":\"");
    let to_bytes = to.as_bytes_vec();
    append_escaped(&mut out, to_bytes.as_slice());
    append_str_bytes(&mut out, "\",\"event\":\"");
    let event_bytes = event.as_bytes_vec();
    append_escaped(&mut out, event_bytes.as_slice());
    append_str_bytes(&mut out, "\",\"payload\":\"");
    let payload_bytes = payload.as_bytes_vec();
    append_escaped(&mut out, payload_bytes.as_slice());
    append_str_bytes(&mut out, "\"}");
    out
}

/// A UTF-8 encoding takes at most 4 bytes per character.
pub proof fn lemma_encode_utf8_len(s: Seq<char>)
    ensures
        encode_utf8(s).len() <= 4 * s.len(),
    decreases s.len(),
{
    if s.len() == 0 {
    } else {
        lemma_encode_utf8_len(s.drop_first());
    }
}

/// Escaping a JSON string's content grows it by a factor of at most 6.
pub proof fn lemma_escape_bytes_len(s: Seq<u8>)
    ensures
        spec_escape_bytes(s).len() <= 6 * s.len(),
    decreases s.len(),
{
    if s.len() == 0 {
    } else {
        lemma_escape_bytes_len(s.drop_last());
    }
}

/// The array form of a payload takes at most 4 bytes per payload byte.
pub proof fn lemma_content_array_len(c: Seq<u8>)
    ensures
        spec_content_array(c).len() <= 4 * c.len(),
    decreases c.len(),
{
    if c.len() <= 1 {
    } else {
        lemma_content_array_len(c.drop_last());
    }
}

/// An upper bound on a reply body's length, in terms of the content type's
/// UTF-8 length and the payload length.
pub proof fn lemma_reply_body_len(content_type: Seq<char>, content: Seq<u8>)
    ensures
        spec_reply_body(content_type, content).len() <= 172 + 6 * encode_utf8(content_type).len()
            + 4 * content.len(),
{
    reveal_strlit("{\"headers\":{\"contentType\":\"");
    reveal_strlit("\"},\"content\":[");
    reveal_strlit("]}");
    lemma_encode_utf8_len("{\"headers\":{\"contentType\":\""@);
    lemma_encode_utf8_len("\"},\"content\":["@);
    lemma_encode_utf8_len("]}"@);
    lemma_escape_bytes_len(encode_utf8(content_type));
    lemma_content_array_len(content);
}

/// An upper bound on a broadcast body's length, in terms of the UTF-8
/// lengths of its three fields.
pub proof fn lemma_broadcast_body_len(to: Seq<char>, event: Seq<char>, payload: Seq<char>)
    ensures
        spec_broadcast_body(to, event, payload).len() <= 160 + 6 * encode_utf8(to).len() + 6
            * encode_utf8(event).len() + 6 * encode_utf8(payload).len(),
{
    reveal_strlit("{\"to\":\"");
    reveal_strlit("\",\"event\":\"");
    reveal_strlit("\",\"payload\":\"");
    reveal_strlit("\"}");
    lemma_encode_utf8_len("{\"to\":\""@);
    lemma_encode_utf8_len("\",\"event\":\""@);
    lemma_encode_utf8_len("\",\"payload\":\""@);
    lemma_encode_utf8_len("\"}"@);
    lemma_escape_bytes_len(encode_utf8(to));
    lemma_escape_bytes_len(encode_utf8(event));
    lemma_escape_bytes_len(encode_utf8(payload));
}

} // verus!
