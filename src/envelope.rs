//! The dispatch envelope: the event type and the JSON body that the upstream
//! receives, framed as `{"event_type":...,"client_payload":...}`.
use vstd::prelude::*;
use vstd::utf8::encode_utf8;

verus! {

#[verifier::external_type_specification]
#[verifier::external_body]
pub struct ExJsonError(serde_json::Error);

/// Whether serde_json decodes `b` as exactly one JSON document, surrounded
/// by whitespace at most (it also refuses nesting deeper than 128 levels).
pub uninterp spec fn is_json_document(b: Seq<u8>) -> bool;

/// The compact JSON text of the value decoded from the document `b`.
pub uninterp spec fn compact_json(b: Seq<u8>) -> Seq<u8>;

/// The ASCII lowercase hexadecimal digit for `n < 16`.
pub open spec fn hex_digit(n: u8) -> u8 {
    if n < 10 {
        (0x30 + n) as u8
    } else {
        (0x61 + n - 10) as u8
    }
}

/// How one byte of a string's UTF-8 text is written inside a JSON string:
/// quote and backslash get a backslash, control bytes get their short
/// escape or `\u00XX`, every other byte stays as it is.
pub open spec fn escape_byte(b: u8) -> Seq<u8> {
    if b == 0x22 {
        seq![0x5Cu8, 0x22u8]
    } else if b == 0x5C {
        seq![0x5Cu8, 0x5Cu8]
    } else if b == 0x08 {
        seq![0x5Cu8, 0x62u8]
    } else if b == 0x09 {
        seq![0x5Cu8, 0x74u8]
    } else if b == 0x0A {
        seq![0x5Cu8, 0x6Eu8]
    } else if b == 0x0C {
        seq![0x5Cu8, 0x66u8]
    } else if b == 0x0D {
        seq![0x5Cu8, 0x72u8]
    } else if b < 0x20 {
        seq![0x5Cu8, 0x75u8, 0x30u8, 0x30u8, hex_digit(b / 16), hex_digit(b % 16)]
    } else {
        seq![b]
    }
}

/// Each byte of `bs` escaped, in order.
pub open spec fn escape_bytes(bs: Seq<u8>) -> Seq<u8>
    decreases bs.len(),
{
    if bs.len() == 0 {
        Seq::empty()
    } else {
        escape_bytes(bs.drop_last()) + escape_byte(bs.last())
    }
}

/// The JSON string literal that encodes `s`: its escaped UTF-8 text in
/// double quotes.
pub open spec fn json_string(s: Seq<char>) -> Seq<u8> {
    seq![0x22u8] + escape_bytes(encode_utf8(s)) + seq![0x22u8]
}

/// The event type used when the inbound request names none.
pub const DEFAULT_EVENT_TYPE: &'static str = "workflow_dispatch";

/// The event type of a request: the header's value when the header is
/// present (even when empty), the default otherwise.
pub open spec fn event_type_spec(header: Option<Seq<char>>) -> Seq<char> {
    match header {
        Some(h) => h,
        None => DEFAULT_EVENT_TYPE@,
    }
}

/// Bytes of the envelope around an encoded event type and an encoded payload.
pub open spec fn envelope_spec(event: Seq<u8>, payload: Seq<u8>) -> Seq<u8> {
    encode_utf8("{\"event_type\":"@) + event + encode_utf8(",\"client_payload\":"@) + payload
        + encode_utf8("}"@)
}

/// The body sent upstream for an event type and an inbound JSON body.
pub open spec fn dispatch_body_spec(event: Seq<char>, body: Seq<u8>) -> Seq<u8> {
    envelope_spec(json_string(event), compact_json(body))
}

/// Relies on serde_json::from_slice, decoding a `Value`, then on
/// serde_json::to_vec, writing that value out compactly. Decoding succeeds
/// exactly on a JSON document; the text depends on the bytes alone; writing
/// does not fail, since a `Value` has string keys only, its `Serialize`
/// never errs, and writing into a `Vec` cannot fail.
#[verifier::external_body]
pub(crate) fn reencode(body: &[u8]) -> (r: Option<Vec<u8>>)
    ensures
        r is Some <==> is_json_document(body@),
        r matches Some(v) ==> v@ == compact_json(body@),
{
    match serde_json::from_slice::<serde_json::Value>(body) {
        Ok(value) => serde_json::to_vec(&value).ok(),
        Err(_) => None,
    }
}

/// Relies on serde_json::to_vec: writes a string as a JSON string literal,
/// escaping its UTF-8 bytes by serde_json's `ESCAPE` table. Writing a string
/// into a `Vec` does not fail.
#[verifier::external_body]
fn encode_str(s: &str) -> (r: Result<Vec<u8>, serde_json::Error>)
    ensures
        r is Ok,
        r matches Ok(v) ==> v@ == json_string(s@),
{
    serde_json::to_vec(s)
}

/// The body sent upstream: the envelope around the encoded event type and
/// the compact JSON text `payload`. `None` only where serde_json fails to
/// write the event type out, which its contract above rules out.
pub fn dispatch_body(event: &str, payload: &[u8]) -> (r: Option<Vec<u8>>)
    ensures
        r matches Some(v) && v@ == envelope_spec(json_string(event@), payload@),
{
    let encoded_event = match encode_str(event) {
        Ok(e) => e,
        Err(_) => return None,
    };
    Some(frame_envelope(encoded_event.as_slice(), payload))
}

pub fn event_type(header: Option<String>) -> (r: String)
    ensures
        r@ == event_type_spec(header.deep_view()),
{
    match header {
        Some(h) => h,
        None => DEFAULT_EVENT_TYPE.to_owned(),
    }
}

/// Appends `bytes` to `out`.
pub(crate) fn push_all(out: &mut Vec<u8>, bytes: &[u8])
    ensures
        final(out)@ == old(out)@ + bytes@,
{
    let mut i: usize = 0;
    while i < bytes.len()
        invariant
            i <= bytes@.len(),
            out@ == old(out)@ + bytes@.subrange(0, i as int),
        decreases bytes@.len() - i,
    {
        out.push(bytes[i]);
        i = i + 1;
        assert(bytes@.subrange(0, i as int) == bytes@.subrange(0, i - 1 as int).push(bytes@[i - 1]));
    }
    assert(bytes@.subrange(0, i as int) == bytes@);
}

/// Frames an encoded event type and an encoded payload as the envelope.
pub fn frame_envelope(event: &[u8], payload: &[u8]) -> (r: Vec<u8>)
    ensures
        r@ == envelope_spec(event@, payload@),
{
    let mut out: Vec<u8> = Vec::new();
    push_all(&mut out, "{\"event_type\":".as_bytes());
    push_all(&mut out, event);
    push_all(&mut out, ",\"client_payload\":".as_bytes());
    push_all(&mut out, payload);
    push_all(&mut out, "}".as_bytes());
    out
}

} // verus!
