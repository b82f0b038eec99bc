//! The wire format: request frames out, response frames in.
use vstd::prelude::*;
use vstd::slice::slice_subrange;
use vstd::string::StringSliceAdditionalSpecFns;
use vstd::utf8::{decode_utf8, valid_utf8};

use crate::error::OsvError;

verus! {

/// Largest value a 16-bit length field can carry.
pub const MAX_FIELD: usize = 0xffff;

/// Length of the fixed header that precedes the value in a response.
pub const RESPONSE_HEADER: usize = 7;

/// Big-endian encoding of `n` in two bytes.
pub open spec fn be16(n: nat) -> Seq<u8> {
    seq![(n / 256) as u8, (n % 256) as u8]
}

/// The number that two big-endian bytes stand for.
pub open spec fn be16_value(hi: u8, lo: u8) -> nat {
    (hi as nat) * 256 + (lo as nat)
}

/// A length-prefixed segment: two length bytes, then the data.
pub open spec fn segment(data: Seq<u8>) -> Seq<u8> {
    be16(data.len()) + data
}

/// Number of payload bytes of a request for a name and a value of the given lengths.
pub open spec fn payload_len(name_len: nat, value_len: nat) -> nat {
    if value_len == 0 {
        3 + name_len
    } else {
        5 + name_len + value_len
    }
}

/// A request fits the protocol when its payload length fits a 16-bit field.
pub open spec fn request_fits(name_len: nat, value_len: nat) -> bool {
    payload_len(name_len, value_len) <= MAX_FIELD
}

/// Request payload: the mode byte (1 when a value is written, 0 for a read),
/// the name segment, and the value segment when the value is not empty.
pub open spec fn request_payload(name: Seq<u8>, value: Seq<u8>) -> Seq<u8> {
    if value.len() == 0 {
        seq![0u8] + segment(name)
    } else {
        seq![1u8] + segment(name) + segment(value)
    }
}

/// Request frame: two reserved zero bytes, the payload length, the payload.
pub open spec fn request_frame(name: Seq<u8>, value: Seq<u8>) -> Seq<u8> {
    let payload = request_payload(name, value);
    seq![0u8, 0u8] + be16(payload.len()) + payload
}

/// Appends the big-endian two-byte encoding of `n`.
fn push_be16(out: &mut Vec<u8>, n: usize)
    requires
        n <= MAX_FIELD,
    ensures
        final(out)@ == old(out)@ + be16(n as nat),
{
    out.push((n / 256) as u8);
    out.push((n % 256) as u8);
    assert(final(out)@ =~= old(out)@ + be16(n as nat));
}

/// Appends a length-prefixed segment holding `data`.
fn push_segment(out: &mut Vec<u8>, data: &[u8])
    requires
        data@.len() <= MAX_FIELD,
    ensures
        final(out)@ == old(out)@ + segment(data@),
{
    push_be16(out, data.len());
    out.extend_from_slice(data);
    assert(final(out)@ =~= old(out)@ + segment(data@));
}

/// Encodes a request for the variable `name`: a read when `value` is empty,
/// a write of `value` otherwise.
pub fn encode_request(name: &str, value: &str) -> (r: Vec<u8>)
    requires
        request_fits(name.spec_bytes().len(), value.spec_bytes().len()),
    ensures
        r@ == request_frame(name.spec_bytes(), value.spec_bytes()),
        r@.len() == 4 + payload_len(name.spec_bytes().len(), value.spec_bytes().len()),
        r@[0] == 0 && r@[1] == 0,
        be16_value(r@[2], r@[3]) == r@.len() - 4,
        r@[4] == (if value@.len() == 0 { 0u8 } else { 1u8 }),
        be16_value(r@[5], r@[6]) == name.spec_bytes().len(),
{
    let name_bytes = name.as_bytes();
    let value_bytes = value.as_bytes();
    let ghost payload = request_payload(name.spec_bytes(), value.spec_bytes());
    let mut payload_bytes: Vec<u8> = Vec::new();
    if value.is_empty() {
        payload_bytes.push(0u8);
        push_segment(&mut payload_bytes, name_bytes);
    } else {
        payload_bytes.push(1u8);
        push_segment(&mut payload_bytes, name_bytes);
        push_segment(&mut payload_bytes, value_bytes);
    }
    assert(payload_bytes@ =~= payload);
    let mut frame: Vec<u8> = Vec::new();
    frame.push(0u8);
    frame.push(0u8);
    push_be16(&mut frame, payload_bytes.len());
    frame.extend_from_slice(payload_bytes.as_slice());
    assert(frame@ =~= request_frame(name.spec_bytes(), value.spec_bytes()));
    frame
}

/// A byte that is left after dropping unprintable bytes and trimming
/// whitespace: printable ASCII other than the space.
pub open spec fn is_visible(b: u8) -> bool {
    33 <= b <= 126
}

/// How the remote side says that a variable does not exist: the response
/// shows no visible character, or its last byte is zero.
pub open spec fn signals_absent(resp: Seq<u8>) -> bool {
    (forall|i: int| 0 <= i < resp.len() ==> !is_visible(#[trigger] resp[i]))
        || (resp.len() > 0 && resp.last() == 0)
}

/// The value length that a response declares in its bytes five and six.
pub open spec fn declared_len(resp: Seq<u8>) -> nat
    recommends
        resp.len() >= RESPONSE_HEADER,
{
    be16_value(resp[5], resp[6])
}

/// The value bytes that a response carries, or why it carries none.
pub open spec fn parse_value(resp: Seq<u8>) -> Result<Seq<u8>, OsvError> {
    if resp.len() < RESPONSE_HEADER {
        Err(OsvError::InvalidResponseLength)
    } else if resp.len() < RESPONSE_HEADER + declared_len(resp) {
        Err(OsvError::ResponseLengthMismatch)
    } else {
        Ok(resp.subrange(RESPONSE_HEADER as int, RESPONSE_HEADER + declared_len(resp)))
    }
}

/// The outcome of a whole exchange, as bytes: absence first, then the value.
pub open spec fn reply_bytes(resp: Seq<u8>) -> Result<Seq<u8>, OsvError> {
    if signals_absent(resp) {
        Err(OsvError::VariableNotFound)
    } else {
        parse_value(resp)
    }
}

/// Text that `String::from_utf8_lossy` makes of some bytes.
pub uninterp spec fn lossy_of(b: Seq<u8>) -> Seq<char>;

/// `r` is the text read from the bytes that `p` holds, or the same error.
pub open spec fn decoded_as(r: Result<String, OsvError>, p: Result<Seq<u8>, OsvError>) -> bool {
    match p {
        Ok(bytes) => r is Ok && r->Ok_0@ == lossy_of(bytes),
        Err(e) => r == Err::<String, OsvError>(e),
    }
}

/// Relies on `String::from_utf8_lossy`: the text depends on the bytes alone,
/// and valid UTF-8 comes back decoded as it is.
#[verifier::external_body]
fn utf8_lossy(b: &[u8]) -> (r: String)
    ensures
        r@ == lossy_of(b@),
        valid_utf8(b@) ==> r@ == decode_utf8(b@),
{
    String::from_utf8_lossy(b).into_owned()
}

/// Checks a raw response for the remote side's "no such variable" signal,
/// and hands the response back untouched when it is not there.
pub fn decode_response(resp: Vec<u8>) -> (r: Result<Vec<u8>, OsvError>)
    ensures
        signals_absent(resp@) ==> r == Err::<Vec<u8>, OsvError>(OsvError::VariableNotFound),
        !signals_absent(resp@) ==> r is Ok && r->Ok_0@ == resp@,
{
    let n = resp.len();
    let mut seen_visible = false;
    let mut i: usize = 0;
    while i < n
        invariant
            n == resp@.len(),
            i <= n,
            seen_visible <==> exists|j: int| 0 <= j < i && is_visible(#[trigger] resp@[j]),
        decreases n - i,
    {
        let b = resp[i];
        if 33 <= b && b <= 126 {
            seen_visible = true;
        }
        i = i + 1;
    }
    if !seen_visible || resp[n - 1] == 0 {
        Err(OsvError::VariableNotFound)
    } else {
        Ok(resp)
    }
}

/// Reads the value out of a response: the big-endian length at bytes five
/// and six, then that many bytes from byte seven on, decoded as UTF-8 with
/// invalid sequences replaced.
pub fn extract_value(resp: &Vec<u8>) -> (r: Result<String, OsvError>)
    ensures
        decoded_as(r, parse_value(resp@)),
        resp@.len() < RESPONSE_HEADER ==> r == Err::<String, OsvError>(OsvError::InvalidResponseLength),
        r is Ok ==> valid_utf8(parse_value(resp@)->Ok_0) ==> r->Ok_0@ == decode_utf8(parse_value(resp@)->Ok_0),
{
    if resp.len() < RESPONSE_HEADER {
        return Err(OsvError::InvalidResponseLength);
    }
    let len = (resp[5] as usize) * 256 + (resp[6] as usize);
    if resp.len() - RESPONSE_HEADER < len {
        return Err(OsvError::ResponseLengthMismatch);
    }
    let bytes = slice_subrange(resp.as_slice(), RESPONSE_HEADER, RESPONSE_HEADER + len);
    Ok(utf8_lossy(bytes))
}

/// The outcome of an exchange whose response is `resp`: the variable's text,
/// or why there is none.
pub fn reply_value(resp: Vec<u8>) -> (r: Result<String, OsvError>)
    ensures
        decoded_as(r, reply_bytes(resp@)),
        r is Ok ==> valid_utf8(reply_bytes(resp@)->Ok_0) ==> r->Ok_0@ == decode_utf8(reply_bytes(resp@)->Ok_0),
{
    match decode_response(resp) {
        Ok(bytes) => extract_value(&bytes),
        Err(e) => Err(e),
    }
}

/// A write request's length field counts exactly the payload that follows
/// it, and its mode byte is one.
pub proof fn lemma_write_frame_header(name: Seq<u8>, value: Seq<u8>)
    requires
        name.len() > 0,
        value.len() > 0,
        request_fits(name.len(), value.len()),
    ensures
        be16_value(request_frame(name, value)[2], request_frame(name, value)[3])
            == request_frame(name, value).len() - 4,
        request_frame(name, value)[4] == 1,
{
}

/// A read request carries the mode byte zero and the name segment, and no
/// value segment after it.
pub proof fn lemma_read_frame_shape(name: Seq<u8>)
    requires
        name.len() > 0,
        request_fits(name.len(), 0),
    ensures
        request_frame(name, Seq::empty())[4] == 0,
        request_frame(name, Seq::empty()).len() == 7 + name.len(),
        be16_value(request_frame(name, Seq::empty())[2], request_frame(name, Seq::empty())[3])
            == 3 + name.len(),
        request_frame(name, Seq::empty()).subrange(5, 7 + name.len() as int) == segment(name),
{
    let f = request_frame(name, Seq::empty());
    assert(f.subrange(5, 7 + name.len() as int) =~= segment(name));
}

/// A response made of five header bytes, a big-endian value length and the
/// value itself gives back exactly that value.
pub proof fn lemma_value_round_trip(pad: Seq<u8>, value: Seq<u8>)
    requires
        pad.len() == 5,
        value.len() <= MAX_FIELD,
    ensures
        parse_value(pad + be16(value.len()) + value) == Ok::<Seq<u8>, OsvError>(value),
{
    let resp = pad + be16(value.len()) + value;
    assert(resp[5] == be16(value.len())[0]);
    assert(resp[6] == be16(value.len())[1]);
    assert(declared_len(resp) == value.len());
    assert(resp.subrange(7, 7 + value.len() as int) =~= value);
}

} // verus!
