//! The wire forms at the native boundary.
//!
//! A request travels to the native library as its UTF-8 bytes followed by
//! one terminating NUL; a request whose own bytes hold a NUL cannot be
//! framed that way and is rejected before any native call. A response
//! arrives as the bytes of a native-owned buffer and is accepted only if
//! it is valid UTF-8; a null reply is a normal empty outcome.

use vstd::prelude::*;
use vstd::utf8::decode_utf8;
use vstd::utf8::encode_scalar;
use vstd::utf8::encode_utf8;
use vstd::utf8::encode_utf8_decode_utf8;
use vstd::utf8::encode_utf8_valid_utf8;
use vstd::utf8::char_is_scalar;
use vstd::utf8::char_u32_cast;
use vstd::utf8::has_width_1_encoding;
use vstd::utf8::has_width_2_encoding;
use vstd::utf8::has_width_3_encoding;
use vstd::utf8::valid_utf8;

use crate::ClientError;

verus! {

/// True when some byte of `b` is NUL.
pub open spec fn has_nul_byte(b: Seq<u8>) -> bool {
    exists|i: int| 0 <= i < b.len() && b[i] == 0
}

/// The form in which a request crosses the native boundary: its UTF-8
/// bytes followed by one terminating NUL.
pub open spec fn wire_bytes(s: Seq<char>) -> Seq<u8> {
    encode_utf8(s).push(0)
}

/// Builds the NUL-terminated buffer handed to the native send and execute
/// calls. A request holding an embedded NUL is rejected here, before any
/// native call; every other request is accepted.
pub fn encode_request(request: &str) -> (r: Result<Vec<u8>, ClientError>)
    ensures
        r is Ok <==> !has_nul_byte(encode_utf8(request@)),
        r is Ok <==> !request@.contains('\0'),
        r matches Ok(b) ==> b@ == wire_bytes(request@),
        r matches Err(e) ==> e == ClientError::EmbeddedNul,
{
    let bytes: &[u8] = request.as_bytes();
    let n: usize = bytes.len();
    let mut out: Vec<u8> = Vec::new();
    let mut i: usize = 0;
    while i < n
        invariant
            i <= n,
            n == bytes.len(),
            bytes@ == encode_utf8(request@),
            out@ == bytes@.subrange(0, i as int),
            forall|j: int| 0 <= j < i ==> bytes@[j] != 0,
        decreases n - i,
    {
        let b = bytes[i];
        if b == 0 {
            proof {
                assert(bytes@[i as int] == 0);
                assert(has_nul_byte(encode_utf8(request@)));
                lemma_nul_byte_iff_nul_char(request@);
            }
            return Err(ClientError::EmbeddedNul);
        }
        out.push(b);
        proof {
            assert(out@ =~= bytes@.subrange(0, i + 1));
        }
        i = i + 1;
    }
    out.push(0);
    proof {
        assert(bytes@.subrange(0, n as int) =~= bytes@);
        assert(out@ =~= wire_bytes(request@));
        lemma_nul_byte_iff_nul_char(request@);
    }
    Ok(out)
}

/// Relies on `String::from_utf8`: it returns `Ok` exactly when the bytes
/// are valid UTF-8, and the string it returns then holds those bytes.
#[verifier::external_body]
fn string_from_utf8(bytes: Vec<u8>) -> (r: Option<String>)
    ensures
        r is Some <==> valid_utf8(bytes@),
        r matches Some(s) ==> s@ == decode_utf8(bytes@),
{
    String::from_utf8(bytes).ok()
}

/// Validates the bytes of one native response buffer as UTF-8. Invalid
/// bytes are a contract violation by the native layer and surface as an
/// error; valid bytes come back decoded.
pub fn decode_response(bytes: Vec<u8>) -> (r: Result<String, ClientError>)
    ensures
        r is Ok <==> valid_utf8(bytes@),
        r matches Ok(s) ==> s@ == decode_utf8(bytes@),
        r matches Err(e) ==> e == ClientError::InvalidUtf8,
{
    match string_from_utf8(bytes) {
        Some(s) => Ok(s),
        None => Err(ClientError::InvalidUtf8),
    }
}

/// Interprets what a native execute or receive call handed back: a null
/// reply is the normal empty outcome, a buffer is validated as UTF-8.
pub fn decode_reply(raw: Option<Vec<u8>>) -> (r: Result<Option<String>, ClientError>)
    ensures
        raw is None ==> r == Ok::<Option<String>, ClientError>(None),
        raw matches Some(b) ==> {
            &&& r is Ok <==> valid_utf8(b@)
            &&& r matches Ok(s) ==> s matches Some(t) && t@ == decode_utf8(b@)
            &&& r matches Err(e) ==> e == ClientError::InvalidUtf8
        },
{
    match raw {
        None => Ok(None),
        Some(b) => match decode_response(b) {
            Ok(s) => Ok(Some(s)),
            Err(e) => Err(e),
        },
    }
}

/// The UTF-8 encoding of one character holds a NUL byte exactly when the
/// character is NUL itself: every byte of a multi-byte encoding has its
/// high bit set.
proof fn lemma_scalar_nul(c: char)
    ensures
        has_nul_byte(encode_scalar(c as u32)) <==> c == '\0',
{
    char_is_scalar(c);
    let v = c as u32;
    char_u32_cast(c, v);
    let e = encode_scalar(v);
    if has_width_1_encoding(v) {
        assert(e[0] == (v & 0x7F) as u8);
        assert(v <= 0x7F ==> ((v & 0x7F) as u8 == 0 <==> v == 0)) by (bit_vector);
        if v == 0 {
            assert(c == '\0');
            assert(has_nul_byte(e));
        } else {
            assert(c != '\0');
            assert(forall|i: int| 0 <= i < e.len() ==> e[i] != 0);
        }
    } else {
        assert(v != 0);
        assert(c != '\0');
        assert(forall|y: u32| (0xC0 | (y & 0x1F) as u8) != 0) by (bit_vector);
        assert(forall|y: u32| (0xE0 | (y & 0x0F) as u8) != 0) by (bit_vector);
        assert(forall|y: u32| (0xF0 | (y & 0x7) as u8) != 0) by (bit_vector);
        assert(forall|y: u32| (0x80 | (y & 0x3F) as u8) != 0) by (bit_vector);
        if has_width_2_encoding(v) {
            assert(forall|i: int| 0 <= i < e.len() ==> e[i] != 0);
        } else if has_width_3_encoding(v) {
            assert(forall|i: int| 0 <= i < e.len() ==> e[i] != 0);
        } else {
            assert(forall|i: int| 0 <= i < e.len() ==> e[i] != 0);
        }
    }
}

/// A concatenation holds a NUL byte exactly when one of its parts does.
proof fn lemma_has_nul_byte_concat(a: Seq<u8>, b: Seq<u8>)
    ensures
        has_nul_byte(a + b) <==> has_nul_byte(a) || has_nul_byte(b),
{
    if has_nul_byte(a) {
        let i = choose|i: int| 0 <= i < a.len() && a[i] == 0;
        assert((a + b)[i] == 0);
    }
    if has_nul_byte(b) {
        let i = choose|i: int| 0 <= i < b.len() && b[i] == 0;
        assert((a + b)[i + a.len()] == 0);
    }
    if has_nul_byte(a + b) {
        let i = choose|i: int| 0 <= i < (a + b).len() && (a + b)[i] == 0;
        if i < a.len() {
            assert(a[i] == 0);
        } else {
            assert(b[i - a.len()] == 0);
        }
    }
}

/// The UTF-8 encoding of a text holds a NUL byte exactly when the text
/// holds the NUL character: rejecting NUL bytes at the boundary rejects
/// exactly the requests that contain an embedded NUL character.
pub proof fn lemma_nul_byte_iff_nul_char(s: Seq<char>)
    ensures
        has_nul_byte(encode_utf8(s)) <==> s.contains('\0'),
    decreases s.len(),
{
    if s.len() == 0 {
        assert(!has_nul_byte(encode_utf8(s)));
        assert(!s.contains('\0'));
    } else {
        lemma_scalar_nul(s[0]);
        lemma_has_nul_byte_concat(encode_scalar(s[0] as u32), encode_utf8(s.drop_first()));
        lemma_nul_byte_iff_nul_char(s.drop_first());
        assert(s.contains('\0') <==> (s[0] == '\0' || s.drop_first().contains('\0'))) by {
            if s.contains('\0') {
                let i = choose|i: int| 0 <= i < s.len() && s[i] == '\0';
                if i > 0 {
                    assert(s.drop_first()[i - 1] == '\0');
                }
            }
            if s.drop_first().contains('\0') {
                let i = choose|i: int| 0 <= i < s.drop_first().len() && s.drop_first()[i] == '\0';
                assert(s[i + 1] == '\0');
            }
        }
    }
}

/// Round trip at the boundary: the bytes a text crosses the wire as decode
/// back to that text, and they are valid UTF-8. A response that echoes a
/// request's bytes therefore decodes to the request.
pub proof fn lemma_utf8_round_trip(s: Seq<char>)
    ensures
        valid_utf8(encode_utf8(s)),
        decode_utf8(encode_utf8(s)) == s,
{
    broadcast use encode_utf8_valid_utf8;
    broadcast use encode_utf8_decode_utf8;
}

/// The wire form of a request determines the request: two requests with
/// the same bytes on the wire are the same text. Counting delivered
/// buffers therefore counts delivered requests.
pub proof fn lemma_wire_bytes_injective(s1: Seq<char>, s2: Seq<char>)
    requires
        wire_bytes(s1) == wire_bytes(s2),
    ensures
        s1 == s2,
{
    let e1 = encode_utf8(s1);
    let e2 = encode_utf8(s2);
    assert(e1.push(0).len() == e2.push(0).len());
    assert forall|i: int| 0 <= i < e1.len() implies e1[i] == e2[i] by {
        assert(e1.push(0)[i] == e1[i]);
        assert(e2.push(0)[i] == e2[i]);
    }
    assert(e1 =~= e2);
    lemma_utf8_round_trip(s1);
    lemma_utf8_round_trip(s2);
}

/// What the native layer observes determines what was sent: a sequence of
/// send calls delivers as many buffers as there were calls, and any two
/// request sequences with the same delivered buffers are the same
/// requests. Counting and matching delivered buffers therefore counts and
/// matches the requests themselves.
pub proof fn lemma_deliveries_determine_requests(r1: Seq<Seq<char>>, r2: Seq<Seq<char>>)
    requires
        r1.map_values(|s: Seq<char>| wire_bytes(s)) == r2.map_values(|s: Seq<char>| wire_bytes(s)),
    ensures
        r1 == r2,
{
    let w1 = r1.map_values(|s: Seq<char>| wire_bytes(s));
    let w2 = r2.map_values(|s: Seq<char>| wire_bytes(s));
    assert(r1.len() == w1.len());
    assert(r2.len() == w2.len());
    assert forall|i: int| 0 <= i < r1.len() implies r1[i] == r2[i] by {
        assert(w1[i] == wire_bytes(r1[i]));
        assert(w2[i] == wire_bytes(r2[i]));
        lemma_wire_bytes_injective(r1[i], r2[i]);
    }
    assert(r1 =~= r2);
}

} // verus!
