use vstd::prelude::*;

verus! {

/// The standard base64 alphabet (RFC 4648).
pub open spec fn b64_alphabet() -> Seq<char> {
    "ABCDEFGHIJKLMNOPQRSTUVWXYZabcdefghijklmnopqrstuvwxyz0123456789+/"@
}

/// The alphabet character for one 6-bit value.
pub open spec fn b64_char(v: int) -> char
    recommends
        0 <= v < 64,
{
    b64_alphabet()[v]
}

/// Standard padded base64 text (RFC 4648) of a byte sequence: each group of
/// three bytes becomes four alphabet characters; a final group of one or two
/// bytes is completed with `=` padding.
pub open spec fn b64_encode_spec(b: Seq<u8>) -> Seq<char>
    decreases b.len(),
{
    if b.len() == 0 {
        Seq::empty()
    } else if b.len() == 1 {
        seq![
            b64_char((b[0] >> 2) as int),
            b64_char(((b[0] & 0x03) << 4) as int),
            '=',
            '=',
        ]
    } else if b.len() == 2 {
        seq![
            b64_char((b[0] >> 2) as int),
            b64_char((((b[0] & 0x03) << 4) | (b[1] >> 4)) as int),
            b64_char(((b[1] & 0x0f) << 2) as int),
            '=',
        ]
    } else {
        seq![
            b64_char((b[0] >> 2) as int),
            b64_char((((b[0] & 0x03) << 4) | (b[1] >> 4)) as int),
            b64_char((((b[1] & 0x0f) << 2) | (b[2] >> 6)) as int),
            b64_char((b[2] & 0x3f) as int),
        ] + b64_encode_spec(b.skip(3))
    }
}

/// What base64 decoding returns for a given text, `None` standing for a
/// decode failure.
pub uninterp spec fn b64_decode_of(s: Seq<char>) -> Option<Seq<u8>>;

/// Relies on rustc_serialize's `ToBase64` for `[u8]` with the `STANDARD`
/// config: standard alphabet, `=` padding, no line breaks — exactly
/// `b64_encode_spec`. The second clause is the crate's own documented round
/// trip: decoding what `to_base64` produced recovers the encoded bytes.
#[verifier::external_body]
pub fn b64_encode(b: &[u8]) -> (r: String)
    ensures
        r@ == b64_encode_spec(b@),
        b64_decode_of(r@) == Some(b@),
{
    rustc_serialize::base64::ToBase64::to_base64(b, rustc_serialize::base64::STANDARD)
}

/// Relies on rustc_serialize's `FromBase64` for `str`: the result is a
/// function of the text alone, named `b64_decode_of`.
#[verifier::external_body]
pub fn b64_decode(s: &str) -> (r: Option<Vec<u8>>)
    ensures
        r matches Some(b) ==> b64_decode_of(s@) == Some(b@),
        r is None ==> b64_decode_of(s@) is None,
{
    match rustc_serialize::base64::FromBase64::from_base64(s) {
        Ok(v) => Some(v),
        Err(_) => None,
    }
}

} // verus!
