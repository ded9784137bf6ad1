//! URL-safe base64 without padding: the transport encoding of the token's
//! three segments. Decoding ignores the unused low bits of a trailing
//! chunk, so non-canonical encodings of the same bytes are accepted.

use vstd::prelude::*;

verus! {

/// Six-bit value of one alphabet byte, or -1 when the byte is not in the
/// URL-safe base64 alphabet.
pub open spec fn b64_char_val(c: u8) -> int {
    if 0x41 <= c <= 0x5a {
        c - 0x41
    } else if 0x61 <= c <= 0x7a {
        c - 0x61 + 26
    } else if 0x30 <= c <= 0x39 {
        c - 0x30 + 52
    } else if c == 0x2d {
        62
    } else if c == 0x5f {
        63
    } else {
        -1
    }
}

/// A sequence is decodable when no chunk of one trailing character exists
/// and every character is in the alphabet.
pub open spec fn b64_valid(s: Seq<u8>) -> bool {
    &&& s.len() % 4 != 1
    &&& forall|k: int| 0 <= k < s.len() ==> b64_char_val(s[k]) >= 0
}

/// First output byte of a chunk: all of the first character, top two bits
/// of the second.
pub open spec fn b64_byte0(v0: int, v1: int) -> u8 {
    (v0 * 4 + v1 / 16) as u8
}

/// Second output byte: low four bits of the second character, top four of
/// the third.
pub open spec fn b64_byte1(v1: int, v2: int) -> u8 {
    ((v1 % 16) * 16 + v2 / 4) as u8
}

/// Third output byte: low two bits of the third character, all of the
/// fourth.
pub open spec fn b64_byte2(v2: int, v3: int) -> u8 {
    ((v2 % 4) * 64 + v3) as u8
}

/// Bytes encoded by `s` from position `i` on: full chunks of four
/// characters yield three bytes each; a trailing chunk of three yields two
/// bytes, of two yields one byte.
pub open spec fn b64_decode_from(s: Seq<u8>, i: int) -> Seq<u8>
    decreases s.len() - i,
{
    if i < 0 || s.len() < i + 2 {
        Seq::empty()
    } else if s.len() >= i + 4 {
        seq![
            b64_byte0(b64_char_val(s[i]), b64_char_val(s[i + 1])),
            b64_byte1(b64_char_val(s[i + 1]), b64_char_val(s[i + 2])),
            b64_byte2(b64_char_val(s[i + 2]), b64_char_val(s[i + 3])),
        ] + b64_decode_from(s, i + 4)
    } else if s.len() == i + 3 {
        seq![
            b64_byte0(b64_char_val(s[i]), b64_char_val(s[i + 1])),
            b64_byte1(b64_char_val(s[i + 1]), b64_char_val(s[i + 2])),
        ]
    } else {
        seq![b64_byte0(b64_char_val(s[i]), b64_char_val(s[i + 1]))]
    }
}

/// Bytes encoded by the whole sequence.
pub open spec fn b64_decode(s: Seq<u8>) -> Seq<u8> {
    b64_decode_from(s, 0)
}

/// Six-bit value of one alphabet byte; `None` outside the alphabet.
pub fn b64_byte_val(c: u8) -> (r: Option<u8>)
    ensures
        match r {
            Some(v) => v as int == b64_char_val(c) && v < 64,
            None => b64_char_val(c) == -1,
        },
{
    if 0x41 <= c && c <= 0x5a {
        Some(c - 0x41)
    } else if 0x61 <= c && c <= 0x7a {
        Some(c - 0x61 + 26)
    } else if 0x30 <= c && c <= 0x39 {
        Some(c - 0x30 + 52)
    } else if c == 0x2d {
        Some(62)
    } else if c == 0x5f {
        Some(63)
    } else {
        None
    }
}

/// Decode a URL-safe base64 sequence without padding. Returns `None`
/// exactly on input that is not decodable.
pub fn b64_decode_bytes(s: &[u8]) -> (r: Option<Vec<u8>>)
    ensures
        r is Some <==> b64_valid(s@),
        r matches Some(v) ==> v@ == b64_decode(s@),
{
    let n = s.len();
    if n % 4 == 1 {
        return None;
    }
    let mut out: Vec<u8> = Vec::new();
    let mut i: usize = 0;
    proof {
        assert(out@ + b64_decode_from(s@, 0) =~= b64_decode(s@));
    }
    while n - i >= 4
        invariant
            n == s@.len(),
            i <= n,
            i % 4 == 0,
            n % 4 != 1,
            forall|k: int| 0 <= k < i ==> b64_char_val(s@[k]) >= 0,
            out@ + b64_decode_from(s@, i as int) == b64_decode(s@),
        decreases n - i,
    {
        let v0 = match b64_byte_val(s[i]) {
            Some(v) => v,
            None => {
                return None;
            },
        };
        let v1 = match b64_byte_val(s[i + 1]) {
            Some(v) => v,
            None => {
                return None;
            },
        };
        let v2 = match b64_byte_val(s[i + 2]) {
            Some(v) => v,
            None => {
                return None;
            },
        };
        let v3 = match b64_byte_val(s[i + 3]) {
            Some(v) => v,
            None => {
                return None;
            },
        };
        let ghost prev = out@;
        out.push(v0 * 4 + v1 / 16);
        out.push((v1 % 16) * 16 + v2 / 4);
        out.push((v2 % 4) * 64 + v3);
        proof {
            assert(b64_decode_from(s@, i as int) == seq![
                b64_byte0(b64_char_val(s@[i as int]), b64_char_val(s@[i as int + 1])),
                b64_byte1(b64_char_val(s@[i as int + 1]), b64_char_val(s@[i as int + 2])),
                b64_byte2(b64_char_val(s@[i as int + 2]), b64_char_val(s@[i as int + 3])),
            ] + b64_decode_from(s@, i as int + 4));
            assert(out@ + b64_decode_from(s@, i as int + 4) =~= prev + b64_decode_from(
                s@,
                i as int,
            ));
        }
        i = i + 4;
    }
    if i == n {
        proof {
            assert(out@ + b64_decode_from(s@, i as int) =~= out@);
        }
        return Some(out);
    }
    // The remainder is two or three characters: i % 4 == 0, so n - i is
    // n % 4, which is not 1 and is below 4 here.
    let v0 = match b64_byte_val(s[i]) {
        Some(v) => v,
        None => {
            return None;
        },
    };
    let v1 = match b64_byte_val(s[i + 1]) {
        Some(v) => v,
        None => {
            return None;
        },
    };
    let ghost prev = out@;
    if i + 2 == n {
        out.push(v0 * 4 + v1 / 16);
        proof {
            assert(b64_decode_from(s@, i as int) == seq![
                b64_byte0(b64_char_val(s@[i as int]), b64_char_val(s@[i as int + 1])),
            ]);
            assert(out@ =~= prev + b64_decode_from(s@, i as int));
        }
        return Some(out);
    }
    let v2 = match b64_byte_val(s[i + 2]) {
        Some(v) => v,
        None => {
            return None;
        },
    };
    out.push(v0 * 4 + v1 / 16);
    out.push((v1 % 16) * 16 + v2 / 4);
    proof {
        assert(b64_decode_from(s@, i as int) == seq![
            b64_byte0(b64_char_val(s@[i as int]), b64_char_val(s@[i as int + 1])),
            b64_byte1(b64_char_val(s@[i as int + 1]), b64_char_val(s@[i as int + 2])),
        ]);
        assert(out@ =~= prev + b64_decode_from(s@, i as int));
    }
    Some(out)
}

} // verus!
