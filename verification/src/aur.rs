//! Query encoding for the AUR RPC search endpoint.
//!
//! The endpoint takes the query in the URL path, so the query is percent-
//! encoded byte by byte: unreserved ASCII bytes pass through, a space
//! becomes `+`, and every other byte becomes `%` followed by two uppercase
//! hexadecimal digits.

use vstd::prelude::*;
use vstd::string::StrSliceExecFns;
use vstd::utf8::encode_utf8;

use crate::text::hex_digit;
use crate::text::hex_digit_char;
use crate::text::string_of;

verus! {

/// A byte kept verbatim: an ASCII letter, a digit, `-`, `_` or `.`.
pub open spec fn keeps_byte(b: u8) -> bool {
    (97 <= b <= 122) || (65 <= b <= 90) || (48 <= b <= 57) || b == 45 || b == 95 || b == 46
}

/// What one byte contributes to the encoded query.
pub open spec fn enc_byte(b: u8) -> Seq<char> {
    if keeps_byte(b) {
        seq![b as char]
    } else if b == 32 {
        seq!['+']
    } else {
        seq!['%', hex_digit(b / 16), hex_digit(b % 16)]
    }
}

/// The encoding of a whole byte sequence.
pub open spec fn urlenc_bytes(bs: Seq<u8>) -> Seq<char>
    decreases bs.len(),
{
    if bs.len() == 0 {
        Seq::<char>::empty()
    } else {
        enc_byte(bs[0]) + urlenc_bytes(bs.skip(1))
    }
}

/// Minimal URL encoding for the search query, over its UTF-8 bytes.
pub fn urlenc(s: &str) -> (r: String)
    ensures
        r@ == urlenc_bytes(encode_utf8(s@)),
{
    let bytes = s.as_bytes_vec();
    let mut out: Vec<char> = Vec::new();
    let mut i: usize = 0;
    proof {
        assert(bytes@.skip(0) =~= bytes@);
        assert(Seq::<char>::empty() + urlenc_bytes(bytes@) =~= urlenc_bytes(bytes@));
    }
    while i < bytes.len()
        invariant
            i <= bytes.len(),
            bytes@ == encode_utf8(s@),
            urlenc_bytes(bytes@) == out@ + urlenc_bytes(bytes@.skip(i as int)),
        decreases bytes.len() - i,
    {
        let b = bytes[i];
        proof {
            assert(bytes@.skip(i as int)[0] == bytes@[i as int]);
            assert(bytes@.skip(i as int).skip(1) =~= bytes@.skip(i as int + 1));
        }
        let ghost prev = out@;
        if (97 <= b && b <= 122) || (65 <= b && b <= 90) || (48 <= b && b <= 57) || b == 45 || b
            == 95 || b == 46 {
            out.push(b as char);
            proof {
                assert(out@ =~= prev + enc_byte(b));
            }
        } else if b == 32 {
            out.push('+');
            proof {
                assert(out@ =~= prev + enc_byte(b));
            }
        } else {
            out.push('%');
            out.push(hex_digit_char(b / 16));
            out.push(hex_digit_char(b % 16));
            proof {
                assert(out@ =~= prev + enc_byte(b));
            }
        }
        i = i + 1;
    }
    proof {
        assert(bytes@.skip(i as int) =~= Seq::<u8>::empty());
        assert(out@ =~= urlenc_bytes(encode_utf8(s@)));
    }
    string_of(out)
}

} // verus!
