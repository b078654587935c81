//! Query encoding for the official package-repository search endpoint.
//!
//! This endpoint takes the query as a URL parameter; here the encoding
//! works character by character: Unicode-alphanumeric characters and
//! `-`, `_`, `.` pass through, and every other character becomes `%`
//! followed by the uppercase hexadecimal form of its code point, zero
//! padded to at least two digits.

use vstd::prelude::*;

use crate::text::char_is_alphanumeric;
use crate::text::chars_of;
use crate::text::hex_digit;
use crate::text::hex_digit_char;
use crate::text::is_alphanumeric_char;
use crate::text::string_of;

verus! {

/// The hexadecimal digits of `n`, most significant first, no leading zeros.
pub open spec fn hex_rec(n: u32) -> Seq<char>
    decreases n,
{
    if n < 16 {
        seq![hex_digit(n as u8)]
    } else {
        hex_rec(n / 16) + seq![hex_digit((n % 16) as u8)]
    }
}

/// The hexadecimal digits of `n`, zero padded to at least two digits.
pub open spec fn hex02(n: u32) -> Seq<char> {
    if n < 16 {
        seq!['0', hex_digit(n as u8)]
    } else {
        hex_rec(n)
    }
}

/// A character kept verbatim: Unicode alphanumeric, `-`, `_` or `.`.
pub open spec fn keeps_char(c: char) -> bool {
    char_is_alphanumeric(c) || c == '-' || c == '_' || c == '.'
}

/// What one character contributes to the encoded query.
pub open spec fn enc_char(c: char) -> Seq<char> {
    if keeps_char(c) {
        seq![c]
    } else {
        seq!['%'] + hex02(c as u32)
    }
}

/// The encoding of a whole character sequence.
pub open spec fn urlenc_chars(cs: Seq<char>) -> Seq<char>
    decreases cs.len(),
{
    if cs.len() == 0 {
        Seq::<char>::empty()
    } else {
        enc_char(cs[0]) + urlenc_chars(cs.skip(1))
    }
}

fn push_hex(out: &mut Vec<char>, n: u32)
    ensures
        final(out)@ == old(out)@ + hex_rec(n),
    decreases n,
{
    if n < 16 {
        out.push(hex_digit_char(n as u8));
        proof {
            assert(out@ =~= old(out)@ + hex_rec(n));
        }
    } else {
        push_hex(out, n / 16);
        out.push(hex_digit_char((n % 16) as u8));
        proof {
            assert(out@ =~= old(out)@ + hex_rec(n));
        }
    }
}

/// Minimal URL encoding for the search query, over its characters.
pub fn urlenc(s: &str) -> (r: String)
    ensures
        r@ == urlenc_chars(s@),
{
    let v = chars_of(s);
    let mut out: Vec<char> = Vec::new();
    let mut i: usize = 0;
    proof {
        assert(s@.skip(0) =~= s@);
        assert(Seq::<char>::empty() + urlenc_chars(s@) =~= urlenc_chars(s@));
    }
    while i < v.len()
        invariant
            i <= v.len(),
            v@ == s@,
            urlenc_chars(s@) == out@ + urlenc_chars(s@.skip(i as int)),
        decreases v.len() - i,
    {
        let c = v[i];
        proof {
            assert(s@.skip(i as int)[0] == s@[i as int]);
            assert(s@.skip(i as int).skip(1) =~= s@.skip(i as int + 1));
        }
        let ghost prev = out@;
        if is_alphanumeric_char(c) || c == '-' || c == '_' || c == '.' {
            out.push(c);
            proof {
                assert(out@ =~= prev + enc_char(c));
            }
        } else {
            let u = c as u32;
            out.push('%');
            if u < 16 {
                out.push('0');
                out.push(hex_digit_char(u as u8));
            } else {
                push_hex(&mut out, u);
            }
            proof {
                assert(out@ =~= prev + enc_char(c));
            }
        }
        i = i + 1;
    }
    proof {
        assert(s@.skip(i as int) =~= Seq::<char>::empty());
        assert(out@ =~= urlenc_chars(s@));
    }
    string_of(out)
}

} // verus!
