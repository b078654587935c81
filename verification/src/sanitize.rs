//! Stripping of terminal control sequences from process output.
//!
//! Package-manager helpers colour and rewrite their progress lines with ANSI
//! CSI sequences (`ESC [ ... <letter>`) and carriage returns. The UI renders
//! plain text, so every line is passed through [`strip_ansi`] before it is
//! forwarded. The function is total: a truncated escape sequence simply
//! consumes the rest of the input and is dropped.

use vstd::prelude::*;

use crate::text::chars_of;
use crate::text::string_of;

verus! {

/// An ASCII letter, which is what terminates a CSI control sequence.
pub open spec fn is_csi_end(c: char) -> bool {
    ('A' as u32 <= c as u32 && c as u32 <= 'Z' as u32) || ('a' as u32 <= c as u32 && c as u32
        <= 'z' as u32)
}

/// One pass over the input. While `in_csi` is set the characters belong to a
/// control sequence and are dropped, up to and including the first ASCII
/// letter. Outside a sequence, `ESC [` opens one, a lone `ESC` and every
/// carriage return are dropped, and every other character is kept.
pub open spec fn scrub(s: Seq<char>, in_csi: bool) -> Seq<char>
    decreases s.len(),
{
    if s.len() == 0 {
        Seq::<char>::empty()
    } else if in_csi {
        scrub(s.skip(1), !is_csi_end(s[0]))
    } else if s[0] == '\x1b' {
        if s.len() >= 2 && s[1] == '[' {
            scrub(s.skip(2), true)
        } else {
            scrub(s.skip(1), false)
        }
    } else if s[0] == '\r' {
        scrub(s.skip(1), false)
    } else {
        seq![s[0]] + scrub(s.skip(1), false)
    }
}

/// What [`strip_ansi`] returns: the input with CSI sequences, lone escapes
/// and carriage returns removed.
pub open spec fn sanitize(s: Seq<char>) -> Seq<char> {
    scrub(s, false)
}

/// A character sequence with no escape character and no carriage return:
/// exactly the inputs that sanitizing leaves unchanged.
pub open spec fn ansi_free(s: Seq<char>) -> bool {
    forall|i: int| 0 <= i < s.len() ==> s[i] != '\x1b' && s[i] != '\r'
}

/// Sanitizing removes every escape character and carriage return, whatever
/// the input was.
pub proof fn lemma_sanitize_removes_controls(s: Seq<char>)
    ensures
        ansi_free(sanitize(s)),
{
    lemma_scrub_ansi_free(s, false);
}

proof fn lemma_scrub_ansi_free(s: Seq<char>, in_csi: bool)
    ensures
        ansi_free(scrub(s, in_csi)),
    decreases s.len(),
{
    if s.len() == 0 {
    } else if in_csi {
        lemma_scrub_ansi_free(s.skip(1), !is_csi_end(s[0]));
    } else if s[0] == '\x1b' {
        if s.len() >= 2 && s[1] == '[' {
            lemma_scrub_ansi_free(s.skip(2), true);
        } else {
            lemma_scrub_ansi_free(s.skip(1), false);
        }
    } else if s[0] == '\r' {
        lemma_scrub_ansi_free(s.skip(1), false);
    } else {
        lemma_scrub_ansi_free(s.skip(1), false);
        assert forall|i: int| 0 <= i < scrub(s, in_csi).len() implies scrub(s, in_csi)[i] != '\x1b'
            && scrub(s, in_csi)[i] != '\r' by {
            if i > 0 {
                assert(scrub(s, in_csi)[i] == scrub(s.skip(1), false)[i - 1]);
            }
        }
    }
}

/// An input that holds no escape character and no carriage return comes back
/// from sanitizing unchanged.
pub proof fn lemma_sanitize_plain(s: Seq<char>)
    requires
        ansi_free(s),
    ensures
        sanitize(s) == s,
    decreases s.len(),
{
    if s.len() == 0 {
        assert(sanitize(s) =~= s);
    } else {
        assert(forall|i: int| 0 <= i < s.skip(1).len() ==> s.skip(1)[i] == s[i + 1]);
        lemma_sanitize_plain(s.skip(1));
        assert(sanitize(s) =~= s);
    }
}

/// Sanitizing is idempotent: a second pass changes nothing.
pub proof fn lemma_sanitize_idempotent(s: Seq<char>)
    ensures
        sanitize(sanitize(s)) == sanitize(s),
{
    lemma_sanitize_removes_controls(s);
    lemma_sanitize_plain(sanitize(s));
}

fn is_ascii_alpha(c: char) -> (r: bool)
    ensures
        r == is_csi_end(c),
{
    let u = c as u32;
    (65 <= u && u <= 90) || (97 <= u && u <= 122)
}

/// Strips ANSI CSI sequences and carriage returns for clean display.
pub fn strip_ansi(s: &str) -> (r: String)
    ensures
        r@ == sanitize(s@),
{
    let v = chars_of(s);
    let mut out: Vec<char> = Vec::new();
    let mut in_csi: bool = false;
    let mut i: usize = 0;
    proof {
        assert(s@.skip(0) =~= s@);
        assert(Seq::<char>::empty() + scrub(s@, false) =~= scrub(s@, false));
    }
    while i < v.len()
        invariant
            i <= v.len(),
            v@ == s@,
            sanitize(s@) == out@ + scrub(s@.skip(i as int), in_csi),
        decreases v.len() - i,
    {
        let c = v[i];
        proof {
            assert(s@.skip(i as int)[0] == s@[i as int]);
            assert(s@.skip(i as int).skip(1) =~= s@.skip(i as int + 1));
        }
        if in_csi {
            in_csi = !is_ascii_alpha(c);
            i = i + 1;
        } else if c == '\x1b' {
            if i + 1 < v.len() && v[i + 1] == '[' {
                proof {
                    assert(s@.skip(i as int)[1] == s@[i as int + 1]);
                    assert(s@.skip(i as int).skip(2) =~= s@.skip(i as int + 2));
                }
                in_csi = true;
                i = i + 2;
            } else {
                i = i + 1;
            }
        } else if c == '\r' {
            i = i + 1;
        } else {
            out.push(c);
            proof {
                assert(out@ + scrub(s@.skip(i as int + 1), false) =~= out@.drop_last() + (seq![c]
                    + scrub(s@.skip(i as int + 1), false)));
            }
            i = i + 1;
        }
    }
    proof {
        assert(s@.skip(i as int) =~= Seq::<char>::empty());
        assert(sanitize(s@) =~= out@);
    }
    string_of(out)
}

} // verus!
