//! Stripping of HTML tags from catalog descriptions.
//!
//! Remote catalogs deliver descriptions as HTML fragments; the UI shows
//! plain text. [`strip_html`] drops everything between `<` and `>`, turns
//! each `>` and each line break into a space, trims the result, and
//! collapses runs of spaces into one.

use vstd::prelude::*;

use crate::text::char_is_whitespace;
use crate::text::chars_of;
use crate::text::is_whitespace_char;
use crate::text::string_of;

verus! {

/// The tag-dropping pass. While `in_tag` is set the characters belong to a
/// tag and are dropped. A `<` opens a tag; a `>` closes one and leaves a
/// space; a line break becomes a space even inside a tag; everything else
/// is kept when outside a tag.
pub open spec fn drop_tags(s: Seq<char>, in_tag: bool) -> Seq<char>
    decreases s.len(),
{
    if s.len() == 0 {
        Seq::<char>::empty()
    } else if s[0] == '<' {
        drop_tags(s.skip(1), true)
    } else if s[0] == '>' {
        seq![' '] + drop_tags(s.skip(1), false)
    } else if s[0] == '\n' {
        seq![' '] + drop_tags(s.skip(1), in_tag)
    } else if in_tag {
        drop_tags(s.skip(1), in_tag)
    } else {
        seq![s[0]] + drop_tags(s.skip(1), in_tag)
    }
}

/// The sequence with its leading whitespace removed.
pub open spec fn trim_front(s: Seq<char>) -> Seq<char>
    decreases s.len(),
{
    if s.len() > 0 && char_is_whitespace(s[0]) {
        trim_front(s.skip(1))
    } else {
        s
    }
}

/// The sequence with its trailing whitespace removed.
pub open spec fn trim_back(s: Seq<char>) -> Seq<char>
    decreases s.len(),
{
    if s.len() > 0 && char_is_whitespace(s[s.len() - 1]) {
        trim_back(s.take(s.len() - 1))
    } else {
        s
    }
}

/// The sequence with whitespace removed from both ends.
pub open spec fn trimmed(s: Seq<char>) -> Seq<char> {
    trim_back(trim_front(s))
}

/// The space-collapsing pass: a run of spaces becomes a single space.
pub open spec fn collapse_spaces(s: Seq<char>, prev_space: bool) -> Seq<char>
    decreases s.len(),
{
    if s.len() == 0 {
        Seq::<char>::empty()
    } else if s[0] == ' ' {
        if prev_space {
            collapse_spaces(s.skip(1), true)
        } else {
            seq![' '] + collapse_spaces(s.skip(1), true)
        }
    } else {
        seq![s[0]] + collapse_spaces(s.skip(1), false)
    }
}

/// What [`strip_html`] returns: tags dropped, the result trimmed, and
/// space runs collapsed.
pub open spec fn html_stripped(s: Seq<char>) -> Seq<char> {
    collapse_spaces(trimmed(drop_tags(s, false)), false)
}

/// Strips HTML tags and collapses whitespace.
pub fn strip_html(s: &str) -> (r: String)
    ensures
        r@ == html_stripped(s@),
{
    let v = chars_of(s);

    // Tag-dropping pass.
    let mut mid: Vec<char> = Vec::new();
    let mut in_tag: bool = false;
    let mut i: usize = 0;
    proof {
        assert(s@.skip(0) =~= s@);
        assert(Seq::<char>::empty() + drop_tags(s@, false) =~= drop_tags(s@, false));
    }
    while i < v.len()
        invariant
            i <= v.len(),
            v@ == s@,
            drop_tags(s@, false) == mid@ + drop_tags(s@.skip(i as int), in_tag),
        decreases v.len() - i,
    {
        let c = v[i];
        proof {
            assert(s@.skip(i as int)[0] == s@[i as int]);
            assert(s@.skip(i as int).skip(1) =~= s@.skip(i as int + 1));
        }
        let ghost prev = mid@;
        if c == '<' {
            in_tag = true;
        } else if c == '>' {
            in_tag = false;
            mid.push(' ');
            proof {
                assert(mid@ =~= prev + seq![' ']);
            }
        } else if c == '\n' {
            mid.push(' ');
            proof {
                assert(mid@ =~= prev + seq![' ']);
            }
        } else if !in_tag {
            mid.push(c);
            proof {
                assert(mid@ =~= prev + seq![c]);
            }
        }
        i = i + 1;
    }
    proof {
        assert(s@.skip(i as int) =~= Seq::<char>::empty());
        assert(mid@ =~= drop_tags(s@, false));
    }

    // Trimming: find the kept range of `mid`.
    let mut lo: usize = 0;
    proof {
        assert(mid@.skip(0) =~= mid@);
    }
    while lo < mid.len() && is_whitespace_char(mid[lo])
        invariant
            lo <= mid.len(),
            trim_front(mid@) == trim_front(mid@.skip(lo as int)),
        decreases mid.len() - lo,
    {
        proof {
            assert(mid@.skip(lo as int)[0] == mid@[lo as int]);
            assert(mid@.skip(lo as int).skip(1) =~= mid@.skip(lo as int + 1));
        }
        lo = lo + 1;
    }
    proof {
        if lo < mid.len() {
            assert(mid@.skip(lo as int)[0] == mid@[lo as int]);
        }
        assert(trim_front(mid@) == mid@.skip(lo as int));
    }
    let ghost front = mid@.skip(lo as int);

    let mut hi: usize = mid.len();
    proof {
        assert(front.take(hi - lo) =~= front);
    }
    while hi > lo && is_whitespace_char(mid[hi - 1])
        invariant
            lo <= hi <= mid.len(),
            front == mid@.skip(lo as int),
            trim_back(front) == trim_back(front.take(hi - lo)),
        decreases hi,
    {
        proof {
            let u = front.take(hi - lo);
            assert(u[u.len() - 1] == mid@[hi as int - 1]);
            assert(u.take(u.len() - 1) =~= front.take(hi - 1 - lo));
        }
        hi = hi - 1;
    }
    proof {
        let u = front.take(hi - lo);
        if hi > lo {
            assert(u[u.len() - 1] == mid@[hi as int - 1]);
        }
        assert(trim_back(front) == u);
        assert(trimmed(mid@) == front.take(hi - lo));
    }
    let ghost kept = front.take(hi - lo);

    // Space-collapsing pass over the kept range.
    let mut out: Vec<char> = Vec::new();
    let mut prev_space: bool = false;
    let mut j: usize = lo;
    proof {
        assert(kept.skip(0) =~= kept);
        assert(Seq::<char>::empty() + collapse_spaces(kept, false) =~= collapse_spaces(
            kept,
            false,
        ));
    }
    while j < hi
        invariant
            lo <= j <= hi <= mid.len(),
            front == mid@.skip(lo as int),
            kept == front.take(hi - lo),
            collapse_spaces(kept, false) == out@ + collapse_spaces(
                kept.skip(j - lo),
                prev_space,
            ),
        decreases hi - j,
    {
        let c = mid[j];
        proof {
            assert(kept.skip(j - lo)[0] == kept[j - lo]);
            assert(kept[j - lo] == mid@[j as int]);
            assert(kept.skip(j - lo).skip(1) =~= kept.skip(j + 1 - lo));
        }
        let ghost prev = out@;
        if c == ' ' {
            if !prev_space {
                out.push(' ');
                proof {
                    assert(out@ =~= prev + seq![' ']);
                }
            }
            prev_space = true;
        } else {
            out.push(c);
            prev_space = false;
            proof {
                assert(out@ =~= prev + seq![c]);
            }
        }
        j = j + 1;
    }
    proof {
        assert(kept.skip(hi - lo) =~= Seq::<char>::empty());
        assert(out@ =~= html_stripped(s@));
    }
    string_of(out)
}

} // verus!
