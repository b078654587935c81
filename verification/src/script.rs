//! The self-heal script for helper-based installs, and the single-quote
//! escaping that makes it safe to embed a package identifier in it.
//!
//! When the privileged helper has stopped working (typically after a system
//! update changed the package library underneath it), the install is wrapped
//! in one shell script that first repairs the helper and then installs, so
//! the user sees a single uninterrupted log. The identifier is embedded in
//! single quotes; every literal quote inside it is written as the sequence
//! that closes the quote, emits an escaped quote, and reopens the quote.

use vstd::prelude::*;
use vstd::string::StringExecFns;

use crate::text::chars_of;
use crate::text::string_of;

verus! {

/// Shell single-quote escaping: each `'` becomes `'\''`, every other
/// character is kept.
pub open spec fn sq_escape(s: Seq<char>) -> Seq<char>
    decreases s.len(),
{
    if s.len() == 0 {
        Seq::<char>::empty()
    } else if s[0] == '\'' {
        seq!['\'', '\\', '\'', '\''] + sq_escape(s.skip(1))
    } else {
        seq![s[0]] + sq_escape(s.skip(1))
    }
}

/// How a shell reads the escaped text back once the surrounding quotes are
/// stripped: each `'\''` stands for one `'`, everything else for itself.
pub open spec fn sq_unescape(s: Seq<char>) -> Seq<char>
    decreases s.len(),
{
    if s.len() == 0 {
        Seq::<char>::empty()
    } else if s.len() >= 4 && s[0] == '\'' && s[1] == '\\' && s[2] == '\'' && s[3] == '\'' {
        seq!['\''] + sq_unescape(s.skip(4))
    } else {
        seq![s[0]] + sq_unescape(s.skip(1))
    }
}

/// Escaping round-trips: reading the escaped identifier back as a shell
/// would yields exactly the original identifier, for every identifier.
pub proof fn lemma_sq_escape_roundtrip(s: Seq<char>)
    ensures
        sq_unescape(sq_escape(s)) == s,
    decreases s.len(),
{
    if s.len() == 0 {
    } else if s[0] == '\'' {
        lemma_sq_escape_roundtrip(s.skip(1));
        let e = sq_escape(s);
        assert(e.skip(4) =~= sq_escape(s.skip(1)));
        assert(sq_unescape(e) =~= s);
    } else {
        lemma_sq_escape_roundtrip(s.skip(1));
        let e = sq_escape(s);
        assert(e.skip(1) =~= sq_escape(s.skip(1)));
        assert(sq_unescape(e) =~= s);
    }
}

fn sq_escape_chars(v: &Vec<char>) -> (out: Vec<char>)
    ensures
        out@ == sq_escape(v@),
{
    let mut out: Vec<char> = Vec::new();
    let mut i: usize = 0;
    proof {
        assert(v@.skip(0) =~= v@);
        assert(Seq::<char>::empty() + sq_escape(v@) =~= sq_escape(v@));
    }
    while i < v.len()
        invariant
            i <= v.len(),
            sq_escape(v@) == out@ + sq_escape(v@.skip(i as int)),
        decreases v.len() - i,
    {
        let c = v[i];
        proof {
            assert(v@.skip(i as int)[0] == v@[i as int]);
            assert(v@.skip(i as int).skip(1) =~= v@.skip(i as int + 1));
        }
        let ghost prev = out@;
        if c == '\'' {
            out.push('\'');
            out.push('\\');
            out.push('\'');
            out.push('\'');
            proof {
                assert(out@ =~= prev + seq!['\'', '\\', '\'', '\'']);
                assert(out@ + sq_escape(v@.skip(i as int + 1)) =~= prev + sq_escape(
                    v@.skip(i as int),
                ));
            }
        } else {
            out.push(c);
            proof {
                assert(out@ + sq_escape(v@.skip(i as int + 1)) =~= prev + sq_escape(
                    v@.skip(i as int),
                ));
            }
        }
        i = i + 1;
    }
    proof {
        assert(v@.skip(i as int) =~= Seq::<char>::empty());
        assert(out@ =~= sq_escape(v@));
    }
    out
}

/// The escaped form of an identifier, ready to sit between single quotes.
pub fn escape_single_quotes(id: &str) -> (r: String)
    ensures
        r@ == sq_escape(id@),
{
    string_of(sq_escape_chars(&chars_of(id)))
}

/// Everything of the script up to the opening quote of the identifier.
pub open spec fn script_prefix() -> Seq<char> {
    "set -euo pipefail\nif ! paru --version &>/dev/null 2>&1; then\necho '\u{2500}\u{2500} Healing paru (system update changed libalpm) \u{2500}\u{2500}'\nheal-paru || { echo 'ERROR: paru heal failed'; exit 1; }\nfi\nparu -S --noconfirm '"@
}

/// The closing quote of the identifier and the final line break.
pub open spec fn script_suffix() -> Seq<char> {
    "'\n"@
}

/// The whole self-heal-and-install script for one identifier.
pub open spec fn heal_script_text(id: Seq<char>) -> Seq<char> {
    script_prefix() + sq_escape(id) + script_suffix()
}

/// Builds the script that repairs the helper if needed and then installs
/// the package, with the identifier safely quoted.
pub fn heal_script(id: &str) -> (r: String)
    ensures
        r@ == heal_script_text(id@),
{
    let mut s =
        "set -euo pipefail\nif ! paru --version &>/dev/null 2>&1; then\necho '\u{2500}\u{2500} Healing paru (system update changed libalpm) \u{2500}\u{2500}'\nheal-paru || { echo 'ERROR: paru heal failed'; exit 1; }\nfi\nparu -S --noconfirm '".to_owned();
    let esc = escape_single_quotes(id);
    s.append(esc.as_str());
    s.append("'\n");
    proof {
        assert(s@ =~= heal_script_text(id@));
    }
    s
}

} // verus!
