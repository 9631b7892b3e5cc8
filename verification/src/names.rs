//! The name normalizer: turns a free-form package name into a canonical
//! uppercase macro-identifier prefix.

use vstd::prelude::*;

use crate::strutil::push_char;

verus! {

/// One character of a normalized name: an ASCII lowercase letter is raised to
/// uppercase, an uppercase letter or digit passes through unchanged, and any
/// other character becomes an underscore.
pub open spec fn norm_char(c: char) -> char {
    if 'a' <= c && c <= 'z' {
        ((c as int) - 32) as char
    } else if ('A' <= c && c <= 'Z') || ('0' <= c && c <= '9') {
        c
    } else {
        '_'
    }
}

/// The canonical macro-identifier form of a package name.
pub open spec fn norm_seq(s: Seq<char>) -> Seq<char> {
    s.map_values(|c: char| norm_char(c))
}

/// Holds of the characters that a normalized name may contain.
pub open spec fn is_macro_char(c: char) -> bool {
    ('A' <= c && c <= 'Z') || ('0' <= c && c <= '9') || c == '_'
}

fn normalize_char(c: char) -> (r: char)
    ensures
        r == norm_char(c),
{
    if 'a' <= c && c <= 'z' {
        let b: u8 = (c as u8) - 32;
        b as char
    } else if ('A' <= c && c <= 'Z') || ('0' <= c && c <= '9') {
        c
    } else {
        '_'
    }
}

/// Converts a package name into an uppercase token usable as a macro
/// identifier prefix. Any input, including the empty string, is accepted.
pub fn normalize(name: &str) -> (r: String)
    ensures
        r@ == norm_seq(name@),
{
    let len = name.unicode_len();
    let mut out = String::new();
    let mut i: usize = 0;
    while i < len
        invariant
            i <= len,
            len == name@.len(),
            out@ == norm_seq(name@.take(i as int)),
        decreases len - i,
    {
        let c = name.get_char(i);
        push_char(&mut out, normalize_char(c));
        proof {
            assert(name@.take(i + 1) =~= name@.take(i as int).push(name@[i as int]));
            assert(norm_seq(name@.take(i + 1)) =~= norm_seq(name@.take(i as int)).push(
                norm_char(name@[i as int]),
            ));
        }
        i += 1;
    }
    proof {
        assert(name@.take(len as int) =~= name@);
    }
    out
}

/// Every normalized character is an uppercase letter, a digit or an
/// underscore, and normalizing is idempotent on characters.
pub proof fn lemma_norm_char_idempotent(c: char)
    ensures
        is_macro_char(norm_char(c)),
        norm_char(norm_char(c)) == norm_char(c),
{
}

/// Normalization produces names made only of uppercase letters, digits and
/// underscores, and applying it twice gives the same result as applying it
/// once.
pub proof fn lemma_normalize_idempotent(s: Seq<char>)
    ensures
        forall|i: int| 0 <= i < norm_seq(s).len() ==> is_macro_char(#[trigger] norm_seq(s)[i]),
        norm_seq(norm_seq(s)) == norm_seq(s),
{
    assert forall|i: int| 0 <= i < norm_seq(s).len() implies is_macro_char(
        #[trigger] norm_seq(s)[i],
    ) by {
        lemma_norm_char_idempotent(s[i]);
    }
    assert forall|i: int| 0 <= i < norm_seq(norm_seq(s)).len() implies norm_seq(norm_seq(s))[i]
        == norm_seq(s)[i] by {
        lemma_norm_char_idempotent(s[i]);
    }
    assert(norm_seq(norm_seq(s)) =~= norm_seq(s));
}

} // verus!
