//! Canonical form of platform device identifiers.
use vstd::prelude::*;
use vstd::string::StrSliceExecFns;

use crate::text::push_char;

verus! {

/// ASCII lower-casing of one character; every other character is kept.
pub open spec fn lower_char(c: char) -> char {
    if 'A' <= c && c <= 'Z' {
        ((c as u32) + 32) as char
    } else {
        c
    }
}

/// One character of the canonical form: lower case, `_` read as `:`.
pub open spec fn canon_char(c: char) -> char {
    if c == '_' {
        ':'
    } else {
        lower_char(c)
    }
}

/// The canonical form of an identifier, character by character.
pub open spec fn normalized(s: Seq<char>) -> Seq<char> {
    s.map_values(|c: char| canon_char(c))
}

/// Lower-cases one character in the ASCII range and keeps any other.
pub fn to_lower_ascii(c: char) -> (r: char)
    ensures
        r == lower_char(c),
{
    if 'A' <= c && c <= 'Z' {
        ((c as u8) + 32) as char
    } else {
        c
    }
}

/// Canonicalises a platform identifier: lower case, every `_` replaced by `:`.
///
/// `"hci0/dev_A1_B2"` and `"HCI0/DEV_A1_B2"` both become `"hci0/dev:a1:b2"`,
/// which makes a substring test between identifiers of either platform valid.
pub fn normalize(raw: &str) -> (r: String)
    ensures
        r@ == normalized(raw@),
{
    let n = raw.unicode_len();
    let mut out = String::new();
    let mut i: usize = 0;
    while i < n
        invariant
            n == raw@.len(),
            i <= n,
            out@ == normalized(raw@.subrange(0, i as int)),
        decreases n - i,
    {
        let c = raw.get_char(i);
        let d = if c == '_' {
            ':'
        } else {
            to_lower_ascii(c)
        };
        push_char(&mut out, d);
        proof {
            assert(raw@.subrange(0, i + 1) == raw@.subrange(0, i as int).push(c));
        }
        i = i + 1;
    }
    proof {
        assert(raw@.subrange(0, n as int) == raw@);
    }
    out
}

/// Normalising twice gives what normalising once gives.
pub proof fn lemma_normalize_idempotent(s: Seq<char>)
    ensures
        normalized(normalized(s)) == normalized(s),
{
    assert forall|i: int| 0 <= i < s.len() implies #[trigger] canon_char(canon_char(s[i]))
        == canon_char(s[i]) by {
        lemma_canon_char_idempotent(s[i]);
    }
    assert(normalized(normalized(s)) =~= normalized(s));
}

proof fn lemma_canon_char_idempotent(c: char)
    ensures
        canon_char(canon_char(c)) == canon_char(c),
{
    if 'A' <= c && c <= 'Z' {
        let u = (c as u32) + 32;
        assert(97 <= u <= 122);
        vstd::utf8::char_u32_cast(c, c as u32);
    }
}

/// Identifiers that differ only in ASCII letter case, or in `_` against
/// `:`, have the same canonical form.
pub proof fn lemma_normalize_case_insensitive(s: Seq<char>, t: Seq<char>)
    requires
        s.len() == t.len(),
        forall|i: int| 0 <= i < s.len() ==> #[trigger] canon_char(s[i]) == canon_char(t[i]),
    ensures
        normalized(s) == normalized(t),
{
    assert(normalized(s) =~= normalized(t));
}

} // verus!
