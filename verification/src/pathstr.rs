//! Path strings and their composition.
//!
//! Paths are plain UTF-8 strings. Joining a base directory and a relative
//! path inserts a separator unless the base already ends with one; a relative
//! path that is in fact absolute replaces the base outright, and an empty
//! base contributes nothing. The executable code decides those cases by
//! looking at single bytes of the UTF-8 encoding, and the lemmas here connect
//! those bytes back to the character sequences the specifications speak of.

use vstd::prelude::*;

verus! {

use vstd::string::StringSliceAdditionalSpecFns;
use vstd::string::StringExecFns;
use vstd::utf8::encode_utf8;
use vstd::utf8::encode_scalar;
use vstd::utf8::encode_utf8_decode_utf8;

/// The composition of a base directory and a relative path: the relative
/// path alone if it is absolute or the base is empty, otherwise the base and
/// the relative path around a single separator (none added when the base
/// already ends with one).
pub open spec fn path_join(base: Seq<char>, rel: Seq<char>) -> Seq<char> {
    if rel.len() > 0 && rel[0] == '/' {
        rel
    } else if base.len() == 0 {
        rel
    } else if base[base.len() - 1] == '/' {
        base + rel
    } else {
        base + "/"@ + rel
    }
}

/// The UTF-8 encoding of a character sequence is empty exactly when the
/// sequence is.
proof fn lemma_encode_empty(chars: Seq<char>)
    ensures
        encode_utf8(chars).len() == 0 <==> chars.len() == 0,
{
    if chars.len() > 0 {
        assert(encode_scalar(chars[0] as u32).len() > 0);
    }
}

/// The first byte of the UTF-8 encoding is the separator byte exactly when
/// the first character is the separator.
proof fn lemma_first_byte_sep(chars: Seq<char>)
    requires
        chars.len() > 0,
    ensures
        encode_utf8(chars).len() > 0,
        encode_utf8(chars)[0] == 0x2fu8 <==> chars[0] == '/',
{
    let s = chars[0] as u32;
    assert(encode_utf8(chars)[0] == encode_scalar(s)[0]);
    vstd::utf8::char_u32_cast(chars[0], s);
    vstd::utf8::char_u32_cast('/', '/' as u32);
    assert('/' as u32 == 0x2f);
    if s <= 0x7f {
        assert(((s & 0x7f) as u8 == 0x2fu8) <==> s == 0x2f) by (bit_vector)
            requires
                s <= 0x7f,
        ;
    } else {
        assert((0xc0u8 | ((s >> 6) & 0x1f) as u8) != 0x2fu8) by (bit_vector);
        assert((0xe0u8 | ((s >> 12) & 0x0f) as u8) != 0x2fu8) by (bit_vector);
        assert((0xf0u8 | ((s >> 18) & 0x07) as u8) != 0x2fu8) by (bit_vector);
    }
}

/// UTF-8 encoding distributes over concatenation of character sequences.
proof fn lemma_encode_concat(a: Seq<char>, b: Seq<char>)
    ensures
        encode_utf8(a + b) == encode_utf8(a) + encode_utf8(b),
    decreases a.len(),
{
    if a.len() == 0 {
        assert(a + b =~= b);
        assert(encode_utf8(a) + encode_utf8(b) =~= encode_utf8(b));
    } else {
        assert((a + b).drop_first() =~= a.drop_first() + b);
        lemma_encode_concat(a.drop_first(), b);
        assert(encode_utf8(a + b) =~= encode_utf8(a) + encode_utf8(b));
    }
}

/// The last byte of the UTF-8 encoding is the separator byte exactly when
/// the last character is the separator.
proof fn lemma_last_byte_sep(chars: Seq<char>)
    requires
        chars.len() > 0,
    ensures
        encode_utf8(chars).len() > 0,
        encode_utf8(chars).last() == 0x2fu8 <==> chars.last() == '/',
{
    let front = chars.drop_last();
    let last = seq![chars.last()];
    assert(chars =~= front + last);
    lemma_encode_concat(front, last);
    let s = chars.last() as u32;
    reveal_with_fuel(encode_utf8, 2);
    assert(last.drop_first() =~= Seq::<char>::empty());
    assert(last[0] == chars.last());
    assert(encode_utf8(last) =~= encode_scalar(s));
    assert(encode_scalar(s).len() > 0);
    assert(encode_utf8(chars).last() == encode_scalar(s).last());
    vstd::utf8::char_u32_cast(chars.last(), s);
    vstd::utf8::char_u32_cast('/', '/' as u32);
    assert('/' as u32 == 0x2f);
    if s <= 0x7f {
        assert(((s & 0x7f) as u8 == 0x2fu8) <==> s == 0x2f) by (bit_vector)
            requires
                s <= 0x7f,
        ;
    } else {
        assert((0x80u8 | (s & 0x3f) as u8) != 0x2fu8) by (bit_vector);
    }
}

/// Two string slices are equal as character sequences exactly when their
/// UTF-8 encodings are equal as byte sequences.
proof fn lemma_views_eq_iff_bytes_eq(a: &str, b: &str)
    ensures
        a@ == b@ <==> a.spec_bytes() == b.spec_bytes(),
{
    if a.spec_bytes() == b.spec_bytes() {
        encode_utf8_decode_utf8(a@);
        encode_utf8_decode_utf8(b@);
    }
}

/// Whether two string slices hold the same characters.
pub fn str_eq(a: &str, b: &str) -> (r: bool)
    ensures
        r == (a@ == b@),
{
    proof {
        lemma_views_eq_iff_bytes_eq(a, b);
    }
    let ab = a.as_bytes();
    let bb = b.as_bytes();
    if ab.len() != bb.len() {
        return false;
    }
    let n = ab.len();
    let mut i: usize = 0;
    while i < n
        invariant
            n == ab.len() == bb.len(),
            i <= n,
            ab@ == a.spec_bytes(),
            bb@ == b.spec_bytes(),
            forall|j: int| 0 <= j < i ==> ab@[j] == bb@[j],
        decreases n - i,
    {
        if ab[i] != bb[i] {
            return false;
        }
        i = i + 1;
    }
    proof {
        assert(ab@ =~= bb@);
    }
    true
}

/// Composes a base directory and a relative path into one path string.
pub fn join_path(base: &str, rel: &str) -> (r: String)
    ensures
        r@ == path_join(base@, rel@),
{
    let rb = rel.as_bytes();
    if rb.len() > 0 {
        proof {
            lemma_encode_empty(rel@);
            lemma_first_byte_sep(rel@);
        }
        if rb[0] == 0x2f {
            return rel.to_owned();
        }
    } else {
        proof {
            lemma_encode_empty(rel@);
        }
    }
    let bb = base.as_bytes();
    if bb.len() == 0 {
        proof {
            lemma_encode_empty(base@);
        }
        return rel.to_owned();
    }
    proof {
        lemma_encode_empty(base@);
        lemma_last_byte_sep(base@);
    }
    let joined = base.to_owned();
    if bb[bb.len() - 1] == 0x2f {
        joined.concat(rel)
    } else {
        joined.concat("/").concat(rel)
    }
}

} // verus!
