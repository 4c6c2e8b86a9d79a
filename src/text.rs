//! How text turns into the bytes that cross the boundary.
use vstd::prelude::*;
use vstd::utf8::*;

use crate::c_string::{first_nul, lemma_first_nul, nul_free, truncate_at_nul};

verus! {

/// The byte that UTF-8 encodes for `c` is nul only for the nul character.
proof fn lemma_width_1_nul(c: u32)
    by (bit_vector)
    requires
        c <= 0x7f,
    ensures
        ((c & 0x7f) as u8 == 0) <==> c == 0,
{
}

/// A byte with any of the bits of `m` set is not nul.
proof fn lemma_or_not_nul(x: u8, m: u8)
    by (bit_vector)
    requires
        m != 0,
    ensures
        (m | x) != 0,
{
}

/// The UTF-8 encoding of a character holds a nul byte only where it is the nul character.
proof fn lemma_scalar_nul_free(c: char)
    ensures
        nul_free(encode_scalar(c as u32)) <==> c != '\0',
{
    char_is_scalar(c);
    let s = c as u32;
    let e = encode_scalar(s);
    if has_width_1_encoding(s) {
        lemma_width_1_nul(s);
        assert(e[0] == (s & 0x7f) as u8);
        assert(c == '\0' <==> s == 0);
    } else if has_width_2_encoding(s) {
        lemma_or_not_nul(((s >> 6) & 0x1f) as u8, 0xc0);
        lemma_or_not_nul((s & 0x3f) as u8, 0x80);
        assert(nul_free(e));
    } else if has_width_3_encoding(s) {
        lemma_or_not_nul(((s >> 12) & 0x0f) as u8, 0xe0);
        lemma_or_not_nul(((s >> 6) & 0x3f) as u8, 0x80);
        lemma_or_not_nul((s & 0x3f) as u8, 0x80);
        assert(nul_free(e));
    } else {
        lemma_or_not_nul(((s >> 18) & 0x7) as u8, 0xf0);
        lemma_or_not_nul(((s >> 12) & 0x3f) as u8, 0x80);
        lemma_or_not_nul(((s >> 6) & 0x3f) as u8, 0x80);
        lemma_or_not_nul((s & 0x3f) as u8, 0x80);
        assert(nul_free(e));
    }
}

/// The UTF-8 bytes of text hold a nul byte exactly where the text holds the nul character.
pub proof fn lemma_text_nul_free(t: Seq<char>)
    ensures
        nul_free(encode_utf8(t)) <==> !t.contains('\0'),
    decreases t.len(),
{
    if t.len() > 0 {
        let head = encode_scalar(t[0] as u32);
        let rest = encode_utf8(t.drop_first());
        lemma_scalar_nul_free(t[0]);
        lemma_text_nul_free(t.drop_first());
        assert(encode_utf8(t) == head + rest);
        if nul_free(head) && nul_free(rest) {
            assert forall|i: int| 0 <= i < (head + rest).len() implies (head + rest)[i] != 0 by {
                if i >= head.len() {
                    assert((head + rest)[i] == rest[i - head.len()]);
                }
            }
        }
        if nul_free(head + rest) {
            assert forall|i: int| 0 <= i < rest.len() implies rest[i] != 0 by {
                assert((head + rest)[i + head.len()] == rest[i]);
            }
            assert forall|i: int| 0 <= i < head.len() implies head[i] != 0 by {
                assert((head + rest)[i] == head[i]);
            }
        }
        if t.contains('\0') {
            let k = choose|k: int| 0 <= k < t.len() && t[k] == '\0';
            if k > 0 {
                assert(t.drop_first()[k - 1] == '\0');
            }
        }
        if t.drop_first().contains('\0') {
            let k = choose|k: int| 0 <= k < t.drop_first().len() && t.drop_first()[k] == '\0';
            assert(t[k + 1] == '\0');
        }
    }
}

/// A nul-free head moves the first nul of what follows it along by its length.
proof fn lemma_first_nul_after(h: Seq<u8>, r: Seq<u8>)
    requires
        nul_free(h),
    ensures
        first_nul(h + r) == h.len() + first_nul(r),
    decreases h.len(),
{
    if h.len() == 0 {
        assert(h + r == r);
    } else {
        assert((h + r)[0] == h[0]);
        assert((h + r).drop_first() == h.drop_first() + r);
        assert forall|i: int| 0 <= i < h.drop_first().len() implies h.drop_first()[i] != 0 by {
            assert(h.drop_first()[i] == h[i + 1]);
        }
        lemma_first_nul_after(h.drop_first(), r);
    }
}

/// Cutting the UTF-8 bytes of text at their first nul keeps exactly the encoding of the
/// characters before the first nul character.
pub proof fn lemma_text_cut(t: Seq<char>, k: int)
    requires
        0 <= k < t.len(),
        t[k] == '\0',
        !t.take(k).contains('\0'),
    ensures
        truncate_at_nul(encode_utf8(t)) == encode_utf8(t.take(k)),
    decreases k,
{
    let h = encode_scalar(t[0] as u32);
    let rest = t.drop_first();
    assert(encode_utf8(t) == h + encode_utf8(rest));
    if k == 0 {
        assert(t[0] as u32 == 0);
        lemma_width_1_nul(0);
        assert(h[0] == 0);
        assert((h + encode_utf8(rest))[0] == h[0]);
        assert(t.take(0) == Seq::<char>::empty());
        assert(encode_utf8(t).take(0) == Seq::<u8>::empty());
    } else {
        assert(t.take(k)[0] == t[0]);
        lemma_scalar_nul_free(t[0]);
        assert(rest.take(k - 1) == t.take(k).drop_first());
        let before = rest.take(k - 1);
        if before.contains('\0') {
            let j = choose|j: int| 0 <= j < before.len() && #[trigger] before[j] == '\0';
            assert(t.take(k)[j + 1] == '\0');
        }
        assert(rest[k - 1] == '\0');
        lemma_text_cut(rest, k - 1);
        let r = encode_utf8(rest);
        lemma_first_nul_after(h, r);
        assert(encode_utf8(t.take(k)) == h + encode_utf8(rest.take(k - 1)));
        lemma_first_nul(r);
        assert((h + r).take(h.len() + first_nul(r) as int) =~= h + r.take(first_nul(r) as int));
    }
}

} // verus!
