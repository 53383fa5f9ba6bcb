//! Silent, character-safe clipping of untrusted text.

use vstd::prelude::*;
use vstd::std_specs::iter::IteratorSpec;
use vstd::string::StringSliceAdditionalSpecFns;
use vstd::utf8::*;

verus! {

/// The first `limit` characters of `s`, or all of `s` when it has no more
/// than `limit`.
pub open spec fn truncated(s: Seq<char>, limit: nat) -> Seq<char> {
    if s.len() <= limit {
        s
    } else {
        s.subrange(0, limit as int)
    }
}

/// Encoding a concatenation is concatenating the encodings.
pub proof fn lemma_encode_concat(a: Seq<char>, b: Seq<char>)
    ensures
        encode_utf8(a + b) == encode_utf8(a) + encode_utf8(b),
    decreases a.len(),
{
    if a.len() == 0 {
        assert(a + b =~= b);
        assert(encode_utf8(a) + encode_utf8(b) =~= encode_utf8(b));
    } else {
        assert((a + b).drop_first() =~= a.drop_first() + b);
        lemma_encode_concat(a.drop_first(), b);
        assert(encode_utf8(a + b) =~= encode_utf8(a) + encode_utf8(b));
    }
}

/// The end of the encoding of `a` is a character boundary in the encoding
/// of `a + b`.
pub proof fn lemma_prefix_ends_on_boundary(a: Seq<char>, b: Seq<char>)
    ensures
        is_char_boundary(encode_utf8(a + b), encode_utf8(a).len() as int),
    decreases a.len(),
{
    let bytes = encode_utf8(a + b);
    encode_utf8_valid_utf8(a + b);
    if a.len() == 0 {
    } else {
        let rest = a.drop_first();
        assert((a + b).drop_first() =~= rest + b);
        encode_utf8_first_scalar(a + b);
        encode_utf8_first_scalar(a);
        assert(pop_first_scalar(bytes) =~= encode_utf8(rest + b));
        assert(encode_utf8(a).len() == encode_scalar(a[0] as u32).len() + encode_utf8(rest).len());
        lemma_encode_concat(a, b);
        lemma_prefix_ends_on_boundary(rest, b);
    }
}

/// Clipping twice to the same limit is clipping once.
pub proof fn lemma_truncated_idempotent(s: Seq<char>, limit: nat)
    ensures
        truncated(truncated(s, limit), limit) == truncated(s, limit),
{
}

/// Text that fits within the limit is left as it is.
pub proof fn lemma_truncated_fits(s: Seq<char>, limit: nat)
    requires
        s.len() <= limit,
    ensures
        truncated(s, limit) == s,
{
}

/// Clipped text is a prefix of the input, as long as the limit allows and
/// no longer.
pub proof fn lemma_truncated_prefix(s: Seq<char>, limit: nat)
    ensures
        truncated(s, limit).len() == if s.len() <= limit { s.len() } else { limit },
        truncated(s, limit).is_prefix_of(s),
{
}

/// Clipping never splits a character: the encoding of the clipped text is
/// the encoding of the whole text cut at a character boundary.
pub proof fn lemma_truncated_bytes(s: Seq<char>, limit: nat)
    ensures
        ({
            let whole = encode_utf8(s);
            let kept = encode_utf8(truncated(s, limit));
            &&& kept.len() <= whole.len()
            &&& kept == whole.subrange(0, kept.len() as int)
            &&& is_char_boundary(whole, kept.len() as int)
        }),
{
    let head = truncated(s, limit);
    let tail = s.subrange(head.len() as int, s.len() as int);
    assert(s =~= head + tail);
    lemma_encode_concat(head, tail);
    lemma_prefix_ends_on_boundary(head, tail);
    assert(encode_utf8(head) =~= encode_utf8(s).subrange(0, encode_utf8(head).len() as int));
}

/// Appending one character appends its encoding.
proof fn lemma_encode_push(s: Seq<char>, c: char)
    ensures
        encode_utf8(s.push(c)) == encode_utf8(s) + encode_scalar(c as u32),
{
    assert(seq![c].drop_first() =~= Seq::<char>::empty());
    assert(encode_utf8(seq![c]) =~= encode_scalar(c as u32)) by {
        reveal_with_fuel(encode_utf8, 2);
    }
    lemma_encode_concat(s, seq![c]);
    assert(s.push(c) =~= s + seq![c]);
}

/// The encoding of the first `count` characters is the encoding of the
/// whole text cut at a character boundary.
proof fn lemma_encode_take(s: Seq<char>, count: int)
    requires
        0 <= count <= s.len(),
    ensures
        ({
            let whole = encode_utf8(s);
            let kept = encode_utf8(s.take(count));
            &&& kept.len() <= whole.len()
            &&& kept == whole.subrange(0, kept.len() as int)
            &&& is_char_boundary(whole, kept.len() as int)
        }),
{
    lemma_truncated_bytes(s, count as nat);
    assert(truncated(s, count as nat) =~= s.take(count));
}

/// The number of bytes that the UTF-8 encoding of `c` takes.
fn utf8_width(c: char) -> (width: usize)
    ensures
        width == encode_scalar(c as u32).len(),
        1 <= width <= 4,
{
    let scalar: u32 = c as u32;
    if scalar < 0x80 {
        1
    } else if scalar < 0x800 {
        2
    } else if scalar < 0x10000 {
        3
    } else {
        4
    }
}

/// Clips `input` to at most `length` characters (Unicode scalar values, not
/// bytes). Text that already fits comes back unchanged. The walk stops after
/// `length` characters, however long the input is.
pub fn truncate(input: &str, length: usize) -> (out: &str)
    ensures
        out@ == truncated(input@, length as nat),
        out.spec_bytes().len() <= input.spec_bytes().len(),
        out.spec_bytes() == input.spec_bytes().subrange(0, out.spec_bytes().len() as int),
        is_char_boundary(input.spec_bytes(), out.spec_bytes().len() as int),
{
    let total: usize = input.as_bytes().len();
    let mut chars = input.chars();
    let mut taken: usize = 0;
    let mut offset: usize = 0;
    while taken < length
        invariant
            taken <= length,
            taken <= input@.len(),
            total == encode_utf8(input@).len(),
            chars.remaining() == input@.skip(taken as int),
            offset == encode_utf8(input@.take(taken as int)).len(),
        decreases length - taken,
    {
        match chars.next() {
            None => {
                proof {
                    lemma_truncated_bytes(input@, length as nat);
                }
                return input;
            },
            Some(c) => {
                proof {
                    assert(input@.take(taken + 1) =~= input@.take(taken as int).push(c));
                    assert(input@.skip(taken as int).drop_first() =~= input@.skip(taken + 1));
                    lemma_encode_push(input@.take(taken as int), c);
                    lemma_encode_take(input@, taken + 1);
                }
                offset = offset + utf8_width(c);
                taken = taken + 1;
            },
        }
    }
    proof {
        lemma_encode_take(input@, taken as int);
    }
    let (head, _) = input.split_at(offset);
    proof {
        // Equal encodings are encodings of equal text.
        encode_utf8_decode_utf8(head@);
        encode_utf8_decode_utf8(input@.take(taken as int));
        assert(input@.take(taken as int) =~= truncated(input@, length as nat));
        lemma_truncated_bytes(input@, length as nat);
    }
    head
}

} // verus!
