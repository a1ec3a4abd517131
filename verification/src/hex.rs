use vstd::prelude::*;
use crate::text::push_char;

verus! {

/// The lowercase hexadecimal character of the nibble `n` (below 16).
pub open spec fn hex_char(n: nat) -> char
    recommends
        n < 16,
{
    if n < 10 {
        (48 + n) as char
    } else {
        (87 + n) as char
    }
}

/// Each byte of `b` as two lowercase hexadecimal characters, high nibble
/// first: the `{:02x}` notation of each byte, one after the other.
pub open spec fn lower_hex(b: Seq<u8>) -> Seq<char>
    decreases b.len(),
{
    if b.len() == 0 {
        Seq::empty()
    } else {
        lower_hex(b.drop_last()).push(hex_char((b.last() / 16) as nat)).push(
            hex_char((b.last() % 16) as nat),
        )
    }
}

/// The 36-character hyphenated lowercase form of a 16-byte UUID:
/// 8, 4, 4, 4 and 12 hexadecimal characters separated by `-`.
pub open spec fn hyphenated(b: Seq<u8>) -> Seq<char>
    recommends
        b.len() == 16,
{
    lower_hex(b.subrange(0, 4)) + seq!['-'] + lower_hex(b.subrange(4, 6)) + seq!['-'] + lower_hex(
        b.subrange(6, 8),
    ) + seq!['-'] + lower_hex(b.subrange(8, 10)) + seq!['-'] + lower_hex(b.subrange(10, 16))
}

pub proof fn lemma_lower_hex_len(b: Seq<u8>)
    ensures
        lower_hex(b).len() == 2 * b.len(),
    decreases b.len(),
{
    if b.len() > 0 {
        lemma_lower_hex_len(b.drop_last());
    }
}

fn hex_digit(n: u8) -> (c: char)
    requires
        n < 16,
    ensures
        c == hex_char(n as nat),
{
    if n < 10 {
        (n + 48) as char
    } else {
        (n + 87) as char
    }
}

/// Appends the lowercase hexadecimal notation of `b[from..to]` to `s`.
fn push_lower_hex(s: &mut String, b: &[u8], from: usize, to: usize)
    requires
        from <= to <= b@.len(),
    ensures
        final(s)@ == old(s)@ + lower_hex(b@.subrange(from as int, to as int)),
{
    let mut i: usize = from;
    while i < to
        invariant
            from <= i <= to <= b@.len(),
            s@ == old(s)@ + lower_hex(b@.subrange(from as int, i as int)),
        decreases to - i,
    {
        let x = b[i];
        push_char(s, hex_digit(x / 16));
        push_char(s, hex_digit(x % 16));
        proof {
            let next = b@.subrange(from as int, i + 1);
            assert(next.drop_last() =~= b@.subrange(from as int, i as int));
        }
        i = i + 1;
    }
}

/// The lowercase hexadecimal notation of the bytes `b`.
pub fn to_lower_hex(b: &[u8]) -> (r: String)
    ensures
        r@ == lower_hex(b@),
{
    let mut s = String::new();
    push_lower_hex(&mut s, b, 0, b.len());
    proof {
        assert(b@.subrange(0, b@.len() as int) =~= b@);
        assert(s@ =~= lower_hex(b@));
    }
    s
}

/// The hyphenated lowercase form of the UUID whose bytes are `b`, as the
/// UUID's `Display` writes it.
pub fn uuid_to_string(b: &[u8; 16]) -> (r: String)
    ensures
        r@ == hyphenated(b@),
        r@.len() == 36,
{
    let bs = b.as_slice();
    let mut s = String::new();
    push_lower_hex(&mut s, bs, 0, 4);
    push_char(&mut s, '-');
    push_lower_hex(&mut s, bs, 4, 6);
    push_char(&mut s, '-');
    push_lower_hex(&mut s, bs, 6, 8);
    push_char(&mut s, '-');
    push_lower_hex(&mut s, bs, 8, 10);
    push_char(&mut s, '-');
    push_lower_hex(&mut s, bs, 10, 16);
    proof {
        assert(s@ =~= hyphenated(b@));
        lemma_lower_hex_len(b@.subrange(0, 4));
        lemma_lower_hex_len(b@.subrange(4, 6));
        lemma_lower_hex_len(b@.subrange(6, 8));
        lemma_lower_hex_len(b@.subrange(8, 10));
        lemma_lower_hex_len(b@.subrange(10, 16));
    }
    s
}

} // verus!
