use vstd::prelude::*;
use vstd::utf8::encode_utf8;

verus! {

/// The UTF-8 bytes of a character sequence, as `str::as_bytes` gives them.
pub open spec fn utf8(s: Seq<char>) -> Seq<u8> {
    encode_utf8(s)
}

/// The length in bytes of the UTF-8 encoding of a character sequence (what `str::len` returns).
pub open spec fn byte_len(s: Seq<char>) -> nat {
    encode_utf8(s).len()
}

/// The eight big-endian bytes of `x`, as `u64::to_be_bytes` lays them out.
pub open spec fn u64_be(x: u64) -> Seq<u8> {
    seq![
        ((x / 0x0100_0000_0000_0000) % 0x100) as u8,
        ((x / 0x0001_0000_0000_0000) % 0x100) as u8,
        ((x / 0x0000_0100_0000_0000) % 0x100) as u8,
        ((x / 0x0000_0001_0000_0000) % 0x100) as u8,
        ((x / 0x0000_0000_0100_0000) % 0x100) as u8,
        ((x / 0x0000_0000_0001_0000) % 0x100) as u8,
        ((x / 0x0000_0000_0000_0100) % 0x100) as u8,
        (x % 0x100) as u8,
    ]
}

/// No UTF-8 encoding is longer than four bytes per character.
pub proof fn lemma_byte_len_bound(s: Seq<char>)
    ensures
        byte_len(s) <= 4 * s.len(),
    decreases s.len(),
{
    if s.len() > 0 {
        lemma_byte_len_bound(s.drop_first());
    }
}

/// Appends the eight big-endian bytes of `x` to `out`.
pub fn push_u64_be(out: &mut Vec<u8>, x: u64)
    ensures
        final(out)@ == old(out)@ + u64_be(x),
{
    out.push(((x / 0x0100_0000_0000_0000) % 0x100) as u8);
    out.push(((x / 0x0001_0000_0000_0000) % 0x100) as u8);
    out.push(((x / 0x0000_0100_0000_0000) % 0x100) as u8);
    out.push(((x / 0x0000_0001_0000_0000) % 0x100) as u8);
    out.push(((x / 0x0000_0000_0100_0000) % 0x100) as u8);
    out.push(((x / 0x0000_0000_0001_0000) % 0x100) as u8);
    out.push(((x / 0x0000_0000_0000_0100) % 0x100) as u8);
    out.push((x % 0x100) as u8);
    assert(final(out)@ =~= old(out)@ + u64_be(x));
}

/// Appends every byte of `bytes` to `out`.
pub fn push_bytes(out: &mut Vec<u8>, bytes: &[u8])
    ensures
        final(out)@ == old(out)@ + bytes@,
{
    let ghost start = out@;
    let n = bytes.len();
    let mut i: usize = 0;
    while i < n
        invariant
            n == bytes@.len(),
            i <= n,
            out@ == start + bytes@.subrange(0, i as int),
        decreases n - i,
    {
        out.push(bytes[i]);
        i = i + 1;
        assert(out@ =~= start + bytes@.subrange(0, i as int));
    }
    assert(bytes@.subrange(0, n as int) =~= bytes@);
}

/// Two values with the same big-endian bytes are equal.
pub proof fn lemma_u64_be_injective(x: u64, y: u64)
    requires
        u64_be(x) == u64_be(y),
    ensures
        x == y,
{
    assert(u64_be(x)[0] == u64_be(y)[0]);
    assert(u64_be(x)[1] == u64_be(y)[1]);
    assert(u64_be(x)[2] == u64_be(y)[2]);
    assert(u64_be(x)[3] == u64_be(y)[3]);
    assert(u64_be(x)[4] == u64_be(y)[4]);
    assert(u64_be(x)[5] == u64_be(y)[5]);
    assert(u64_be(x)[6] == u64_be(y)[6]);
    assert(u64_be(x)[7] == u64_be(y)[7]);
    assert(x == y) by (bit_vector)
        requires
            (x / 0x0100_0000_0000_0000) % 0x100 == (y / 0x0100_0000_0000_0000) % 0x100,
            (x / 0x0001_0000_0000_0000) % 0x100 == (y / 0x0001_0000_0000_0000) % 0x100,
            (x / 0x0000_0100_0000_0000) % 0x100 == (y / 0x0000_0100_0000_0000) % 0x100,
            (x / 0x0000_0001_0000_0000) % 0x100 == (y / 0x0000_0001_0000_0000) % 0x100,
            (x / 0x0000_0000_0100_0000) % 0x100 == (y / 0x0000_0000_0100_0000) % 0x100,
            (x / 0x0000_0000_0001_0000) % 0x100 == (y / 0x0000_0000_0001_0000) % 0x100,
            (x / 0x0000_0000_0000_0100) % 0x100 == (y / 0x0000_0000_0000_0100) % 0x100,
            x % 0x100 == y % 0x100,
    ;
}


/// The sixteen lowercase hexadecimal digits.
pub open spec fn hex_alphabet() -> Seq<char> {
    seq!['0', '1', '2', '3', '4', '5', '6', '7', '8', '9', 'a', 'b', 'c', 'd', 'e', 'f']
}

/// Lowercase hexadecimal text of a byte sequence: two digits per byte, high nibble first.
pub open spec fn hex_lower(bytes: Seq<u8>) -> Seq<char>
    decreases bytes.len(),
{
    if bytes.len() == 0 {
        Seq::empty()
    } else {
        seq![hex_alphabet()[(bytes[0] / 16) as int], hex_alphabet()[(bytes[0] % 16) as int]] + hex_lower(
            bytes.drop_first(),
        )
    }
}

/// Hex text has two characters per byte.
pub proof fn lemma_hex_lower_len(bytes: Seq<u8>)
    ensures
        hex_lower(bytes).len() == 2 * bytes.len(),
    decreases bytes.len(),
{
    if bytes.len() > 0 {
        lemma_hex_lower_len(bytes.drop_first());
    }
}

proof fn lemma_hex_digit_injective(a: int, b: int)
    requires
        0 <= a < 16,
        0 <= b < 16,
        hex_alphabet()[a] == hex_alphabet()[b],
    ensures
        a == b,
{
    let s = hex_alphabet();
    assert(s[0] == '0' && s[1] == '1' && s[2] == '2' && s[3] == '3' && s[4] == '4' && s[5] == '5'
        && s[6] == '6' && s[7] == '7' && s[8] == '8' && s[9] == '9' && s[10] == 'a' && s[11] == 'b'
        && s[12] == 'c' && s[13] == 'd' && s[14] == 'e' && s[15] == 'f');
}

/// Distinct byte sequences have distinct hex text.
pub proof fn lemma_hex_lower_injective(a: Seq<u8>, b: Seq<u8>)
    requires
        hex_lower(a) == hex_lower(b),
    ensures
        a == b,
    decreases a.len(),
{
    lemma_hex_lower_len(a);
    lemma_hex_lower_len(b);
    if a.len() > 0 {
        let ha = hex_lower(a);
        let hb = hex_lower(b);
        assert(ha[0] == hb[0]);
        assert(ha[1] == hb[1]);
        lemma_hex_digit_injective((a[0] / 16) as int, (b[0] / 16) as int);
        lemma_hex_digit_injective((a[0] % 16) as int, (b[0] % 16) as int);
        assert(a[0] == b[0]);
        assert(hex_lower(a.drop_first()) =~= ha.subrange(2, ha.len() as int));
        assert(hex_lower(b.drop_first()) =~= hb.subrange(2, hb.len() as int));
        lemma_hex_lower_injective(a.drop_first(), b.drop_first());
        assert(a =~= b) by {
            assert forall|i: int| 0 <= i < a.len() implies a[i] == b[i] by {
                if i > 0 {
                    assert(a[i] == a.drop_first()[i - 1]);
                    assert(b[i] == b.drop_first()[i - 1]);
                }
            }
        }
    } else {
        assert(a =~= b);
    }
}

/// Distinct character sequences have distinct UTF-8 encodings.
pub proof fn lemma_utf8_injective(a: Seq<char>, b: Seq<char>)
    requires
        utf8(a) == utf8(b),
    ensures
        a == b,
{
    vstd::utf8::encode_utf8_decode_utf8(a);
    vstd::utf8::encode_utf8_decode_utf8(b);
}

} // verus!
