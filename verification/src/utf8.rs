//! Writing one character as UTF-8 into a buffer, and what follows from the
//! definition of the encoding for strings that are put together.

use vstd::prelude::*;
use vstd::utf8::encode_scalar;
use vstd::utf8::encode_utf8 as encoding;
use vstd::utf8::has_width_1_encoding;
use vstd::utf8::has_width_2_encoding;
use vstd::utf8::has_width_3_encoding;
use vstd::utf8::has_width_4_encoding;

verus! {

/// Error value that is returned when the encoding of a character does not
/// fit the room that is left. It carries nothing.
#[derive(Debug)]
pub struct EncodeUtf8Error {
    _priv: (),
}

/// The number of bytes that the UTF-8 encoding of `c` has.
pub open spec fn spec_len_utf8(c: char) -> nat {
    encode_scalar(c as u32).len()
}

/// The number of bytes that the UTF-8 encoding of `c` has: from 1 to 4.
pub fn len_utf8(c: char) -> (n: usize)
    ensures
        n == spec_len_utf8(c),
        1 <= n <= 4,
{
    let code = c as u32;
    if code <= 0x7F {
        1
    } else if code <= 0x7FF {
        2
    } else if code <= 0xFFFF {
        proof {
            vstd::utf8::char_is_scalar(c);
        }
        3
    } else {
        4
    }
}

/// Writes the UTF-8 encoding of `c` into `buf` from position `at` on, if the
/// buffer has that many bytes left from there, and says how many bytes that
/// were. If it has not, the buffer is left as it is.
pub fn encode_utf8<const CAP: usize>(c: char, buf: &mut [u8; CAP], at: usize) -> (r: Result<
    usize,
    EncodeUtf8Error,
>)
    requires
        at <= CAP,
    ensures
        spec_len_utf8(c) <= CAP - at ==> r == Ok::<usize, EncodeUtf8Error>(
            spec_len_utf8(c) as usize,
        ) && final(buf)@ == old(buf)@.subrange(0, at as int) + encode_scalar(c as u32) + old(
            buf,
        )@.subrange(at + spec_len_utf8(c), CAP as int),
        spec_len_utf8(c) > CAP - at ==> r is Err && final(buf)@ == old(buf)@,
        final(buf)@.take(at as int) == old(buf)@.take(at as int),
    no_unwind
{
    let code = c as u32;
    let room = CAP - at;
    proof {
        vstd::utf8::char_is_scalar(c);
    }
    if code <= 0x7F && room >= 1 {
        assert((code & 0x7F) <= 0x7F) by (bit_vector);
        buf[at] = (code & 0x7F) as u8;
        assert(buf@ =~= old(buf)@.subrange(0, at as int) + encode_scalar(c as u32) + old(
            buf,
        )@.subrange(at + 1, CAP as int));
        assert(buf@.take(at as int) =~= old(buf)@.take(at as int));
        Ok(1)
    } else if 0x80 <= code && code <= 0x7FF && room >= 2 {
        assert(((code >> 6) & 0x1F) <= 0x1F) by (bit_vector);
        assert((code & 0x3F) <= 0x3F) by (bit_vector);
        buf[at] = 0xC0 | ((code >> 6) & 0x1F) as u8;
        buf[at + 1] = 0x80 | (code & 0x3F) as u8;
        assert(buf@ =~= old(buf)@.subrange(0, at as int) + encode_scalar(c as u32) + old(
            buf,
        )@.subrange(at + 2, CAP as int));
        assert(buf@.take(at as int) =~= old(buf)@.take(at as int));
        Ok(2)
    } else if 0x800 <= code && code <= 0xFFFF && room >= 3 {
        assert(((code >> 12) & 0x0F) <= 0x0F) by (bit_vector);
        assert(((code >> 6) & 0x3F) <= 0x3F) by (bit_vector);
        assert((code & 0x3F) <= 0x3F) by (bit_vector);
        buf[at] = 0xE0 | ((code >> 12) & 0x0F) as u8;
        buf[at + 1] = 0x80 | ((code >> 6) & 0x3F) as u8;
        buf[at + 2] = 0x80 | (code & 0x3F) as u8;
        assert(buf@ =~= old(buf)@.subrange(0, at as int) + encode_scalar(c as u32) + old(
            buf,
        )@.subrange(at + 3, CAP as int));
        assert(buf@.take(at as int) =~= old(buf)@.take(at as int));
        Ok(3)
    } else if 0x10000 <= code && room >= 4 {
        assert(((code >> 18) & 0x7) <= 0x7) by (bit_vector);
        assert(((code >> 12) & 0x3F) <= 0x3F) by (bit_vector);
        assert(((code >> 6) & 0x3F) <= 0x3F) by (bit_vector);
        assert((code & 0x3F) <= 0x3F) by (bit_vector);
        buf[at] = 0xF0 | ((code >> 18) & 0x7) as u8;
        buf[at + 1] = 0x80 | ((code >> 12) & 0x3F) as u8;
        buf[at + 2] = 0x80 | ((code >> 6) & 0x3F) as u8;
        buf[at + 3] = 0x80 | (code & 0x3F) as u8;
        assert(buf@ =~= old(buf)@.subrange(0, at as int) + encode_scalar(c as u32) + old(
            buf,
        )@.subrange(at + 4, CAP as int));
        assert(buf@.take(at as int) =~= old(buf)@.take(at as int));
        Ok(4)
    } else {
        Err(EncodeUtf8Error { _priv: () })
    }
}

/// The encoding of a sequence of characters that is put together from two
/// is put together from their encodings.
pub proof fn lemma_encoding_concat(a: Seq<char>, b: Seq<char>)
    ensures
        encoding(a + b) == encoding(a) + encoding(b),
    decreases a.len(),
{
    if a.len() == 0 {
        assert(a + b =~= b);
        assert(encoding(a) + encoding(b) =~= encoding(b));
    } else {
        lemma_encoding_concat(a.drop_first(), b);
        assert((a + b).drop_first() =~= a.drop_first() + b);
        assert((a + b)[0] == a[0]);
        assert(encoding(a + b) =~= encoding(a) + encoding(b));
    }
}

/// The encoding of one character as a sequence is the encoding of the
/// character.
pub proof fn lemma_encoding_single(c: char)
    ensures
        encoding(seq![c]) == encode_scalar(c as u32),
{
    assert(seq![c].drop_first() =~= Seq::<char>::empty());
    assert(encoding(seq![c]) =~= encode_scalar(c as u32) + encoding(Seq::<char>::empty()));
    assert(encoding(seq![c]) =~= encode_scalar(c as u32));
}

/// The encoding of `n` NUL characters is `n` zero bytes.
pub proof fn lemma_encoding_nul(n: nat)
    ensures
        encoding(Seq::new(n, |i: int| '\0')) == Seq::new(n, |i: int| 0u8),
    decreases n,
{
    let chars = Seq::new(n, |i: int| '\0');
    if n == 0 {
        assert(encoding(chars) =~= Seq::new(n, |i: int| 0u8));
    } else {
        let fewer = Seq::new((n - 1) as nat, |i: int| '\0');
        lemma_encoding_nul((n - 1) as nat);
        lemma_encoding_single('\0');
        lemma_encoding_concat(fewer, seq!['\0']);
        assert(chars =~= fewer + seq!['\0']);
        assert(0u32 & 0x7F == 0) by (bit_vector);
        assert(encode_scalar('\0' as u32) =~= seq![0u8]);
        assert(encoding(chars) =~= Seq::new(n, |i: int| 0u8));
    }
}

} // verus!
