//! Percent-encoding of the search query for the outbound request URL:
//! the query's UTF-8 bytes, with unreserved bytes kept as they are and every
//! other byte written as `%` followed by two uppercase hexadecimal digits.

use vstd::prelude::*;
use vstd::string::{StrSliceExecFns, StringExecFns};
use vstd::utf8::encode_utf8;

verus! {

/// The unreserved bytes, which percent-encoding keeps as they are: the ASCII
/// letters and digits, `-`, `.`, `_` and `~`.
pub open spec fn is_unreserved_byte(b: u8) -> bool {
    ||| 0x41 <= b <= 0x5a
    ||| 0x61 <= b <= 0x7a
    ||| 0x30 <= b <= 0x39
    ||| b == 0x2d
    ||| b == 0x2e
    ||| b == 0x5f
    ||| b == 0x7e
}

/// The uppercase hexadecimal digit for a value below sixteen.
pub open spec fn hex_digit(n: u8) -> char
    recommends
        n < 16,
{
    if n == 0 {
        '0'
    } else if n == 1 {
        '1'
    } else if n == 2 {
        '2'
    } else if n == 3 {
        '3'
    } else if n == 4 {
        '4'
    } else if n == 5 {
        '5'
    } else if n == 6 {
        '6'
    } else if n == 7 {
        '7'
    } else if n == 8 {
        '8'
    } else if n == 9 {
        '9'
    } else if n == 10 {
        'A'
    } else if n == 11 {
        'B'
    } else if n == 12 {
        'C'
    } else if n == 13 {
        'D'
    } else if n == 14 {
        'E'
    } else {
        'F'
    }
}

/// The encoding of one byte: kept if unreserved, `%XX` otherwise.
pub open spec fn encode_byte(b: u8) -> Seq<char> {
    if is_unreserved_byte(b) {
        seq![b as char]
    } else {
        seq!['%', hex_digit(b / 16), hex_digit(b % 16)]
    }
}

/// The encoding of a byte sequence: each byte's encoding, in order.
pub open spec fn encode_bytes(bytes: Seq<u8>) -> Seq<char>
    decreases bytes.len(),
{
    if bytes.len() == 0 {
        Seq::empty()
    } else {
        encode_byte(bytes[0]) + encode_bytes(bytes.drop_first())
    }
}

/// The percent-encoded form of a query string: the encoding of its UTF-8
/// bytes.
pub open spec fn spec_query_encoded(query: Seq<char>) -> Seq<char> {
    encode_bytes(encode_utf8(query))
}

/// Encoding a byte sequence one byte at a time agrees with encoding it
/// whole: appending a byte appends exactly that byte's encoding.
pub proof fn lemma_encode_bytes_push(bytes: Seq<u8>, b: u8)
    ensures
        encode_bytes(bytes.push(b)) == encode_bytes(bytes) + encode_byte(b),
    decreases bytes.len(),
{
    assert(encode_bytes(bytes.push(b)) == encode_byte(bytes.push(b)[0]) + encode_bytes(
        bytes.push(b).drop_first(),
    ));
    if bytes.len() == 0 {
        assert(bytes.push(b)[0] == b);
        assert(bytes.push(b).drop_first() =~= Seq::<u8>::empty());
        assert(encode_bytes(Seq::<u8>::empty()) == Seq::<char>::empty());
        assert(encode_bytes(bytes.push(b)) =~= encode_byte(b));
        assert(encode_bytes(bytes) == Seq::<char>::empty());
        assert(encode_bytes(bytes) + encode_byte(b) =~= encode_byte(b));
    } else {
        assert(bytes.push(b)[0] == bytes[0]);
        assert(bytes.push(b).drop_first() =~= bytes.drop_first().push(b));
        lemma_encode_bytes_push(bytes.drop_first(), b);
        assert(encode_bytes(bytes) == encode_byte(bytes[0]) + encode_bytes(bytes.drop_first()));
        assert(encode_bytes(bytes.push(b)) =~= encode_bytes(bytes) + encode_byte(b));
    }
}

/// Appends one uppercase hexadecimal digit to `out`.
fn append_hex_digit(out: &mut String, n: u8)
    requires
        n < 16,
    ensures
        final(out)@ == old(out)@ + seq![hex_digit(n)],
{
    proof {
        reveal_strlit("0123456789ABCDEF");
    }
    let digits = "0123456789ABCDEF";
    let d = digits.substring_ascii(n as usize, n as usize + 1);
    proof {
        assert(d@ =~= seq![hex_digit(n)]);
    }
    out.append(d);
    proof {
        assert(out@ =~= old(out)@ + seq![hex_digit(n)]);
    }
}

/// Appends one unreserved byte to `out`, as the character it stands for.
fn append_unreserved(out: &mut String, b: u8)
    requires
        is_unreserved_byte(b),
    ensures
        final(out)@ == old(out)@ + seq![b as char],
{
    proof {
        reveal_strlit("ABCDEFGHIJKLMNOPQRSTUVWXYZabcdefghijklmnopqrstuvwxyz0123456789-._~");
    }
    let alphabet = "ABCDEFGHIJKLMNOPQRSTUVWXYZabcdefghijklmnopqrstuvwxyz0123456789-._~";
    let idx: usize = if 0x41 <= b && b <= 0x5a {
        (b - 0x41) as usize
    } else if 0x61 <= b && b <= 0x7a {
        (b - 0x61) as usize + 26
    } else if 0x30 <= b && b <= 0x39 {
        (b - 0x30) as usize + 52
    } else if b == 0x2d {
        62
    } else if b == 0x2e {
        63
    } else if b == 0x5f {
        64
    } else {
        65
    };
    let d = alphabet.substring_ascii(idx, idx + 1);
    proof {
        assert(d@ =~= seq![b as char]);
    }
    out.append(d);
    proof {
        assert(out@ =~= old(out)@ + seq![b as char]);
    }
}

/// Appends the percent-encoded form of `query` to `out`.
pub fn append_query_encoded(out: &mut String, query: &str)
    ensures
        final(out)@ == old(out)@ + spec_query_encoded(query@),
{
    let bytes = query.as_bytes();
    let mut i: usize = 0;
    proof {
        assert(out@ =~= old(out)@ + encode_bytes(bytes@.take(0)));
    }
    while i < bytes.len()
        invariant
            i <= bytes@.len(),
            bytes@ == encode_utf8(query@),
            out@ == old(out)@ + encode_bytes(bytes@.take(i as int)),
        decreases bytes@.len() - i,
    {
        let b: u8 = bytes[i];
        if (0x41 <= b && b <= 0x5a) || (0x61 <= b && b <= 0x7a) || (0x30 <= b && b <= 0x39)
            || b == 0x2d || b == 0x2e || b == 0x5f || b == 0x7e {
            append_unreserved(out, b);
        } else {
            proof {
                reveal_strlit("%");
            }
            out.append("%");
            append_hex_digit(out, b / 16);
            append_hex_digit(out, b % 16);
        }
        proof {
            assert(bytes@.take(i as int + 1) =~= bytes@.take(i as int).push(bytes@[i as int]));
            lemma_encode_bytes_push(bytes@.take(i as int), bytes@[i as int]);
            assert(out@ =~= old(out)@ + encode_bytes(bytes@.take(i as int + 1)));
        }
        i = i + 1;
    }
    proof {
        assert(bytes@.take(bytes@.len() as int) =~= bytes@);
    }
}

} // verus!
