//! Verified building blocks for the canonical textual rendering of records:
//! decimal numbers and uppercase hexadecimal bytes, with their spec-level
//! counterparts.

use vstd::prelude::*;
use vstd::string::StringExecFns;

verus! {

/// The decimal digit character for a value below ten.
pub open spec fn spec_dec_digit(d: nat) -> char
    recommends
        d < 10,
{
    if d == 0 {
        '0'
    } else if d == 1 {
        '1'
    } else if d == 2 {
        '2'
    } else if d == 3 {
        '3'
    } else if d == 4 {
        '4'
    } else if d == 5 {
        '5'
    } else if d == 6 {
        '6'
    } else if d == 7 {
        '7'
    } else if d == 8 {
        '8'
    } else {
        '9'
    }
}

/// The decimal rendering of a natural number, most significant digit first,
/// without leading zeroes.
pub open spec fn spec_dec(n: nat) -> Seq<char>
    decreases n,
{
    if n < 10 {
        seq![spec_dec_digit(n)]
    } else {
        spec_dec(n / 10) + seq![spec_dec_digit(n % 10)]
    }
}

/// The uppercase hexadecimal digit character for a value below sixteen.
pub open spec fn spec_hex_digit(d: nat) -> char
    recommends
        d < 16,
{
    if d == 0 {
        '0'
    } else if d == 1 {
        '1'
    } else if d == 2 {
        '2'
    } else if d == 3 {
        '3'
    } else if d == 4 {
        '4'
    } else if d == 5 {
        '5'
    } else if d == 6 {
        '6'
    } else if d == 7 {
        '7'
    } else if d == 8 {
        '8'
    } else if d == 9 {
        '9'
    } else if d == 10 {
        'A'
    } else if d == 11 {
        'B'
    } else if d == 12 {
        'C'
    } else if d == 13 {
        'D'
    } else if d == 14 {
        'E'
    } else {
        'F'
    }
}

/// A byte as exactly two uppercase hexadecimal digits.
pub open spec fn spec_hex_byte_padded(b: u8) -> Seq<char> {
    seq![spec_hex_digit((b / 16) as nat), spec_hex_digit((b % 16) as nat)]
}

/// A byte as one or two uppercase hexadecimal digits, without a leading zero.
pub open spec fn spec_hex_byte_unpadded(b: u8) -> Seq<char> {
    if b < 16 {
        seq![spec_hex_digit(b as nat)]
    } else {
        spec_hex_byte_padded(b)
    }
}

/// A byte sequence as uppercase hexadecimal, two digits per byte.
pub open spec fn spec_hex_padded(s: Seq<u8>) -> Seq<char>
    decreases s.len(),
{
    if s.len() == 0 {
        seq![]
    } else {
        spec_hex_byte_padded(s[0]) + spec_hex_padded(s.drop_first())
    }
}

/// A byte sequence as uppercase hexadecimal, one or two digits per byte.
pub open spec fn spec_hex_unpadded(s: Seq<u8>) -> Seq<char>
    decreases s.len(),
{
    if s.len() == 0 {
        seq![]
    } else {
        spec_hex_byte_unpadded(s[0]) + spec_hex_unpadded(s.drop_first())
    }
}

/// Extending the byte sequence by one byte appends that byte's two digits.
pub proof fn lemma_hex_padded_push(s: Seq<u8>, x: u8)
    ensures
        spec_hex_padded(s.push(x)) == spec_hex_padded(s) + spec_hex_byte_padded(x),
    decreases s.len(),
{
    reveal_with_fuel(spec_hex_padded, 3);
    if s.len() == 0 {
        assert(s.push(x)[0] == x);
        assert(s.push(x).drop_first() =~= Seq::<u8>::empty());
        assert(spec_hex_padded(s.push(x)) =~= spec_hex_padded(s) + spec_hex_byte_padded(x));
    } else {
        assert(s.push(x)[0] == s[0]);
        assert(s.push(x).drop_first() =~= s.drop_first().push(x));
        lemma_hex_padded_push(s.drop_first(), x);
        assert(spec_hex_padded(s.push(x)) =~= spec_hex_padded(s) + spec_hex_byte_padded(x));
    }
}

/// Extending the byte sequence by one byte appends that byte's digits.
pub proof fn lemma_hex_unpadded_push(s: Seq<u8>, x: u8)
    ensures
        spec_hex_unpadded(s.push(x)) == spec_hex_unpadded(s) + spec_hex_byte_unpadded(x),
    decreases s.len(),
{
    reveal_with_fuel(spec_hex_unpadded, 3);
    if s.len() == 0 {
        assert(s.push(x)[0] == x);
        assert(s.push(x).drop_first() =~= Seq::<u8>::empty());
        assert(spec_hex_unpadded(s.push(x)) =~= spec_hex_unpadded(s) + spec_hex_byte_unpadded(x));
    } else {
        assert(s.push(x)[0] == s[0]);
        assert(s.push(x).drop_first() =~= s.drop_first().push(x));
        lemma_hex_unpadded_push(s.drop_first(), x);
        assert(spec_hex_unpadded(s.push(x)) =~= spec_hex_unpadded(s) + spec_hex_byte_unpadded(x));
    }
}

/// Appends one decimal digit character.
fn append_dec_digit(out: &mut String, d: u8)
    requires
        d < 10,
    ensures
        final(out)@ == old(out)@ + seq![spec_dec_digit(d as nat)],
{
    proof {
        reveal_strlit("0");
        reveal_strlit("1");
        reveal_strlit("2");
        reveal_strlit("3");
        reveal_strlit("4");
        reveal_strlit("5");
        reveal_strlit("6");
        reveal_strlit("7");
        reveal_strlit("8");
        reveal_strlit("9");
    }
    if d == 0 {
        out.append("0");
    } else if d == 1 {
        out.append("1");
    } else if d == 2 {
        out.append("2");
    } else if d == 3 {
        out.append("3");
    } else if d == 4 {
        out.append("4");
    } else if d == 5 {
        out.append("5");
    } else if d == 6 {
        out.append("6");
    } else if d == 7 {
        out.append("7");
    } else if d == 8 {
        out.append("8");
    } else {
        out.append("9");
    }
    proof {
        assert(out@ =~= old(out)@ + seq![spec_dec_digit(d as nat)]);
    }
}

/// Appends one uppercase hexadecimal digit character.
fn append_hex_digit(out: &mut String, d: u8)
    requires
        d < 16,
    ensures
        final(out)@ == old(out)@ + seq![spec_hex_digit(d as nat)],
{
    if d < 10 {
        append_dec_digit(out, d);
    } else {
        proof {
            reveal_strlit("A");
            reveal_strlit("B");
            reveal_strlit("C");
            reveal_strlit("D");
            reveal_strlit("E");
            reveal_strlit("F");
        }
        if d == 10 {
            out.append("A");
        } else if d == 11 {
            out.append("B");
        } else if d == 12 {
            out.append("C");
        } else if d == 13 {
            out.append("D");
        } else if d == 14 {
            out.append("E");
        } else {
            out.append("F");
        }
    }
    proof {
        assert(out@ =~= old(out)@ + seq![spec_hex_digit(d as nat)]);
    }
}

/// Appends the decimal rendering of a number, most significant digit first.
pub fn append_dec_u32(out: &mut String, n: u32)
    ensures
        final(out)@ == old(out)@ + spec_dec(n as nat),
    decreases n,
{
    if n >= 10 {
        append_dec_u32(out, n / 10);
    }
    append_dec_digit(out, (n % 10) as u8);
    proof {
        assert(out@ =~= old(out)@ + spec_dec(n as nat));
    }
}

/// Appends a byte as exactly two uppercase hexadecimal digits.
pub fn append_hex_byte_padded(out: &mut String, b: u8)
    ensures
        final(out)@ == old(out)@ + spec_hex_byte_padded(b),
{
    proof {
        assert(b >> 4u8 == b / 16 && b & 0x0f == b % 16) by (bit_vector);
    }
    append_hex_digit(out, b >> 4u8);
    append_hex_digit(out, b & 0x0f);
    proof {
        assert(out@ =~= old(out)@ + spec_hex_byte_padded(b));
    }
}

/// Appends a byte as one or two uppercase hexadecimal digits.
pub fn append_hex_byte_unpadded(out: &mut String, b: u8)
    ensures
        final(out)@ == old(out)@ + spec_hex_byte_unpadded(b),
{
    if b < 16 {
        append_hex_digit(out, b);
    } else {
        append_hex_byte_padded(out, b);
    }
    proof {
        assert(out@ =~= old(out)@ + spec_hex_byte_unpadded(b));
    }
}

/// Appends a byte sequence as uppercase hexadecimal, two digits per byte.
pub fn append_hex_padded(out: &mut String, bytes: &Vec<u8>)
    ensures
        final(out)@ == old(out)@ + spec_hex_padded(bytes@),
{
    let ghost orig = out@;
    let mut i: usize = 0;
    while i < bytes.len()
        invariant
            i <= bytes@.len(),
            out@ == orig + spec_hex_padded(bytes@.take(i as int)),
        decreases bytes@.len() - i,
    {
        append_hex_byte_padded(out, bytes[i]);
        proof {
            assert(bytes@.take(i + 1) =~= bytes@.take(i as int).push(bytes@[i as int]));
            lemma_hex_padded_push(bytes@.take(i as int), bytes@[i as int]);
            assert(out@ =~= orig + spec_hex_padded(bytes@.take(i + 1)));
        }
        i = i + 1;
    }
    proof {
        assert(bytes@.take(bytes@.len() as int) =~= bytes@);
    }
}

/// Appends a byte sequence as uppercase hexadecimal, one or two digits per byte.
pub fn append_hex_unpadded(out: &mut String, bytes: &Vec<u8>)
    ensures
        final(out)@ == old(out)@ + spec_hex_unpadded(bytes@),
{
    let ghost orig = out@;
    let mut i: usize = 0;
    while i < bytes.len()
        invariant
            i <= bytes@.len(),
            out@ == orig + spec_hex_unpadded(bytes@.take(i as int)),
        decreases bytes@.len() - i,
    {
        append_hex_byte_unpadded(out, bytes[i]);
        proof {
            assert(bytes@.take(i + 1) =~= bytes@.take(i as int).push(bytes@[i as int]));
            lemma_hex_unpadded_push(bytes@.take(i as int), bytes@[i as int]);
            assert(out@ =~= orig + spec_hex_unpadded(bytes@.take(i + 1)));
        }
        i = i + 1;
    }
    proof {
        assert(bytes@.take(bytes@.len() as int) =~= bytes@);
    }
}

} // verus!
