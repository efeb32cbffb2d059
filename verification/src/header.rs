use vstd::prelude::*;

verus! {

/// Decimal digits of `n`, most significant first, as ASCII bytes
/// (`48` is the ASCII digit zero).
pub open spec fn dec_digits(n: nat) -> Seq<u8>
    decreases n,
{
    if n < 10 {
        seq![(48 + n) as u8]
    } else {
        dec_digits(n / 10).push((48 + n % 10) as u8)
    }
}

/// The number a consumer reads back from a string of ASCII digits.
pub open spec fn dec_value(s: Seq<u8>) -> int
    decreases s.len(),
{
    if s.len() == 0 {
        0
    } else {
        dec_value(s.drop_last()) * 10 + (s.last() - 48)
    }
}

/// The digit string is faithful: reading it back yields the number it was
/// made from, and every byte of it is an ASCII digit.
pub proof fn lemma_dec_digits_value(n: nat)
    ensures
        dec_value(dec_digits(n)) == n,
        forall|i: int|
            0 <= i < dec_digits(n).len() ==> 48 <= #[trigger] dec_digits(n)[i] <= 57,
    decreases n,
{
    if n < 10 {
        reveal_with_fuel(dec_value, 2);
        assert(dec_digits(n).drop_last() =~= Seq::<u8>::empty());
    } else {
        lemma_dec_digits_value(n / 10);
        assert(dec_digits(n).drop_last() =~= dec_digits(n / 10));
        assert(n == (n / 10) * 10 + n % 10) by (nonlinear_arith);
        assert(dec_value(dec_digits(n)) == (n / 10) * 10 + n % 10);
    }
}

/// The header that precedes the pixel bytes: ASCII `P6`, a newline, the
/// width and height in decimal separated by a space, a newline, `255`, and
/// a final newline.
pub open spec fn header_bytes(width: nat, height: nat) -> Seq<u8> {
    seq![80u8, 54u8, 10u8] + dec_digits(width) + seq![32u8] + dec_digits(height) + seq![
        10u8,
        50u8,
        53u8,
        53u8,
        10u8,
    ]
}

/// Appends the decimal digits of `n`, most significant first.
pub fn push_decimal(n: u32, out: &mut Vec<u8>)
    ensures
        final(out)@ == old(out)@ + dec_digits(n as nat),
    decreases n,
{
    if n < 10 {
        out.push(48 + n as u8);
        proof {
            assert(old(out)@ + dec_digits(n as nat) =~= old(out)@.push((48 + n) as u8));
        }
    } else {
        push_decimal(n / 10, out);
        out.push(48 + (n % 10) as u8);
        proof {
            assert(old(out)@ + dec_digits(n as nat)
                =~= (old(out)@ + dec_digits((n / 10) as nat)).push((48 + n % 10) as u8));
        }
    }
}

/// Builds the whole header for an image of the given dimensions.
pub fn render_header(width: u32, height: u32) -> (h: Vec<u8>)
    ensures
        h@ == header_bytes(width as nat, height as nat),
{
    let mut out: Vec<u8> = Vec::new();
    out.push(80);
    out.push(54);
    out.push(10);
    push_decimal(width, &mut out);
    out.push(32);
    push_decimal(height, &mut out);
    out.push(10);
    out.push(50);
    out.push(53);
    out.push(53);
    out.push(10);
    proof {
        assert(out@ =~= header_bytes(width as nat, height as nat));
    }
    out
}

} // verus!
