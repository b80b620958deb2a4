use vstd::prelude::*;

verus! {

/// The character for one decimal digit value.
pub open spec fn dec_digit(d: int) -> char {
    if d == 0 {
        '0'
    } else if d == 1 {
        '1'
    } else if d == 2 {
        '2'
    } else if d == 3 {
        '3'
    } else if d == 4 {
        '4'
    } else if d == 5 {
        '5'
    } else if d == 6 {
        '6'
    } else if d == 7 {
        '7'
    } else if d == 8 {
        '8'
    } else {
        '9'
    }
}

/// Decimal text of a natural number, most significant digit first, with no
/// leading zeros (a single `'0'` for zero).
pub open spec fn dec_text_nat(n: nat) -> Seq<char>
    decreases n,
{
    if n < 10 {
        seq![dec_digit(n as int)]
    } else {
        dec_text_nat(n / 10).push(dec_digit((n % 10) as int))
    }
}

/// Decimal text of an integer: a leading `'-'` for negatives.
pub open spec fn dec_text(i: int) -> Seq<char> {
    if i < 0 {
        seq!['-'] + dec_text_nat((-i) as nat)
    } else {
        dec_text_nat(i as nat)
    }
}

/// Appends the character for one digit value.
fn append_dec_digit(out: &mut String, d: u64)
    requires
        d < 10,
    ensures
        final(out)@ == old(out)@ + seq![dec_digit(d as int)],
{
    if d == 0 {
        proof { reveal_strlit("0"); }
        out.append("0");
        assert(out@ =~= old(out)@ + seq![dec_digit(d as int)]);
    } else if d == 1 {
        proof { reveal_strlit("1"); }
        out.append("1");
        assert(out@ =~= old(out)@ + seq![dec_digit(d as int)]);
    } else if d == 2 {
        proof { reveal_strlit("2"); }
        out.append("2");
        assert(out@ =~= old(out)@ + seq![dec_digit(d as int)]);
    } else if d == 3 {
        proof { reveal_strlit("3"); }
        out.append("3");
        assert(out@ =~= old(out)@ + seq![dec_digit(d as int)]);
    } else if d == 4 {
        proof { reveal_strlit("4"); }
        out.append("4");
        assert(out@ =~= old(out)@ + seq![dec_digit(d as int)]);
    } else if d == 5 {
        proof { reveal_strlit("5"); }
        out.append("5");
        assert(out@ =~= old(out)@ + seq![dec_digit(d as int)]);
    } else if d == 6 {
        proof { reveal_strlit("6"); }
        out.append("6");
        assert(out@ =~= old(out)@ + seq![dec_digit(d as int)]);
    } else if d == 7 {
        proof { reveal_strlit("7"); }
        out.append("7");
        assert(out@ =~= old(out)@ + seq![dec_digit(d as int)]);
    } else if d == 8 {
        proof { reveal_strlit("8"); }
        out.append("8");
        assert(out@ =~= old(out)@ + seq![dec_digit(d as int)]);
    } else {
        proof { reveal_strlit("9"); }
        out.append("9");
        assert(out@ =~= old(out)@ + seq![dec_digit(d as int)]);
    }
}

/// Appends the decimal digits of `m`, most significant first.
fn append_dec_nat(out: &mut String, m: u64)
    ensures
        final(out)@ == old(out)@ + dec_text_nat(m as nat),
    decreases m,
{
    if m < 10 {
        append_dec_digit(out, m);
    } else {
        append_dec_nat(out, m / 10);
        append_dec_digit(out, m % 10);
        assert(out@ =~= old(out)@ + dec_text_nat(m as nat));
    }
}

/// Decimal display text of a 64-bit integer, as `{}` formatting prints it.
pub fn integer_text(i: i64) -> (s: String)
    ensures
        s@ == dec_text(i as int),
{
    let mut out = String::new();
    let magnitude: u64 = if i == i64::MIN {
        9223372036854775808u64
    } else if i < 0 {
        (-i) as u64
    } else {
        i as u64
    };
    if i < 0 {
        proof { reveal_strlit("-"); }
        out.append("-");
        assert(out@ =~= seq!['-']);
    }
    append_dec_nat(&mut out, magnitude);
    proof {
        if i < 0 {
            assert(out@ =~= seq!['-'] + dec_text_nat((-(i as int)) as nat));
        }
    }
    out
}

} // verus!
