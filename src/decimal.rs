use vstd::prelude::*;

verus! {

/// The ASCII digit for `d`, which must lie in `0..10`.
pub open spec fn digit_char(d: nat) -> char {
    if d == 0 {
        '0'
    } else if d == 1 {
        '1'
    } else if d == 2 {
        '2'
    } else if d == 3 {
        '3'
    } else if d == 4 {
        '4'
    } else if d == 5 {
        '5'
    } else if d == 6 {
        '6'
    } else if d == 7 {
        '7'
    } else if d == 8 {
        '8'
    } else {
        '9'
    }
}

/// The decimal digits of `n`, most significant first, without leading zeros.
pub open spec fn dec_nat(n: nat) -> Seq<char>
    decreases n,
{
    if n < 10 {
        seq![digit_char(n)]
    } else {
        dec_nat(n / 10) + seq![digit_char(n % 10)]
    }
}

/// The decimal text of `i`, with a leading `-` when it is negative.
pub open spec fn dec_int(i: int) -> Seq<char> {
    if i < 0 {
        seq!['-'] + dec_nat((-i) as nat)
    } else {
        dec_nat(i as nat)
    }
}

/// No decimal text holds the character `c` unless it is a digit.
pub proof fn lemma_dec_nat_digits(n: nat)
    ensures
        forall|k: int| 0 <= k < dec_nat(n).len() ==> '0' <= #[trigger] dec_nat(n)[k] <= '9',
    decreases n,
{
    let last = digit_char(n % 10);
    assert('0' <= last <= '9');
    if n >= 10 {
        lemma_dec_nat_digits(n / 10);
        let head = dec_nat(n / 10);
        assert forall|k: int| 0 <= k < dec_nat(n).len() implies '0' <= #[trigger] dec_nat(n)[k]
            <= '9' by {
            if k < head.len() {
                assert(dec_nat(n)[k] == head[k]);
            } else {
                assert(dec_nat(n)[k] == last);
            }
        }
    } else {
        assert(dec_nat(n) == seq![last]);
    }
}

fn digit_str(d: u8) -> (r: &'static str)
    requires
        d < 10,
    ensures
        r@ == seq![digit_char(d as nat)],
{
    proof {
        reveal_strlit("0");
        reveal_strlit("1");
        reveal_strlit("2");
        reveal_strlit("3");
        reveal_strlit("4");
        reveal_strlit("5");
        reveal_strlit("6");
        reveal_strlit("7");
        reveal_strlit("8");
        reveal_strlit("9");
    }
    match d {
        0 => "0",
        1 => "1",
        2 => "2",
        3 => "3",
        4 => "4",
        5 => "5",
        6 => "6",
        7 => "7",
        8 => "8",
        _ => "9",
    }
}

fn append_nat(out: &mut String, n: u128)
    ensures
        final(out)@ == old(out)@ + dec_nat(n as nat),
    decreases n,
{
    if n >= 10 {
        append_nat(out, n / 10);
    }
    out.append(digit_str((n % 10) as u8));
    proof {
        if n >= 10 {
            assert(old(out)@ + dec_nat((n / 10) as nat) + seq![digit_char((n % 10) as nat)]
                =~= old(out)@ + dec_nat(n as nat));
        } else {
            assert(n % 10 == n);
        }
    }
}

/// Appends the decimal text of `v` to `out`.
pub fn append_int(out: &mut String, v: i128)
    ensures
        final(out)@ == old(out)@ + dec_int(v as int),
{
    if v < 0 {
        proof {
            reveal_strlit("-");
        }
        out.append("-");
        let magnitude: u128 = if v == i128::MIN {
            (i128::MAX as u128) + 1
        } else {
            (-v) as u128
        };
        append_nat(out, magnitude);
        assert(old(out)@ + seq!['-'] + dec_nat(magnitude as nat) =~= old(out)@ + dec_int(
            v as int,
        ));
    } else {
        append_nat(out, v as u128);
    }
}

/// The decimal text of `v`.
pub fn render_int(v: i128) -> (r: String)
    ensures
        r@ == dec_int(v as int),
{
    let mut out = String::new();
    append_int(&mut out, v);
    assert(Seq::<char>::empty() + dec_int(v as int) =~= dec_int(v as int));
    out
}

} // verus!
